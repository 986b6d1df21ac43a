//! Properties of the shell's decisions that span several functions or every
//! input.
use vstd::prelude::*;

use crate::backend::{
    output_level, LogLevel, OutputStream, all_candidates, binary_names, dir_candidates, search_dirs, BackendCandidate, BinaryName,
    SearchBase, SearchSubdir,
};
use crate::lifecycle::{restart_transition, RestartAction, RestartEvent, RestartStep};
use crate::links::{is_web_scheme, link_verdict};
use crate::ports::{candidate_count, candidate_port, default_ports};
use crate::status::{
    after_first_space, all_digits, first_piece, http_prefix, lemma_first_line, lemma_space_index,
    parse_u16, status_code_of, status_code_of_text, unsigned_digits,
};
use crate::text::{
    decimal, is_digit, is_white_space, lemma_decimal_digits, lemma_trim_end_keeps, trim,
    trim_end, trim_start,
};

verus! {

/// A port written out in decimal (as the backend's `--port` argument, the
/// `Host` header and the backend URL write it) parses back as the same port.
pub proof fn law_port_text_round_trip(port: u16)
    ensures
        parse_u16(decimal(port as nat)) == Some(port),
{
    lemma_decimal_digits(port as nat);
    let d = decimal(port as nat);
    assert(is_digit(d[0]));
    assert(unsigned_digits(d) == d);
    assert(all_digits(d));
}

/// An HTTP/1.x status line reads as the code it carries: for any protocol
/// version without spaces and any reason phrase, the line
/// `HTTP/<version> <code> <reason>` yields `code`.
pub proof fn law_status_line_round_trip(version: Seq<char>, code: u16, reason: Seq<char>)
    requires
        forall|i: int| 0 <= i < version.len() ==> version[i] != ' ',
    ensures
        status_code_of(
            http_prefix() + version + seq![' '] + decimal(code as nat) + seq![' '] + reason,
        ) == Some(code),
{
    let d = decimal(code as nat);
    lemma_decimal_digits(code as nat);
    let line = http_prefix() + version + seq![' '] + d + seq![' '] + reason;
    let p: int = 5 + version.len() as int;
    let l: int = p + 1 + d.len() as int;
    assert(line[0] == 'H');
    assert(!is_white_space(line[0]));
    assert(trim_start(line) == line);
    assert(line[l - 1] == d[d.len() - 1]);
    assert(is_digit(d[d.len() - 1]));
    assert(!is_white_space(line[l - 1]));
    lemma_trim_end_keeps(line, l - 1);
    let t = trim(line);
    let m = t.len() as int;
    assert(t == line.take(m));
    assert(l <= m);
    // The first space ends the protocol piece.
    assert forall|i: int| 0 <= i < p implies t[i] != ' ' by {
        if i >= 5 {
            assert(t[i] == version[i - 5]);
        }
    }
    assert(t[p] == ' ');
    lemma_space_index(t, p);
    assert(first_piece(t).take(5) =~= http_prefix());
    let rest = t.skip(p + 1);
    assert(after_first_space(t) == Some(rest));
    // The second piece is the code.
    assert forall|i: int| 0 <= i < d.len() implies rest[i] != ' ' by {
        assert(rest[i] == d[i]);
        assert(is_digit(d[i]));
    }
    assert(d.len() < rest.len() ==> rest[d.len() as int] == ' ');
    lemma_space_index(rest, d.len() as int);
    assert(first_piece(rest) =~= d);
    law_port_text_round_trip(code);
}

/// The head of a response whose status line carries `code` reads as that
/// code, whatever headers and body follow the line feed.
pub proof fn law_response_head_round_trip(
    version: Seq<char>,
    code: u16,
    reason: Seq<char>,
    rest: Seq<char>,
)
    requires
        forall|i: int| 0 <= i < version.len() ==> version[i] != ' ' && version[i] != '\n',
        forall|i: int| 0 <= i < reason.len() ==> reason[i] != '\n',
    ensures
        status_code_of_text(
            http_prefix() + version + seq![' '] + decimal(code as nat) + seq![' '] + reason + seq![
                '\n',
            ] + rest,
        ) == Some(code),
{
    let d = decimal(code as nat);
    lemma_decimal_digits(code as nat);
    let line = http_prefix() + version + seq![' '] + d + seq![' '] + reason;
    let text = line + seq!['\n'] + rest;
    assert forall|i: int| 0 <= i < line.len() implies text[i] != '\n' by {
        assert(text[i] == line[i]);
        if 5 <= i < 5 + version.len() {
            assert(line[i] == version[i - 5]);
        } else if 6 + version.len() <= i < 6 + version.len() + d.len() {
            assert(line[i] == d[i - 6 - version.len()]);
            assert(is_digit(d[i - 6 - version.len()]));
        } else if i >= 7 + version.len() + d.len() {
            assert(line[i] == reason[i - 7 - version.len() - d.len()]);
        }
    }
    assert(text[line.len() as int] == '\n');
    lemma_first_line(text, line.len() as int);
    assert(text.subrange(0, line.len() as int) =~= line);
    law_status_line_round_trip(version, code, reason);
}

/// Every port tried is one of the preferred ports or lies in the fallback
/// range 8000..9000.
pub proof fn law_candidate_ports_in_range(k: int)
    requires
        0 <= k < candidate_count(),
    ensures
        default_ports().contains(candidate_port(k)) || (8000 <= candidate_port(k) && candidate_port(
            k,
        ) < 9000),
{
    if k < 7 {
        assert(default_ports()[k] == candidate_port(k));
    }
}

/// The candidates of a directory list include those of its every directory.
proof fn lemma_all_candidates_include(
    dirs: Seq<(SearchBase, SearchSubdir)>,
    names: Seq<BinaryName>,
    i: int,
    j: int,
)
    requires
        0 <= i < dirs.len(),
        0 <= j < names.len(),
    ensures
        all_candidates(dirs, names).contains(
            BackendCandidate { base: dirs[i].0, subdir: dirs[i].1, name: names[j] },
        ),
    decreases dirs.len(),
{
    let c = BackendCandidate { base: dirs[i].0, subdir: dirs[i].1, name: names[j] };
    let front = all_candidates(dirs.drop_last(), names);
    let back = dir_candidates(dirs.last(), names);
    if i == dirs.len() - 1 {
        assert(back[j] == c);
        assert((front + back)[front.len() + j] == c);
    } else {
        lemma_all_candidates_include(dirs.drop_last(), names, i, j);
        let k = choose|k: int| 0 <= k < front.len() && front[k] == c;
        assert((front + back)[k] == c);
    }
}

/// The resource directory and its `resources` subdirectory are searched for
/// the backend under each of its file names, whatever the layout and the
/// platform.
pub proof fn law_resource_dirs_searched(
    has_exe_dir: bool,
    has_app_dir: bool,
    macos: bool,
    windows: bool,
    name: BinaryName,
)
    requires
        binary_names(windows).contains(name),
    ensures
        all_candidates(search_dirs(has_exe_dir, has_app_dir, macos), binary_names(windows)).contains(
            BackendCandidate { base: SearchBase::ResourceDir, subdir: SearchSubdir::Base, name },
        ),
        all_candidates(search_dirs(has_exe_dir, has_app_dir, macos), binary_names(windows)).contains(
            BackendCandidate { base: SearchBase::ResourceDir, subdir: SearchSubdir::Resources, name },
        ),
{
    let dirs = search_dirs(has_exe_dir, has_app_dir, macos);
    let names = binary_names(windows);
    let j = choose|j: int| 0 <= j < names.len() && names[j] == name;
    let n = dirs.len() as int;
    assert(dirs[n - 2] == (SearchBase::ResourceDir, SearchSubdir::Base));
    assert(dirs[n - 1] == (SearchBase::ResourceDir, SearchSubdir::Resources));
    lemma_all_candidates_include(dirs, names, n - 2, j);
    lemma_all_candidates_include(dirs, names, n - 1, j);
}

/// A restart spawns the new backend only in the step after its pause, and
/// pauses only right after the old backend was stopped.
pub proof fn law_restart_stops_before_spawning(step: RestartStep, event: RestartEvent)
    ensures
        restart_transition(step, event).1 is SpawnBackend ==> step == RestartStep::Pausing,
        restart_transition(step, event).0 == RestartStep::Pausing ==> step == RestartStep::Stopping
            || step == RestartStep::Pausing,
        restart_transition(step, event).1 is Pause ==> step == RestartStep::Stopping,
{
}

/// A restart points the window at a port only when the backend it spawned
/// on that very port answered its readiness check.
pub proof fn law_restart_announces_ready_spawned_port(
    step: RestartStep,
    event: RestartEvent,
    port: u16,
)
    ensures
        restart_transition(step, event).1 == RestartAction::Announce(port) ==> step
            == RestartStep::AwaitingReady(port) && event == RestartEvent::ReadyChecked(true),
        restart_transition(step, event).1 == RestartAction::AwaitReady(port) ==> step
            == RestartStep::Spawning && event == RestartEvent::Spawned(Ok(port)),
{
}

/// A finished restart stays finished and asks for nothing more.
pub proof fn law_restart_finished_is_final(event: RestartEvent)
    ensures
        restart_transition(RestartStep::Finished, event) == (
            RestartStep::Finished,
            RestartAction::Idle,
        ),
{
}

/// Only web URLs (`http`, `https`) are handed to the operating system, and
/// then exactly as the URL parser serialized them.
pub proof fn law_only_web_links_leave(parsed: Option<(Seq<char>, Seq<char>)>)
    ensures
        link_verdict(parsed) is Ok ==> (parsed matches Some((scheme, text)) && is_web_scheme(scheme)
            && link_verdict(parsed) == Ok::<Seq<char>, crate::links::LinkRefusal>(text)),
{
}

} // verus!

verus! {

/// A failed spawn always ends the restart and reports that very error,
/// whatever kind of error it is; a successful spawn always goes on to wait
/// for the new backend on the port it got.
pub proof fn law_restart_spawn_outcome(e: crate::backend::BackendError, port: u16)
    ensures
        restart_transition(RestartStep::Spawning, RestartEvent::Spawned(Err(e))) == (
            RestartStep::Finished,
            RestartAction::ReportSpawnFailure(e),
        ),
        restart_transition(RestartStep::Spawning, RestartEvent::Spawned(Ok(port))) == (
            RestartStep::AwaitingReady(port),
            RestartAction::AwaitReady(port),
        ),
        restart_transition(RestartStep::AwaitingReady(port), RestartEvent::ReadyChecked(false)) == (
            RestartStep::Finished,
            RestartAction::ReportTimeout,
        ),
        restart_transition(RestartStep::AwaitingReady(port), RestartEvent::ReadyChecked(true)) == (
            RestartStep::Finished,
            RestartAction::Announce(port),
        ),
{
}

/// A link is handed to the operating system exactly when its parsed scheme is
/// literally `http` or `https`, and then as the parser serialized it; any
/// other scheme is refused as not a web link, and an unparsable link as such.
pub proof fn law_web_schemes_are_http_and_https(scheme: Seq<char>, text: Seq<char>)
    ensures
        (scheme == "http"@ || scheme == "https"@) ==> link_verdict(Some((scheme, text))) == Ok::<
            Seq<char>,
            crate::links::LinkRefusal,
        >(text),
        (scheme != "http"@ && scheme != "https"@) ==> link_verdict(Some((scheme, text))) == Err::<
            Seq<char>,
            crate::links::LinkRefusal,
        >(crate::links::LinkRefusal::NotWeb),
        link_verdict(None) == Err::<Seq<char>, crate::links::LinkRefusal>(
            crate::links::LinkRefusal::Unparsable,
        ),
{
}

/// When `s` holds a character that is not white space, trimming its start
/// leaves a string that begins with such a character.
proof fn lemma_trim_start_stops(s: Seq<char>, j: int)
    requires
        0 <= j < s.len(),
        !is_white_space(s[j]),
    ensures
        trim_start(s).len() > 0,
        !is_white_space(trim_start(s)[0]),
    decreases s.len(),
{
    if is_white_space(s[0]) {
        let t = s.drop_first();
        assert(t[j - 1] == s[j]);
        lemma_trim_start_stops(t, j - 1);
    }
}

/// A string of white space only trims down to nothing.
proof fn lemma_trim_start_all_white(s: Seq<char>)
    requires
        forall|i: int| 0 <= i < s.len() ==> is_white_space(#[trigger] s[i]),
    ensures
        trim_start(s).len() == 0,
    decreases s.len(),
{
    if s.len() > 0 {
        let t = s.drop_first();
        assert forall|i: int| 0 <= i < t.len() implies is_white_space(#[trigger] t[i]) by {
            assert(t[i] == s[i + 1]);
        }
        lemma_trim_start_all_white(t);
    }
}

/// A line of the backend's standard error is dropped from the log exactly
/// when every one of its characters is white space; any line with another
/// character is logged at `Warn`. Every line of standard output is logged at
/// `Info`.
pub proof fn law_stderr_drops_only_white_lines(line: Seq<char>)
    ensures
        (output_level(OutputStream::Stderr, line) is None) == (forall|i: int|
            0 <= i < line.len() ==> is_white_space(#[trigger] line[i])),
        (exists|i: int| 0 <= i < line.len() && !is_white_space(#[trigger] line[i]))
            ==> (output_level(OutputStream::Stderr, line) == Some(LogLevel::Warn)),
        output_level(OutputStream::Stdout, line) == Some(LogLevel::Info),
{
    if forall|i: int| 0 <= i < line.len() ==> is_white_space(#[trigger] line[i]) {
        lemma_trim_start_all_white(line);
        assert(trim_start(line) =~= Seq::<char>::empty());
        assert(trim_end(Seq::<char>::empty()) == Seq::<char>::empty());
    } else {
        let j = choose|j: int| 0 <= j < line.len() && !is_white_space(#[trigger] line[j]);
        lemma_trim_start_stops(line, j);
        lemma_trim_end_keeps(trim_start(line), 0);
    }
}

/// How many directories near the running executable are searched.
pub open spec fn near_exe_count(has_exe_dir: bool, has_app_dir: bool, macos: bool) -> int {
    if !has_exe_dir {
        0
    } else if !has_app_dir {
        2
    } else if !macos {
        4
    } else {
        5
    }
}

/// Whenever the running executable's directory is known, it is searched
/// first, on every platform, followed by its `resources` subdirectory; then,
/// when its parent is known, the parent and the parent's `resources`, and
/// only on macOS the parent's `Resources`; the resource directory and its
/// `resources` always come last.
pub proof fn law_search_order(has_exe_dir: bool, has_app_dir: bool, macos: bool)
    ensures
        search_dirs(has_exe_dir, has_app_dir, macos).len() == near_exe_count(
            has_exe_dir,
            has_app_dir,
            macos,
        ) + 2,
        has_exe_dir ==> (search_dirs(has_exe_dir, has_app_dir, macos)[0] == (
            SearchBase::ExeDir,
            SearchSubdir::Base,
        )),
        has_exe_dir ==> (search_dirs(has_exe_dir, has_app_dir, macos)[1] == (
            SearchBase::ExeDir,
            SearchSubdir::Resources,
        )),
        has_exe_dir && has_app_dir ==> (search_dirs(has_exe_dir, has_app_dir, macos)[2] == (
            SearchBase::AppDir,
            SearchSubdir::Base,
        )),
        has_exe_dir && has_app_dir ==> (search_dirs(has_exe_dir, has_app_dir, macos)[3] == (
            SearchBase::AppDir,
            SearchSubdir::Resources,
        )),
        has_exe_dir && has_app_dir && macos ==> (search_dirs(has_exe_dir, has_app_dir, macos)[4]
            == (SearchBase::AppDir, SearchSubdir::BundleResources)),
        search_dirs(has_exe_dir, has_app_dir, macos)[near_exe_count(has_exe_dir, has_app_dir, macos)]
            == (SearchBase::ResourceDir, SearchSubdir::Base),
        search_dirs(has_exe_dir, has_app_dir, macos)[near_exe_count(has_exe_dir, has_app_dir, macos)
            + 1] == (SearchBase::ResourceDir, SearchSubdir::Resources),
        forall|i: int|
            0 <= i < search_dirs(has_exe_dir, has_app_dir, macos).len() && (#[trigger] search_dirs(
                has_exe_dir,
                has_app_dir,
                macos,
            )[i]).1 == SearchSubdir::BundleResources ==> (macos && has_exe_dir && has_app_dir && i
                == 4),
{
}

/// Whenever the running executable's directory is known, the first place
/// looked at is that directory itself, under the first file name.
pub proof fn law_exe_dir_searched_first(
    has_exe_dir: bool,
    has_app_dir: bool,
    macos: bool,
    windows: bool,
)
    requires
        has_exe_dir,
    ensures
        all_candidates(search_dirs(has_exe_dir, has_app_dir, macos), binary_names(windows))[0]
            == (BackendCandidate {
            base: SearchBase::ExeDir,
            subdir: SearchSubdir::Base,
            name: binary_names(windows)[0],
        }),
{
    lemma_first_candidate(search_dirs(has_exe_dir, has_app_dir, macos), binary_names(windows));
}

/// The first candidate is the first directory with the first file name.
proof fn lemma_first_candidate(dirs: Seq<(SearchBase, SearchSubdir)>, names: Seq<BinaryName>)
    requires
        dirs.len() > 0,
        names.len() > 0,
    ensures
        all_candidates(dirs, names).len() > 0,
        all_candidates(dirs, names)[0] == (BackendCandidate {
            base: dirs[0].0,
            subdir: dirs[0].1,
            name: names[0],
        }),
    decreases dirs.len(),
{
    let front = all_candidates(dirs.drop_last(), names);
    let back = dir_candidates(dirs.last(), names);
    if dirs.len() == 1 {
        assert(front.len() == 0);
        assert((front + back)[0] == back[0]);
    } else {
        lemma_first_candidate(dirs.drop_last(), names);
        assert((front + back)[0] == front[0]);
    }
}

} // verus!

verus! {

/// A restart first stops the old backend, then pauses for a second, then
/// spawns; an event that does not fit the step changes nothing.
pub proof fn law_restart_stop_pause_spawn(step: RestartStep, port: u16, ready: bool)
    ensures
        restart_transition(RestartStep::Stopping, RestartEvent::Completed) == (
            RestartStep::Pausing,
            RestartAction::Pause(1000),
        ),
        restart_transition(RestartStep::Pausing, RestartEvent::Completed) == (
            RestartStep::Spawning,
            RestartAction::SpawnBackend,
        ),
        !(step is AwaitingReady) ==> restart_transition(step, RestartEvent::ReadyChecked(ready))
            == (step, RestartAction::Idle),
        !(step is Spawning) ==> restart_transition(step, RestartEvent::Spawned(Ok(port))) == (
            step,
            RestartAction::Idle,
        ),
{
}

/// A line reads as a status code only when, once trimmed, it begins with the
/// literal protocol prefix `HTTP/`, in capitals.
pub proof fn law_status_needs_http_prefix(line: Seq<char>)
    ensures
        status_code_of(line) is Some ==> (trim(line).len() >= 5 && trim(line).take(5) == "HTTP/"@),
{
    reveal_strlit("HTTP/");
    if status_code_of(line) is Some {
        let t = trim(line);
        let p = first_piece(t);
        assert(p.take(5) =~= t.take(5));
    }
}

} // verus!
