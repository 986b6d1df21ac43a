//! The bundled `go-magic` backend: where its binary is looked for, how it is
//! started, how its output is logged, and what is said when that fails.
use vstd::prelude::*;

use crate::health::HEALTH_CHECK_TIMEOUT_MS;
use crate::text::{decimal, is_blank, is_blank_str, push_decimal};

verus! {

/// Environment variable through which the backend also learns its port.
pub const PORT_ENV_VAR: &'static str = "GOMAGIC_PORT";

/// Why the backend could not be started.
#[derive(Debug)]
pub enum BackendError {
    /// None of the candidate ports could be bound.
    NoPortAvailable,
    /// The backend executable was found nowhere.
    BackendNotFound,
    /// Spawning the backend process failed, for the reason given.
    SpawnFailed(String),
    /// The backend did not pass a health check in time.
    HealthCheckTimeout,
}

/// The readable message of a backend error.
pub open spec fn error_message(e: BackendError) -> Seq<char> {
    match e {
        BackendError::NoPortAvailable => "No available port found"@,
        BackendError::BackendNotFound => "Backend executable not found"@,
        BackendError::SpawnFailed(reason) => "Failed to start backend: "@ + reason@,
        BackendError::HealthCheckTimeout =>
            "Backend health check timed out, please verify if backend is working correctly"@,
    }
}

impl BackendError {
    /// The readable message of this error.
    pub fn to_string(&self) -> (message: String)
        ensures
            message@ == error_message(*self),
    {
        match self {
            BackendError::NoPortAvailable => "No available port found".to_owned(),
            BackendError::BackendNotFound => "Backend executable not found".to_owned(),
            BackendError::SpawnFailed(reason) => {
                let mut message = "Failed to start backend: ".to_owned();
                message.append(reason.as_str());
                message
            },
            BackendError::HealthCheckTimeout =>
                "Backend health check timed out, please verify if backend is working correctly".to_owned(),
        }
    }
}

/// The error of a failed spawn: the operating system's `reason`, followed by
/// the path of the executable in parentheses.
pub fn spawn_failure(reason: &str, path: &str) -> (e: BackendError)
    ensures
        e matches BackendError::SpawnFailed(m) && m@ == reason@ + " ("@ + path@ + ")"@,
{
    let mut m = reason.to_owned();
    m.append(" (");
    m.append(path);
    m.append(")");
    BackendError::SpawnFailed(m)
}

/// The text of a string vector.
pub open spec fn texts(v: Seq<String>) -> Seq<Seq<char>> {
    v.map_values(|s: String| s@)
}

/// The command-line arguments that start the backend serving on `port`.
pub open spec fn launch_args(port: u16) -> Seq<Seq<char>> {
    seq!["server"@, "--port"@, decimal(port as nat)]
}

/// The command-line arguments of the backend: `server --port <port>`.
pub fn backend_args(port: u16) -> (args: Vec<String>)
    ensures
        texts(args@) == launch_args(port),
{
    let mut port_text = String::new();
    push_decimal(&mut port_text, port);
    let mut args: Vec<String> = Vec::new();
    args.push("server".to_owned());
    args.push("--port".to_owned());
    args.push(port_text);
    assert(texts(args@) =~= launch_args(port));
    args
}

/// The origin of the backend on `port`: `http://127.0.0.1:<port>`.
pub open spec fn origin_text(port: u16) -> Seq<char> {
    "http://127.0.0.1:"@ + decimal(port as nat)
}

/// The origin of the backend on `port`.
pub fn backend_origin(port: u16) -> (origin: String)
    ensures
        origin@ == origin_text(port),
{
    let mut origin = "http://127.0.0.1:".to_owned();
    push_decimal(&mut origin, port);
    origin
}

/// The page that the window shows for the backend on `port`:
/// `http://127.0.0.1:<port>/`.
pub fn backend_url(port: u16) -> (url: String)
    ensures
        url@ == origin_text(port) + "/"@,
{
    let mut url = backend_origin(port);
    url.append("/");
    url
}

/// The health-check budget in whole seconds, as the messages name it.
pub open spec fn timeout_secs_text() -> Seq<char> {
    decimal((HEALTH_CHECK_TIMEOUT_MS / 1000) as nat)
}

/// Appends the health-check budget in whole seconds.
fn push_timeout_secs(out: &mut String)
    ensures
        final(out)@ == old(out)@ + timeout_secs_text(),
{
    push_decimal(out, (HEALTH_CHECK_TIMEOUT_MS / 1000) as u16);
}

/// What is said when the backend fails to start at launch: for a missing
/// executable, the resource directory that was searched (`resource_dir`, as
/// the shell prints paths); otherwise the error's own message.
pub fn startup_failure_message(e: &BackendError, resource_dir: &str) -> (message: String)
    ensures
        message@ == match *e {
            BackendError::BackendNotFound =>
                "Backend executable not found\nPlease check resource directory: "@ + resource_dir@,
            _ => error_message(*e),
        },
{
    match e {
        BackendError::BackendNotFound => {
            let mut message = "Backend executable not found\nPlease check resource directory: ".to_owned();
            message.append(resource_dir);
            message
        },
        _ => e.to_string(),
    }
}

/// What is said when the backend started at launch does not become ready.
pub fn startup_timeout_message() -> (message: String)
    ensures
        message@ == "Backend did not become ready within "@ + timeout_secs_text()
            + "s.\nPlease check the log file for details."@,
{
    let mut message = "Backend did not become ready within ".to_owned();
    push_timeout_secs(&mut message);
    message.append("s.\nPlease check the log file for details.");
    message
}

/// What is said when a restarted backend does not become ready.
pub fn restart_timeout_message() -> (message: String)
    ensures
        message@ == "Backend did not become ready within "@ + timeout_secs_text()
            + "s after a restart"@,
{
    let mut message = "Backend did not become ready within ".to_owned();
    push_timeout_secs(&mut message);
    message.append("s after a restart");
    message
}

/// The backend's two output streams.
#[derive(PartialEq, Eq, Structural, Debug, Clone, Copy)]
pub enum OutputStream {
    Stdout,
    Stderr,
}

/// The level at which a line of backend output is logged.
#[derive(PartialEq, Eq, Structural, Debug, Clone, Copy)]
pub enum LogLevel {
    Info,
    Warn,
}

/// How a line of backend output is logged: every line of standard output
/// at `Info`; lines of standard error at `Warn`, blank ones not at all.
pub open spec fn output_level(stream: OutputStream, line: Seq<char>) -> Option<LogLevel> {
    match stream {
        OutputStream::Stdout => Some(LogLevel::Info),
        OutputStream::Stderr => if is_blank(line) {
            None
        } else {
            Some(LogLevel::Warn)
        },
    }
}

/// The level at which a line of backend output is logged, if at all.
pub fn backend_output_level(stream: OutputStream, line: &str) -> (level: Option<LogLevel>)
    ensures
        level == output_level(stream, line@),
{
    match stream {
        OutputStream::Stdout => Some(LogLevel::Info),
        OutputStream::Stderr => if is_blank_str(line) {
            None
        } else {
            Some(LogLevel::Warn)
        },
    }
}

/// The log message for a line of backend output: `[backend] <line>`.
pub fn backend_log_message(line: &str) -> (message: String)
    ensures
        message@ == "[backend] "@ + line@,
{
    let mut message = "[backend] ".to_owned();
    message.append(line);
    message
}

/// A directory that may hold the backend executable, relative to the
/// places the shell knows.
#[derive(PartialEq, Eq, Structural, Debug, Clone, Copy)]
pub enum SearchBase {
    /// The directory of the running executable.
    ExeDir,
    /// The parent of that directory.
    AppDir,
    /// The application's resource directory.
    ResourceDir,
}

/// A subdirectory of a search base.
#[derive(PartialEq, Eq, Structural, Debug, Clone, Copy)]
pub enum SearchSubdir {
    /// The base itself.
    Base,
    /// `resources` below it.
    Resources,
    /// `Resources` below it (the macOS bundle layout).
    BundleResources,
}

/// A file name that the backend executable may have.
#[derive(PartialEq, Eq, Structural, Debug, Clone, Copy)]
pub enum BinaryName {
    /// `go-magic.exe`
    Exe,
    /// `go-magic`
    Plain,
}

/// One place where the backend executable is looked for.
#[derive(PartialEq, Eq, Structural, Debug, Clone, Copy)]
pub struct BackendCandidate {
    pub base: SearchBase,
    pub subdir: SearchSubdir,
    pub name: BinaryName,
}

/// The directories searched for the backend, in priority order. Both
/// `resources/*` (below the resource directory) and a flattened layout are
/// covered, because packaging differs per platform.
pub open spec fn search_dirs(has_exe_dir: bool, has_app_dir: bool, macos: bool) -> Seq<
    (SearchBase, SearchSubdir),
> {
    let near_exe = if has_exe_dir {
        seq![(SearchBase::ExeDir, SearchSubdir::Base), (SearchBase::ExeDir, SearchSubdir::Resources)]
            + if has_app_dir {
            seq![(SearchBase::AppDir, SearchSubdir::Base), (SearchBase::AppDir, SearchSubdir::Resources)]
                + if macos {
                seq![(SearchBase::AppDir, SearchSubdir::BundleResources)]
            } else {
                Seq::empty()
            }
        } else {
            Seq::empty()
        }
    } else {
        Seq::empty()
    };
    near_exe + seq![
        (SearchBase::ResourceDir, SearchSubdir::Base),
        (SearchBase::ResourceDir, SearchSubdir::Resources),
    ]
}

/// The file names tried in each directory, in order.
pub open spec fn binary_names(windows: bool) -> Seq<BinaryName> {
    if windows {
        seq![BinaryName::Exe, BinaryName::Plain]
    } else {
        seq![BinaryName::Plain]
    }
}

/// The candidates of one directory: each file name, in order.
pub open spec fn dir_candidates(dir: (SearchBase, SearchSubdir), names: Seq<BinaryName>) -> Seq<
    BackendCandidate,
> {
    names.map_values(|n: BinaryName| BackendCandidate { base: dir.0, subdir: dir.1, name: n })
}

/// Every directory with every file name: directories first, names second.
pub open spec fn all_candidates(
    dirs: Seq<(SearchBase, SearchSubdir)>,
    names: Seq<BinaryName>,
) -> Seq<BackendCandidate>
    decreases dirs.len(),
{
    if dirs.len() == 0 {
        Seq::empty()
    } else {
        all_candidates(dirs.drop_last(), names) + dir_candidates(dirs.last(), names)
    }
}

/// The places where the backend executable is looked for, in priority
/// order, given whether the running executable's directory and its parent
/// are known and which platform this is.
pub fn backend_candidates(has_exe_dir: bool, has_app_dir: bool, macos: bool, windows: bool) -> (v:
    Vec<BackendCandidate>)
    ensures
        v@ == all_candidates(search_dirs(has_exe_dir, has_app_dir, macos), binary_names(windows)),
{
    let mut dirs: Vec<(SearchBase, SearchSubdir)> = Vec::new();
    if has_exe_dir {
        dirs.push((SearchBase::ExeDir, SearchSubdir::Base));
        dirs.push((SearchBase::ExeDir, SearchSubdir::Resources));
        if has_app_dir {
            dirs.push((SearchBase::AppDir, SearchSubdir::Base));
            dirs.push((SearchBase::AppDir, SearchSubdir::Resources));
            if macos {
                dirs.push((SearchBase::AppDir, SearchSubdir::BundleResources));
            }
        }
    }
    dirs.push((SearchBase::ResourceDir, SearchSubdir::Base));
    dirs.push((SearchBase::ResourceDir, SearchSubdir::Resources));
    assert(dirs@ =~= search_dirs(has_exe_dir, has_app_dir, macos));
    let mut names: Vec<BinaryName> = Vec::new();
    if windows {
        names.push(BinaryName::Exe);
    }
    names.push(BinaryName::Plain);
    assert(names@ =~= binary_names(windows));
    let mut v: Vec<BackendCandidate> = Vec::new();
    let mut i: usize = 0;
    while i < dirs.len()
        invariant
            i <= dirs.len(),
            v@ == all_candidates(dirs@.take(i as int), names@),
        decreases dirs.len() - i,
    {
        let (base, subdir) = dirs[i];
        let ghost before = v@;
        let mut j: usize = 0;
        while j < names.len()
            invariant
                i < dirs.len(),
                j <= names.len(),
                dirs@[i as int] == (base, subdir),
                v@ == before + dir_candidates((base, subdir), names@.take(j as int)),
            decreases names.len() - j,
        {
            v.push(BackendCandidate { base, subdir, name: names[j] });
            j = j + 1;
            assert(v@ =~= before + dir_candidates((base, subdir), names@.take(j as int)));
        }
        assert(names@.take(names.len() as int) =~= names@);
        assert(dirs@.take(i + 1).drop_last() =~= dirs@.take(i as int));
        i = i + 1;
    }
    assert(dirs@.take(dirs.len() as int) =~= dirs@);
    v
}

/// The name of a subdirectory, `None` for the base itself.
pub fn subdir_name(subdir: SearchSubdir) -> (name: Option<&'static str>)
    ensures
        match subdir {
            SearchSubdir::Base => name is None,
            SearchSubdir::Resources => name matches Some(n) && n@ == "resources"@,
            SearchSubdir::BundleResources => name matches Some(n) && n@ == "Resources"@,
        },
{
    match subdir {
        SearchSubdir::Base => None,
        SearchSubdir::Resources => Some("resources"),
        SearchSubdir::BundleResources => Some("Resources"),
    }
}

/// The file name of a binary name.
pub fn binary_file_name(name: BinaryName) -> (file: &'static str)
    ensures
        file@ == match name {
            BinaryName::Exe => "go-magic.exe"@,
            BinaryName::Plain => "go-magic"@,
        },
{
    match name {
        BinaryName::Exe => "go-magic.exe",
        BinaryName::Plain => "go-magic",
    }
}

/// The name under which the backend is looked up on `PATH` as a last
/// resort.
pub fn path_binary_name(windows: bool) -> (name: BinaryName)
    ensures
        name == (if windows {
            BinaryName::Exe
        } else {
            BinaryName::Plain
        }),
{
    if windows {
        BinaryName::Exe
    } else {
        BinaryName::Plain
    }
}

/// The index of the first of `count` candidates that `accept` accepts,
/// trying them in order and stopping at the first success.
///
/// `Some(k)`: `accept` answered `true` for `k` and `false` for every index
/// before it. `None`: it answered `false` for all of them.
pub fn first_accepted<F: Fn(usize) -> bool>(count: usize, accept: F) -> (found: Option<usize>)
    requires
        forall|i: usize| i < count ==> accept.requires((i,)),
    ensures
        match found {
            Some(k) => k < count && accept.ensures((k,), true) && forall|j: usize|
                j < k ==> accept.ensures((j,), false),
            None => forall|j: usize| j < count ==> accept.ensures((j,), false),
        },
{
    let mut i: usize = 0;
    while i < count
        invariant
            i <= count,
            forall|i: usize| i < count ==> accept.requires((i,)),
            forall|j: usize| j < i ==> accept.ensures((j,), false),
        decreases count - i,
    {
        if accept(i) {
            return Some(i);
        }
        i = i + 1;
    }
    None
}

} // verus!
