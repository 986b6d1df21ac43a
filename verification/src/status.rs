//! Recovering the status code from the answer to a health probe.
//!
//! The probe reads the head of the response in chunks until the status line
//! is complete ([`absorb_chunk`]), decodes it, and extracts the code from the
//! first line ([`parse_status_code`]). Anything that is not an HTTP/1.x
//! status line reads as "no code", which the caller treats as unhealthy.
use vstd::prelude::*;

use crate::text::{chars_of, digits_value, is_digit, trim, trim_bounds};

verus! {

/// Upper bound on how many bytes are read while hunting for the status line.
pub const MAX_STATUS_LINE_BYTES: usize = 1024;

/// The largest value a `u16` holds.
pub open spec fn u16_limit() -> nat {
    65535
}

/// Whether every character of `d` is a decimal digit.
pub open spec fn all_digits(d: Seq<char>) -> bool {
    forall|i: int| 0 <= i < d.len() ==> is_digit(#[trigger] d[i])
}

/// The digits that an unsigned integer parse reads: all of `s` but a
/// leading `+`.
pub open spec fn unsigned_digits(s: Seq<char>) -> Seq<char> {
    if s.len() > 0 && s[0] == '+' {
        s.drop_first()
    } else {
        s
    }
}

/// What `str::parse::<u16>` accepts: an optional `+`, then one or more
/// decimal digits whose value fits in a `u16`.
pub open spec fn parse_u16(s: Seq<char>) -> Option<u16> {
    let digits = unsigned_digits(s);
    if digits.len() > 0 && all_digits(digits) && digits_value(digits) <= u16_limit() {
        Some(digits_value(digits) as u16)
    } else {
        None
    }
}

/// The index of the first space in `s`, or its length when it has none.
pub open spec fn space_index(s: Seq<char>) -> nat
    decreases s.len(),
{
    if s.len() == 0 {
        0
    } else if s[0] == ' ' {
        0
    } else {
        1 + space_index(s.drop_first())
    }
}

/// The text before the first space: the first piece of `split(' ')`.
pub open spec fn first_piece(s: Seq<char>) -> Seq<char> {
    s.take(space_index(s) as int)
}

/// The text after the first space, when there is one.
pub open spec fn after_first_space(s: Seq<char>) -> Option<Seq<char>> {
    if space_index(s) < s.len() {
        Some(s.skip(space_index(s) as int + 1))
    } else {
        None
    }
}

/// The protocol prefix of an HTTP/1.x status line.
pub open spec fn http_prefix() -> Seq<char> {
    seq!['H', 'T', 'T', 'P', '/']
}

/// The status code that a status line such as `HTTP/1.1 200 OK` carries:
/// after trimming, the first space-separated piece must start with `HTTP/`,
/// and the second must parse as a `u16`.
pub open spec fn status_code_of(line: Seq<char>) -> Option<u16> {
    let t = trim(line);
    let protocol = first_piece(t);
    if !(protocol.len() >= 5 && protocol.take(5) == http_prefix()) {
        None
    } else {
        match after_first_space(t) {
            None => None,
            Some(rest) => parse_u16(first_piece(rest)),
        }
    }
}

/// The first line of `text`: everything before the first line feed.
pub open spec fn first_line(text: Seq<char>) -> Seq<char>
    decreases text.len(),
{
    if text.len() == 0 {
        text
    } else if text[0] == '\n' {
        Seq::empty()
    } else {
        seq![text[0]] + first_line(text.drop_first())
    }
}

/// The status code carried by the head of a response, decoded as text.
pub open spec fn status_code_of_text(text: Seq<char>) -> Option<u16> {
    status_code_of(first_line(text))
}

/// Whether the bytes read so far hold a whole status line, or as many bytes
/// as the probe is willing to read.
pub open spec fn head_is_complete(head: Seq<u8>) -> bool {
    head.contains(10u8) || head.len() >= MAX_STATUS_LINE_BYTES
}

/// The text that lossy UTF-8 decoding (`String::from_utf8_lossy`) makes of
/// `bytes`.
pub uninterp spec fn utf8_lossy(bytes: Seq<u8>) -> Seq<char>;

/// The status code carried by the raw head of a response.
pub open spec fn status_code_of_head(head: Seq<u8>) -> Option<u16> {
    status_code_of_text(utf8_lossy(head))
}

/// One outcome of reading from the probe's connection.
pub enum ReadOutcome {
    /// The bytes that one read returned; none means the peer closed the
    /// connection.
    Received(Vec<u8>),
    /// The read failed (a timeout among others).
    Failed,
}

/// Whether a status code reports success (the 2xx class).
pub fn is_success_status(code: u16) -> (ok: bool)
    ensures
        ok == (200 <= code && code < 300),
{
    200 <= code && code < 300
}

/// The verdict of a health probe: healthy exactly when a 2xx code came back.
pub fn is_healthy_response(code: Option<u16>) -> (ok: bool)
    ensures
        ok == (code matches Some(c) && 200 <= c && c < 300),
{
    match code {
        Some(c) => is_success_status(c),
        None => false,
    }
}

/// Takes one read outcome into the head gathered so far, and says whether the
/// probe should read again.
///
/// Received bytes are appended; reading goes on until the head holds a line
/// feed or [`MAX_STATUS_LINE_BYTES`] bytes. A closed connection or a failed
/// read ends the reading with the head as it is.
pub fn absorb_chunk(head: &mut Vec<u8>, outcome: ReadOutcome) -> (more: bool)
    ensures
        match outcome {
            ReadOutcome::Received(chunk) => if chunk@.len() == 0 {
                final(head)@ == old(head)@ && !more
            } else {
                &&& final(head)@ == old(head)@ + chunk@
                &&& more == !head_is_complete(final(head)@)
            },
            ReadOutcome::Failed => final(head)@ == old(head)@ && !more,
        },
{
    match outcome {
        ReadOutcome::Failed => false,
        ReadOutcome::Received(chunk) => {
            if chunk.len() == 0 {
                return false;
            }
            let ghost start = head@;
            let mut i: usize = 0;
            while i < chunk.len()
                invariant
                    i <= chunk.len(),
                    head@ == start + chunk@.take(i as int),
                decreases chunk.len() - i,
            {
                head.push(chunk[i]);
                i = i + 1;
                assert(head@ =~= start + chunk@.take(i as int));
            }
            assert(chunk@.take(chunk.len() as int) =~= chunk@);
            let mut found = false;
            let mut j: usize = 0;
            while j < head.len()
                invariant
                    j <= head.len(),
                    found == (exists|k: int| 0 <= k < j && head@[k] == 10u8),
                decreases head.len() - j,
            {
                if head[j] == 10u8 {
                    found = true;
                }
                j = j + 1;
            }
            proof {
                if found {
                    let k = choose|k: int| 0 <= k < j && head@[k] == 10u8;
                    assert(head@.contains(10u8)) by {
                        assert(head@[k] == 10u8);
                    }
                } else {
                    assert(!head@.contains(10u8));
                }
            }
            !(found || head.len() >= MAX_STATUS_LINE_BYTES)
        },
    }
}

/// Decodes the raw head of a response as `String::from_utf8_lossy` does.
#[verifier::external_body]
fn decode_lossy(bytes: &[u8]) -> (text: String)
    ensures
        text@ == utf8_lossy(bytes@),
{
    String::from_utf8_lossy(bytes).into_owned()
}

/// The status code carried by the raw head of a response: its lossy UTF-8
/// decoding, cut at the first line feed, parsed by [`parse_status_code`].
pub fn status_code_from_head(head: &[u8]) -> (code: Option<u16>)
    ensures
        code == status_code_of_head(head@),
{
    let text = decode_lossy(head);
    status_code_from_text(text.as_str())
}

/// The status code carried by the decoded head of a response.
pub fn status_code_from_text(text: &str) -> (code: Option<u16>)
    ensures
        code == status_code_of_text(text@),
{
    let v = chars_of(text);
    let mut n: usize = 0;
    while n < v.len() && v[n] != '\n'
        invariant
            n <= v.len(),
            forall|i: int| 0 <= i < n ==> v@[i] != '\n',
        decreases v.len() - n,
    {
        n = n + 1;
    }
    proof {
        lemma_first_line(v@, n as int);
    }
    parse_status_code_in(&v, 0, n)
}

/// Extracts the status code from an HTTP/1.x status line (`HTTP/1.1 200 OK`).
///
/// Anything that is not a status line (a TLS alert, a stray banner, an empty
/// response) yields `None`.
pub fn parse_status_code(status_line: &str) -> (code: Option<u16>)
    ensures
        code == status_code_of(status_line@),
{
    let v = chars_of(status_line);
    assert(v@.subrange(0, v.len() as int) =~= v@);
    parse_status_code_in(&v, 0, v.len())
}

/// [`parse_status_code`] on the characters `v[from..to]`.
fn parse_status_code_in(v: &Vec<char>, from: usize, to: usize) -> (code: Option<u16>)
    requires
        from <= to <= v.len(),
    ensures
        code == status_code_of(v@.subrange(from as int, to as int)),
{
    let ghost line = v@.subrange(from as int, to as int);
    let mut w: Vec<char> = Vec::new();
    let mut i: usize = from;
    while i < to
        invariant
            from <= i <= to <= v.len(),
            w@ == v@.subrange(from as int, i as int),
        decreases to - i,
    {
        w.push(v[i]);
        i = i + 1;
        assert(w@ =~= v@.subrange(from as int, i as int));
    }
    let (lo, hi) = trim_bounds(&w);
    let ghost t = w@.subrange(lo as int, hi as int);
    assert(t == trim(line));
    // The first piece: up to the first space.
    let s1 = find_space(&w, lo, hi);
    proof {
        lemma_space_index(t, s1 - lo);
        assert(first_piece(t) =~= w@.subrange(lo as int, s1 as int));
    }
    if !(s1 - lo >= 5 && w[lo] == 'H' && w[lo + 1] == 'T' && w[lo + 2] == 'T' && w[lo + 3] == 'P'
        && w[lo + 4] == '/') {
        proof {
            if first_piece(t).len() >= 5 && first_piece(t).take(5) == http_prefix() {
                assert(first_piece(t).take(5)[0] == w@[lo as int]);
                assert(first_piece(t).take(5)[1] == w@[lo + 1]);
                assert(first_piece(t).take(5)[2] == w@[lo + 2]);
                assert(first_piece(t).take(5)[3] == w@[lo + 3]);
                assert(first_piece(t).take(5)[4] == w@[lo + 4]);
            }
        }
        return None;
    }
    assert(first_piece(t).take(5) =~= http_prefix());
    if s1 == hi {
        return None;
    }
    let ghost rest = t.skip(s1 - lo + 1);
    assert(rest =~= w@.subrange(s1 + 1, hi as int));
    let s2 = find_space(&w, s1 + 1, hi);
    proof {
        lemma_space_index(rest, s2 - (s1 + 1));
        assert(first_piece(rest) =~= w@.subrange(s1 + 1, s2 as int));
    }
    parse_u16_in(&w, s1 + 1, s2)
}

/// The index of the first space in `v[from..to]`, or `to` when it has none.
fn find_space(v: &Vec<char>, from: usize, to: usize) -> (k: usize)
    requires
        from <= to <= v.len(),
    ensures
        from <= k <= to,
        forall|i: int| from <= i < k ==> v@[i] != ' ',
        k < to ==> v@[k as int] == ' ',
{
    let mut k = from;
    while k < to && v[k] != ' '
        invariant
            from <= k <= to <= v.len(),
            forall|i: int| from <= i < k ==> v@[i] != ' ',
        decreases to - k,
    {
        k = k + 1;
    }
    k
}

/// The first space of `s` sits at `k` when none comes before it.
pub proof fn lemma_space_index(s: Seq<char>, k: int)
    requires
        0 <= k <= s.len(),
        forall|i: int| 0 <= i < k ==> s[i] != ' ',
        k < s.len() ==> s[k] == ' ',
    ensures
        space_index(s) == k,
    decreases k,
{
    if k > 0 {
        let t = s.drop_first();
        assert forall|i: int| 0 <= i < k - 1 implies t[i] != ' ' by {
            assert(t[i] == s[i + 1]);
        }
        lemma_space_index(t, k - 1);
    }
}

/// The first line of `s` ends at `k` when no line feed comes before it.
pub proof fn lemma_first_line(s: Seq<char>, k: int)
    requires
        0 <= k <= s.len(),
        forall|i: int| 0 <= i < k ==> s[i] != '\n',
        k < s.len() ==> s[k] == '\n',
    ensures
        first_line(s) == s.subrange(0, k),
    decreases k,
{
    if k > 0 {
        let t = s.drop_first();
        assert forall|i: int| 0 <= i < k - 1 implies t[i] != '\n' by {
            assert(t[i] == s[i + 1]);
        }
        lemma_first_line(t, k - 1);
        assert(seq![s[0]] + t.subrange(0, k - 1) =~= s.subrange(0, k));
    } else {
        assert(s.subrange(0, 0) =~= Seq::<char>::empty());
    }
}

/// A longer run of digits is worth at least as much as its prefix.
proof fn lemma_digits_value_prefix(s: Seq<char>, k: int)
    requires
        0 <= k <= s.len(),
    ensures
        digits_value(s.take(k)) <= digits_value(s),
    decreases s.len() - k,
{
    if k < s.len() {
        lemma_digits_value_prefix(s.drop_last(), k);
        assert(s.drop_last().take(k) =~= s.take(k));
    } else {
        assert(s.take(k) =~= s);
    }
}

/// [`parse_u16`] on the characters `v[from..to]`.
fn parse_u16_in(v: &Vec<char>, from: usize, to: usize) -> (r: Option<u16>)
    requires
        from <= to <= v.len(),
    ensures
        r == parse_u16(v@.subrange(from as int, to as int)),
{
    let ghost s = v@.subrange(from as int, to as int);
    let mut start = from;
    if from < to && v[from] == '+' {
        start = from + 1;
    }
    let ghost digits = v@.subrange(start as int, to as int);
    assert(digits =~= unsigned_digits(s));
    if start == to {
        return None;
    }
    let mut acc: u32 = 0;
    let mut i = start;
    while i < to
        invariant
            start <= i <= to <= v.len(),
            s == v@.subrange(from as int, to as int),
            digits == v@.subrange(start as int, to as int),
            digits == unsigned_digits(s),
            digits.len() > 0,
            forall|j: int| 0 <= j < i - start ==> is_digit(#[trigger] digits[j]),
            acc as nat == digits_value(digits.take(i - start)),
            acc <= 65535,
        decreases to - i,
    {
        let c = v[i];
        if !('0' <= c && c <= '9') {
            assert(!is_digit(digits[i - start]));

            return None;
        }
        let d = (c as u32) - ('0' as u32);
        proof {
            let p = digits.take(i - start + 1);
            assert(p.drop_last() =~= digits.take(i - start));
            assert(p.last() == c);
        }
        acc = acc * 10 + d;
        i = i + 1;
        if acc > 65535 {
            proof {
                lemma_digits_value_prefix(digits, i - start);
            }
            return None;
        }
    }
    assert(digits.take(i - start) =~= digits);
    Some(acc as u16)
}

} // verus!
