//! The backend handshake line.
//!
//! The backend announces its bound port by printing a single line of the
//! form `BACKEND_PORT:<whitespace>*<decimal-uint16>` on its standard
//! output. This module defines what counts as such a line and parses one.

use vstd::prelude::*;
use vstd::string::*;

verus! {

/// A character the handshake scanner treats as whitespace: the ASCII
/// whitespace characters (space, tab, carriage return, line feed, vertical
/// tab, form feed).
pub open spec fn is_space(c: char) -> bool {
    c == ' ' || c == '\t' || c == '\r' || c == '\n' || c == '\u{b}' || c == '\u{c}'
}

/// An ASCII decimal digit.
pub open spec fn is_digit(c: char) -> bool {
    '0' <= c && c <= '9'
}

/// The numeric value of a decimal digit character.
pub open spec fn digit_value(c: char) -> int {
    c as int - '0' as int
}

/// Every character of `s` is a decimal digit.
pub open spec fn all_digits(s: Seq<char>) -> bool {
    forall|i: int| 0 <= i < s.len() ==> is_digit(#[trigger] s[i])
}

/// The value of `s` read as a decimal numeral, most significant digit first.
pub open spec fn digits_value(s: Seq<char>) -> int
    decreases s.len(),
{
    if s.len() == 0 {
        0
    } else {
        digits_value(s.drop_last()) * 10 + digit_value(s.last())
    }
}

/// `s` with its leading whitespace removed.
pub open spec fn trim_start(s: Seq<char>) -> Seq<char>
    decreases s.len(),
{
    if s.len() > 0 && is_space(s[0]) {
        trim_start(s.subrange(1, s.len() as int))
    } else {
        s
    }
}

/// `s` with its trailing whitespace removed.
pub open spec fn trim_end(s: Seq<char>) -> Seq<char>
    decreases s.len(),
{
    if s.len() > 0 && is_space(s.last()) {
        trim_end(s.drop_last())
    } else {
        s
    }
}

/// `s` with whitespace removed from both ends.
pub open spec fn trim(s: Seq<char>) -> Seq<char> {
    trim_end(trim_start(s))
}

/// The literal prefix by which the backend marks its handshake line.
pub open spec fn handshake_prefix() -> Seq<char> {
    "BACKEND_PORT:"@
}

/// A non-empty run of decimal digits whose value fits a 16-bit port.
pub open spec fn is_port_token(s: Seq<char>) -> bool {
    s.len() > 0 && all_digits(s) && digits_value(s) <= u16::MAX
}

/// A well-formed handshake line: the literal prefix, then a port number,
/// allowing whitespace around the number. A line whose prefix matches but
/// whose remainder is not a port number is not a handshake line; the
/// scanner keeps looking on later lines.
pub open spec fn is_handshake_line(line: Seq<char>) -> bool {
    &&& line.len() >= handshake_prefix().len()
    &&& line.subrange(0, handshake_prefix().len() as int) == handshake_prefix()
    &&& is_port_token(trim(line.skip(handshake_prefix().len() as int)))
}

/// The port a well-formed handshake line announces.
pub open spec fn handshake_port(line: Seq<char>) -> u16 {
    digits_value(trim(line.skip(handshake_prefix().len() as int))) as u16
}

/// Removing leading whitespace skips exactly the run of whitespace at the
/// front.
proof fn lemma_trim_start_is_skip(s: Seq<char>, k: int)
    requires
        0 <= k <= s.len(),
        forall|j: int| 0 <= j < k ==> is_space(#[trigger] s[j]),
        k == s.len() || !is_space(s[k]),
    ensures
        trim_start(s) == s.skip(k),
    decreases k,
{
    if k == 0 {
        assert(s.skip(0) =~= s);
    } else {
        let s1 = s.subrange(1, s.len() as int);
        lemma_trim_start_is_skip(s1, k - 1);
        assert(s1.skip(k - 1) =~= s.skip(k));
    }
}

/// Removing trailing whitespace keeps exactly the part before the run of
/// whitespace at the back.
proof fn lemma_trim_end_is_take(s: Seq<char>, m: int)
    requires
        0 <= m <= s.len(),
        forall|j: int| m <= j < s.len() ==> is_space(#[trigger] s[j]),
        m == 0 || !is_space(s[m - 1]),
    ensures
        trim_end(s) == s.take(m),
    decreases s.len(),
{
    if m == s.len() {
        assert(s.take(m) =~= s);
    } else {
        let s1 = s.drop_last();
        lemma_trim_end_is_take(s1, m);
        assert(s1.take(m) =~= s.take(m));
    }
}

/// A decimal numeral never has a negative value.
proof fn lemma_digits_value_nonneg(s: Seq<char>)
    requires
        all_digits(s),
    ensures
        digits_value(s) >= 0,
    decreases s.len(),
{
    if s.len() > 0 {
        assert(all_digits(s.drop_last()));
        lemma_digits_value_nonneg(s.drop_last());
    }
}

/// Extending a numeral with more digits can only increase its value.
proof fn lemma_digits_value_prefix_le(s: Seq<char>, i: int)
    requires
        all_digits(s),
        0 <= i <= s.len(),
    ensures
        digits_value(s.take(i)) <= digits_value(s),
    decreases s.len(),
{
    if i == s.len() {
        assert(s.take(i) =~= s);
    } else {
        let s1 = s.drop_last();
        assert(all_digits(s1));
        lemma_digits_value_prefix_le(s1, i);
        assert(s1.take(i) =~= s.take(i));
        lemma_digits_value_nonneg(s1);
    }
}

/// Whether `c` is one of the characters [`is_space`] names.
fn space_char(c: char) -> (r: bool)
    ensures
        r == is_space(c),
{
    c == ' ' || c == '\t' || c == '\r' || c == '\n' || c == '\u{b}' || c == '\u{c}'
}

/// Whether `c` is an ASCII decimal digit.
fn digit_char(c: char) -> (r: bool)
    ensures
        r == is_digit(c),
{
    '0' <= c && c <= '9'
}

/// Parses one line of backend output as a handshake line. Returns the
/// announced port exactly when the line is well formed; every other line —
/// wrong prefix, empty remainder, a malformed or out-of-range number — is
/// a non-match.
pub fn parse_handshake_line(line: &str) -> (r: Option<u16>)
    ensures
        r == (if is_handshake_line(line@) {
            Some(handshake_port(line@))
        } else {
            None::<u16>
        }),
{
    proof {
        reveal_strlit("BACKEND_PORT:");
    }
    let prefix: &str = "BACKEND_PORT:";
    let n: usize = line.unicode_len();
    if n < 13 {
        return None;
    }
    let mut i: usize = 0;
    while i < 13
        invariant
            0 <= i <= 13,
            n == line@.len(),
            n >= 13,
            prefix@ == handshake_prefix(),
            handshake_prefix().len() == 13,
            forall|j: int| 0 <= j < i ==> line@[j] == handshake_prefix()[j],
        decreases 13 - i,
    {
        if line.get_char(i) != prefix.get_char(i) {
            proof {
                assert(line@.subrange(0, 13)[i as int] == line@[i as int]);
            }
            return None;
        }
        i += 1;
    }
    assert(line@.subrange(0, 13) =~= handshake_prefix());
    let mut a: usize = 13;
    while a < n && space_char(line.get_char(a))
        invariant
            13 <= a <= n,
            n == line@.len(),
            forall|j: int| 13 <= j < a ==> is_space(#[trigger] line@[j]),
        decreases n - a,
    {
        a += 1;
    }
    let mut b: usize = n;
    while b > a && space_char(line.get_char(b - 1))
        invariant
            a <= b <= n,
            n == line@.len(),
            forall|j: int| b <= j < n ==> is_space(#[trigger] line@[j]),
        decreases b,
    {
        b -= 1;
    }
    proof {
        let ai = a as int;
        let bi = b as int;
        let rest = line@.skip(13);
        assert forall|j: int| 0 <= j < ai - 13 implies is_space(#[trigger] rest[j]) by {
            assert(rest[j] == line@[j + 13]);
        }
        assert(ai - 13 == rest.len() || !is_space(rest[ai - 13]));
        lemma_trim_start_is_skip(rest, ai - 13);
        assert(rest.skip(ai - 13) =~= line@.skip(ai));
        let t1 = line@.skip(ai);
        assert forall|j: int| bi - ai <= j < t1.len() implies is_space(#[trigger] t1[j]) by {
            assert(t1[j] == line@[j + ai]);
        }
        assert(bi - ai == 0 || !is_space(t1[bi - ai - 1]));
        lemma_trim_end_is_take(t1, bi - ai);
        assert(t1.take(bi - ai) =~= line@.subrange(ai, bi));
        assert(trim(line@.skip(13)) == line@.subrange(ai, bi));
    }
    if b == a {
        return None;
    }
    let mut v: u32 = 0;
    let mut k: usize = a;
    while k < b
        invariant
            a <= k <= b,
            a < b,
            b <= n,
            n == line@.len(),
            handshake_prefix().len() == 13,
            line@.subrange(0, 13) == handshake_prefix(),
            trim(line@.skip(13)) == line@.subrange(a as int, b as int),
            forall|j: int| a <= j < k ==> is_digit(#[trigger] line@[j]),
            v == digits_value(line@.subrange(a as int, k as int)),
            v <= 65535,
        decreases b - k,
    {
        let c = line.get_char(k);
        if !digit_char(c) {
            proof {
                let t = line@.subrange(a as int, b as int);
                assert(t[k - a] == line@[k as int]);
            }
            return None;
        }
        let d: u32 = (c as u32) - 48;
        let w: u32 = v * 10 + d;
        proof {
            assert(line@.subrange(a as int, k + 1).drop_last() =~= line@.subrange(
                a as int,
                k as int,
            ));
            assert(line@.subrange(a as int, k + 1).last() == line@[k as int]);
            assert(digits_value(line@.subrange(a as int, k + 1)) == w);
        }
        if w > 65535 {
            proof {
                let t = line@.subrange(a as int, b as int);
                if all_digits(t) {
                    assert(t.take(k + 1 - a) =~= line@.subrange(a as int, k + 1));
                    lemma_digits_value_prefix_le(t, k + 1 - a);
                }
            }
            return None;
        }
        v = w;
        k += 1;
    }
    proof {
        let t = line@.subrange(a as int, b as int);
        assert forall|j: int| 0 <= j < t.len() implies is_digit(#[trigger] t[j]) by {
            assert(t[j] == line@[a + j]);
        }
        assert(is_port_token(t));
        assert(is_handshake_line(line@));
    }
    Some(v as u16)
}

/// The views of a sequence of owned output lines.
pub open spec fn line_views(lines: Seq<String>) -> Seq<Seq<char>> {
    Seq::new(lines.len(), |i: int| lines[i]@)
}

/// The port announced by the first well-formed handshake line of `lines`,
/// if any line is one.
pub open spec fn scan_port(lines: Seq<Seq<char>>) -> Option<u16>
    decreases lines.len(),
{
    if lines.len() == 0 {
        None
    } else if is_handshake_line(lines[0]) {
        Some(handshake_port(lines[0]))
    } else {
        scan_port(lines.drop_first())
    }
}

/// A transcript holding exactly one well-formed handshake line yields that
/// line's port: the scan returns it, and no other line is mistaken for the
/// handshake.
pub proof fn lemma_scan_unique_handshake(lines: Seq<Seq<char>>, k: int)
    requires
        0 <= k < lines.len(),
        is_handshake_line(lines[k]),
        forall|i: int|
            0 <= i < lines.len() && i != k ==> !is_handshake_line(#[trigger] lines[i]),
    ensures
        scan_port(lines) == Some(handshake_port(lines[k])),
    decreases k,
{
    if k > 0 {
        let rest = lines.drop_first();
        assert(rest[k - 1] == lines[k]);
        assert forall|i: int|
            0 <= i < rest.len() && i != k - 1 implies !is_handshake_line(
            #[trigger] rest[i],
        ) by {
            assert(rest[i] == lines[i + 1]);
        }
        lemma_scan_unique_handshake(rest, k - 1);
    }
}

/// Scans a complete transcript of backend output lines, in order,
/// returning the port of the first well-formed handshake line.
pub fn scan_lines(lines: &Vec<String>) -> (r: Option<u16>)
    ensures
        r == scan_port(line_views(lines@)),
{
    let ghost full = line_views(lines@);
    proof {
        assert(full.skip(0) =~= full);
    }
    let mut i: usize = 0;
    while i < lines.len()
        invariant
            0 <= i <= lines@.len(),
            full == line_views(lines@),
            full.len() == lines@.len(),
            scan_port(full) == scan_port(full.skip(i as int)),
        decreases lines@.len() - i,
    {
        let p = parse_handshake_line(lines[i].as_str());
        proof {
            assert(full.skip(i as int)[0] == lines@[i as int]@);
        }
        if let Some(port) = p {
            return Some(port);
        }
        proof {
            assert(full.skip(i as int).drop_first() =~= full.skip(i + 1));
        }
        i += 1;
    }
    None
}

/// The reader side of the handshake scan: remembers whether it has already
/// signalled a port, so that at most one port is ever sent over the
/// launch's single-use signalling channel.
pub struct HandshakeScanner {
    /// The port this scanner has signalled, if any.
    pub sent: Option<u16>,
}

impl HandshakeScanner {
    /// A scanner that has signalled nothing yet.
    pub fn new() -> (s: HandshakeScanner)
        ensures
            s.sent is None,
    {
        HandshakeScanner { sent: None }
    }

    /// Offers the scanner one line of backend output, in stream order.
    /// Returns `Some(port)` exactly when this line is the first well-formed
    /// handshake line the scanner has seen; once a port has been signalled,
    /// every later line is ignored, so a second port is never sent.
    pub fn offer_line(&mut self, line: &str) -> (r: Option<u16>)
        ensures
            old(self).sent is Some ==> r is None && final(self).sent == old(self).sent,
            old(self).sent is None && is_handshake_line(line@) ==> r == Some(handshake_port(line@))
                && final(self).sent == r,
            old(self).sent is None && !is_handshake_line(line@) ==> r is None
                && final(self).sent is None,
    {
        if self.sent.is_some() {
            return None;
        }
        let p = parse_handshake_line(line);
        if let Some(port) = p {
            self.sent = Some(port);
            return Some(port);
        }
        None
    }
}

} // verus!
