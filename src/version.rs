//! Version strings: this prover's own version, normalization of trace version
//! tags, and the allow-lists of trace and circuit versions.
use vstd::prelude::*;
use crate::text::{
    decimal, digits_end, digits_value, is_ascii_digit, lemma_decimal_reads_back, lemma_digits_end_at,
    push_decimal, push_text, scan_digits, str_equal,
};

verus! {

/// Major version
pub const MAJOR: u32 = 0;
/// Minor version
pub const MINOR: u32 = 1;
/// Patch version
pub const PATCH: u32 = 5;

/// `MAJOR.MINOR.PATCH` in canonical decimal.
pub open spec fn version_text(major: nat, minor: nat, patch: nat) -> Seq<char> {
    decimal(major) + seq!['.'] + decimal(minor) + seq!['.'] + decimal(patch)
}

/// A version tag may end in `-` followed by free-form text that holds no line break.
pub open spec fn valid_suffix(s: Seq<char>) -> bool {
    s.len() == 0 || (s.len() >= 2 && s[0] == '-' && forall|i: int| 1 <= i < s.len() ==> s[i] != '\n')
}

/// Reads a version tag of the shape `[v]MAJOR.MINOR.PATCH[-suffix]`, where each
/// number is a non-empty run of ASCII decimal digits, into its three numbers.
pub open spec fn parse_version(s: Seq<char>) -> Option<(nat, nat, nat)> {
    let i0: int = if s.len() > 0 && s[0] == 'v' { 1 } else { 0 };
    let e1 = digits_end(s, i0);
    let i1 = e1 + 1;
    let e2 = digits_end(s, i1);
    let i2 = e2 + 1;
    let e3 = digits_end(s, i2);
    if e1 == i0 || e1 >= s.len() || s[e1] != '.' {
        None
    } else if e2 == i1 || e2 >= s.len() || s[e2] != '.' {
        None
    } else if e3 == i2 || !valid_suffix(s.subrange(e3, s.len() as int)) {
        None
    } else {
        Some(
            (
                digits_value(s.subrange(i0, e1)),
                digits_value(s.subrange(i1, e2)),
                digits_value(s.subrange(i2, e3)),
            ),
        )
    }
}

/// The numbers of a well-formed version tag, when each fits in a `u32`.
pub open spec fn version_numbers(s: Seq<char>) -> Option<(u32, u32, u32)> {
    match parse_version(s) {
        Some((a, b, c)) => if a <= u32::MAX && b <= u32::MAX && c <= u32::MAX {
            Some((a as u32, b as u32, c as u32))
        } else {
            None
        },
        None => None,
    }
}

/// The trace versions this prover accepts.
pub open spec fn supported_trace_version(v: (u32, u32, u32)) -> bool {
    v == (0u32, 5u32, 1u32) || v == (0u32, 5u32, 2u32) || v == (0u32, 5u32, 3u32)
}

/// A version tag that cannot be read.
#[derive(Debug, Clone, Copy, PartialEq, Eq)]
pub enum VersionError {
    /// The tag is not of the shape `[v]MAJOR.MINOR.PATCH[-suffix]`, or a number
    /// does not fit in 32 bits.
    ParseError,
}

/// Renders three numbers as `MAJOR.MINOR.PATCH`.
pub fn join_version(major: u32, minor: u32, patch: u32) -> (r: String)
    ensures
        r@ == version_text(major as nat, minor as nat, patch as nat),
{
    let mut s = String::new();
    proof {
        reveal_strlit(".");
    }
    push_decimal(&mut s, major as u64);
    push_text(&mut s, ".");
    push_decimal(&mut s, minor as u64);
    push_text(&mut s, ".");
    push_decimal(&mut s, patch as u64);
    assert(s@ =~= version_text(major as nat, minor as nat, patch as nat));
    s
}

/// Export versions as string
pub fn as_string() -> (r: String)
    ensures
        r@ == version_text(MAJOR as nat, MINOR as nat, PATCH as nat),
{
    join_version(MAJOR, MINOR, PATCH)
}

fn char_at_is(s: &str, i: usize, c: char) -> (r: bool)
    requires
        i <= s@.len(),
    ensures
        r == (i < s@.len() && s@[i as int] == c),
{
    i < s.unicode_len() && s.get_char(i) == c
}

fn suffix_is_valid(s: &str, start: usize) -> (r: bool)
    requires
        start <= s@.len(),
    ensures
        r == valid_suffix(s@.subrange(start as int, s@.len() as int)),
{
    let len = s.unicode_len();
    if start == len {
        assert(s@.subrange(start as int, len as int).len() == 0);
        return true;
    }
    if len - start < 2 || s.get_char(start) != '-' {
        return false;
    }
    let mut i: usize = start + 1;
    while i < len
        invariant
            len == s@.len(),
            start + 1 <= i <= len,
            forall|k: int| start + 1 <= k < i ==> s@[k] != '\n',
        decreases len - i,
    {
        if s.get_char(i) == '\n' {
            assert(s@.subrange(start as int, len as int)[i - start] == '\n');
            return false;
        }
        i = i + 1;
    }
    assert forall|k: int| 1 <= k < s@.subrange(start as int, len as int).len() implies
        s@.subrange(start as int, len as int)[k] != '\n' by {
        assert(s@.subrange(start as int, len as int)[k] == s@[start + k]);
    }
    true
}

/// Reads the three numbers of a version tag such as `0.5.1`, `v0.5.1` or
/// `v0.5.1-unstable`.
pub fn parse_version_numbers(s: &str) -> (r: Option<(u32, u32, u32)>)
    ensures
        r == version_numbers(s@),
{
    let len = s.unicode_len();
    let i0: usize = if char_at_is(s, 0, 'v') { 1 } else { 0 };
    let (e1, major) = scan_digits(s, i0);
    if e1 == i0 || !char_at_is(s, e1, '.') {
        return None;
    }
    let i1 = e1 + 1;
    let (e2, minor) = scan_digits(s, i1);
    if e2 == i1 || !char_at_is(s, e2, '.') {
        return None;
    }
    let i2 = e2 + 1;
    let (e3, patch) = scan_digits(s, i2);
    if e3 == i2 || !suffix_is_valid(s, e3) {
        return None;
    }
    match (major, minor, patch) {
        (Some(a), Some(b), Some(c)) => Some((a, b, c)),
        _ => None,
    }
}

/// Normalizes a version tag to `MAJOR.MINOR.PATCH`: `v0.5.1-unstable` becomes
/// `0.5.1`. A tag that cannot be read is a `ParseError`.
pub fn format_version(version_string: &str) -> (r: Result<String, VersionError>)
    ensures
        match version_numbers(version_string@) {
            Some((a, b, c)) => r matches Ok(t) && t@ == version_text(a as nat, b as nat, c as nat),
            None => r == Err::<String, VersionError>(VersionError::ParseError),
        },
{
    match parse_version_numbers(version_string) {
        Some((a, b, c)) => Ok(join_version(a, b, c)),
        None => Err(VersionError::ParseError),
    }
}

/// Whether a trace carrying this version tag can be proved: the tag must be
/// readable and its normalized version must be on the allow-list.
pub fn check_trace_version(trace_version_str: &str) -> (r: bool)
    ensures
        r == (version_numbers(trace_version_str@) matches Some(v) && supported_trace_version(v)),
{
    match parse_version_numbers(trace_version_str) {
        Some((major, minor, patch)) => major == 0 && minor == 5 && (patch == 1 || patch == 2 || patch == 3),
        None => false,
    }
}

proof fn lemma_digits_end_shift(s: Seq<char>, i: int)
    requires
        0 <= i <= s.len(),
    ensures
        digits_end(seq!['v'] + s, i + 1) == digits_end(s, i) + 1,
        i <= digits_end(s, i) <= s.len(),
    decreases s.len() - i,
{
    let t = seq!['v'] + s;
    if i < s.len() {
        assert(t[i + 1] == s[i]);
        if is_ascii_digit(s[i]) {
            lemma_digits_end_shift(s, i + 1);
        }
    }
}

proof fn lemma_digits_end_append(s: Seq<char>, x: Seq<char>, i: int)
    requires
        0 <= i <= s.len(),
        x.len() > 0,
        !is_ascii_digit(x[0]),
    ensures
        digits_end(s + x, i) == digits_end(s, i),
        i <= digits_end(s, i) <= s.len(),
    decreases s.len() - i,
{
    let t = s + x;
    if i < s.len() {
        assert(t[i] == s[i]);
        if is_ascii_digit(s[i]) {
            lemma_digits_end_append(s, x, i + 1);
        }
    } else {
        assert(t[i] == x[0]);
    }
}

/// Normalization ignores a leading `v`: `v0.5.1` reads as `0.5.1`.
pub proof fn lemma_leading_v_ignored(s: Seq<char>)
    requires
        !(s.len() > 0 && s[0] == 'v'),
    ensures
        parse_version(seq!['v'] + s) == parse_version(s),
{
    let t = seq!['v'] + s;
    assert(t[0] == 'v');
    let e1 = digits_end(s, 0);
    lemma_digits_end_shift(s, 0);
    let e1t = digits_end(t, 1);
    assert(e1t == e1 + 1);
    if e1 >= 0 && e1 < s.len() {
        assert(t[e1 + 1] == s[e1]);
    }
    if e1 >= 0 && e1 < s.len() && s[e1] == '.' {
        assert(0 <= e1);
        let e2 = digits_end(s, e1 + 1);
        lemma_digits_end_shift(s, e1 + 1);
        if 0 <= e2 < s.len() {
            assert(t[e2 + 1] == s[e2]);
        }
        if e2 != e1 + 1 && e2 < s.len() && s[e2] == '.' {
            assert(e1 + 1 <= e2);
            let e3 = digits_end(s, e2 + 1);
            lemma_digits_end_shift(s, e2 + 1);
            assert(t.subrange(e3 + 1, t.len() as int) =~= s.subrange(e3, s.len() as int));
            assert(t.subrange(1, e1 + 1) =~= s.subrange(0, e1));
            assert(t.subrange(e1 + 2, e2 + 1) =~= s.subrange(e1 + 1, e2));
            assert(t.subrange(e2 + 2, e3 + 1) =~= s.subrange(e2 + 1, e3));
        }
    }
}

/// Normalization ignores a `-suffix` appended to a readable tag:
/// `0.5.1-unstable` reads as `0.5.1`.
pub proof fn lemma_suffix_ignored(s: Seq<char>, x: Seq<char>)
    requires
        parse_version(s) is Some,
        x.len() > 0,
        valid_suffix(x),
    ensures
        parse_version(s + x) == parse_version(s),
{
    let t = s + x;
    assert(x[0] == '-');
    assert(t[0] == s[0]);
    let i0: int = if s.len() > 0 && s[0] == 'v' { 1 } else { 0 };
    let e1 = digits_end(s, i0);
    lemma_digits_end_append(s, x, i0);
    assert(e1 != i0 && e1 < s.len() && s[e1] == '.');
    assert(t[e1] == s[e1]);
    let e2 = digits_end(s, e1 + 1);
    lemma_digits_end_append(s, x, e1 + 1);
    assert(e2 != e1 + 1 && e2 < s.len() && s[e2] == '.');
    assert(t[e2] == s[e2]);
    let e3 = digits_end(s, e2 + 1);
    lemma_digits_end_append(s, x, e2 + 1);
    assert(t.subrange(i0, e1) =~= s.subrange(i0, e1));
    assert(t.subrange(e1 + 1, e2) =~= s.subrange(e1 + 1, e2));
    assert(t.subrange(e2 + 1, e3) =~= s.subrange(e2 + 1, e3));
    let rest = s.subrange(e3, s.len() as int);
    let trest = t.subrange(e3, t.len() as int);
    assert(trest =~= rest + x);
    assert forall|k: int| 1 <= k < trest.len() implies trest[k] != '\n' by {
        if k < rest.len() {
            assert(trest[k] == rest[k]);
        } else {
            assert(trest[k] == x[k - rest.len()]);
        }
    }
    if rest.len() == 0 {
        assert(trest =~= x);
    } else {
        assert(trest[0] == rest[0]);
    }
}

/// A normalized version reads back as the numbers it was made of, so
/// normalizing it again changes nothing.
pub proof fn lemma_normalized_reads_back(a: u32, b: u32, c: u32)
    ensures
        version_numbers(version_text(a as nat, b as nat, c as nat)) == Some((a, b, c)),
{
    let da = decimal(a as nat);
    let db = decimal(b as nat);
    let dc = decimal(c as nat);
    lemma_decimal_reads_back(a as nat);
    lemma_decimal_reads_back(b as nat);
    lemma_decimal_reads_back(c as nat);
    let t = version_text(a as nat, b as nat, c as nat);
    let e1 = da.len() as int;
    let e2 = e1 + 1 + db.len();
    let e3 = e2 + 1 + dc.len();
    assert(t.len() == e3);
    assert(t[0] == da[0]);
    assert forall|k: int| 0 <= k < e1 implies is_ascii_digit(t[k]) by {
        assert(t[k] == da[k]);
    }
    assert(t[e1] == '.');
    lemma_digits_end_at(t, 0, e1);
    assert forall|k: int| e1 + 1 <= k < e2 implies is_ascii_digit(t[k]) by {
        assert(t[k] == db[k - e1 - 1]);
    }
    assert(t[e2] == '.');
    lemma_digits_end_at(t, e1 + 1, e2);
    assert forall|k: int| e2 + 1 <= k < e3 implies is_ascii_digit(t[k]) by {
        assert(t[k] == dc[k - e2 - 1]);
    }
    lemma_digits_end_at(t, e2 + 1, e3);
    assert(t.subrange(0, e1) =~= da);
    assert(t.subrange(e1 + 1, e2) =~= db);
    assert(t.subrange(e2 + 1, e3) =~= dc);
    assert(t.subrange(e3, e3).len() == 0);
}

/// The zkevm circuit versions that are compatible with this prover.
pub open spec fn supported_circuit_version(v: Seq<char>) -> bool {
    v == "0.2.0"@
}

/// Whether the linked circuit build, by the version it reports, is one this
/// prover supports. The version is compared as it stands, not normalized.
pub fn check_circuit_version(circuit_version: &str) -> (r: bool)
    ensures
        r == supported_circuit_version(circuit_version@),
{
    str_equal(circuit_version, "0.2.0")
}

} // verus!
