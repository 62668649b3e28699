//! Decimal rendering and parsing of unsigned integers over character sequences.
use vstd::prelude::*;

verus! {

/// The ten ASCII decimal digits, in order.
pub open spec fn ascii_digits() -> Seq<char> {
    seq!['0', '1', '2', '3', '4', '5', '6', '7', '8', '9']
}

pub open spec fn is_ascii_digit(c: char) -> bool {
    '0' <= c && c <= '9'
}

/// The value of an ASCII decimal digit.
pub open spec fn digit_value(c: char) -> nat {
    (c as int - '0' as int) as nat
}

/// The canonical decimal text of `n`: no sign, no leading zeros.
pub open spec fn decimal(n: nat) -> Seq<char>
    decreases n,
{
    if n < 10 {
        seq![ascii_digits()[n as int]]
    } else {
        decimal(n / 10).push(ascii_digits()[(n % 10) as int])
    }
}

/// The value of a run of decimal digits, most significant first.
pub open spec fn digits_value(s: Seq<char>) -> nat
    decreases s.len(),
{
    if s.len() == 0 {
        0
    } else {
        digits_value(s.drop_last()) * 10 + digit_value(s.last())
    }
}

/// The first index at or after `i` that does not hold a decimal digit.
pub open spec fn digits_end(s: Seq<char>, i: int) -> int
    decreases s.len() - i,
{
    if 0 <= i < s.len() && is_ascii_digit(s[i]) {
        digits_end(s, i + 1)
    } else {
        i
    }
}

proof fn lemma_digit_char(k: nat)
    requires
        k < 10,
    ensures
        is_ascii_digit(ascii_digits()[k as int]),
        digit_value(ascii_digits()[k as int]) == k,
{
    if k == 0 {
        assert(ascii_digits()[0] == '0');
    } else if k == 1 {
        assert(ascii_digits()[1] == '1');
    } else if k == 2 {
        assert(ascii_digits()[2] == '2');
    } else if k == 3 {
        assert(ascii_digits()[3] == '3');
    } else if k == 4 {
        assert(ascii_digits()[4] == '4');
    } else if k == 5 {
        assert(ascii_digits()[5] == '5');
    } else if k == 6 {
        assert(ascii_digits()[6] == '6');
    } else if k == 7 {
        assert(ascii_digits()[7] == '7');
    } else if k == 8 {
        assert(ascii_digits()[8] == '8');
    } else {
        assert(ascii_digits()[9] == '9');
    }
}

/// The decimal text of `n` is a non-empty run of digits whose value is `n`.
pub proof fn lemma_decimal_reads_back(n: nat)
    ensures
        decimal(n).len() >= 1,
        forall|i: int| 0 <= i < decimal(n).len() ==> is_ascii_digit(#[trigger] decimal(n)[i]),
        digits_value(decimal(n)) == n,
    decreases n,
{
    if n < 10 {
        lemma_digit_char(n);
        let d = decimal(n);
        assert(d.drop_last() =~= Seq::<char>::empty());
        assert(d.last() == ascii_digits()[n as int]);
        assert(digits_value(Seq::<char>::empty()) == 0);
    } else {
        lemma_decimal_reads_back(n / 10);
        lemma_digit_char(n % 10);
        let x = decimal(n / 10);
        let d = decimal(n);
        assert(d.drop_last() =~= x);
        assert forall|i: int| 0 <= i < d.len() implies is_ascii_digit(#[trigger] d[i]) by {
            if i < x.len() {
                assert(d[i] == x[i]);
            }
        }
        assert(d.last() == ascii_digits()[(n % 10) as int]);
        assert(digits_value(d) == (n / 10) * 10 + n % 10);
        assert((n / 10) * 10 + n % 10 == n);
    }
}

/// A run of digits that ends at `j` ends there.
pub proof fn lemma_digits_end_at(s: Seq<char>, i: int, j: int)
    requires
        0 <= i <= j <= s.len(),
        forall|k: int| i <= k < j ==> is_ascii_digit(s[k]),
        j == s.len() || !is_ascii_digit(s[j]),
    ensures
        digits_end(s, i) == j,
    decreases j - i,
{
    if i < j {
        lemma_digits_end_at(s, i + 1, j);
    }
}

fn digit_text(d: u64) -> (r: &'static str)
    requires
        d < 10,
    ensures
        r@ == seq![ascii_digits()[d as int]],
{
    proof {
        reveal_strlit("0");
        reveal_strlit("1");
        reveal_strlit("2");
        reveal_strlit("3");
        reveal_strlit("4");
        reveal_strlit("5");
        reveal_strlit("6");
        reveal_strlit("7");
        reveal_strlit("8");
        reveal_strlit("9");
    }
    if d == 0 {
        "0"
    } else if d == 1 {
        "1"
    } else if d == 2 {
        "2"
    } else if d == 3 {
        "3"
    } else if d == 4 {
        "4"
    } else if d == 5 {
        "5"
    } else if d == 6 {
        "6"
    } else if d == 7 {
        "7"
    } else if d == 8 {
        "8"
    } else {
        "9"
    }
}

/// Appends the decimal text of `n` to `s`.
pub fn push_decimal(s: &mut String, n: u64)
    ensures
        final(s)@ == old(s)@ + decimal(n as nat),
    decreases n,
{
    if n >= 10 {
        push_decimal(s, n / 10);
    }
    let d = digit_text(n % 10);
    s.append(d);
    proof {
        if n >= 10 {
            assert(decimal(n as nat) == decimal((n / 10) as nat).push(ascii_digits()[(n % 10) as int]));
        }
        assert(final(s)@ == old(s)@ + decimal(n as nat));
    }
}

/// Appends a literal piece of text to `s`.
pub fn push_text(s: &mut String, t: &str)
    ensures
        final(s)@ == old(s)@ + t@,
{
    s.append(t);
}

/// Whether two strings hold the same characters.
pub fn str_equal(a: &str, b: &str) -> (r: bool)
    ensures
        r == (a@ == b@),
{
    let n = a.unicode_len();
    if n != b.unicode_len() {
        return false;
    }
    let mut i: usize = 0;
    while i < n
        invariant
            n == a@.len(),
            n == b@.len(),
            i <= n,
            forall|k: int| 0 <= k < i ==> a@[k] == b@[k],
        decreases n - i,
    {
        if a.get_char(i) != b.get_char(i) {
            return false;
        }
        i = i + 1;
    }
    assert(a@ =~= b@);
    true
}

/// Scans the run of decimal digits of `s` that starts at `start`. Returns the
/// index where the run ends and, when the run's value fits in a `u32`, that
/// value.
pub fn scan_digits(s: &str, start: usize) -> (r: (usize, Option<u32>))
    requires
        start <= s@.len(),
    ensures
        r.0 as int == digits_end(s@, start as int),
        start <= r.0 <= s@.len(),
        r.1 is Some <==> digits_value(s@.subrange(start as int, r.0 as int)) <= u32::MAX,
        r.1 matches Some(v) ==> v as nat == digits_value(s@.subrange(start as int, r.0 as int)),
{
    let len = s.unicode_len();
    let mut i: usize = start;
    let mut value: u64 = 0;
    let mut fits: bool = true;
    while i < len && '0' <= s.get_char(i) && s.get_char(i) <= '9'
        invariant
            len == s@.len(),
            start <= i <= len,
            digits_end(s@, start as int) == digits_end(s@, i as int),
            fits <==> digits_value(s@.subrange(start as int, i as int)) <= u32::MAX,
            fits ==> value as nat == digits_value(s@.subrange(start as int, i as int)),
        decreases len - i,
    {
        let c = s.get_char(i);
        let d = (c as u32 - '0' as u32) as u64;
        proof {
            let p = s@.subrange(start as int, i as int);
            let q = s@.subrange(start as int, i as int + 1);
            assert(q.drop_last() =~= p);
            assert(q.last() == c);
            assert(digits_value(q) == digits_value(p) * 10 + digit_value(c));
        }
        if fits {
            value = value * 10 + d;
            fits = value <= u32::MAX as u64;
        }
        i = i + 1;
    }
    if fits {
        (i, Some(value as u32))
    } else {
        (i, None)
    }
}

} // verus!
