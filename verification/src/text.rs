//! Character-level spec functions over strings, and verified rendering of
//! integers and booleans as decimal text.

use vstd::prelude::*;

verus! {

/// Number of occurrences of the character `c` in `s` at positions `i` and later.
pub open spec fn count_char_from(s: Seq<char>, c: char, i: int) -> nat
    decreases s.len() - i,
{
    if i < 0 || i >= s.len() {
        0
    } else {
        (if s[i] == c {
            1nat
        } else {
            0nat
        }) + count_char_from(s, c, i + 1)
    }
}

/// Number of occurrences of the character `c` in `s`.
pub open spec fn count_char(s: Seq<char>, c: char) -> nat {
    count_char_from(s, c, 0)
}

/// The pattern `pat` occurs in `s` starting at position `i`.
pub open spec fn matches_at(s: Seq<char>, pat: Seq<char>, i: int) -> bool {
    &&& 0 <= i
    &&& i + pat.len() <= s.len()
    &&& forall|t: int| 0 <= t < pat.len() ==> s[i + t] == pat[t]
}

/// The pattern `pat` occurs somewhere in `s`.
pub open spec fn occurs_in(s: Seq<char>, pat: Seq<char>) -> bool {
    exists|i: int| matches_at(s, pat, i)
}

pub proof fn lemma_count_char_from_split(s: Seq<char>, c: char, i: int, j: int)
    requires
        0 <= i <= j <= s.len(),
    ensures
        count_char_from(s, c, i) == count_char_from(s, c, j) + count_char_from(
            s.subrange(i, j),
            c,
            0,
        ),
    decreases j - i,
{
    if i == j {
        assert(s.subrange(i, j).len() == 0);
    } else {
        lemma_count_char_from_split(s, c, i + 1, j);
        let sub = s.subrange(i, j);
        let sub1 = s.subrange(i + 1, j);
        assert(sub.subrange(1, sub.len() as int) =~= sub1);
        lemma_count_char_from_shift(sub, c);
    }
}

proof fn lemma_count_char_from_shift(s: Seq<char>, c: char)
    requires
        s.len() > 0,
    ensures
        count_char_from(s, c, 0) == (if s[0] == c {
            1nat
        } else {
            0nat
        }) + count_char_from(s.subrange(1, s.len() as int), c, 0),
    decreases s.len(),
{
    let s1 = s.subrange(1, s.len() as int);
    lemma_count_char_from_offset(s, c, 1);
}

proof fn lemma_count_char_from_offset(s: Seq<char>, c: char, i: int)
    requires
        0 <= i <= s.len(),
    ensures
        count_char_from(s, c, i) == count_char_from(s.subrange(i, s.len() as int), c, 0),
    decreases s.len() - i,
{
    if i == s.len() {
    } else {
        lemma_count_char_from_offset(s, c, i + 1);
        let sub = s.subrange(i, s.len() as int);
        let sub1 = s.subrange(i + 1, s.len() as int);
        assert(sub.subrange(1, sub.len() as int) =~= sub1);
        lemma_count_char_from_offset(sub, c, 1);
    }
}

/// Counting distributes over concatenation.
pub proof fn lemma_count_char_concat(a: Seq<char>, b: Seq<char>, c: char)
    ensures
        count_char(a + b, c) == count_char(a, c) + count_char(b, c),
{
    let ab = a + b;
    lemma_count_char_from_split(ab, c, 0, a.len() as int);
    assert(ab.subrange(0, a.len() as int) =~= a);
    lemma_count_char_from_offset(ab, c, a.len() as int);
    assert(ab.subrange(a.len() as int, ab.len() as int) =~= b);
}

/// A string with no occurrences of `c` has no position holding `c`.
pub proof fn lemma_count_zero_no_char(s: Seq<char>, c: char, i: int)
    requires
        count_char(s, c) == 0,
        0 <= i < s.len(),
    ensures
        s[i] != c,
{
    if s[i] == c {
        lemma_count_char_from_positive(s, c, 0, i);
    }
}

proof fn lemma_count_char_from_positive(s: Seq<char>, c: char, j: int, i: int)
    requires
        0 <= j <= i < s.len(),
        s[i] == c,
    ensures
        count_char_from(s, c, j) >= 1,
    decreases i - j,
{
    if j < i {
        lemma_count_char_from_positive(s, c, j + 1, i);
    }
}

/// The character that stands for the decimal digit `d`.
pub open spec fn spec_digit(d: nat) -> char {
    if d == 0 {
        '0'
    } else if d == 1 {
        '1'
    } else if d == 2 {
        '2'
    } else if d == 3 {
        '3'
    } else if d == 4 {
        '4'
    } else if d == 5 {
        '5'
    } else if d == 6 {
        '6'
    } else if d == 7 {
        '7'
    } else if d == 8 {
        '8'
    } else {
        '9'
    }
}

/// Decimal rendering of a natural number, most significant digit first.
pub open spec fn spec_digits(n: nat) -> Seq<char>
    decreases n,
{
    if n < 10 {
        seq![spec_digit(n)]
    } else {
        spec_digits(n / 10).push(spec_digit(n % 10))
    }
}

/// Decimal rendering of a (possibly negative) integer.
pub open spec fn spec_int_digits(n: int) -> Seq<char> {
    if n < 0 {
        seq!['-'] + spec_digits((-n) as nat)
    } else {
        spec_digits(n as nat)
    }
}

fn digit_str(d: u64) -> (r: &'static str)
    requires
        d < 10,
    ensures
        r@ == seq![spec_digit(d as nat)],
{
    proof {
        reveal_strlit("0");
        reveal_strlit("1");
        reveal_strlit("2");
        reveal_strlit("3");
        reveal_strlit("4");
        reveal_strlit("5");
        reveal_strlit("6");
        reveal_strlit("7");
        reveal_strlit("8");
        reveal_strlit("9");
    }
    if d == 0 {
        proof { assert("0"@ =~= seq![spec_digit(0)]); }
        "0"
    } else if d == 1 {
        proof { assert("1"@ =~= seq![spec_digit(1)]); }
        "1"
    } else if d == 2 {
        proof { assert("2"@ =~= seq![spec_digit(2)]); }
        "2"
    } else if d == 3 {
        proof { assert("3"@ =~= seq![spec_digit(3)]); }
        "3"
    } else if d == 4 {
        proof { assert("4"@ =~= seq![spec_digit(4)]); }
        "4"
    } else if d == 5 {
        proof { assert("5"@ =~= seq![spec_digit(5)]); }
        "5"
    } else if d == 6 {
        proof { assert("6"@ =~= seq![spec_digit(6)]); }
        "6"
    } else if d == 7 {
        proof { assert("7"@ =~= seq![spec_digit(7)]); }
        "7"
    } else if d == 8 {
        proof { assert("8"@ =~= seq![spec_digit(8)]); }
        "8"
    } else {
        proof { assert("9"@ =~= seq![spec_digit(9)]); }
        "9"
    }
}

/// Renders an unsigned integer as decimal text.
pub fn u64_to_string(n: u64) -> (r: String)
    ensures
        r@ == spec_digits(n as nat),
    decreases n,
{
    if n < 10 {
        let d = digit_str(n);
        let r = String::from_str(d);
        proof {
            assert(r@ =~= spec_digits(n as nat));
        }
        r
    } else {
        let mut r = u64_to_string(n / 10);
        r.append(digit_str(n % 10));
        proof {
            assert(r@ =~= spec_digits(n as nat));
        }
        r
    }
}

/// Renders a signed integer as decimal text, with a leading minus sign when
/// the value is negative.
pub fn i64_to_string(n: i64) -> (r: String)
    requires
        n > i64::MIN,
    ensures
        r@ == spec_int_digits(n as int),
{
    if n < 0 {
        let mut r = String::from_str("-");
        let m = -n;
        r.append(u64_to_string(m as u64).as_str());
        proof {
            reveal_strlit("-");
            assert("-"@ =~= seq!['-']);
            assert(r@ =~= spec_int_digits(n as int));
        }
        r
    } else {
        u64_to_string(n as u64)
    }
}

/// Renders a boolean as `true` or `false`.
pub fn bool_to_str(b: bool) -> (r: &'static str)
    ensures
        b ==> r@ == "true"@,
        !b ==> r@ == "false"@,
{
    if b {
        "true"
    } else {
        "false"
    }
}

} // verus!
