//! Small verified text helpers: decimal rendering of integers, string
//! equality, and the `name|...` segment split used by the move codec.
use vstd::prelude::*;

verus! {

/// The character that stands for the decimal digit `d`.
pub open spec fn digit_char(d: int) -> char {
    if d == 0 {
        '0'
    } else if d == 1 {
        '1'
    } else if d == 2 {
        '2'
    } else if d == 3 {
        '3'
    } else if d == 4 {
        '4'
    } else if d == 5 {
        '5'
    } else if d == 6 {
        '6'
    } else if d == 7 {
        '7'
    } else if d == 8 {
        '8'
    } else {
        '9'
    }
}

/// Decimal text of a natural number, most significant digit first, no leading zeros.
pub open spec fn nat_text(n: nat) -> Seq<char>
    decreases n,
{
    if n < 10 {
        seq![digit_char(n as int)]
    } else {
        nat_text(n / 10).push(digit_char((n % 10) as int))
    }
}

/// Decimal text of an integer as Rust's `Display` writes it: a leading `-` for negatives.
pub open spec fn int_text(i: int) -> Seq<char> {
    if i < 0 {
        seq!['-'] + nat_text((-i) as nat)
    } else {
        nat_text(i as nat)
    }
}

fn digit_str(d: u32) -> (s: &'static str)
    requires
        d < 10,
    ensures
        s@ == seq![digit_char(d as int)],
{
    if d == 0 {
        proof { reveal_strlit("0"); }
        "0"
    } else if d == 1 {
        proof { reveal_strlit("1"); }
        "1"
    } else if d == 2 {
        proof { reveal_strlit("2"); }
        "2"
    } else if d == 3 {
        proof { reveal_strlit("3"); }
        "3"
    } else if d == 4 {
        proof { reveal_strlit("4"); }
        "4"
    } else if d == 5 {
        proof { reveal_strlit("5"); }
        "5"
    } else if d == 6 {
        proof { reveal_strlit("6"); }
        "6"
    } else if d == 7 {
        proof { reveal_strlit("7"); }
        "7"
    } else if d == 8 {
        proof { reveal_strlit("8"); }
        "8"
    } else {
        proof { reveal_strlit("9"); }
        "9"
    }
}

/// Appends the decimal text of `n` to `out`.
pub fn push_nat_text(out: &mut String, n: u32)
    ensures
        final(out)@ == old(out)@ + nat_text(n as nat),
    decreases n,
{
    if n < 10 {
        out.append(digit_str(n));
    } else {
        push_nat_text(out, n / 10);
        out.append(digit_str(n % 10));
        proof {
            assert(nat_text(n as nat) == nat_text((n / 10) as nat).push(
                digit_char((n % 10) as int),
            ));
        }
    }
}

/// Appends the decimal text of `i` to `out`, with a `-` in front of a negative number.
pub fn push_int_text(out: &mut String, i: i32)
    ensures
        final(out)@ == old(out)@ + int_text(i as int),
{
    if i < 0 {
        proof { reveal_strlit("-"); }
        out.append("-");
        let magnitude: i64 = 0i64 - (i as i64);
        let m: u32 = magnitude as u32;
        push_nat_text(out, m);
        proof {
            assert(old(out)@ + int_text(i as int) =~= old(out)@ + seq!['-'] + nat_text(
                m as nat,
            ));
        }
    } else {
        push_nat_text(out, i as u32);
    }
}

/// Whether two strings hold the same characters.
pub fn str_eq(a: &str, b: &str) -> (r: bool)
    ensures
        r == (a@ == b@),
{
    let n = a.unicode_len();
    let m = b.unicode_len();
    if n != m {
        return false;
    }
    let mut i: usize = 0;
    while i < n
        invariant
            n == a@.len(),
            m == b@.len(),
            n == m,
            i <= n,
            forall|j: int| 0 <= j < i ==> a@[j] == b@[j],
        decreases n - i,
    {
        if a.get_char(i) != b.get_char(i) {
            return false;
        }
        i = i + 1;
    }
    proof {
        assert(a@ =~= b@);
    }
    true
}

/// Index where the first `|`-separated segment of `s` ends, scanning from `i`:
/// the first position at or after `i` that holds `|`, or the length of `s`.
pub open spec fn segment_end(s: Seq<char>, i: nat) -> nat
    decreases s.len() - i,
{
    if i >= s.len() {
        s.len()
    } else if s[i as int] == '|' {
        i
    } else {
        segment_end(s, i + 1)
    }
}

/// The text before the first `|` of `s` (all of `s` when it holds no `|`):
/// what `s.split('|').nth(0)` yields.
pub open spec fn first_segment(s: Seq<char>) -> Seq<char> {
    s.take(segment_end(s, 0) as int)
}

/// The first segment of `a + "|" + b`, where `a` holds no `|`, is `a`.
pub proof fn lemma_first_segment_of_joined(a: Seq<char>, b: Seq<char>)
    requires
        !a.contains('|'),
    ensures
        first_segment(a + seq!['|'] + b) == a,
{
    let s = a + seq!['|'] + b;
    lemma_segment_end_from(a, b, 0);
    assert(s.take(a.len() as int) =~= a);
}

proof fn lemma_segment_end_from(a: Seq<char>, b: Seq<char>, i: nat)
    requires
        !a.contains('|'),
        i <= a.len(),
    ensures
        segment_end(a + seq!['|'] + b, i) == a.len(),
    decreases a.len() - i,
{
    let s = a + seq!['|'] + b;
    if i < a.len() {
        assert(s[i as int] == a[i as int]);
        assert(a[i as int] != '|') by {
            if a[i as int] == '|' {
                assert(a.contains('|'));
            }
        }
        lemma_segment_end_from(a, b, i + 1);
    } else {
        assert(s[i as int] == '|');
    }
}

/// The text of `s` before its first `|`.
pub fn first_segment_of(s: &str) -> (r: String)
    ensures
        r@ == first_segment(s@),
        s@.len() >= r@.len() && s@.take(r@.len() as int) == r@,
        !r@.contains('|'),
        r@.len() == s@.len() || s@[r@.len() as int] == '|',
{
    proof {
        lemma_first_segment_is_bar_free_prefix(s@);
    }
    let n = s.unicode_len();
    let mut i: usize = 0;
    while i < n && s.get_char(i) != '|'
        invariant
            n == s@.len(),
            i <= n,
            segment_end(s@, i as nat) == segment_end(s@, 0),
        decreases n - i,
    {
        i = i + 1;
    }
    proof {
        if i < n {
            assert(s@[i as int] == '|');
        }
        assert(segment_end(s@, i as nat) == i as nat);
    }
    let head = s.substring_char(0, i);
    String::from_str(head)
}

/// The first segment of `s` is a prefix of `s` that holds no `|` and is
/// followed by a `|` or by the end of `s`.
pub proof fn lemma_first_segment_is_bar_free_prefix(s: Seq<char>)
    ensures
        s.len() >= first_segment(s).len(),
        s.take(first_segment(s).len() as int) == first_segment(s),
        !first_segment(s).contains('|'),
        first_segment(s).len() == s.len() || s[first_segment(s).len() as int] == '|',
{
    lemma_segment_end_scan(s, 0);
    let k = segment_end(s, 0);
    assert(first_segment(s).len() == k);
    assert forall|j: int| 0 <= j < first_segment(s).len() implies first_segment(s)[j] != '|' by {
        assert(first_segment(s)[j] == s[j]);
    }
}

proof fn lemma_segment_end_scan(s: Seq<char>, i: nat)
    requires
        i <= s.len(),
    ensures
        i <= segment_end(s, i) <= s.len(),
        segment_end(s, i) == s.len() || s[segment_end(s, i) as int] == '|',
        forall|j: int| i <= j < segment_end(s, i) ==> s[j] != '|',
    decreases s.len() - i,
{
    if i < s.len() && s[i as int] != '|' {
        lemma_segment_end_scan(s, i + 1);
    }
}

/// The number that a run of decimal digits stands for.
pub open spec fn decimal_value(digits: Seq<char>) -> nat
    decreases digits.len(),
{
    if digits.len() == 0 {
        0
    } else {
        decimal_value(digits.drop_last()) * 10 + digit_value(digits.last())
    }
}

/// The value of a decimal digit character.
pub open spec fn digit_value(c: char) -> nat {
    if c == '1' {
        1
    } else if c == '2' {
        2
    } else if c == '3' {
        3
    } else if c == '4' {
        4
    } else if c == '5' {
        5
    } else if c == '6' {
        6
    } else if c == '7' {
        7
    } else if c == '8' {
        8
    } else if c == '9' {
        9
    } else {
        0
    }
}

/// Whether `c` is one of the ten decimal digits.
pub open spec fn is_digit(c: char) -> bool {
    c == '0' || c == '1' || c == '2' || c == '3' || c == '4' || c == '5' || c == '6' || c == '7'
        || c == '8' || c == '9'
}

/// The decimal text of `n` is a non-empty run of digits that stands for `n`,
/// with no leading zero unless `n` is zero.
pub proof fn lemma_nat_text_value(n: nat)
    ensures
        nat_text(n).len() > 0,
        forall|i: int| 0 <= i < nat_text(n).len() ==> is_digit(#[trigger] nat_text(n)[i]),
        decimal_value(nat_text(n)) == n,
        nat_text(n)[0] == '0' ==> n == 0,
    decreases n,
{
    if n < 10 {
        let c = digit_char(n as int);
        assert(seq![c].drop_last() =~= Seq::<char>::empty());
        assert(decimal_value(Seq::<char>::empty()) == 0);
        assert(decimal_value(seq![c]) == digit_value(c));
    } else {
        lemma_nat_text_value(n / 10);
        let t = nat_text(n / 10);
        assert(nat_text(n) == t.push(digit_char((n % 10) as int)));
        assert(nat_text(n).drop_last() =~= t);
        assert(n == (n / 10) * 10 + n % 10);
        assert(digit_value(digit_char((n % 10) as int)) == n % 10);
        assert forall|i: int| 0 <= i < nat_text(n).len() implies is_digit(#[trigger] nat_text(n)[i]) by {
            if i < t.len() {
                assert(nat_text(n)[i] == t[i]);
            }
        }
        assert(nat_text(n)[0] == t[0]);
    }
}

/// The decimal text of an integer is a `-` followed by the text of its
/// magnitude when it is negative, and the text of the number otherwise; the
/// digits stand for the magnitude.
pub proof fn lemma_int_text_value(i: int)
    ensures
        i < 0 ==> int_text(i)[0] == '-' && decimal_value(int_text(i).drop_first()) == -i,
        i >= 0 ==> decimal_value(int_text(i)) == i && is_digit(int_text(i)[0]),
{
    if i < 0 {
        lemma_nat_text_value((-i) as nat);
        assert(int_text(i).drop_first() =~= nat_text((-i) as nat));
    } else {
        lemma_nat_text_value(i as nat);
    }
}

} // verus!
