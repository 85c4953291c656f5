//! Decimal rendering of integers, plain and with thousands separators.

use vstd::prelude::*;
use vstd::string::*;

verus! {

/// The character that stands for one decimal digit. Only values below ten are meant.
pub open spec fn digit(d: nat) -> char {
    if d == 0 {
        '0'
    } else if d == 1 {
        '1'
    } else if d == 2 {
        '2'
    } else if d == 3 {
        '3'
    } else if d == 4 {
        '4'
    } else if d == 5 {
        '5'
    } else if d == 6 {
        '6'
    } else if d == 7 {
        '7'
    } else if d == 8 {
        '8'
    } else {
        '9'
    }
}

/// The digit that a character stands for; zero for a character that is no digit.
pub open spec fn digit_value(c: char) -> nat {
    if c == '1' {
        1
    } else if c == '2' {
        2
    } else if c == '3' {
        3
    } else if c == '4' {
        4
    } else if c == '5' {
        5
    } else if c == '6' {
        6
    } else if c == '7' {
        7
    } else if c == '8' {
        8
    } else if c == '9' {
        9
    } else {
        0
    }
}

/// The decimal numeral of `n`, most significant digit first, without leading zeros.
pub open spec fn digits(n: nat) -> Seq<char>
    decreases n,
{
    if n < 10 {
        seq![digit(n)]
    } else {
        digits(n / 10).push(digit(n % 10))
    }
}

/// The numeral of a year as it is shown: a minus sign in front of a year before zero.
pub open spec fn signed_digits(n: int) -> Seq<char> {
    if n < 0 {
        seq!['-'] + digits((-n) as nat)
    } else {
        digits(n as nat)
    }
}

/// `s` with a comma in front of every complete group of three characters, counted
/// from the end; no comma stands at the front.
pub open spec fn separated(s: Seq<char>) -> Seq<char>
    decreases s.len(),
{
    if s.len() <= 3 {
        s
    } else {
        separated(s.take(s.len() - 3)) + seq![','] + s.skip(s.len() - 3)
    }
}

/// The decimal numeral of `n` with thousands separators: `1,234,567`.
pub open spec fn grouped(n: nat) -> Seq<char> {
    separated(digits(n))
}

/// `s` without its commas.
pub open spec fn without_separators(s: Seq<char>) -> Seq<char> {
    s.filter(|c: char| c != ',')
}

/// The number that a sequence of digits denotes, read as a decimal numeral.
pub open spec fn number(s: Seq<char>) -> nat
    decreases s.len(),
{
    if s.len() == 0 {
        0
    } else {
        number(s.drop_last()) * 10 + digit_value(s.last())
    }
}

/// Whether no character of `s` is a comma.
pub open spec fn comma_free(s: Seq<char>) -> bool {
    forall|i: int| 0 <= i < s.len() ==> s[i] != ','
}

/// A numeral has at least one digit.
pub proof fn numeral_is_not_empty(n: nat)
    ensures
        digits(n).len() >= 1,
{
    lemma_digits_shape(n);
}

proof fn lemma_digits_shape(n: nat)
    ensures
        digits(n).len() >= 1,
        comma_free(digits(n)),
        number(digits(n)) == n,
    decreases n,
{
    if n < 10 {
        assert(digits(n).drop_last() =~= Seq::<char>::empty());
        assert(number(digits(n).drop_last()) == 0);
    } else {
        lemma_digits_shape(n / 10);
        assert(digits(n).drop_last() =~= digits(n / 10));
    }
}

proof fn lemma_comma_free_kept(s: Seq<char>)
    requires
        comma_free(s),
    ensures
        without_separators(s) == s,
    decreases s.len(),
{
    reveal(Seq::filter);
    if s.len() > 0 {
        lemma_comma_free_kept(s.drop_last());
        assert(s.drop_last().push(s.last()) =~= s);
    }
}

proof fn lemma_separators_removed(s: Seq<char>)
    requires
        comma_free(s),
    ensures
        without_separators(separated(s)) == s,
    decreases s.len(),
{
    let keep = |c: char| c != ',';
    if s.len() <= 3 {
        lemma_comma_free_kept(s);
    } else {
        let cut = s.len() - 3;
        let head = s.take(cut);
        let tail = s.skip(cut);
        lemma_separators_removed(head);
        lemma_comma_free_kept(tail);
        let comma = seq![','];
        assert(comma.filter(keep) =~= Seq::<char>::empty()) by {
            reveal_with_fuel(Seq::filter, 2);
            assert(comma.drop_last() =~= Seq::<char>::empty());
        }
        Seq::filter_distributes_over_add(separated(head), comma, keep);
        Seq::filter_distributes_over_add(separated(head) + comma, tail, keep);
        assert(head + Seq::<char>::empty() + tail =~= s);
    }
}

/// A grouped numeral without its separators is the plain numeral, and reading that
/// back gives the number that was written.
pub proof fn grouped_reads_back(n: nat)
    ensures
        without_separators(grouped(n)) == digits(n),
        number(digits(n)) == n,
        number(without_separators(grouped(n))) == n,
{
    lemma_digits_shape(n);
    lemma_separators_removed(digits(n));
}

/// A number below one thousand is written without a separator.
pub proof fn grouped_below_thousand(n: nat)
    requires
        n < 1000,
    ensures
        grouped(n) == digits(n),
{
    if n >= 10 {
        if n >= 100 {
            assert(digits(n / 100).len() == 1);
        }
        assert(digits(n / 10).len() <= 2);
    }
}

fn digit_text(d: u64) -> (text: &'static str)
    requires
        d < 10,
    ensures
        text@ == seq![digit(d as nat)],
{
    let text = if d == 0 {
        "0"
    } else if d == 1 {
        "1"
    } else if d == 2 {
        "2"
    } else if d == 3 {
        "3"
    } else if d == 4 {
        "4"
    } else if d == 5 {
        "5"
    } else if d == 6 {
        "6"
    } else if d == 7 {
        "7"
    } else if d == 8 {
        "8"
    } else {
        "9"
    };
    proof {
        reveal_strlit("0");
        reveal_strlit("1");
        reveal_strlit("2");
        reveal_strlit("3");
        reveal_strlit("4");
        reveal_strlit("5");
        reveal_strlit("6");
        reveal_strlit("7");
        reveal_strlit("8");
        reveal_strlit("9");
        assert(text@ =~= seq![digit(d as nat)]);
    }
    text
}

/// Writes `n` as a decimal numeral.
pub fn decimal(n: u64) -> (text: String)
    ensures
        text@ == digits(n as nat),
    decreases n,
{
    if n < 10 {
        String::from_str(digit_text(n))
    } else {
        let mut text = decimal(n / 10);
        text.append(digit_text(n % 10));
        assert(text@ =~= digits(n as nat));
        text
    }
}

/// Writes a year, with a minus sign in front of a year before zero.
pub fn signed_decimal(n: i32) -> (text: String)
    ensures
        text@ == signed_digits(n as int),
{
    if n < 0 {
        let magnitude: u64 = (-(n as i64)) as u64;
        let mut text = String::from_str("-");
        text.append(decimal(magnitude).as_str());
        proof {
            reveal_strlit("-");
            assert("-"@ =~= seq!['-']);
        }
        text
    } else {
        decimal(n as u64)
    }
}

/// Writes `value` as a decimal numeral with a comma between groups of three digits,
/// counted from the least significant end: `0`, `999`, `1,000`, `1,234,567`.
pub fn format_int(value: u64) -> (text: String)
    ensures
        text@ == grouped(value as nat),
{
    let numeral = decimal(value);
    let whole = numeral.as_str();
    let mut end: usize = whole.unicode_len();
    let mut tail = String::new();
    proof {
        assert(whole@.take(end as int) =~= whole@);
        assert(separated(whole@) + tail@ =~= separated(whole@));
    }
    while end > 3
        invariant
            end <= whole@.len(),
            separated(whole@) == separated(whole@.take(end as int)) + tail@,
        decreases end,
    {
        let group = whole.substring_char(end - 3, end);
        let mut next = String::from_str(",");
        next.append(group);
        next.append(tail.as_str());
        proof {
            reveal_strlit(",");
            assert(","@ =~= seq![',']);
            let prefix = whole@.take(end as int);
            assert(prefix.take(prefix.len() - 3) =~= whole@.take(end - 3));
            assert(prefix.skip(prefix.len() - 3) =~= group@);
            assert(separated(prefix) + tail@ =~= separated(whole@.take(end - 3)) + next@);
        }
        tail = next;
        end = end - 3;
    }
    let mut text = String::from_str(whole.substring_char(0, end));
    text.append(tail.as_str());
    proof {
        assert(whole@.subrange(0, end as int) =~= whole@.take(end as int));
    }
    text
}

} // verus!
