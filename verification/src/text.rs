//! Small operations on text, stated over sequences of characters.

use itertools::Itertools;
use vstd::prelude::*;
use vstd::string::*;

verus! {

/// `value`, or `fallback` where `value` is empty.
pub open spec fn or_else(value: Seq<char>, fallback: Seq<char>) -> Seq<char> {
    if value.len() == 0 {
        fallback
    } else {
        value
    }
}

/// The text of an optional value, or `fallback` where the value is missing or empty.
pub open spec fn present_or(value: Option<Seq<char>>, fallback: Seq<char>) -> Seq<char> {
    match value {
        Some(text) => or_else(text, fallback),
        None => fallback,
    }
}

/// Whether an optional value is there and not empty.
pub open spec fn is_present(value: Option<Seq<char>>) -> bool {
    match value {
        Some(text) => text.len() > 0,
        None => false,
    }
}

/// `s` without the occurrences of `c`.
pub open spec fn without(s: Seq<char>, c: char) -> Seq<char> {
    s.filter(|x: char| x != c)
}

/// The characters of each string of a list.
pub open spec fn texts(items: Seq<String>) -> Seq<Seq<char>> {
    items.map_values(|s: String| s@)
}

/// The characters of an optional string.
pub open spec fn opt_text(item: Option<String>) -> Option<Seq<char>> {
    match item {
        Some(s) => Some(s@),
        None => None,
    }
}

/// The items written one after the other with `sep` between each two of them.
pub open spec fn joined(items: Seq<Seq<char>>, sep: Seq<char>) -> Seq<char>
    decreases items.len(),
{
    if items.len() == 0 {
        Seq::empty()
    } else if items.len() == 1 {
        items[0]
    } else {
        joined(items.drop_last(), sep) + sep + items.last()
    }
}

/// Whether two strings hold the same characters.
pub fn text_eq(a: &str, b: &str) -> (same: bool)
    ensures
        same == (a@ == b@),
{
    let n: usize = a.unicode_len();
    if n != b.unicode_len() {
        return false;
    }
    let mut i: usize = 0;
    while i < n
        invariant
            n == a@.len(),
            n == b@.len(),
            i <= n,
            forall|j: int| 0 <= j < i ==> a@[j] == b@[j],
        decreases n - i,
    {
        if a.get_char(i) != b.get_char(i) {
            return false;
        }
        i = i + 1;
    }
    assert(a@ =~= b@);
    true
}

/// Hands `value` back, or a copy of `fallback` where `value` is empty.
pub fn non_blank(value: String, fallback: &str) -> (text: String)
    ensures
        text@ == or_else(value@, fallback@),
{
    if value.as_str().is_empty() {
        String::from_str(fallback)
    } else {
        value
    }
}

/// Hands the value back, or a copy of `fallback` where the value is missing or empty.
pub fn text_or(value: Option<String>, fallback: &str) -> (text: String)
    ensures
        text@ == present_or(opt_text(value), fallback@),
{
    match value {
        Some(text) => non_blank(text, fallback),
        None => String::from_str(fallback),
    }
}

/// Copies `text` without the occurrences of `c`.
pub fn strip_char(text: &str, c: char) -> (stripped: String)
    ensures
        stripped@ == without(text@, c),
{
    let n: usize = text.unicode_len();
    let mut stripped = String::new();
    let mut i: usize = 0;
    proof {
        reveal(Seq::filter);
        assert(text@.take(0) =~= Seq::<char>::empty());
    }
    while i < n
        invariant
            n == text@.len(),
            i <= n,
            stripped@ == without(text@.take(i as int), c),
        decreases n - i,
    {
        proof {
            reveal(Seq::filter);
            assert(text@.take(i + 1).drop_last() =~= text@.take(i as int));
        }
        if text.get_char(i) != c {
            let one = text.substring_char(i, i + 1);
            stripped.append(one);
            proof {
                assert(one@ =~= seq![text@[i as int]]);
                assert(stripped@ =~= without(text@.take(i as int), c).push(text@[i as int]));
            }
        }
        i = i + 1;
    }
    proof {
        assert(text@.take(n as int) =~= text@);
    }
    stripped
}

/// `Itertools::join` of itertools, on a list of strings: the strings written one after
/// the other, each in full, with `sep` between each two of them, and nothing for an
/// empty list.
#[verifier::external_body]
fn join(items: &Vec<String>, sep: &str) -> (text: String)
    ensures
        text@ == joined(texts(items@), sep@),
{
    items.iter().join(sep)
}

/// The items, one on each line.
pub fn lines(items: &Vec<String>) -> (text: String)
    ensures
        text@ == joined(texts(items@), "\n"@),
{
    join(items, "\n")
}

/// The items, one on each line, or `fallback` where that text is empty.
pub fn lines_or(items: &Vec<String>, fallback: &str) -> (text: String)
    ensures
        text@ == or_else(joined(texts(items@), "\n"@), fallback@),
{
    non_blank(lines(items), fallback)
}

} // verus!
