//! What the cards of films, series and collections have in common.

use crate::numbers::{decimal, digits, format_int, grouped};
use crate::text::{is_present, opt_text, strip_char, without};
use vstd::prelude::*;
use vstd::string::*;

verus! {

/// The colour of the card of a film or a series.
pub const TITLE_COLOR: u32 = 0x01b4e4;

/// The colour of the card of a collection.
pub const COLLECTION_COLOR: u32 = 0x0001_d277;

/// The host of the images together with the path of the full-size pictures.
pub open spec fn image_base() -> Seq<char> {
    "https://image.tmdb.org/t/p/original/"@
}

/// The address of a poster: the image host in front of the path, from which every
/// slash is taken out. There is none without a path, or where nothing is left of it.
pub open spec fn poster_address(path: Option<Seq<char>>) -> Option<Seq<char>> {
    match path {
        Some(p) => if without(p, '/').len() > 0 {
            Some(image_base() + without(p, '/'))
        } else {
            None
        },
        None => None,
    }
}

/// The user score: the vote average in percent, with the number of votes behind it.
pub open spec fn score_text(percent: u32, votes: u64) -> Seq<char> {
    digits(percent as nat) + "% ("@ + digits(votes as nat) + " votes)"@
}

/// An amount of money in dollars, with thousands separators.
pub open spec fn money_text(amount: u64) -> Seq<char> {
    "$"@ + grouped(amount as nat)
}

/// A tagline between emphasis marks; nothing for a tagline that is missing or empty.
pub open spec fn emphasized(tagline: Option<Seq<char>>) -> Seq<char> {
    match tagline {
        Some(t) => if t.len() > 0 {
            "*"@ + t + "*"@
        } else {
            Seq::empty()
        },
        None => Seq::empty(),
    }
}

/// The address of a poster.
pub fn poster_url(path: Option<String>) -> (address: Option<String>)
    ensures
        opt_text(address) == poster_address(opt_text(path)),
{
    match path {
        Some(p) => {
            let name = strip_char(p.as_str(), '/');
            if name.as_str().is_empty() {
                None
            } else {
                let mut address = String::from_str("https://image.tmdb.org/t/p/original/");
                address.append(name.as_str());
                Some(address)
            }
        },
        None => None,
    }
}

/// The user score as it is shown.
pub fn user_score(percent: u32, votes: u64) -> (text: String)
    ensures
        text@ == score_text(percent, votes),
{
    let mut text = decimal(percent as u64);
    text.append("% (");
    text.append(decimal(votes).as_str());
    text.append(" votes)");
    text
}

/// An amount of money as it is shown.
pub fn money(amount: u64) -> (text: String)
    ensures
        text@ == money_text(amount),
{
    let mut text = String::from_str("$");
    text.append(format_int(amount).as_str());
    text
}

/// A tagline as it is shown.
pub fn emphasize(tagline: Option<String>) -> (text: String)
    ensures
        text@ == emphasized(opt_text(tagline)),
{
    match tagline {
        Some(t) => {
            if t.as_str().is_empty() {
                String::new()
            } else {
                let mut text = String::from_str("*");
                text.append(t.as_str());
                text.append("*");
                text
            }
        },
        None => String::new(),
    }
}

/// Something is shown for a tagline if and only if the tagline is there and not
/// empty.
pub proof fn emphasis_needs_tagline(tagline: Option<Seq<char>>)
    ensures
        emphasized(tagline).len() > 0 <==> is_present(tagline),
{
}

} // verus!
