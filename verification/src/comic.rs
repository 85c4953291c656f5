//! The card of a comic, the addresses of the comic site, and the choice of a random
//! comic.

use crate::display::{DisplayModel, DisplayModelView, Field, Link, LinkView};
use crate::models::Comic;
use crate::numbers::{decimal, digits, numeral_is_not_empty};
use rand::Rng;
use vstd::prelude::*;
use vstd::string::*;

verus! {

/// The colour of a comic's card.
pub const COMIC_COLOR: u32 = 0xfafafa;

/// The number that a random choice never gives: the comic site has no comic under it.
pub const EXCLUDED_COMIC: u16 = 404;

/// Where the newest comic is described.
pub open spec fn latest_address() -> Seq<char> {
    "https://xkcd.com/info.0.json"@
}

/// Where the comic with this number is described.
pub open spec fn comic_address(number: u16) -> Seq<char> {
    "https://xkcd.com/"@ + digits(number as nat) + "/info.0.json"@
}

/// The page of the comic with this number.
pub open spec fn comic_page(number: u16) -> Seq<char> {
    "https://xkcd.com/"@ + digits(number as nat) + "/"@
}

/// The page that explains the comic with this number.
pub open spec fn comic_wiki(number: u16) -> Seq<char> {
    "https://explainxkcd.com/wiki/index.php/"@ + digits(number as nat)
}

/// The card of a comic: title, caption and picture, the number at the foot, and links
/// to the comic's page and to the page that explains it.
pub open spec fn comic_card(comic: Comic) -> DisplayModelView {
    DisplayModelView {
        title: comic.title@,
        url: None,
        description: comic.alt@,
        thumbnail: None,
        image: Some(comic.img@),
        color: COMIC_COLOR,
        fields: Seq::empty(),
        footer: Some("xkcd comic no. "@ + digits(comic.num as nat)),
        links: seq![
            LinkView { label: "View on xkcd"@, url: comic_page(comic.num) },
            LinkView { label: "View wiki"@, url: comic_wiki(comic.num) },
        ],
    }
}

/// Whether a number that was drawn is taken: every number but the excluded one is.
pub open spec fn is_accepted(number: u16) -> bool {
    number != EXCLUDED_COMIC
}

/// The card of a comic has two link buttons, and both can be shown.
pub proof fn comic_card_is_well_formed(comic: Comic)
    ensures
        comic_card(comic).is_well_formed(),
        comic_card(comic).links.len() == 2,
{
    reveal_strlit("View on xkcd");
    reveal_strlit("View wiki");
    reveal_strlit("/");
    numeral_is_not_empty(comic.num as nat);
}

/// rand's `Rng::gen_range` on the generator of the thread, `rand::thread_rng`, for the
/// numbers from `low` up to but not including `high`. It gives one of these numbers;
/// which one is left open. rand panics on an empty range, so there has to be a number
/// to give.
#[verifier::external_body]
fn random_between(low: u16, high: u16) -> (number: u16)
    requires
        low < high,
    ensures
        low <= number < high,
{
    rand::thread_rng().gen_range(low..high)
}

/// Draws the number of a comic at random: one of the numbers from one up to but not
/// including the number of the newest comic. The excluded number may come out; whether
/// a number is taken is for `accept` to say.
pub fn draw_comic(latest: u16) -> (number: u16)
    requires
        latest > 1,
    ensures
        1 <= number < latest,
{
    random_between(1, latest)
}

/// Whether a number that was drawn is taken. The excluded number is not: another
/// number has to be drawn in its place.
pub fn accept(number: u16) -> (taken: bool)
    ensures
        taken == is_accepted(number),
{
    number != EXCLUDED_COMIC
}

/// Where the newest comic is described.
pub fn latest_url() -> (url: String)
    ensures
        url@ == latest_address(),
{
    String::from_str("https://xkcd.com/info.0.json")
}

/// Where the comic with this number is described.
pub fn comic_url(number: u16) -> (url: String)
    ensures
        url@ == comic_address(number),
{
    let mut url = String::from_str("https://xkcd.com/");
    url.append(decimal(number as u64).as_str());
    url.append("/info.0.json");
    url
}

/// Builds the card of a comic.
pub fn comic_model(comic: Comic) -> (model: DisplayModel)
    ensures
        model@ == comic_card(comic),
        model@.is_well_formed(),
{
    let number = decimal(comic.num as u64);
    let mut page = String::from_str("https://xkcd.com/");
    page.append(number.as_str());
    page.append("/");
    let mut wiki = String::from_str("https://explainxkcd.com/wiki/index.php/");
    wiki.append(number.as_str());
    let mut footer = String::from_str("xkcd comic no. ");
    footer.append(number.as_str());
    let links = vec![
        Link::new(String::from_str("View on xkcd"), page),
        Link::new(String::from_str("View wiki"), wiki),
    ];
    let fields: Vec<Field> = Vec::new();
    let model = DisplayModel {
        title: comic.title,
        url: None,
        description: comic.alt,
        thumbnail: None,
        image: Some(comic.img),
        color: COMIC_COLOR,
        fields,
        footer: Some(footer),
        links,
    };
    proof {
        let card = comic_card(comic);
        assert(model@.fields =~= card.fields);
        assert(model@.links =~= card.links);
        assert(model@ =~= card);
        comic_card_is_well_formed(comic);
    }
    model
}

} // verus!
