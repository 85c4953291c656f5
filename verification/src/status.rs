//! What the bot says about itself: the activity that it shows once it is connected,
//! and the card with its version.

use crate::display::{DisplayModel, DisplayModelView, Field, Link};
use crate::numbers::{decimal, digits};
use vstd::prelude::*;
use vstd::string::*;

verus! {

/// The colour of a card that names none: black.
pub const PLAIN_COLOR: u32 = 0;

/// The activity shown for a bot that serves so many guilds.
pub open spec fn presence_text(guilds: u64) -> Seq<char> {
    "on "@ + digits(guilds as nat) + " guilds"@
}

/// The card with the version of the bot and of the compiler that built it.
pub open spec fn version_card(
    bot_name: Seq<char>,
    bot_version: Seq<char>,
    rust_version: Seq<char>,
) -> DisplayModelView {
    DisplayModelView {
        title: "Version information for "@ + bot_name,
        url: None,
        description: "**Bot Version**: "@ + bot_version + "\n**Rust Version**: "@ + rust_version,
        thumbnail: None,
        image: None,
        color: PLAIN_COLOR,
        fields: Seq::empty(),
        footer: None,
        links: Seq::empty(),
    }
}

/// The activity to show for a bot that serves so many guilds.
pub fn presence(guilds: u64) -> (text: String)
    ensures
        text@ == presence_text(guilds),
{
    let mut text = String::from_str("on ");
    text.append(decimal(guilds).as_str());
    text.append(" guilds");
    text
}

/// Builds the card with the version of the bot and of the compiler that built it.
pub fn version_model(bot_name: &str, bot_version: &str, rust_version: &str) -> (model:
    DisplayModel)
    ensures
        model@ == version_card(bot_name@, bot_version@, rust_version@),
        model@.is_well_formed(),
{
    let mut title = String::from_str("Version information for ");
    title.append(bot_name);
    let mut description = String::from_str("**Bot Version**: ");
    description.append(bot_version);
    description.append("\n**Rust Version**: ");
    description.append(rust_version);
    let fields: Vec<Field> = Vec::new();
    let links: Vec<Link> = Vec::new();
    let model = DisplayModel {
        title,
        url: None,
        description,
        thumbnail: None,
        image: None,
        color: PLAIN_COLOR,
        fields,
        footer: None,
        links,
    };
    proof {
        let card = version_card(bot_name@, bot_version@, rust_version@);
        assert(model@.fields =~= card.fields);
        assert(model@.links =~= card.links);
        assert(model@ =~= card);
    }
    model
}

} // verus!
