//! The card of a television series.

use crate::dates::{date_or_unreleased, shown_date, write_long_date, written_date};
use crate::display::{DisplayModel, DisplayModelView, Field, FieldView};
use crate::locale::{
    country_name, get_country_name_from_iso, get_language_name_from_iso, language_name,
};
use crate::models::Show;
use crate::movie::inline_field;
use crate::numbers::{decimal, digits, numeral_is_not_empty};
use crate::runtime::{
    mean_of, runtime_or_unknown, shown_runtime, unknown, write_mean_runtime, written_runtime,
};
use crate::text::{joined, lines_or, non_blank, opt_text, or_else, texts};
use crate::tmdb::{
    emphasize, emphasized, poster_address, poster_url, score_text, user_score, TITLE_COLOR,
};
use vstd::prelude::*;
use vstd::string::*;

verus! {

/// The address of a series' page.
pub open spec fn show_page(id: u64) -> Seq<char> {
    "https://themoviedb.org/tv/"@ + digits(id as nat)
}

/// The names of the languages of a list of codes.
pub open spec fn language_names(codes: Seq<Seq<char>>) -> Seq<Seq<char>> {
    codes.map_values(|code: Seq<char>| language_name(code))
}

/// The names of the countries of a list of codes.
pub open spec fn country_names(codes: Seq<Seq<char>>) -> Seq<Seq<char>> {
    codes.map_values(|code: Seq<char>| country_name(code))
}

/// A list of texts, one on each line, or `Unknown` where that is empty.
pub open spec fn listed(items: Seq<Seq<char>>) -> Seq<char> {
    or_else(joined(items, "\n"@), unknown())
}

/// What is written for the day a series first aired.
pub open spec fn show_first_aired(show: Show) -> Option<Seq<char>> {
    written_date(show.first_air_date@)
}

/// What is written for the day a series last aired.
pub open spec fn show_last_aired(show: Show) -> Option<Seq<char>> {
    written_date(show.last_air_date@)
}

/// What is written for the mean run time of a series' episodes.
pub open spec fn show_runtime(show: Show) -> Option<Seq<char>> {
    written_runtime(mean_of(show.episode_run_time@))
}

/// The fields of a series' card, given what was written for the days it first and last
/// aired and for the mean run time of its episodes.
pub open spec fn show_fields(
    show: Show,
    first_aired: Option<Seq<char>>,
    last_aired: Option<Seq<char>>,
    runtime: Option<Seq<char>>,
) -> Seq<FieldView> {
    seq![
        FieldView {
            label: "Overview"@,
            value: or_else(show.overview@, unknown()),
            inline: false,
        },
        inline_field("Status"@, or_else(show.status@, unknown())),
        inline_field("Format"@, or_else(show.format@, unknown())),
        inline_field("Created By"@, listed(texts(show.created_by@))),
        inline_field("Average Runtime"@, shown_runtime(runtime)),
        inline_field("User Score"@, score_text(show.vote_percent, show.vote_count)),
        inline_field("First Aired"@, shown_date(first_aired)),
        inline_field("Last Aired"@, shown_date(last_aired)),
        inline_field(
            "Main Language"@,
            or_else(language_name(show.original_language@), unknown()),
        ),
        inline_field("Origin Countries"@, listed(country_names(texts(show.origin_country@)))),
        inline_field("Languages"@, listed(language_names(texts(show.languages@)))),
        inline_field("Seasons"@, digits(show.number_of_seasons as nat)),
        inline_field("Episodes"@, digits(show.number_of_episodes as nat)),
        inline_field("Genres"@, listed(texts(show.genres@))),
        inline_field("Studios"@, listed(texts(show.studios@))),
        inline_field("Networks"@, listed(texts(show.networks@))),
    ]
}

/// The card of the series that a search found under `id`, given what was written for
/// the days it first and last aired and for the mean run time of its episodes.
pub open spec fn show_card(
    id: u64,
    show: Show,
    first_aired: Option<Seq<char>>,
    last_aired: Option<Seq<char>>,
    runtime: Option<Seq<char>>,
) -> DisplayModelView {
    DisplayModelView {
        title: show.name@,
        url: Some(show_page(id)),
        description: emphasized(Some(show.tagline@)),
        thumbnail: poster_address(opt_text(show.poster_path)),
        image: None,
        color: TITLE_COLOR,
        fields: show_fields(show, first_aired, last_aired, runtime),
        footer: None,
        links: Seq::empty(),
    }
}

/// Every field of a series' card has a label and a value, whatever the series holds
/// and whatever was written for its dates and its run time.
pub proof fn show_card_is_well_formed(
    id: u64,
    show: Show,
    first_aired: Option<Seq<char>>,
    last_aired: Option<Seq<char>>,
    runtime: Option<Seq<char>>,
)
    ensures
        show_card(id, show, first_aired, last_aired, runtime).is_well_formed(),
        show_card(id, show, first_aired, last_aired, runtime).fields.len() == 16,
{
    reveal_strlit("Overview");
    reveal_strlit("Status");
    reveal_strlit("Format");
    reveal_strlit("Created By");
    reveal_strlit("Average Runtime");
    reveal_strlit("User Score");
    reveal_strlit("First Aired");
    reveal_strlit("Last Aired");
    reveal_strlit("Main Language");
    reveal_strlit("Origin Countries");
    reveal_strlit("Languages");
    reveal_strlit("Seasons");
    reveal_strlit("Episodes");
    reveal_strlit("Genres");
    reveal_strlit("Studios");
    reveal_strlit("Networks");
    reveal_strlit("Unknown");
    reveal_strlit("Unreleased");
    reveal_strlit(" votes)");
    numeral_is_not_empty(show.number_of_seasons as nat);
    numeral_is_not_empty(show.number_of_episodes as nat);
}

/// The names of the languages of a list of codes.
fn names_of_languages(codes: &Vec<String>) -> (names: Vec<String>)
    ensures
        texts(names@) == language_names(texts(codes@)),
{
    let mut names: Vec<String> = Vec::new();
    let mut i: usize = 0;
    while i < codes.len()
        invariant
            i <= codes.len(),
            names.len() == i,
            forall|j: int| 0 <= j < i ==> (#[trigger] names@[j])@ == language_name(codes@[j]@),
        decreases codes.len() - i,
    {
        names.push(String::from_str(get_language_name_from_iso(codes[i].as_str())));
        i = i + 1;
    }
    assert(texts(names@) =~= language_names(texts(codes@)));
    names
}

/// The names of the countries of a list of codes.
fn names_of_countries(codes: &Vec<String>) -> (names: Vec<String>)
    ensures
        texts(names@) == country_names(texts(codes@)),
{
    let mut names: Vec<String> = Vec::new();
    let mut i: usize = 0;
    while i < codes.len()
        invariant
            i <= codes.len(),
            names.len() == i,
            forall|j: int| 0 <= j < i ==> (#[trigger] names@[j])@ == country_name(codes@[j]@),
        decreases codes.len() - i,
    {
        names.push(String::from_str(get_country_name_from_iso(codes[i].as_str())));
        i = i + 1;
    }
    assert(texts(names@) =~= country_names(texts(codes@)));
    names
}

/// Builds the card of the series that a search found under `id`, from the series and
/// from what was written for the days it first and last aired and for the mean run
/// time of its episodes. Where nothing was written for one of them, its placeholder
/// stands in the field.
pub fn show_model_from(
    id: u64,
    show: Show,
    first_aired: Option<String>,
    last_aired: Option<String>,
    runtime: Option<String>,
) -> (model: DisplayModel)
    ensures
        model@ == show_card(
            id,
            show,
            opt_text(first_aired),
            opt_text(last_aired),
            opt_text(runtime),
        ),
        model@.is_well_formed(),
{
    let language = String::from_str(get_language_name_from_iso(show.original_language.as_str()));
    let countries = names_of_countries(&show.origin_country);
    let languages = names_of_languages(&show.languages);
    let mut page = String::from_str("https://themoviedb.org/tv/");
    page.append(decimal(id).as_str());
    let fields = vec![
        Field::new("Overview", non_blank(show.overview, "Unknown"), false),
        Field::new("Status", non_blank(show.status, "Unknown"), true),
        Field::new("Format", non_blank(show.format, "Unknown"), true),
        Field::new("Created By", lines_or(&show.created_by, "Unknown"), true),
        Field::new("Average Runtime", runtime_or_unknown(runtime), true),
        Field::new("User Score", user_score(show.vote_percent, show.vote_count), true),
        Field::new("First Aired", date_or_unreleased(first_aired), true),
        Field::new("Last Aired", date_or_unreleased(last_aired), true),
        Field::new("Main Language", non_blank(language, "Unknown"), true),
        Field::new("Origin Countries", lines_or(&countries, "Unknown"), true),
        Field::new("Languages", lines_or(&languages, "Unknown"), true),
        Field::new("Seasons", decimal(show.number_of_seasons), true),
        Field::new("Episodes", decimal(show.number_of_episodes), true),
        Field::new("Genres", lines_or(&show.genres, "Unknown"), true),
        Field::new("Studios", lines_or(&show.studios, "Unknown"), true),
        Field::new("Networks", lines_or(&show.networks, "Unknown"), true),
    ];
    let model = DisplayModel {
        title: show.name,
        url: Some(page),
        description: emphasize(Some(show.tagline)),
        thumbnail: poster_url(show.poster_path),
        image: None,
        color: TITLE_COLOR,
        fields,
        footer: None,
        links: Vec::new(),
    };
    proof {
        let card = show_card(
            id,
            show,
            opt_text(first_aired),
            opt_text(last_aired),
            opt_text(runtime),
        );
        assert(model@.fields =~= card.fields);
        assert(model@.links =~= card.links);
        assert(model@ =~= card);
        show_card_is_well_formed(
            id,
            show,
            opt_text(first_aired),
            opt_text(last_aired),
            opt_text(runtime),
        );
    }
    model
}

/// Builds the card of the series that a search found under `id`. The days it first and
/// last aired are written out as long dates, and the mean run time of its episodes in
/// words; what cannot be read or is missing gets its placeholder.
pub fn show_model(id: u64, show: Show) -> (model: DisplayModel)
    ensures
        model@ == show_card(
            id,
            show,
            show_first_aired(show),
            show_last_aired(show),
            show_runtime(show),
        ),
        model@.is_well_formed(),
{
    let first_aired = write_long_date(show.first_air_date.as_str());
    let last_aired = write_long_date(show.last_air_date.as_str());
    let runtime = write_mean_runtime(&show.episode_run_time);
    show_model_from(id, show, first_aired, last_aired, runtime)
}

} // verus!
