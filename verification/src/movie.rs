//! The card of a film.

use crate::dates::{date_or_unreleased, shown_date, write_long_date, written_date};
use crate::display::{DisplayModel, DisplayModelView, Field, FieldView};
use crate::locale::{get_language_name_from_iso, language_name};
use crate::models::Movie;
use crate::numbers::{decimal, digits, numeral_is_not_empty};
use crate::runtime::{runtime_or_unknown, shown_runtime, unknown, write_runtime, written_runtime};
use crate::text::{
    is_present, joined, lines_or, non_blank, opt_text, or_else, present_or, text_or, texts,
};
use crate::tmdb::{
    emphasize, emphasized, money, money_text, poster_address, poster_url, score_text, user_score,
    TITLE_COLOR,
};
use vstd::prelude::*;
use vstd::string::*;

verus! {

/// A field that may stand beside its neighbours.
pub open spec fn inline_field(label: Seq<char>, value: Seq<char>) -> FieldView {
    FieldView { label, value, inline: true }
}

/// The description of a film: the tagline between emphasis marks, then the overview.
/// A blank line parts the two, and stands only where there is a tagline.
pub open spec fn movie_description(tagline: Option<Seq<char>>, overview: Option<Seq<char>>) -> Seq<
    char,
> {
    emphasized(tagline) + match overview {
        Some(text) => if is_present(tagline) {
            "\n\n"@ + text
        } else {
            text
        },
        None => Seq::empty(),
    }
}

/// The link to a film's own site, or the words that say that it has none.
pub open spec fn website_text(homepage: Option<Seq<char>>) -> Seq<char> {
    match homepage {
        Some(h) => if h.len() > 0 {
            "[Website]("@ + h + ")"@
        } else {
            "No Website"@
        },
        None => "No Website"@,
    }
}

/// The links of a film to other sites: its own site, and behind a bar its page at IMDb
/// where the page is known.
pub open spec fn external_links(homepage: Option<Seq<char>>, imdb_id: Option<Seq<char>>) -> Seq<
    char,
> {
    website_text(homepage) + match imdb_id {
        Some(id) => if id.len() > 0 {
            " | [IMDb](https://www.imdb.com/title/"@ + id + ")"@
        } else {
            Seq::empty()
        },
        None => Seq::empty(),
    }
}

/// The address of a film's page.
pub open spec fn movie_page(id: u64) -> Seq<char> {
    "https://www.themoviedb.org/movie/"@ + digits(id as nat)
}

/// What is written for the release date of a film.
pub open spec fn movie_release(movie: Movie) -> Option<Seq<char>> {
    match movie.release_date {
        Some(raw) => written_date(raw@),
        None => None,
    }
}

/// What is written for the run time of a film.
pub open spec fn movie_runtime(movie: Movie) -> Option<Seq<char>> {
    written_runtime(
        match movie.runtime {
            Some(m) => Some(m as int),
            None => None,
        },
    )
}

/// The fields of a film's card, given what was written for its release date and its
/// run time.
pub open spec fn movie_fields(
    movie: Movie,
    release: Option<Seq<char>>,
    runtime: Option<Seq<char>>,
) -> Seq<FieldView> {
    seq![
        inline_field("Status"@, or_else(movie.status@, unknown())),
        inline_field("Film ID"@, digits(movie.id as nat)),
        inline_field("Language"@, or_else(language_name(movie.original_language@), unknown())),
        inline_field("Runtime"@, shown_runtime(runtime)),
        inline_field("Release Date"@, shown_date(release)),
        inline_field("Collection"@, present_or(opt_text(movie.collection), "N/A"@)),
        inline_field("User Score"@, score_text(movie.vote_percent, movie.vote_count)),
        inline_field("Box Office"@, money_text(movie.revenue)),
        inline_field("Budget"@, money_text(movie.budget)),
        inline_field("Genres"@, or_else(joined(texts(movie.genres@), "\n"@), unknown())),
        inline_field(
            "Studios"@,
            or_else(joined(texts(movie.production_companies@), "\n"@), "No Known Studios"@),
        ),
        inline_field(
            "External Links"@,
            external_links(opt_text(movie.homepage), opt_text(movie.imdb_id)),
        ),
    ]
}

/// The card of a film, given what was written for its release date and its run time.
pub open spec fn movie_card(
    movie: Movie,
    release: Option<Seq<char>>,
    runtime: Option<Seq<char>>,
) -> DisplayModelView {
    DisplayModelView {
        title: movie.title@,
        url: Some(movie_page(movie.id)),
        description: movie_description(opt_text(movie.tagline), opt_text(movie.overview)),
        thumbnail: poster_address(opt_text(movie.poster_path)),
        image: None,
        color: TITLE_COLOR,
        fields: movie_fields(movie, release, runtime),
        footer: Some("Powered by TMDb."@),
        links: Seq::empty(),
    }
}

/// Without a tagline the description of a film is its overview and nothing else: no
/// blank line in front of it, no emphasis marks.
pub proof fn description_without_tagline(tagline: Option<Seq<char>>, overview: Seq<char>)
    requires
        !is_present(tagline),
    ensures
        movie_description(tagline, Some(overview)) == overview,
{
    assert(Seq::<char>::empty() + overview =~= overview);
}

/// With a tagline the description of a film is the tagline between emphasis marks, a
/// blank line, and the overview.
pub proof fn description_with_tagline(tagline: Seq<char>, overview: Seq<char>)
    requires
        tagline.len() > 0,
    ensures
        movie_description(Some(tagline), Some(overview)) == "*"@ + tagline + "*"@ + "\n\n"@
            + overview,
{
    assert(("*"@ + tagline + "*"@) + ("\n\n"@ + overview) =~= "*"@ + tagline + "*"@ + "\n\n"@
        + overview);
}

/// Every field of a film's card has a label and a value, whatever the film holds and
/// whatever was written for its release date and its run time.
pub proof fn movie_card_is_well_formed(
    movie: Movie,
    release: Option<Seq<char>>,
    runtime: Option<Seq<char>>,
)
    ensures
        movie_card(movie, release, runtime).is_well_formed(),
        movie_card(movie, release, runtime).fields.len() == 12,
{
    reveal_strlit("Status");
    reveal_strlit("Film ID");
    reveal_strlit("Language");
    reveal_strlit("Runtime");
    reveal_strlit("Release Date");
    reveal_strlit("Collection");
    reveal_strlit("User Score");
    reveal_strlit("Box Office");
    reveal_strlit("Budget");
    reveal_strlit("Genres");
    reveal_strlit("Studios");
    reveal_strlit("External Links");
    reveal_strlit("Unknown");
    reveal_strlit("Unreleased");
    reveal_strlit("N/A");
    reveal_strlit("No Known Studios");
    reveal_strlit("No Website");
    reveal_strlit("$");
    reveal_strlit(" votes)");
    numeral_is_not_empty(movie.id as nat);
}

/// The text of the field that leads to other sites.
fn links_text(homepage: Option<String>, imdb_id: Option<String>) -> (text: String)
    ensures
        text@ == external_links(opt_text(homepage), opt_text(imdb_id)),
{
    let mut text = match homepage {
        Some(h) => {
            if h.as_str().is_empty() {
                String::from_str("No Website")
            } else {
                let mut site = String::from_str("[Website](");
                site.append(h.as_str());
                site.append(")");
                site
            }
        },
        None => String::from_str("No Website"),
    };
    match imdb_id {
        Some(id) => {
            if !id.as_str().is_empty() {
                let ghost before = text@;
                text.append(" | [IMDb](https://www.imdb.com/title/");
                text.append(id.as_str());
                text.append(")");
                assert(text@ =~= before + (" | [IMDb](https://www.imdb.com/title/"@ + id@ + ")"@));
            } else {
                assert(text@ + Seq::<char>::empty() =~= text@);
            }
        },
        None => {
            assert(text@ + Seq::<char>::empty() =~= text@);
        },
    }
    text
}

/// The description of a film.
fn describe(tagline: Option<String>, overview: Option<String>) -> (text: String)
    ensures
        text@ == movie_description(opt_text(tagline), opt_text(overview)),
{
    let mut text = emphasize(tagline);
    let ghost lead = text@;
    match overview {
        Some(body) => {
            if !text.as_str().is_empty() {
                text.append("\n\n");
            }
            text.append(body.as_str());
            assert(text@ =~= lead + if is_present(opt_text(tagline)) {
                "\n\n"@ + body@
            } else {
                body@
            });
        },
        None => {
            assert(text@ + Seq::<char>::empty() =~= text@);
        },
    }
    text
}

/// Builds the card of a film from the film and from what was written for its release
/// date and its run time. Where nothing was written for one of them, its placeholder
/// stands in the field.
pub fn movie_model_from(
    movie: Movie,
    release: Option<String>,
    runtime: Option<String>,
) -> (model: DisplayModel)
    ensures
        model@ == movie_card(movie, opt_text(release), opt_text(runtime)),
        model@.is_well_formed(),
{
    let language = String::from_str(get_language_name_from_iso(movie.original_language.as_str()));
    let mut page = String::from_str("https://www.themoviedb.org/movie/");
    page.append(decimal(movie.id).as_str());
    let fields = vec![
        Field::new("Status", non_blank(movie.status, "Unknown"), true),
        Field::new("Film ID", decimal(movie.id), true),
        Field::new("Language", non_blank(language, "Unknown"), true),
        Field::new("Runtime", runtime_or_unknown(runtime), true),
        Field::new("Release Date", date_or_unreleased(release), true),
        Field::new("Collection", text_or(movie.collection, "N/A"), true),
        Field::new("User Score", user_score(movie.vote_percent, movie.vote_count), true),
        Field::new("Box Office", money(movie.revenue), true),
        Field::new("Budget", money(movie.budget), true),
        Field::new("Genres", lines_or(&movie.genres, "Unknown"), true),
        Field::new("Studios", lines_or(&movie.production_companies, "No Known Studios"), true),
        Field::new("External Links", links_text(movie.homepage, movie.imdb_id), true),
    ];
    let model = DisplayModel {
        title: movie.title,
        url: Some(page),
        description: describe(movie.tagline, movie.overview),
        thumbnail: poster_url(movie.poster_path),
        image: None,
        color: TITLE_COLOR,
        fields,
        footer: Some(String::from_str("Powered by TMDb.")),
        links: Vec::new(),
    };
    proof {
        let card = movie_card(movie, opt_text(release), opt_text(runtime));
        assert(model@.fields =~= card.fields);
        assert(model@.links =~= card.links);
        assert(model@ =~= card);
        movie_card_is_well_formed(movie, opt_text(release), opt_text(runtime));
    }
    model
}

/// Builds the card of a film. The release date is written out as a long date and the
/// run time in words; what cannot be read or is missing gets its placeholder.
pub fn movie_model(movie: Movie) -> (model: DisplayModel)
    ensures
        model@ == movie_card(movie, movie_release(movie), movie_runtime(movie)),
        model@.is_well_formed(),
{
    let release = match &movie.release_date {
        Some(raw) => write_long_date(raw.as_str()),
        None => None,
    };
    let runtime = write_runtime(movie.runtime);
    movie_model_from(movie, release, runtime)
}

} // verus!
