use taliyah::collection::{collection_model, field_of_part, link_of_part};
use taliyah::comic::comic_model;
use taliyah::dates::Date;
use taliyah::display::{Field, Link};
use taliyah::models::{Collection, Comic, Movie, Show, SimplifiedMovie};
use taliyah::movie::{movie_model, movie_model_from};
use taliyah::show::{show_model, show_model_from};
use taliyah::status::{presence, version_model};
use taliyah::tmdb::{emphasize, money, poster_url, user_score};

fn text(s: &str) -> String {
    s.to_string()
}

fn list(items: &[&str]) -> Vec<String> {
    items.iter().map(|s| s.to_string()).collect()
}

fn field(label: &str, value: &str, inline: bool) -> Field {
    Field { label: text(label), value: text(value), inline }
}

fn inception() -> Movie {
    Movie {
        id: 27205,
        title: text("Inception"),
        status: text("Released"),
        tagline: Some(text("Your mind is the scene of the crime.")),
        overview: Some(text("Cobb steals secrets from dreams.")),
        homepage: Some(text("https://www.warnerbros.com/movies/inception")),
        collection: None,
        production_companies: list(&["Legendary Pictures", "Syncopy", "Warner Bros. Pictures"]),
        genres: list(&["Action", "Science Fiction", "Adventure"]),
        original_language: text("en"),
        release_date: Some(text("2010-07-16")),
        budget: 160000000,
        revenue: 825532764,
        imdb_id: Some(text("tt1375666")),
        poster_path: Some(text("/oYuLEt3zVCKq57qu2F8dT7NIa6f.jpg")),
        vote_count: 34495,
        vote_percent: 84,
        runtime: Some(148),
    }
}

fn bare_movie() -> Movie {
    Movie {
        id: 1,
        title: text("Untitled"),
        status: String::new(),
        tagline: None,
        overview: None,
        homepage: None,
        collection: None,
        production_companies: Vec::new(),
        genres: Vec::new(),
        original_language: String::new(),
        release_date: None,
        budget: 0,
        revenue: 0,
        imdb_id: None,
        poster_path: None,
        vote_count: 0,
        vote_percent: 0,
        runtime: None,
    }
}

fn value_of(fields: &[Field], label: &str) -> String {
    fields.iter().find(|f| f.label == label).map(|f| f.value.clone()).unwrap()
}

fn severance() -> Show {
    Show {
        name: text("Severance"),
        tagline: text("We're all different people at work."),
        overview: text("Mark leads a team of office workers."),
        status: text("Returning Series"),
        format: text("Scripted"),
        created_by: list(&["Dan Erickson"]),
        vote_count: 1200,
        vote_percent: 84,
        original_language: text("en"),
        languages: list(&["en", "ja", "xx"]),
        origin_country: list(&["US", "GB"]),
        first_air_date: text("2022-02-17"),
        last_air_date: text("2025-03-20"),
        episode_run_time: vec![50, 45],
        networks: list(&["Apple TV+"]),
        studios: list(&["Red Hour", "Endeavor Content"]),
        number_of_seasons: 2,
        number_of_episodes: 19,
        genres: list(&["Drama", "Mystery"]),
        poster_path: Some(text("/poster.jpg")),
    }
}

fn part(id: u64, title: &str, overview: &str, release_date: &str) -> SimplifiedMovie {
    SimplifiedMovie { id, title: text(title), overview: text(overview), release_date: text(release_date) }
}

#[test]
fn movie_card_of_a_full_film() {
    let model = movie_model(inception());
    assert_eq!(model.title, "Inception");
    assert_eq!(model.url, Some(text("https://www.themoviedb.org/movie/27205")));
    assert_eq!(model.color, 0x01b4e4);
    assert_eq!(
        model.thumbnail,
        Some(text("https://image.tmdb.org/t/p/original/oYuLEt3zVCKq57qu2F8dT7NIa6f.jpg"))
    );
    assert_eq!(model.image, None);
    assert_eq!(
        model.description,
        "*Your mind is the scene of the crime.*\n\nCobb steals secrets from dreams."
    );
    assert_eq!(model.footer, Some(text("Powered by TMDb.")));
    assert!(model.links.is_empty());
    assert_eq!(
        model.fields,
        vec![
            field("Status", "Released", true),
            field("Film ID", "27205", true),
            field("Language", "English", true),
            field("Runtime", "2h 28m", true),
            field("Release Date", "July 16, 2010", true),
            field("Collection", "N/A", true),
            field("User Score", "84% (34495 votes)", true),
            field("Box Office", "$825,532,764", true),
            field("Budget", "$160,000,000", true),
            field("Genres", "Action\nScience Fiction\nAdventure", true),
            field("Studios", "Legendary Pictures\nSyncopy\nWarner Bros. Pictures", true),
            field(
                "External Links",
                "[Website](https://www.warnerbros.com/movies/inception) | [IMDb](https://www.imdb.com/title/tt1375666)",
                true
            ),
        ]
    );
}

#[test]
fn movie_card_of_a_bare_film_has_placeholders() {
    let model = movie_model(bare_movie());
    assert_eq!(model.description, "");
    assert_eq!(model.thumbnail, None);
    assert_eq!(
        model.fields,
        vec![
            field("Status", "Unknown", true),
            field("Film ID", "1", true),
            field("Language", "Unknown", true),
            field("Runtime", "Unknown", true),
            field("Release Date", "Unreleased", true),
            field("Collection", "N/A", true),
            field("User Score", "0% (0 votes)", true),
            field("Box Office", "$0", true),
            field("Budget", "$0", true),
            field("Genres", "Unknown", true),
            field("Studios", "No Known Studios", true),
            field("External Links", "No Website", true),
        ]
    );
}

#[test]
fn movie_description_without_tagline_is_the_overview() {
    let mut movie = bare_movie();
    movie.tagline = Some(String::new());
    movie.overview = Some(text("X"));
    assert_eq!(movie_model(movie).description, "X");
    let mut movie = bare_movie();
    movie.tagline = None;
    movie.overview = Some(text("X"));
    assert_eq!(movie_model(movie).description, "X");
}

#[test]
fn movie_description_with_tagline_only() {
    let mut movie = bare_movie();
    movie.tagline = Some(text("In space no one can hear you scream."));
    assert_eq!(movie_model(movie).description, "*In space no one can hear you scream.*");
}

#[test]
fn movie_release_date_that_is_no_date_is_unreleased() {
    let mut movie = bare_movie();
    movie.release_date = Some(text("not-a-date"));
    let model = movie_model(movie);
    assert_eq!(value_of(&model.fields, "Release Date"), "Unreleased");
    let mut movie = bare_movie();
    movie.release_date = Some(String::new());
    let model = movie_model(movie);
    assert_eq!(value_of(&model.fields, "Release Date"), "Unreleased");
}

#[test]
fn movie_release_date_does_not_pad_the_day() {
    let mut movie = bare_movie();
    movie.release_date = Some(text("1979-05-02"));
    let model = movie_model(movie);
    assert_eq!(value_of(&model.fields, "Release Date"), "May 2, 1979");
    let mut movie = bare_movie();
    movie.release_date = Some(text("2008-07-04"));
    let model = movie_model(movie);
    assert_eq!(value_of(&model.fields, "Release Date"), "July 4, 2008");
}

#[test]
fn movie_collection_and_unknown_language() {
    let mut movie = bare_movie();
    movie.collection = Some(text("Alien Collection"));
    movie.original_language = text("sv");
    movie.homepage = Some(String::new());
    movie.imdb_id = Some(text("tt0078748"));
    let model = movie_model(movie);
    assert_eq!(value_of(&model.fields, "Collection"), "Alien Collection");
    assert_eq!(value_of(&model.fields, "Language"), "sv");
    assert_eq!(
        value_of(&model.fields, "External Links"),
        "No Website | [IMDb](https://www.imdb.com/title/tt0078748)"
    );
}

#[test]
fn movie_card_from_what_was_written() {
    let model = movie_model_from(bare_movie(), Some(text("June 1, 2030")), Some(text("3h")));
    assert_eq!(value_of(&model.fields, "Release Date"), "June 1, 2030");
    assert_eq!(value_of(&model.fields, "Runtime"), "3h");
    let model = movie_model_from(bare_movie(), Some(String::new()), Some(String::new()));
    assert_eq!(value_of(&model.fields, "Release Date"), "Unreleased");
    assert_eq!(value_of(&model.fields, "Runtime"), "Unknown");
    let model = movie_model_from(bare_movie(), None, None);
    assert_eq!(value_of(&model.fields, "Release Date"), "Unreleased");
    assert_eq!(value_of(&model.fields, "Runtime"), "Unknown");
}

#[test]
fn movie_card_fields_are_never_empty() {
    for movie in [inception(), bare_movie()] {
        let model = movie_model(movie);
        assert_eq!(model.fields.len(), 12);
        for f in &model.fields {
            assert!(!f.label.is_empty());
            assert!(!f.value.is_empty());
        }
    }
}

#[test]
fn show_card_of_a_full_series() {
    let model = show_model(95396, severance());
    assert_eq!(model.title, "Severance");
    assert_eq!(model.url, Some(text("https://themoviedb.org/tv/95396")));
    assert_eq!(model.color, 0x01b4e4);
    assert_eq!(model.thumbnail, Some(text("https://image.tmdb.org/t/p/original/poster.jpg")));
    assert_eq!(model.description, "*We're all different people at work.*");
    assert_eq!(model.footer, None);
    assert!(model.links.is_empty());
    assert_eq!(
        model.fields,
        vec![
            field("Overview", "Mark leads a team of office workers.", false),
            field("Status", "Returning Series", true),
            field("Format", "Scripted", true),
            field("Created By", "Dan Erickson", true),
            field("Average Runtime", "47m", true),
            field("User Score", "84% (1200 votes)", true),
            field("First Aired", "February 17, 2022", true),
            field("Last Aired", "March 20, 2025", true),
            field("Main Language", "English", true),
            field("Origin Countries", "United States\nUnited Kingdom", true),
            field("Languages", "English\nJapanese\nxx", true),
            field("Seasons", "2", true),
            field("Episodes", "19", true),
            field("Genres", "Drama\nMystery", true),
            field("Studios", "Red Hour\nEndeavor Content", true),
            field("Networks", "Apple TV+", true),
        ]
    );
}

#[test]
fn show_card_of_a_bare_series_has_placeholders() {
    let show = Show {
        name: text("Pilot"),
        tagline: String::new(),
        overview: String::new(),
        status: String::new(),
        format: String::new(),
        created_by: Vec::new(),
        vote_count: 0,
        vote_percent: 0,
        original_language: String::new(),
        languages: Vec::new(),
        origin_country: Vec::new(),
        first_air_date: String::new(),
        last_air_date: text("tba"),
        episode_run_time: Vec::new(),
        networks: Vec::new(),
        studios: Vec::new(),
        number_of_seasons: 0,
        number_of_episodes: 0,
        genres: Vec::new(),
        poster_path: None,
    };
    let model = show_model(7, show);
    assert_eq!(model.description, "");
    assert_eq!(model.thumbnail, None);
    assert_eq!(
        model.fields,
        vec![
            field("Overview", "Unknown", false),
            field("Status", "Unknown", true),
            field("Format", "Unknown", true),
            field("Created By", "Unknown", true),
            field("Average Runtime", "Unknown", true),
            field("User Score", "0% (0 votes)", true),
            field("First Aired", "Unreleased", true),
            field("Last Aired", "Unreleased", true),
            field("Main Language", "Unknown", true),
            field("Origin Countries", "Unknown", true),
            field("Languages", "Unknown", true),
            field("Seasons", "0", true),
            field("Episodes", "0", true),
            field("Genres", "Unknown", true),
            field("Studios", "Unknown", true),
            field("Networks", "Unknown", true),
        ]
    );
}

#[test]
fn show_dates_are_not_padded() {
    let mut show = severance();
    show.first_air_date = text("2011-04-07");
    let model = show_model(1, show);
    assert_eq!(value_of(&model.fields, "First Aired"), "April 7, 2011");
}

#[test]
fn show_card_from_what_was_written() {
    let model = show_model_from(1, severance(), Some(text("a")), None, Some(String::new()));
    assert_eq!(value_of(&model.fields, "First Aired"), "a");
    assert_eq!(value_of(&model.fields, "Last Aired"), "Unreleased");
    assert_eq!(value_of(&model.fields, "Average Runtime"), "Unknown");
}

#[test]
fn comic_card_has_two_links() {
    let comic = Comic {
        num: 353,
        alt: text("I wrote 20 short programs in Python yesterday."),
        img: text("https://imgs.xkcd.com/comics/python.png"),
        title: text("Python"),
    };
    let model = comic_model(comic);
    assert_eq!(model.title, "Python");
    assert_eq!(model.url, None);
    assert_eq!(model.description, "I wrote 20 short programs in Python yesterday.");
    assert_eq!(model.thumbnail, None);
    assert_eq!(model.image, Some(text("https://imgs.xkcd.com/comics/python.png")));
    assert_eq!(model.color, 0xfafafa);
    assert!(model.fields.is_empty());
    assert_eq!(model.footer, Some(text("xkcd comic no. 353")));
    assert_eq!(
        model.links,
        vec![
            Link { label: text("View on xkcd"), url: text("https://xkcd.com/353/") },
            Link { label: text("View wiki"), url: text("https://explainxkcd.com/wiki/index.php/353") },
        ]
    );
}

#[test]
fn collection_links_follow_the_ids() {
    let collection = Collection {
        name: text("Trilogy"),
        overview: text("Three films."),
        poster_path: text("/trilogy.jpg"),
        parts: vec![
            part(30, "Third", "The end.", "2003-11-05"),
            part(10, "First", "The start.", "1999-03-31"),
            part(20, "Second", "The middle.", "2003-05-15"),
        ],
    };
    let model = collection_model(2344, collection);
    let urls: Vec<&str> = model.links.iter().map(|l| l.url.as_str()).collect();
    assert_eq!(
        urls,
        vec![
            "https://themoviedb.org/movie/10",
            "https://themoviedb.org/movie/20",
            "https://themoviedb.org/movie/30",
        ]
    );
    let labels: Vec<&str> = model.links.iter().map(|l| l.label.as_str()).collect();
    assert_eq!(labels, vec!["First", "Second", "Third"]);
}

#[test]
fn collection_card_of_a_trilogy() {
    let collection = Collection {
        name: text("Trilogy"),
        overview: text("Three films."),
        poster_path: text("/trilogy.jpg"),
        parts: vec![
            part(30, "Third", "The end.", "2003-11-05"),
            part(10, "First", "The start.", "1999-03-31"),
            part(20, "Second", "", "soon"),
        ],
    };
    let model = collection_model(2344, collection);
    assert_eq!(model.title, "Trilogy");
    assert_eq!(model.url, Some(text("https://www.themoviedb.org/collection/2344")));
    assert_eq!(model.thumbnail, Some(text("https://image.tmdb.org/t/p/original/trilogy.jpg")));
    assert_eq!(model.color, 0x0001_d277);
    assert_eq!(model.description, "Three films.");
    assert_eq!(model.footer, None);
    assert_eq!(
        model.fields,
        vec![
            field("First (1999)", "The start.", false),
            field("Second (Unreleased)", "Unknown", false),
            field("Third (2003)", "The end.", false),
        ]
    );
}

#[test]
fn collection_links_do_not_depend_on_the_listing() {
    let orders: [[u64; 4]; 4] = [[4, 3, 2, 1], [1, 2, 3, 4], [2, 4, 1, 3], [3, 1, 4, 2]];
    for order in orders {
        let collection = Collection {
            name: text("c"),
            overview: text("o"),
            poster_path: String::new(),
            parts: order.iter().map(|id| part(*id, "t", "o", "2000-01-01")).collect(),
        };
        let model = collection_model(1, collection);
        let urls: Vec<String> = model.links.iter().map(|l| l.url.clone()).collect();
        assert_eq!(
            urls,
            vec![
                text("https://themoviedb.org/movie/1"),
                text("https://themoviedb.org/movie/2"),
                text("https://themoviedb.org/movie/3"),
                text("https://themoviedb.org/movie/4"),
            ]
        );
        assert_eq!(model.thumbnail, None);
    }
}

#[test]
fn collection_keeps_the_order_of_equal_ids() {
    let collection = Collection {
        name: text("c"),
        overview: text("o"),
        poster_path: text("p.jpg"),
        parts: vec![
            part(5, "b", "o", "2000-01-01"),
            part(1, "x", "o", "2000-01-01"),
            part(5, "a", "o", "2000-01-01"),
        ],
    };
    let model = collection_model(1, collection);
    let labels: Vec<&str> = model.links.iter().map(|l| l.label.as_str()).collect();
    assert_eq!(labels, vec!["x", "b", "a"]);
}

#[test]
fn collection_without_films_has_no_fields() {
    let collection = Collection {
        name: text("Empty"),
        overview: String::new(),
        poster_path: text("/"),
        parts: Vec::new(),
    };
    let model = collection_model(9, collection);
    assert!(model.fields.is_empty());
    assert!(model.links.is_empty());
    assert_eq!(model.thumbnail, None);
}

#[test]
fn field_and_link_of_one_film() {
    let film = part(603, "The Matrix", "A hacker learns the truth.", "1999-03-31");
    assert_eq!(
        field_of_part(&film, Date::new(1999, 3, 31)),
        field("The Matrix (1999)", "A hacker learns the truth.", false)
    );
    assert_eq!(
        field_of_part(&film, None),
        field("The Matrix (Unreleased)", "A hacker learns the truth.", false)
    );
    assert_eq!(
        link_of_part(&film),
        Link { label: text("The Matrix"), url: text("https://themoviedb.org/movie/603") }
    );
    let nameless = part(0, "", "", "");
    assert_eq!(field_of_part(&nameless, None), field(" (Unreleased)", "Unknown", false));
    assert_eq!(
        link_of_part(&nameless),
        Link { label: text("Unknown"), url: text("https://themoviedb.org/movie/0") }
    );
}

#[test]
fn poster_url_strips_slashes() {
    assert_eq!(
        poster_url(Some(text("/abc.jpg"))),
        Some(text("https://image.tmdb.org/t/p/original/abc.jpg"))
    );
    assert_eq!(
        poster_url(Some(text("a/b/c.jpg"))),
        Some(text("https://image.tmdb.org/t/p/original/abc.jpg"))
    );
    assert_eq!(poster_url(Some(text("/"))), None);
    assert_eq!(poster_url(Some(String::new())), None);
    assert_eq!(poster_url(None), None);
}

#[test]
fn user_score_and_money() {
    assert_eq!(user_score(78, 1523), "78% (1523 votes)");
    assert_eq!(user_score(100, 1), "100% (1 votes)");
    assert_eq!(money(0), "$0");
    assert_eq!(money(63000000), "$63,000,000");
}

#[test]
fn emphasize_marks_a_tagline() {
    assert_eq!(emphasize(Some(text("Free your mind."))), "*Free your mind.*");
    assert_eq!(emphasize(Some(String::new())), "");
    assert_eq!(emphasize(None), "");
}

#[test]
fn presence_counts_the_guilds() {
    assert_eq!(presence(0), "on 0 guilds");
    assert_eq!(presence(1), "on 1 guilds");
    assert_eq!(presence(1234), "on 1234 guilds");
}

#[test]
fn version_card_names_both_versions() {
    let model = version_model("Taliyah", "0.9.0 (abc1234 2024-01-01)", "1.80.0");
    assert_eq!(model.title, "Version information for Taliyah");
    assert_eq!(
        model.description,
        "**Bot Version**: 0.9.0 (abc1234 2024-01-01)\n**Rust Version**: 1.80.0"
    );
    assert!(model.fields.is_empty());
    assert!(model.links.is_empty());
}
