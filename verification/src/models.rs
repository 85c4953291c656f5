//! The resources that the comic site and the metadata service send, as the commands
//! read them. A field that the service may leave out is an `Option`.

use vstd::prelude::*;

verus! {

/// One comic of xkcd.
#[derive(Clone, Debug, PartialEq, Eq)]
pub struct Comic {
    /// The number of the comic.
    pub num: u16,
    /// The caption of the comic.
    pub alt: String,
    /// The address of the comic's image.
    pub img: String,
    /// The title of the comic.
    pub title: String,
}

/// One hit of a search: the identity of a resource, and nothing more.
#[derive(Clone, Copy, Debug, PartialEq, Eq)]
pub struct SearchResult {
    pub id: u64,
}

/// A film as a collection lists it.
#[derive(Clone, Debug, PartialEq, Eq)]
pub struct SimplifiedMovie {
    pub id: u64,
    pub title: String,
    pub overview: String,
    /// The day of release as the service writes it, `2008-05-02`, or any other text
    /// where it knows none.
    pub release_date: String,
}

/// A collection of films.
#[derive(Clone, Debug, PartialEq, Eq)]
pub struct Collection {
    pub name: String,
    pub overview: String,
    /// The path of the poster below the image host.
    pub poster_path: String,
    /// The films of the collection, in the order in which the service lists them.
    pub parts: Vec<SimplifiedMovie>,
}

/// A film.
#[derive(Clone, Debug, PartialEq, Eq)]
pub struct Movie {
    pub id: u64,
    pub title: String,
    pub status: String,
    pub tagline: Option<String>,
    pub overview: Option<String>,
    pub homepage: Option<String>,
    /// The name of the collection that the film belongs to.
    pub collection: Option<String>,
    /// The names of the studios.
    pub production_companies: Vec<String>,
    /// The names of the genres.
    pub genres: Vec<String>,
    /// The ISO 639-1 code of the original language.
    pub original_language: String,
    /// The day of release as the service writes it.
    pub release_date: Option<String>,
    pub budget: u64,
    pub revenue: u64,
    pub imdb_id: Option<String>,
    /// The path of the poster below the image host.
    pub poster_path: Option<String>,
    pub vote_count: u64,
    /// The vote average in percent: ten times the average on the service's scale from
    /// zero to ten, rounded to a whole number.
    pub vote_percent: u32,
    /// The run time in minutes.
    pub runtime: Option<u32>,
}

/// A television series.
#[derive(Clone, Debug, PartialEq, Eq)]
pub struct Show {
    pub name: String,
    pub tagline: String,
    pub overview: String,
    pub status: String,
    /// The kind of series, `Scripted` for one.
    pub format: String,
    /// The names of the creators.
    pub created_by: Vec<String>,
    pub vote_count: u64,
    /// The vote average in percent, as for a film.
    pub vote_percent: u32,
    /// The ISO 639-1 code of the original language.
    pub original_language: String,
    /// The ISO 639-1 codes of the languages spoken.
    pub languages: Vec<String>,
    /// The ISO 3166-1 codes of the countries of origin.
    pub origin_country: Vec<String>,
    /// The day the first episode aired, as the service writes it.
    pub first_air_date: String,
    /// The day the latest episode aired, as the service writes it.
    pub last_air_date: String,
    /// The run times of the episodes in minutes, as far as the service knows them.
    pub episode_run_time: Vec<u32>,
    /// The names of the networks.
    pub networks: Vec<String>,
    /// The names of the studios.
    pub studios: Vec<String>,
    pub number_of_seasons: u64,
    pub number_of_episodes: u64,
    /// The names of the genres.
    pub genres: Vec<String>,
    /// The path of the poster below the image host.
    pub poster_path: Option<String>,
}

/// The full resource of one identified item.
#[derive(Clone, Debug, PartialEq, Eq)]
pub enum DetailResource {
    Comic(Comic),
    Movie(Movie),
    Show(Show),
    Collection(Collection),
}

} // verus!
