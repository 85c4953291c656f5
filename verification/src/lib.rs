//! The logic of a chat bot that looks up comics, films, television series and
//! collections of films, and shows what it finds as a card with link buttons.
//!
//! [`dispatch`] runs a command step by step; [`comic`], [`movie`], [`show`] and
//! [`collection`] build the card of a resource; [`emit`] lays a card and its links out
//! as a message. The rest are the tables and the formatting that the cards need.

pub mod collection;
pub mod comic;
pub mod config;
pub mod dates;
pub mod dispatch;
pub mod display;
pub mod emit;
pub mod locale;
pub mod models;
pub mod movie;
pub mod numbers;
pub mod runtime;
pub mod show;
pub mod status;
pub mod text;
pub mod tmdb;
