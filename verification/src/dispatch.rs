//! The course of one command, from its invocation to its reply.
//!
//! A command is run step by step. Each step takes what has just happened, an
//! [`Event`], and says what is to be done next, an [`Action`]: fetch an address, draw a
//! random number, or answer and stop. The one who runs the command performs the action
//! and comes back with the event that it led to. Nothing is kept between two commands.

use crate::collection::{collection_card, collection_model};
use crate::comic::{
    accept, comic_address, comic_card, comic_model, comic_url, is_accepted, latest_address,
    latest_url, EXCLUDED_COMIC,
};
use crate::display::DisplayModelView;
use crate::emit::{emit, message_of, Message, MessageView};
use crate::models::{DetailResource, SearchResult};
use crate::movie::{movie_card, movie_model, movie_release, movie_runtime};
use crate::numbers::{decimal, digits};
use crate::show::{show_card, show_first_aired, show_last_aired, show_model, show_runtime};
use vstd::prelude::*;
use vstd::string::*;

verus! {

/// What the user asked for.
#[derive(Clone, Debug)]
pub enum Command {
    /// A comic: the one with the given number, a random one, or the newest.
    Comic { number: Option<u16>, random: Option<bool> },
    /// The collection of films that a search for `name` finds first.
    Collection { name: String },
    /// The film that a search for `name` finds first, among the films of `year` if a
    /// year is given.
    Movie { name: String, year: Option<u16> },
    /// The television series that a search for `name` finds first.
    Show { name: String },
}

/// How a command ended.
#[derive(Clone, Copy, Debug, PartialEq, Eq)]
pub enum Outcome {
    /// The arguments exclude each other.
    Conflict,
    /// The search found nothing.
    NotFound,
    /// The resource is not there.
    FetchFailed,
    /// The card was sent.
    Rendered,
    /// Something came back that the command could not go on with.
    Failed,
}

/// Where a command stands.
#[derive(Clone, Copy, Debug, PartialEq, Eq)]
pub enum Phase {
    /// Nothing has been done yet.
    Idle,
    /// The newest comic was asked for, to learn the highest number.
    Ranging,
    /// A random number below the number of the newest comic was asked for.
    Drawing { latest: u16 },
    /// A search was sent.
    Searching,
    /// A resource was asked for; `hit` is the id that a search found, if one was made.
    Fetching { hit: Option<u64> },
    /// The command has ended.
    Done { outcome: Outcome },
}

/// What has just happened.
#[derive(Clone, Debug)]
pub enum Event {
    /// The user has invoked the command.
    Invoked,
    /// The number that was drawn.
    Drawn(u16),
    /// The hits of a search, in the order in which the service lists them.
    Hits(Vec<SearchResult>),
    /// There is nothing under the address.
    Missing,
    /// The fetch was refused: the answer is neither a success nor a missing resource.
    Refused,
    /// The resource under the address.
    Detail(DetailResource),
}

/// How a fetch was answered, as far as the status of the answer tells.
#[derive(Clone, Copy, Debug, PartialEq, Eq)]
pub enum Answer {
    /// The answer is a success; its body is what was asked for.
    Found,
    /// There is nothing under the address.
    Missing,
    /// Anything else: the fetch has failed.
    Refused,
}

/// The status of an answer that says that there is nothing under the address.
pub const NOT_FOUND: u16 = 404;

/// What is expected under an address.
#[derive(Clone, Copy, Debug, PartialEq, Eq)]
pub enum Shape {
    /// One comic.
    Comic,
    /// The hits of a search.
    Hits,
    /// One collection of films.
    Collection,
    /// One film.
    Movie,
    /// One television series.
    Show,
}

/// A fetch: the address, the parameters of the query in their order, as they are before
/// any escaping, and what is expected to come back.
#[derive(Clone, Debug, PartialEq, Eq)]
pub struct Request {
    pub url: String,
    pub query: Vec<(String, String)>,
    pub shape: Shape,
}

/// A fetch, as text.
pub struct RequestView {
    pub url: Seq<char>,
    pub query: Seq<(Seq<char>, Seq<char>)>,
    pub shape: Shape,
}

/// What is to be done next.
#[derive(Clone, Debug, PartialEq, Eq)]
pub enum Action {
    /// Fetch the address and come back with what is there.
    Get(Request),
    /// Draw a random comic number below `below` and come back with it.
    Draw { below: u16 },
    /// Answer with this text, and stop.
    Reply(String),
    /// Answer with this message, and stop.
    Send(Message),
    /// Report a failure, and stop.
    Fail,
}

/// An action, as text.
pub enum ActionView {
    Get(RequestView),
    Draw { below: u16 },
    Reply(Seq<char>),
    Send(MessageView),
    Fail,
}

/// The parameters of a query, as text.
pub open spec fn pair_views(pairs: Seq<(String, String)>) -> Seq<(Seq<char>, Seq<char>)> {
    pairs.map_values(|pair: (String, String)| (pair.0@, pair.1@))
}

impl View for Request {
    type V = RequestView;

    open spec fn view(&self) -> RequestView {
        RequestView { url: self.url@, query: pair_views(self.query@), shape: self.shape }
    }
}

impl View for Action {
    type V = ActionView;

    open spec fn view(&self) -> ActionView {
        match self {
            Action::Get(request) => ActionView::Get(request@),
            Action::Draw { below } => ActionView::Draw { below: *below },
            Action::Reply(text) => ActionView::Reply(text@),
            Action::Send(message) => ActionView::Send(message@),
            Action::Fail => ActionView::Fail,
        }
    }
}

/// How an answer with the given status is taken: 404 is a missing resource, a status
/// from 200 to 299 is a success, and every other status is a failure.
pub open spec fn answer_of(status: u16) -> Answer {
    if status == NOT_FOUND {
        Answer::Missing
    } else if 200 <= status <= 299 {
        Answer::Found
    } else {
        Answer::Refused
    }
}

/// The answer to a number together with the wish for a random comic.
pub open spec fn conflict_text() -> Seq<char> {
    "You cannot provide both a number and the random flag. Please use one or the other!"@
}

/// The answer to the number of a comic that is not there.
pub open spec fn invalid_comic_text() -> Seq<char> {
    "You did not provide a valid comic id."@
}

/// The answer to a search that found nothing. It names what was searched for.
pub open spec fn no_hits_text(command: Command) -> Seq<char> {
    match command {
        Command::Collection { name } => "Nothing found for `"@ + name@
            + "`. Please try another name."@,
        Command::Movie { name, year } => "No results found for `"@ + name@
            + "`. Please try looking for another movie."@,
        Command::Show { name } => "No results found for `"@ + name@
            + "`. Please try looking for another series."@,
        Command::Comic { number, random } => invalid_comic_text(),
    }
}

/// The answer to a resource that is not there.
pub open spec fn invalid_id_text(command: Command) -> Seq<char> {
    match command {
        Command::Collection { name } => "You did not provide a valid collection id."@,
        Command::Movie { name, year } => "You did not provide a valid movie id."@,
        Command::Show { name } => "You did not provide a valid series id."@,
        Command::Comic { number, random } => invalid_comic_text(),
    }
}

/// The fetch of a comic: the address alone.
pub open spec fn comic_request(url: Seq<char>) -> RequestView {
    RequestView { url, query: Seq::empty(), shape: Shape::Comic }
}

/// What a command expects to come back when it fetches the resource that it found.
pub open spec fn shape_of(command: Command) -> Shape {
    match command {
        Command::Comic { number, random } => Shape::Comic,
        Command::Collection { name } => Shape::Collection,
        Command::Movie { name, year } => Shape::Movie,
        Command::Show { name } => Shape::Show,
    }
}

/// The search that a command starts with: the key of the service and what is searched
/// for, and for a film the year if one is given.
pub open spec fn search_request(command: Command, key: Seq<char>) -> RequestView {
    match command {
        Command::Collection { name } => RequestView {
            url: "https://api.themoviedb.org/3/search/collection"@,
            query: seq![("api_key"@, key), ("query"@, name@)],
            shape: Shape::Hits,
        },
        Command::Movie { name, year } => RequestView {
            url: "https://api.themoviedb.org/3/search/movie"@,
            query: match year {
                Some(y) => seq![
                    ("api_key"@, key),
                    ("query"@, name@),
                    ("year"@, digits(y as nat)),
                ],
                None => seq![("api_key"@, key), ("query"@, name@)],
            },
            shape: Shape::Hits,
        },
        Command::Show { name } => RequestView {
            url: "https://api.themoviedb.org/3/search/tv"@,
            query: seq![("api_key"@, key), ("query"@, name@)],
            shape: Shape::Hits,
        },
        Command::Comic { number, random } => comic_request(latest_address()),
    }
}

/// The fetch of the resource that a search found under `id`.
pub open spec fn detail_request(command: Command, key: Seq<char>, id: u64) -> RequestView {
    RequestView {
        url: match command {
            Command::Collection { name } => "https://api.themoviedb.org/3/collection/"@,
            Command::Movie { name, year } => "https://api.themoviedb.org/3/movie/"@,
            Command::Show { name } => "https://api.themoviedb.org/3/tv/"@,
            Command::Comic { number, random } => "https://xkcd.com/"@,
        } + digits(id as nat),
        query: seq![("api_key"@, key)],
        shape: shape_of(command),
    }
}

/// The card for the resource that came back, if it is of the kind that the command
/// asked for.
pub open spec fn card_for(command: Command, id: u64, resource: DetailResource) -> Option<
    DisplayModelView,
> {
    match (command, resource) {
        (Command::Collection { name }, DetailResource::Collection(collection)) => Some(
            collection_card(id, collection),
        ),
        (Command::Movie { name, year }, DetailResource::Movie(movie)) => Some(
            movie_card(movie, movie_release(movie), movie_runtime(movie)),
        ),
        (Command::Show { name }, DetailResource::Show(show)) => Some(
            show_card(
                id,
                show,
                show_first_aired(show),
                show_last_aired(show),
                show_runtime(show),
            ),
        ),
        _ => None,
    }
}

/// The end of a command that cannot go on.
pub open spec fn failed() -> (Phase, ActionView) {
    (Phase::Done { outcome: Outcome::Failed }, ActionView::Fail)
}

/// The end of a command with a text as its answer.
pub open spec fn ended(outcome: Outcome, text: Seq<char>) -> (Phase, ActionView) {
    (Phase::Done { outcome }, ActionView::Reply(text))
}

/// The end of a command with a card as its answer.
pub open spec fn rendered(card: DisplayModelView) -> (Phase, ActionView) {
    (Phase::Done { outcome: Outcome::Rendered }, ActionView::Send(message_of(card)))
}

/// One step of a command for a comic.
///
/// A number together with the wish for a random comic ends the command at once. A
/// random comic takes the newest comic first, for the highest number, and then a draw
/// below that number; the excluded number is drawn again. A comic that is not there
/// ends the command with the answer for an invalid number.
pub open spec fn comic_transition(
    number: Option<u16>,
    random: bool,
    phase: Phase,
    event: Event,
) -> (Phase, ActionView) {
    match (phase, event) {
        (Phase::Idle, Event::Invoked) => match number {
            Some(n) => if random {
                ended(Outcome::Conflict, conflict_text())
            } else {
                (Phase::Fetching { hit: None }, ActionView::Get(comic_request(comic_address(n))))
            },
            None => if random {
                (Phase::Ranging, ActionView::Get(comic_request(latest_address())))
            } else {
                (Phase::Fetching { hit: None }, ActionView::Get(comic_request(latest_address())))
            },
        },
        (Phase::Ranging, Event::Detail(DetailResource::Comic(newest))) => if newest.num > 1 {
            (Phase::Drawing { latest: newest.num }, ActionView::Draw { below: newest.num })
        } else {
            failed()
        },
        (Phase::Drawing { latest }, Event::Drawn(n)) => if !(1 <= n < latest) {
            failed()
        } else if !is_accepted(n) {
            (Phase::Drawing { latest }, ActionView::Draw { below: latest })
        } else {
            (Phase::Fetching { hit: None }, ActionView::Get(comic_request(comic_address(n))))
        },
        (Phase::Fetching { hit }, Event::Detail(DetailResource::Comic(comic))) => rendered(
            comic_card(comic),
        ),
        (Phase::Fetching { hit }, Event::Missing) => ended(
            Outcome::FetchFailed,
            invalid_comic_text(),
        ),
        _ => failed(),
    }
}

/// One step of a command that looks something up by its name.
///
/// The command starts with a search. A search without hits ends it with an answer that
/// names what was searched for. Otherwise the first hit is fetched; what comes back is
/// shown, and a hit that is not there ends the command with the answer for an invalid
/// id.
pub open spec fn lookup_transition(
    command: Command,
    key: Seq<char>,
    phase: Phase,
    event: Event,
) -> (Phase, ActionView) {
    match (phase, event) {
        (Phase::Idle, Event::Invoked) => (
            Phase::Searching,
            ActionView::Get(search_request(command, key)),
        ),
        (Phase::Searching, Event::Hits(hits)) => if hits@.len() == 0 {
            ended(Outcome::NotFound, no_hits_text(command))
        } else {
            (
                Phase::Fetching { hit: Some(hits@[0].id) },
                ActionView::Get(detail_request(command, key, hits@[0].id)),
            )
        },
        (Phase::Fetching { hit: Some(id) }, Event::Detail(resource)) => match card_for(
            command,
            id,
            resource,
        ) {
            Some(card) => rendered(card),
            None => failed(),
        },
        (Phase::Fetching { hit: Some(id) }, Event::Missing) => ended(
            Outcome::FetchFailed,
            invalid_id_text(command),
        ),
        _ => failed(),
    }
}

/// One step of a command: where it stands afterwards, and what is to be done next.
/// An event that does not fit where the command stands ends it as failed.
pub open spec fn transition(command: Command, key: Seq<char>, phase: Phase, event: Event) -> (
    Phase,
    ActionView,
) {
    match command {
        Command::Comic { number, random } => comic_transition(
            number,
            random == Some(true),
            phase,
            event,
        ),
        _ => lookup_transition(command, key, phase, event),
    }
}

/// Whether an action ends the command.
pub open spec fn is_final(action: ActionView) -> bool {
    action is Reply || action is Send || action is Fail
}

/// A number together with the wish for a random comic is answered with the text for
/// that conflict, at the first step and without a fetch.
pub proof fn conflict_is_answered_at_once(number: u16, key: Seq<char>)
    ensures
        transition(
            Command::Comic { number: Some(number), random: Some(true) },
            key,
            Phase::Idle,
            Event::Invoked,
        ) == ended(Outcome::Conflict, conflict_text()),
{
}

/// A command that has ended stays ended: whatever comes, it asks for no fetch and no
/// draw.
pub proof fn done_is_final(command: Command, key: Seq<char>, outcome: Outcome, event: Event)
    ensures
        transition(command, key, Phase::Done { outcome }, event) == failed(),
{
}

/// Every step either ends the command, with an answer or a failure, or leaves it
/// waiting for what it has just asked for.
pub proof fn steps_end_or_wait(command: Command, key: Seq<char>, phase: Phase, event: Event)
    ensures
        ({
            let (next, action) = transition(command, key, phase, event);
            is_final(action) <==> next is Done
        }),
{
}

/// A card is shown only for a resource that was fetched: no step sends a card unless
/// the command was waiting for a resource and the resource came. Nothing under the
/// address, or a search without hits, never leads to a card.
pub proof fn card_needs_resource(command: Command, key: Seq<char>, phase: Phase, event: Event)
    ensures
        transition(command, key, phase, event).1 is Send ==> phase is Fetching && event is Detail,
        event is Missing ==> !(transition(command, key, phase, event).1 is Send),
        (event matches Event::Hits(hits) && hits@.len() == 0) ==> !(transition(
            command,
            key,
            phase,
            event,
        ).1 is Send),
{
}

/// A fetch that was refused ends the command as failed, wherever it stands: no answer
/// is made up for it, and nothing more is asked for.
pub proof fn refusal_ends_command(command: Command, key: Seq<char>, phase: Phase)
    ensures
        transition(command, key, phase, Event::Refused) == failed(),
{
}

/// A search without hits is answered with a text that names what was searched for.
pub proof fn empty_search_names_query(command: Command, key: Seq<char>, hits: Vec<SearchResult>)
    requires
        !(command is Comic),
        hits@.len() == 0,
    ensures
        transition(command, key, Phase::Searching, Event::Hits(hits)) == ended(
            Outcome::NotFound,
            no_hits_text(command),
        ),
{
}

/// A comic that is not there is answered with the text for an invalid number.
pub proof fn withdrawn_comic_is_answered(
    number: Option<u16>,
    random: Option<bool>,
    key: Seq<char>,
    hit: Option<u64>,
)
    ensures
        transition(
            Command::Comic { number, random },
            key,
            Phase::Fetching { hit },
            Event::Missing,
        ) == ended(Outcome::FetchFailed, invalid_comic_text()),
{
}

/// The comic that is fetched after a draw is never the excluded one: the excluded
/// number is drawn again, and any other number in the range is fetched.
pub proof fn excluded_comic_is_never_fetched(
    number: Option<u16>,
    random: Option<bool>,
    key: Seq<char>,
    latest: u16,
    drawn: u16,
)
    ensures
        ({
            let command = Command::Comic { number, random };
            let (next, action) = transition(
                command,
                key,
                Phase::Drawing { latest },
                Event::Drawn(drawn),
            );
            &&& action is Get ==> drawn != EXCLUDED_COMIC && 1 <= drawn < latest && action
                == ActionView::Get(comic_request(comic_address(drawn)))
            &&& (drawn == EXCLUDED_COMIC && EXCLUDED_COMIC < latest) ==> action
                == (ActionView::Draw { below: latest }) && next == (Phase::Drawing { latest })
        }),
{
}

/// A draw is only asked for below a number above one, so that there is a number to
/// draw.
pub proof fn draws_have_a_range(command: Command, key: Seq<char>, phase: Phase, event: Event)
    ensures
        transition(command, key, phase, event).1 matches ActionView::Draw { below } ==> below > 1,
{
}

/// Says how an answer with the given status is to be taken.
pub fn classify(status: u16) -> (answer: Answer)
    ensures
        answer == answer_of(status),
{
    if status == NOT_FOUND {
        Answer::Missing
    } else if 200 <= status && status <= 299 {
        Answer::Found
    } else {
        Answer::Refused
    }
}

/// The event that an answer without a usable body leads to, if its status alone
/// decides: a missing resource or a refusal. A success decides nothing; what comes of
/// it is in its body.
pub fn event_of_status(status: u16) -> (event: Option<Event>)
    ensures
        match answer_of(status) {
            Answer::Found => event is None,
            Answer::Missing => event == Some(Event::Missing),
            Answer::Refused => event == Some(Event::Refused),
        },
{
    match classify(status) {
        Answer::Found => None,
        Answer::Missing => Some(Event::Missing),
        Answer::Refused => Some(Event::Refused),
    }
}

/// The fetch of a comic.
fn fetch_comic(url: String) -> (action: Action)
    ensures
        action@ == ActionView::Get(comic_request(url@)),
{
    let action = Action::Get(Request { url, query: Vec::new(), shape: Shape::Comic });
    assert(pair_views(Seq::<(String, String)>::empty()) =~= Seq::<
        (Seq<char>, Seq<char>),
    >::empty());
    action
}

/// The end of a command that cannot go on.
fn fail() -> (next: (Phase, Action))
    ensures
        (next.0, next.1@) == failed(),
{
    (Phase::Done { outcome: Outcome::Failed }, Action::Fail)
}

/// The end of a command with a text as its answer.
fn end(outcome: Outcome, text: &str) -> (next: (Phase, Action))
    ensures
        (next.0, next.1@) == ended(outcome, text@),
{
    (Phase::Done { outcome }, Action::Reply(String::from_str(text)))
}

/// A parameter of a query.
fn pair(name: &str, value: &str) -> (pair: (String, String))
    ensures
        pair.0@ == name@,
        pair.1@ == value@,
{
    (String::from_str(name), String::from_str(value))
}

/// The search that a command starts with.
fn search(command: &Command, api_key: &str) -> (request: Request)
    requires
        !(command is Comic),
    ensures
        request@ == search_request(*command, api_key@),
{
    match command {
        Command::Collection { name } => {
            let query = vec![pair("api_key", api_key), pair("query", name.as_str())];
            assert(pair_views(query@) =~= seq![("api_key"@, api_key@), ("query"@, name@)]);
            Request {
                url: String::from_str("https://api.themoviedb.org/3/search/collection"),
                query,
                shape: Shape::Hits,
            }
        },
        Command::Movie { name, year } => {
            let query = match year {
                Some(y) => {
                    let query = vec![
                        pair("api_key", api_key),
                        pair("query", name.as_str()),
                        pair("year", decimal(*y as u64).as_str()),
                    ];
                    assert(pair_views(query@) =~= seq![
                        ("api_key"@, api_key@),
                        ("query"@, name@),
                        ("year"@, digits(*y as nat)),
                    ]);
                    query
                },
                None => {
                    let query = vec![pair("api_key", api_key), pair("query", name.as_str())];
                    assert(pair_views(query@) =~= seq![("api_key"@, api_key@), ("query"@, name@)]);
                    query
                },
            };
            Request {
                url: String::from_str("https://api.themoviedb.org/3/search/movie"),
                query,
                shape: Shape::Hits,
            }
        },
        Command::Show { name } => {
            let query = vec![pair("api_key", api_key), pair("query", name.as_str())];
            assert(pair_views(query@) =~= seq![("api_key"@, api_key@), ("query"@, name@)]);
            Request {
                url: String::from_str("https://api.themoviedb.org/3/search/tv"),
                query,
                shape: Shape::Hits,
            }
        },
        Command::Comic { number, random } => Request {
            url: latest_url(),
            query: Vec::new(),
            shape: Shape::Comic,
        },
    }
}

/// The fetch of the resource that a search found under `id`.
fn detail(command: &Command, api_key: &str, id: u64) -> (request: Request)
    ensures
        request@ == detail_request(*command, api_key@, id),
{
    let mut url = match command {
        Command::Collection { name } => String::from_str(
            "https://api.themoviedb.org/3/collection/",
        ),
        Command::Movie { name, year } => String::from_str("https://api.themoviedb.org/3/movie/"),
        Command::Show { name } => String::from_str("https://api.themoviedb.org/3/tv/"),
        Command::Comic { number, random } => String::from_str("https://xkcd.com/"),
    };
    url.append(decimal(id).as_str());
    let shape = match command {
        Command::Collection { name } => Shape::Collection,
        Command::Movie { name, year } => Shape::Movie,
        Command::Show { name } => Shape::Show,
        Command::Comic { number, random } => Shape::Comic,
    };
    let query = vec![pair("api_key", api_key)];
    assert(pair_views(query@) =~= seq![("api_key"@, api_key@)]);
    Request { url, query, shape }
}

/// The answer to a search that found nothing.
fn no_hits(command: &Command) -> (text: String)
    ensures
        text@ == no_hits_text(*command),
{
    match command {
        Command::Collection { name } => {
            let mut text = String::from_str("Nothing found for `");
            text.append(name.as_str());
            text.append("`. Please try another name.");
            text
        },
        Command::Movie { name, year } => {
            let mut text = String::from_str("No results found for `");
            text.append(name.as_str());
            text.append("`. Please try looking for another movie.");
            text
        },
        Command::Show { name } => {
            let mut text = String::from_str("No results found for `");
            text.append(name.as_str());
            text.append("`. Please try looking for another series.");
            text
        },
        Command::Comic { number, random } => String::from_str(
            "You did not provide a valid comic id.",
        ),
    }
}

/// The answer to a resource that is not there.
fn invalid_id(command: &Command) -> (text: &'static str)
    ensures
        text@ == invalid_id_text(*command),
{
    match command {
        Command::Collection { name } => "You did not provide a valid collection id.",
        Command::Movie { name, year } => "You did not provide a valid movie id.",
        Command::Show { name } => "You did not provide a valid series id.",
        Command::Comic { number, random } => "You did not provide a valid comic id.",
    }
}

/// The end of a command with the card of what came back, or as failed where what came
/// back is not what the command asked for.
fn render(command: &Command, id: u64, resource: DetailResource) -> (next: (Phase, Action))
    ensures
        (next.0, next.1@) == match card_for(*command, id, resource) {
            Some(card) => rendered(card),
            None => failed(),
        },
{
    let model = match command {
        Command::Collection { name } => match resource {
            DetailResource::Collection(collection) => collection_model(id, collection),
            _ => {
                return fail();
            },
        },
        Command::Movie { name, year } => match resource {
            DetailResource::Movie(movie) => movie_model(movie),
            _ => {
                return fail();
            },
        },
        Command::Show { name } => match resource {
            DetailResource::Show(show) => show_model(id, show),
            _ => {
                return fail();
            },
        },
        Command::Comic { number, random } => {
            return fail();
        },
    };
    (Phase::Done { outcome: Outcome::Rendered }, Action::Send(emit(model)))
}

/// One step of a command for a comic.
fn advance_comic(number: Option<u16>, random: bool, phase: Phase, event: Event) -> (next: (
    Phase,
    Action,
))
    ensures
        (next.0, next.1@) == comic_transition(number, random, phase, event),
{
    match phase {
        Phase::Idle => match event {
            Event::Invoked => match number {
                Some(n) => {
                    if random {
                        end(
                            Outcome::Conflict,
                            "You cannot provide both a number and the random flag. Please use one or the other!",
                        )
                    } else {
                        (Phase::Fetching { hit: None }, fetch_comic(comic_url(n)))
                    }
                },
                None => {
                    if random {
                        (Phase::Ranging, fetch_comic(latest_url()))
                    } else {
                        (Phase::Fetching { hit: None }, fetch_comic(latest_url()))
                    }
                },
            },
            _ => fail(),
        },
        Phase::Ranging => match event {
            Event::Detail(DetailResource::Comic(newest)) => {
                if newest.num > 1 {
                    (Phase::Drawing { latest: newest.num }, Action::Draw { below: newest.num })
                } else {
                    fail()
                }
            },
            _ => fail(),
        },
        Phase::Drawing { latest } => match event {
            Event::Drawn(n) => {
                if n < 1 || n >= latest {
                    fail()
                } else if !accept(n) {
                    (Phase::Drawing { latest }, Action::Draw { below: latest })
                } else {
                    (Phase::Fetching { hit: None }, fetch_comic(comic_url(n)))
                }
            },
            _ => fail(),
        },
        Phase::Fetching { hit } => match event {
            Event::Detail(DetailResource::Comic(comic)) => (
                Phase::Done { outcome: Outcome::Rendered },
                Action::Send(emit(comic_model(comic))),
            ),
            Event::Missing => end(Outcome::FetchFailed, "You did not provide a valid comic id."),
            _ => fail(),
        },
        _ => fail(),
    }
}

/// One step of a command that looks something up by its name.
fn advance_lookup(command: &Command, api_key: &str, phase: Phase, event: Event) -> (next: (
    Phase,
    Action,
))
    requires
        !(command is Comic),
    ensures
        (next.0, next.1@) == lookup_transition(*command, api_key@, phase, event),
{
    match phase {
        Phase::Idle => match event {
            Event::Invoked => (Phase::Searching, Action::Get(search(command, api_key))),
            _ => fail(),
        },
        Phase::Searching => match event {
            Event::Hits(hits) => {
                if hits.len() == 0 {
                    (Phase::Done { outcome: Outcome::NotFound }, Action::Reply(no_hits(command)))
                } else {
                    let id = hits[0].id;
                    (Phase::Fetching { hit: Some(id) }, Action::Get(detail(command, api_key, id)))
                }
            },
            _ => fail(),
        },
        Phase::Fetching { hit: Some(id) } => match event {
            Event::Detail(resource) => render(command, id, resource),
            Event::Missing => end(Outcome::FetchFailed, invalid_id(command)),
            _ => fail(),
        },
        _ => fail(),
    }
}

/// Takes one step of a command: given where the command stands and what has just
/// happened, says where it stands now and what is to be done next.
///
/// The first step takes [`Phase::Idle`] and [`Event::Invoked`]. After an action that
/// asks for something, the next step takes the phase that came back and the event that
/// the action led to. `api_key` is the key of the film service; a command for a comic
/// does not read it.
pub fn advance(command: &Command, api_key: &str, phase: Phase, event: Event) -> (next: (
    Phase,
    Action,
))
    ensures
        (next.0, next.1@) == transition(*command, api_key@, phase, event),
{
    match command {
        Command::Comic { number, random } => {
            let wanted = match random {
                Some(flag) => *flag,
                None => false,
            };
            advance_comic(*number, wanted, phase, event)
        },
        _ => advance_lookup(command, api_key, phase, event),
    }
}

} // verus!
