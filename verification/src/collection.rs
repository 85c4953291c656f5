//! The card of a collection of films: one field and one link button for each film, the
//! films in the order of their ids.

use crate::dates::{iso_pattern, parsed_date, shown_year, year_or_unreleased, Date};
use crate::display::{DisplayModel, DisplayModelView, Field, FieldView, Link, LinkView};
use crate::models::{Collection, SimplifiedMovie};
use crate::numbers::{decimal, digits, numeral_is_not_empty};
use crate::runtime::unknown;
use crate::text::{non_blank, or_else};
use crate::tmdb::{poster_address, poster_url, COLLECTION_COLOR};
use vstd::prelude::*;
use vstd::relations::{sorted_by, total_ordering};
use vstd::string::*;

verus! {

/// The address of a collection's page.
pub open spec fn collection_page(id: u64) -> Seq<char> {
    "https://www.themoviedb.org/collection/"@ + digits(id as nat)
}

/// The address that the link button of the film with this id leads to.
pub open spec fn film_link(id: u64) -> Seq<char> {
    "https://themoviedb.org/movie/"@ + digits(id as nat)
}

/// The ids of a list of films, in the order of the list.
pub open spec fn ids(parts: Seq<SimplifiedMovie>) -> Seq<u64> {
    parts.map_values(|part: SimplifiedMovie| part.id)
}

/// Whether no id of the list is followed by a smaller one.
pub open spec fn is_ascending(ids: Seq<u64>) -> bool {
    forall|i: int, j: int| 0 <= i < j < ids.len() ==> ids[i] <= ids[j]
}

/// A list that is in the order of its ids, with one more film put in: it stands behind
/// every film whose id is not larger than its own.
pub open spec fn placed(sorted: Seq<SimplifiedMovie>, part: SimplifiedMovie) -> Seq<
    SimplifiedMovie,
>
    decreases sorted.len(),
{
    if sorted.len() == 0 {
        seq![part]
    } else if sorted.last().id <= part.id {
        sorted.push(part)
    } else {
        placed(sorted.drop_last(), part).push(sorted.last())
    }
}

/// The films in the order of their ids, the smallest first. Films with the same id
/// keep the order in which they came.
pub open spec fn by_id(parts: Seq<SimplifiedMovie>) -> Seq<SimplifiedMovie>
    decreases parts.len(),
{
    if parts.len() == 0 {
        Seq::empty()
    } else {
        placed(by_id(parts.drop_last()), parts.last())
    }
}

/// The three numbers of a date that may have been read.
pub open spec fn date_numbers(date: Option<Date>) -> Option<(int, int, int)> {
    match date {
        Some(d) => Some((d.year as int, d.month as int, d.day as int)),
        None => None,
    }
}

/// The field of one film, given what was read from its release date: the title with
/// the year of release in brackets behind it, and the overview below.
pub open spec fn part_field(part: SimplifiedMovie, parsed: Option<(int, int, int)>) -> FieldView {
    FieldView {
        label: part.title@ + " ("@ + shown_year(parsed) + ")"@,
        value: or_else(part.overview@, unknown()),
        inline: false,
    }
}

/// The link button of one film: its title, leading to its page.
pub open spec fn part_link(part: SimplifiedMovie) -> LinkView {
    LinkView { label: or_else(part.title@, unknown()), url: film_link(part.id) }
}

/// The fields of a list of films, each with what chrono reads from its release date.
pub open spec fn part_fields(parts: Seq<SimplifiedMovie>) -> Seq<FieldView> {
    parts.map_values(
        |part: SimplifiedMovie| part_field(part, parsed_date(part.release_date@, iso_pattern())),
    )
}

/// The link buttons of a list of films.
pub open spec fn part_links(parts: Seq<SimplifiedMovie>) -> Seq<LinkView> {
    parts.map_values(|part: SimplifiedMovie| part_link(part))
}

/// The addresses that the link buttons of a list of films lead to.
pub open spec fn link_targets(parts: Seq<SimplifiedMovie>) -> Seq<Seq<char>> {
    parts.map_values(|part: SimplifiedMovie| film_link(part.id))
}

/// The card of the collection that a search found under `id`.
pub open spec fn collection_card(id: u64, collection: Collection) -> DisplayModelView {
    DisplayModelView {
        title: collection.name@,
        url: Some(collection_page(id)),
        description: collection.overview@,
        thumbnail: poster_address(Some(collection.poster_path@)),
        image: None,
        color: COLLECTION_COLOR,
        fields: part_fields(by_id(collection.parts@)),
        footer: None,
        links: part_links(by_id(collection.parts@)),
    }
}

proof fn lemma_placed(sorted: Seq<SimplifiedMovie>, part: SimplifiedMovie, bound: u64)
    requires
        is_ascending(ids(sorted)),
        part.id <= bound,
        forall|i: int| 0 <= i < sorted.len() ==> sorted[i].id <= bound,
    ensures
        placed(sorted, part).len() == sorted.len() + 1,
        is_ascending(ids(placed(sorted, part))),
        ids(placed(sorted, part)).to_multiset() == ids(sorted).to_multiset().insert(part.id),
        forall|i: int| 0 <= i < placed(sorted, part).len() ==> placed(sorted, part)[i].id <= bound,
    decreases sorted.len(),
{
    broadcast use vstd::seq_lib::to_multiset_build;

    if sorted.len() == 0 {
        assert(ids(seq![part]) =~= ids(sorted).push(part.id));
    } else if sorted.last().id <= part.id {
        let after = sorted.push(part);
        assert(ids(after) =~= ids(sorted).push(part.id));
        assert forall|i: int, j: int| 0 <= i < j < ids(after).len() implies ids(after)[i] <= ids(
            after,
        )[j] by {
            if j == sorted.len() {
                assert(ids(sorted)[i] <= ids(sorted)[sorted.len() - 1]);
            } else {
                assert(ids(sorted)[i] <= ids(sorted)[j]);
            }
        }
    } else {
        let front = sorted.drop_last();
        let last = sorted.last();
        assert(ids(front) =~= ids(sorted).drop_last());
        assert forall|i: int, j: int| 0 <= i < j < ids(front).len() implies ids(front)[i] <= ids(
            front,
        )[j] by {
            assert(ids(sorted)[i] <= ids(sorted)[j]);
        }
        assert forall|i: int| 0 <= i < front.len() implies front[i].id <= last.id by {
            assert(ids(sorted)[i] <= ids(sorted)[sorted.len() - 1]);
        }
        lemma_placed(front, part, last.id);
        lemma_placed(front, part, bound);
        let inner = placed(front, part);
        let after = inner.push(last);
        assert(ids(after) =~= ids(inner).push(last.id));
        assert(ids(sorted) =~= ids(front).push(last.id));
        assert(ids(front).to_multiset().insert(part.id).insert(last.id) =~= ids(
            front,
        ).to_multiset().insert(last.id).insert(part.id));
        assert forall|i: int, j: int| 0 <= i < j < ids(after).len() implies ids(after)[i] <= ids(
            after,
        )[j] by {
            if j == inner.len() {
                assert(inner[i].id <= last.id);
            } else {
                assert(ids(inner)[i] <= ids(inner)[j]);
            }
        }
    }
}

proof fn lemma_by_id(parts: Seq<SimplifiedMovie>)
    ensures
        by_id(parts).len() == parts.len(),
        is_ascending(ids(by_id(parts))),
        ids(by_id(parts)).to_multiset() == ids(parts).to_multiset(),
    decreases parts.len(),
{
    broadcast use vstd::seq_lib::to_multiset_build;

    if parts.len() == 0 {
        assert(ids(by_id(parts)) =~= ids(parts));
    } else {
        lemma_by_id(parts.drop_last());
        lemma_placed(by_id(parts.drop_last()), parts.last(), u64::MAX);
        assert(ids(parts) =~= ids(parts.drop_last()).push(parts.last().id));
    }
}

proof fn lemma_placed_at(sorted: Seq<SimplifiedMovie>, part: SimplifiedMovie, at: int)
    requires
        0 <= at <= sorted.len(),
        forall|k: int| at <= k < sorted.len() ==> sorted[k].id > part.id,
        at > 0 ==> sorted[at - 1].id <= part.id,
    ensures
        placed(sorted, part) == sorted.insert(at, part),
    decreases sorted.len(),
{
    if sorted.len() == 0 {
        assert(sorted.insert(at, part) =~= seq![part]);
    } else if at == sorted.len() {
        assert(sorted.insert(at, part) =~= sorted.push(part));
    } else {
        lemma_placed_at(sorted.drop_last(), part, at);
        assert(sorted.drop_last().insert(at, part).push(sorted.last()) =~= sorted.insert(
            at,
            part,
        ));
    }
}

/// The link buttons of a collection are as many as its films. They lead to the films'
/// pages in the order of the ids, the smallest first, and the ids that they stand for
/// are those of the films.
pub proof fn links_follow_ids(id: u64, collection: Collection)
    ensures
        collection_card(id, collection).links.len() == collection.parts@.len(),
        is_ascending(ids(by_id(collection.parts@))),
        ids(by_id(collection.parts@)).to_multiset() == ids(collection.parts@).to_multiset(),
        forall|i: int|
            0 <= i < collection.parts@.len() ==> (#[trigger] collection_card(
                id,
                collection,
            ).links[i]).url == film_link(ids(by_id(collection.parts@))[i]),
{
    lemma_by_id(collection.parts@);
}

/// The order in which the service lists the films of a collection does not show in the
/// link buttons: two lists that hold the same ids give buttons that lead to the same
/// addresses, in the same order.
pub proof fn link_order_ignores_listing(first: Seq<SimplifiedMovie>, second: Seq<SimplifiedMovie>)
    requires
        ids(first).to_multiset() == ids(second).to_multiset(),
    ensures
        link_targets(by_id(first)) == link_targets(by_id(second)),
{
    lemma_by_id(first);
    lemma_by_id(second);
    let leq = |a: u64, b: u64| a <= b;
    let x = ids(by_id(first));
    let y = ids(by_id(second));
    assert(sorted_by(x, leq));
    assert(sorted_by(y, leq));
    assert(total_ordering(leq));
    vstd::seq_lib::lemma_sorted_unique(x, y, leq);
    assert(by_id(first).len() == by_id(second).len()) by {
        assert(x.len() == by_id(first).len());
        assert(y.len() == by_id(second).len());
    }
    assert forall|i: int| 0 <= i < by_id(first).len() implies link_targets(by_id(first))[i]
        == link_targets(by_id(second))[i] by {
        assert(x[i] == by_id(first)[i].id);
        assert(y[i] == by_id(second)[i].id);
    }
    assert(link_targets(by_id(first)) =~= link_targets(by_id(second)));
}

/// Every field and every link button of a collection's card has a label and a value or
/// an address, whatever the collection holds.
pub proof fn collection_card_is_well_formed(id: u64, collection: Collection)
    ensures
        collection_card(id, collection).is_well_formed(),
{
    reveal_strlit(" (");
    reveal_strlit("Unknown");
    let card = collection_card(id, collection);
    let parts = by_id(collection.parts@);
    assert forall|i: int| 0 <= i < card.links.len() implies (#[trigger] card.links[i]).is_usable() by {
        numeral_is_not_empty(parts[i].id as nat);
    }
}

/// The films in the order of their ids.
fn sort_parts(parts: Vec<SimplifiedMovie>) -> (sorted: Vec<SimplifiedMovie>)
    ensures
        sorted@ == by_id(parts@),
{
    let ghost all = parts@;
    let mut sorted: Vec<SimplifiedMovie> = Vec::new();
    proof {
        assert(all.take(0) =~= Seq::<SimplifiedMovie>::empty());
    }
    for part in iter: parts
        invariant
            iter.seq() == all,
            sorted@ == by_id(all.take(iter.index() as int)),
    {
        let mut at: usize = sorted.len();
        while at > 0 && sorted[at - 1].id > part.id
            invariant
                at <= sorted.len(),
                forall|k: int| at <= k < sorted.len() ==> sorted@[k].id > part.id,
            decreases at,
        {
            at = at - 1;
        }
        proof {
            lemma_placed_at(sorted@, part, at as int);
            assert(all.take(iter.index() + 1).drop_last() =~= all.take(iter.index() as int));
        }
        sorted.insert(at, part);
    }
    proof {
        assert(all.take(all.len() as int) =~= all);
    }
    sorted
}

/// Builds the field of one film from the film and from the date that was read from its
/// release date, if one was.
pub fn field_of_part(part: &SimplifiedMovie, date: Option<Date>) -> (field: Field)
    ensures
        field@ == part_field(*part, date_numbers(date)),
{
    let mut label = part.title.clone();
    label.append(" (");
    label.append(year_or_unreleased(date).as_str());
    label.append(")");
    Field { label, value: non_blank(part.overview.clone(), "Unknown"), inline: false }
}

/// Builds the link button of one film.
pub fn link_of_part(part: &SimplifiedMovie) -> (link: Link)
    ensures
        link@ == part_link(*part),
{
    let mut url = String::from_str("https://themoviedb.org/movie/");
    url.append(decimal(part.id).as_str());
    Link { label: non_blank(part.title.clone(), "Unknown"), url }
}

/// Builds the card of the collection that a search found under `id`. The films are put
/// in the order of their ids; each gets a field and a link button, in that order. The
/// year in a film's field is read from its release date; `Unreleased` stands there
/// where the date cannot be read.
pub fn collection_model(id: u64, collection: Collection) -> (model: DisplayModel)
    ensures
        model@ == collection_card(id, collection),
        model@.is_well_formed(),
{
    let mut page = String::from_str("https://www.themoviedb.org/collection/");
    page.append(decimal(id).as_str());
    let thumbnail = poster_url(Some(collection.poster_path));
    let parts = sort_parts(collection.parts);
    let mut fields: Vec<Field> = Vec::new();
    let mut links: Vec<Link> = Vec::new();
    let mut i: usize = 0;
    while i < parts.len()
        invariant
            i <= parts.len(),
            fields.len() == i,
            links.len() == i,
            forall|k: int| 0 <= k < i ==> (#[trigger] fields@[k])@ == part_fields(parts@)[k],
            forall|k: int| 0 <= k < i ==> (#[trigger] links@[k])@ == part_links(parts@)[k],
        decreases parts.len() - i,
    {
        let part = &parts[i];
        let date = Date::parse(part.release_date.as_str());
        fields.push(field_of_part(part, date));
        links.push(link_of_part(part));
        i = i + 1;
    }
    let model = DisplayModel {
        title: collection.name,
        url: Some(page),
        description: collection.overview,
        thumbnail,
        image: None,
        color: COLLECTION_COLOR,
        fields,
        footer: None,
        links,
    };
    proof {
        let card = collection_card(id, collection);
        assert(model@.fields =~= card.fields);
        assert(model@.links =~= card.links);
        assert(model@ =~= card);
        collection_card_is_well_formed(id, collection);
    }
    model
}

} // verus!
