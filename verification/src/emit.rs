//! From a display model to the message that is sent: the card as it is, and the links
//! laid out as rows of buttons.

use crate::display::{link_views, DisplayModel, DisplayModelView, Field, FieldView, Link, LinkView};
use crate::text::opt_text;
use vstd::prelude::*;

verus! {

/// The number of buttons that one row takes.
pub const ROW_WIDTH: usize = 5;

/// A message as it is sent: a card, and below it rows of link buttons.
#[derive(Clone, Debug, PartialEq, Eq)]
pub struct Message {
    pub title: String,
    pub url: Option<String>,
    pub description: String,
    pub thumbnail: Option<String>,
    pub image: Option<String>,
    pub color: u32,
    pub fields: Vec<Field>,
    pub footer: Option<String>,
    pub rows: Vec<Vec<Link>>,
}

/// A message, as text.
#[verifier::ext_equal]
pub struct MessageView {
    pub title: Seq<char>,
    pub url: Option<Seq<char>>,
    pub description: Seq<char>,
    pub thumbnail: Option<Seq<char>>,
    pub image: Option<Seq<char>>,
    pub color: u32,
    pub fields: Seq<FieldView>,
    pub footer: Option<Seq<char>>,
    pub rows: Seq<Seq<LinkView>>,
}

/// The rows of a list, as text.
pub open spec fn row_views(rows: Seq<Vec<Link>>) -> Seq<Seq<LinkView>> {
    rows.map_values(|row: Vec<Link>| link_views(row@))
}

impl View for Message {
    type V = MessageView;

    open spec fn view(&self) -> MessageView {
        MessageView {
            title: self.title@,
            url: opt_text(self.url),
            description: self.description@,
            thumbnail: opt_text(self.thumbnail),
            image: opt_text(self.image),
            color: self.color,
            fields: crate::display::field_views(self.fields@),
            footer: opt_text(self.footer),
            rows: row_views(self.rows@),
        }
    }
}

/// The number of rows that `len` items take.
pub open spec fn row_count(len: int) -> int {
    (len + ROW_WIDTH - 1) / (ROW_WIDTH as int)
}

/// Where row `i` ends in a list of `len` items.
pub open spec fn row_end(i: int, len: int) -> int {
    if (i + 1) * ROW_WIDTH <= len {
        (i + 1) * ROW_WIDTH
    } else {
        len
    }
}

/// The items in rows: the first five, the next five and so on, the rest in the last
/// row. An empty list has no row.
pub open spec fn rows_of<T>(items: Seq<T>) -> Seq<Seq<T>> {
    Seq::new(
        row_count(items.len() as int) as nat,
        |i: int| items.subrange(i * ROW_WIDTH, row_end(i, items.len() as int)),
    )
}

/// The links of a model that can be shown, in their order.
pub open spec fn usable_links(links: Seq<LinkView>) -> Seq<LinkView> {
    links.filter(|l: LinkView| l.is_usable())
}

/// The message for a display model: the card unchanged, and the links that can be
/// shown in rows.
pub open spec fn message_of(model: DisplayModelView) -> MessageView {
    MessageView {
        title: model.title,
        url: model.url,
        description: model.description,
        thumbnail: model.thumbnail,
        image: model.image,
        color: model.color,
        fields: model.fields,
        footer: model.footer,
        rows: rows_of(usable_links(model.links)),
    }
}

proof fn lemma_rows_short<T>(items: Seq<T>)
    requires
        items.len() <= ROW_WIDTH,
    ensures
        items.len() == 0 ==> rows_of(items) == Seq::<Seq<T>>::empty(),
        items.len() > 0 ==> rows_of(items) == seq![items],
{
    if items.len() == 0 {
        assert(rows_of(items) =~= Seq::<Seq<T>>::empty());
    } else {
        assert(row_count(items.len() as int) == 1);
        assert(items.subrange(0, items.len() as int) =~= items);
        assert(rows_of(items) =~~= seq![items]);
    }
}

proof fn lemma_rows_step<T>(items: Seq<T>)
    requires
        items.len() > ROW_WIDTH,
    ensures
        rows_of(items) == seq![items.take(ROW_WIDTH as int)] + rows_of(
            items.skip(ROW_WIDTH as int),
        ),
{
    let len = items.len() as int;
    let rest = items.skip(ROW_WIDTH as int);
    let split = seq![items.take(ROW_WIDTH as int)] + rows_of(rest);
    assert(row_count(len) == row_count(len - ROW_WIDTH) + 1);
    assert(rows_of(items).len() == split.len());
    assert forall|i: int| 0 <= i < split.len() implies rows_of(items)[i] =~= split[i] by {
        if i > 0 {
            assert(split[i] == rows_of(rest)[i - 1]);
            assert(row_end(i, len) == row_end(i - 1, len - ROW_WIDTH) + ROW_WIDTH);
        }
    }
    assert(rows_of(items) =~= split);
}

/// Rows keep the items and their order: the rows read one after the other are the list.
pub proof fn rows_keep_order<T>(items: Seq<T>)
    ensures
        rows_of(items).flatten() == items,
    decreases items.len(),
{
    if items.len() <= ROW_WIDTH {
        lemma_rows_short(items);
        if items.len() > 0 {
            seq![items].lemma_flatten_one_element();
        } else {
            assert(Seq::<Seq<T>>::empty().flatten() =~= Seq::<T>::empty());
        }
        assert(rows_of(items).flatten() =~= items);
    } else {
        lemma_rows_step(items);
        let first = items.take(ROW_WIDTH as int);
        let rest = items.skip(ROW_WIDTH as int);
        rows_keep_order(rest);
        vstd::seq_lib::lemma_flatten_concat(seq![first], rows_of(rest));
        seq![first].lemma_flatten_one_element();
        assert(first + rest =~= items);
    }
}

/// No row is empty, none holds more than five items, and every row but the last is
/// full.
pub proof fn rows_are_filled<T>(items: Seq<T>, i: int)
    requires
        0 <= i < rows_of(items).len(),
    ensures
        1 <= rows_of(items)[i].len() <= ROW_WIDTH,
        i + 1 < rows_of(items).len() ==> rows_of(items)[i].len() == ROW_WIDTH,
{
}

/// A model whose links can all be shown loses none of them: the rows of the message,
/// read one after the other, are the links of the model.
pub proof fn message_keeps_links(model: DisplayModelView)
    requires
        model.is_well_formed(),
    ensures
        message_of(model).rows.flatten() == model.links,
{
    lemma_all_usable(model.links);
    rows_keep_order(model.links);
}

/// Whatever the model holds, no link of the message has an empty label or address.
pub proof fn message_links_are_usable(model: DisplayModelView, i: int, j: int)
    requires
        0 <= i < message_of(model).rows.len(),
        0 <= j < message_of(model).rows[i].len(),
    ensures
        message_of(model).rows[i][j].is_usable(),
{
    let kept = usable_links(model.links);
    let at = i * ROW_WIDTH + j;
    assert(rows_of(kept)[i][j] == kept[at]);
    model.links.lemma_filter_pred(|l: LinkView| l.is_usable(), at);
}

proof fn lemma_all_usable(links: Seq<LinkView>)
    requires
        forall|i: int| 0 <= i < links.len() ==> (#[trigger] links[i]).is_usable(),
    ensures
        usable_links(links) == links,
    decreases links.len(),
{
    reveal(Seq::filter);
    if links.len() > 0 {
        lemma_all_usable(links.drop_last());
        assert(links.drop_last().push(links.last()) =~= links);
    }
}

/// Keeps the links that can be shown, in their order.
fn keep_usable(links: Vec<Link>) -> (kept: Vec<Link>)
    ensures
        link_views(kept@) == usable_links(link_views(links@)),
{
    let mut kept: Vec<Link> = Vec::new();
    let ghost all = links@;
    proof {
        reveal(Seq::filter);
        assert(link_views(all).take(0) =~= Seq::<LinkView>::empty());
        assert(link_views(kept@) =~= Seq::<LinkView>::empty());
    }
    for link in iter: links
        invariant
            iter.seq() == all,
            link_views(kept@) == usable_links(link_views(all).take(iter.index() as int)),
    {
        proof {
            reveal(Seq::filter);
            let next = link_views(all).take(iter.index() + 1);
            assert(next.drop_last() =~= link_views(all).take(iter.index() as int));
            assert(next.last() == link@);
            assert(link_views(kept@.push(link)) =~= link_views(kept@).push(link@));
        }
        if !link.label.as_str().is_empty() && !link.url.as_str().is_empty() {
            kept.push(link);
        }
    }
    proof {
        assert(link_views(all).take(all.len() as int) =~= link_views(all));
    }
    kept
}

/// Lays links out in rows of five, in their order.
pub fn paginate(links: Vec<Link>) -> (rows: Vec<Vec<Link>>)
    ensures
        row_views(rows@) == rows_of(link_views(links@)),
{
    let ghost all = link_views(links@);
    let mut rows: Vec<Vec<Link>> = Vec::new();
    let mut rest = links;
    proof {
        assert(row_views(rows@) + rows_of(link_views(rest@)) =~= rows_of(all));
    }
    while rest.len() > ROW_WIDTH
        invariant
            row_views(rows@) + rows_of(link_views(rest@)) == rows_of(all),
        decreases rest.len(),
    {
        let ghost before = link_views(rest@);
        let ghost done = row_views(rows@);
        let tail = rest.split_off(ROW_WIDTH);
        proof {
            lemma_rows_step(before);
            assert(link_views(rest@) =~= before.take(ROW_WIDTH as int));
            assert(link_views(tail@) =~= before.skip(ROW_WIDTH as int));
            assert(row_views(rows@.push(rest)) =~= done.push(link_views(rest@)));
            assert(done.push(link_views(rest@)) + rows_of(link_views(tail@)) =~= done + rows_of(
                before,
            ));
        }
        rows.push(rest);
        rest = tail;
    }
    proof {
        lemma_rows_short(link_views(rest@));
    }
    if rest.len() > 0 {
        proof {
            assert(row_views(rows@.push(rest)) =~= row_views(rows@).push(link_views(rest@)));
            assert(row_views(rows@).push(link_views(rest@)) =~= row_views(rows@)
                + seq![link_views(rest@)]);
        }
        rows.push(rest);
    } else {
        proof {
            assert(row_views(rows@) + Seq::<Seq<LinkView>>::empty() =~= row_views(rows@));
        }
    }
    rows
}

/// Builds the message for a display model. The card is taken over as it is. The links
/// are laid out in rows of five, in their order; a link with an empty label or an
/// empty address is left out.
pub fn emit(model: DisplayModel) -> (message: Message)
    ensures
        message@ == message_of(model@),
{
    let rows = paginate(keep_usable(model.links));
    Message {
        title: model.title,
        url: model.url,
        description: model.description,
        thumbnail: model.thumbnail,
        image: model.image,
        color: model.color,
        fields: model.fields,
        footer: model.footer,
        rows,
    }
}

} // verus!
