//! What a command shows: a card with a title, a description and a list of fields, and
//! the links that go with it.

use vstd::prelude::*;
use vstd::string::*;

verus! {

/// One labelled value of the card.
#[derive(Clone, Debug, PartialEq, Eq)]
pub struct Field {
    pub label: String,
    pub value: String,
    /// Whether the field may stand beside its neighbours.
    pub inline: bool,
}

/// A field, as text.
pub struct FieldView {
    pub label: Seq<char>,
    pub value: Seq<char>,
    pub inline: bool,
}

/// One link: what the button says and where it leads.
#[derive(Clone, Debug, PartialEq, Eq)]
pub struct Link {
    pub label: String,
    pub url: String,
}

/// A link, as text.
pub struct LinkView {
    pub label: Seq<char>,
    pub url: Seq<char>,
}

/// All that a command shows for one resource.
#[derive(Clone, Debug, PartialEq, Eq)]
pub struct DisplayModel {
    pub title: String,
    /// Where the title leads.
    pub url: Option<String>,
    pub description: String,
    /// The address of a small picture.
    pub thumbnail: Option<String>,
    /// The address of a large picture.
    pub image: Option<String>,
    /// The colour of the card, as red, green and blue in one number.
    pub color: u32,
    pub fields: Vec<Field>,
    pub footer: Option<String>,
    pub links: Vec<Link>,
}

/// A display model, as text.
#[verifier::ext_equal]
pub struct DisplayModelView {
    pub title: Seq<char>,
    pub url: Option<Seq<char>>,
    pub description: Seq<char>,
    pub thumbnail: Option<Seq<char>>,
    pub image: Option<Seq<char>>,
    pub color: u32,
    pub fields: Seq<FieldView>,
    pub footer: Option<Seq<char>>,
    pub links: Seq<LinkView>,
}

/// The fields of a list, as text.
pub open spec fn field_views(fields: Seq<Field>) -> Seq<FieldView> {
    fields.map_values(|f: Field| f@)
}

/// The links of a list, as text.
pub open spec fn link_views(links: Seq<Link>) -> Seq<LinkView> {
    links.map_values(|l: Link| l@)
}

impl View for Field {
    type V = FieldView;

    open spec fn view(&self) -> FieldView {
        FieldView { label: self.label@, value: self.value@, inline: self.inline }
    }
}

impl View for Link {
    type V = LinkView;

    open spec fn view(&self) -> LinkView {
        LinkView { label: self.label@, url: self.url@ }
    }
}

impl View for DisplayModel {
    type V = DisplayModelView;

    open spec fn view(&self) -> DisplayModelView {
        DisplayModelView {
            title: self.title@,
            url: crate::text::opt_text(self.url),
            description: self.description@,
            thumbnail: crate::text::opt_text(self.thumbnail),
            image: crate::text::opt_text(self.image),
            color: self.color,
            fields: field_views(self.fields@),
            footer: crate::text::opt_text(self.footer),
            links: link_views(self.links@),
        }
    }
}

impl FieldView {
    /// Whether the field can be shown: neither its label nor its value is empty.
    pub open spec fn is_shown(self) -> bool {
        self.label.len() > 0 && self.value.len() > 0
    }
}

impl LinkView {
    /// Whether the link can be shown: neither its label nor its address is empty.
    pub open spec fn is_usable(self) -> bool {
        self.label.len() > 0 && self.url.len() > 0
    }
}

impl DisplayModelView {
    /// Whether every field and every link of the model can be shown.
    pub open spec fn is_well_formed(self) -> bool {
        &&& forall|i: int| 0 <= i < self.fields.len() ==> (#[trigger] self.fields[i]).is_shown()
        &&& forall|i: int| 0 <= i < self.links.len() ==> (#[trigger] self.links[i]).is_usable()
    }
}

impl Field {
    /// A field with the given label and value.
    pub fn new(label: &str, value: String, inline: bool) -> (field: Field)
        ensures
            field@ == (FieldView { label: label@, value: value@, inline }),
    {
        Field { label: String::from_str(label), value, inline }
    }
}

impl Link {
    /// A link with the given label and address.
    pub fn new(label: String, url: String) -> (link: Link)
        ensures
            link@ == (LinkView { label: label@, url: url@ }),
    {
        Link { label, url }
    }
}

} // verus!
