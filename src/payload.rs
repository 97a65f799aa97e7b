//! Display payloads: a title, an accent colour, an optional description, an
//! ordered list of fields, and optional image and link.
use vstd::prelude::*;

verus! {

/// What stands in place of a text field that a record lacks.
pub const UNAVAILABLE: &'static str = "Unavailable";

/// One labelled value of a payload, shown inline or across the full width.
pub struct Field {
    pub name: String,
    pub value: String,
    pub inline: bool,
}

/// The mathematical value of a `Field`.
pub struct FieldView {
    pub name: Seq<char>,
    pub value: Seq<char>,
    pub inline: bool,
}

impl View for Field {
    type V = FieldView;

    open spec fn view(&self) -> FieldView {
        FieldView { name: self.name@, value: self.value@, inline: self.inline }
    }
}

/// A structured message for the messaging layer to show.
pub struct Payload {
    pub title: String,
    pub colour: (u8, u8, u8),
    pub description: Option<String>,
    pub fields: Vec<Field>,
    pub image: Option<String>,
    pub url: Option<String>,
}

/// The mathematical value of a `Payload`.
pub struct PayloadView {
    pub title: Seq<char>,
    pub colour: (u8, u8, u8),
    pub description: Option<Seq<char>>,
    pub fields: Seq<FieldView>,
    pub image: Option<Seq<char>>,
    pub url: Option<Seq<char>>,
}

/// The view of an optional string.
pub open spec fn opt_view(o: Option<String>) -> Option<Seq<char>> {
    match o {
        Some(s) => Some(s@),
        None => None,
    }
}

/// The views of a sequence of fields.
pub open spec fn field_views(v: Seq<Field>) -> Seq<FieldView> {
    v.map_values(|f: Field| f@)
}

impl View for Payload {
    type V = PayloadView;

    open spec fn view(&self) -> PayloadView {
        PayloadView {
            title: self.title@,
            colour: self.colour,
            description: opt_view(self.description),
            fields: field_views(self.fields@),
            image: opt_view(self.image),
            url: opt_view(self.url),
        }
    }
}

/// The text of `o`, or `fallback` where it is absent.
pub open spec fn or_else(o: Option<String>, fallback: Seq<char>) -> Seq<char> {
    match o {
        Some(s) => s@,
        None => fallback,
    }
}

/// The text of `o`, or the placeholder where it is absent.
pub open spec fn or_unavailable(o: Option<String>) -> Seq<char> {
    or_else(o, UNAVAILABLE@)
}

/// A field with the given label, value and layout.
pub open spec fn fv(name: Seq<char>, value: Seq<char>, inline: bool) -> FieldView {
    FieldView { name, value, inline }
}

/// Accent colour of a rendered record.
pub open spec fn record_colour() -> (u8, u8, u8) {
    (0, 46, 100)
}

/// Accent colour of a failure notice.
pub open spec fn failure_colour() -> (u8, u8, u8) {
    (200, 100, 100)
}

/// Accent colour of the notice that nothing was found.
pub open spec fn empty_colour() -> (u8, u8, u8) {
    (242, 170, 0)
}

/// A rendered record: its colour, no description.
pub open spec fn record_view(
    title: Seq<char>,
    fields: Seq<FieldView>,
    image: Option<Seq<char>>,
    url: Option<Seq<char>>,
) -> PayloadView {
    PayloadView { title, colour: record_colour(), description: None, fields, image, url }
}

/// A notice: a title and a description, no fields.
pub open spec fn notice_view(colour: (u8, u8, u8), title: Seq<char>, description: Seq<char>) -> PayloadView {
    PayloadView {
        title,
        colour,
        description: Some(description),
        fields: seq![],
        image: None,
        url: None,
    }
}

/// The notice for a command that could not be parsed.
pub open spec fn parse_failure_view() -> PayloadView {
    notice_view(failure_colour(), "Failed"@, "Couldn't parse input"@)
}

/// The notice for a query that the service answered with no record.
pub open spec fn no_results_view() -> PayloadView {
    notice_view(empty_colour(), "No Results"@, "No results were returned by the API"@)
}

/// The notice for a query that failed.
pub open spec fn api_failure_view() -> PayloadView {
    notice_view(failure_colour(), "Failed"@, "There was a problem with that"@)
}

/// The text of `o`, or `fallback` where it is absent.
pub fn text_or(o: &Option<String>, fallback: &str) -> (r: String)
    ensures
        r@ == or_else(*o, fallback@),
{
    match o {
        Some(s) => s.clone(),
        None => String::from_str(fallback),
    }
}

/// The text of `o`, or the placeholder where it is absent.
pub fn text_or_unavailable(o: &Option<String>) -> (r: String)
    ensures
        r@ == or_unavailable(*o),
{
    text_or(o, UNAVAILABLE)
}

/// A field with the given label, value and layout.
pub fn field(name: &str, value: String, inline: bool) -> (r: Field)
    ensures
        r@ == fv(name@, value@, inline),
{
    Field { name: String::from_str(name), value, inline }
}

/// A rendered record with the given title, fields, image and link.
pub fn record(title: String, fields: Vec<Field>, image: Option<String>, url: Option<String>) -> (r: Payload)
    ensures
        r@ == record_view(title@, field_views(fields@), opt_view(image), opt_view(url)),
{
    Payload { title, colour: (0, 46, 100), description: None, fields, image, url }
}

fn notice(colour: (u8, u8, u8), title: &str, description: &str) -> (r: Payload)
    ensures
        r@ == notice_view(colour, title@, description@),
{
    let r = Payload {
        title: String::from_str(title),
        colour,
        description: Some(String::from_str(description)),
        fields: Vec::new(),
        image: None,
        url: None,
    };
    assert(field_views(r.fields@) =~= seq![]);
    r
}

/// The notice for a command that could not be parsed.
pub fn parse_failure() -> (r: Payload)
    ensures
        r@ == parse_failure_view(),
{
    notice((200, 100, 100), "Failed", "Couldn't parse input")
}

/// The notice for a query that the service answered with no record.
pub fn no_results() -> (r: Payload)
    ensures
        r@ == no_results_view(),
{
    notice((242, 170, 0), "No Results", "No results were returned by the API")
}

/// The notice for a query that failed.
pub fn api_failure() -> (r: Payload)
    ensures
        r@ == api_failure_view(),
{
    notice((200, 100, 100), "Failed", "There was a problem with that")
}

} // verus!
