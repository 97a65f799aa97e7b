//! The records the campus-information service returns, as far as they are
//! shown, and how each kind is rendered.
use vstd::prelude::*;
use crate::clock::{convert_time, time_text};
use crate::payload::{
    field, field_views, fv, opt_view, or_else, or_unavailable, record, record_view,
    text_or, text_or_unavailable, Field, FieldView, Payload, PayloadView,
};

verus! {

/// Where a course's calendar page lives, under its code.
pub const COURSE_PAGES: &'static str = "https://fas.calendar.utoronto.ca/course";

/// A course.
#[derive(Clone, Debug, Default, PartialEq, Eq)]
pub struct Course {
    pub code: Option<String>,
    pub name: Option<String>,
    pub campus: Option<String>,
    pub term: Option<String>,
    pub utm_distribution: Option<String>,
    pub prerequisites: Option<String>,
    pub corequisites: Option<String>,
    pub exclusions: Option<String>,
    pub description: Option<String>,
}

/// A textbook. Its price is held as the decimal text of the amount.
#[derive(Clone, Debug, Default, PartialEq, Eq)]
pub struct Textbook {
    pub title: Option<String>,
    pub price: Option<String>,
    pub isbn: Option<String>,
    pub course_codes: Vec<Option<String>>,
    pub image: Option<String>,
}

/// An exam sitting. Its start and end are seconds since the epoch.
#[derive(Clone, Debug, Default, PartialEq, Eq)]
pub struct Exam {
    pub course_code: Option<String>,
    pub campus: Option<String>,
    pub date: Option<String>,
    pub start: Option<i64>,
    pub end: Option<i64>,
}

/// A course evaluation.
#[derive(Clone, Debug, Default, PartialEq, Eq)]
pub struct Eval {
    pub name: Option<String>,
    pub campus: Option<String>,
    pub last_updated: Option<String>,
}

/// A food vendor.
#[derive(Clone, Debug, Default, PartialEq, Eq)]
pub struct Food {
    pub name: Option<String>,
    pub campus: Option<String>,
    pub address: Option<String>,
    pub tags: Option<String>,
    pub url: Option<String>,
    pub image: Option<String>,
}

/// A campus service.
#[derive(Clone, Debug, Default, PartialEq, Eq)]
pub struct Service {
    pub name: Option<String>,
    pub campus: Option<String>,
    pub tags: Option<String>,
    pub building_id: Option<String>,
    pub image: Option<String>,
}

/// A building. Its coordinates are held as the decimal text of the degrees.
#[derive(Clone, Debug, Default, PartialEq, Eq)]
pub struct Building {
    pub name: Option<String>,
    pub street: Option<String>,
    pub city: Option<String>,
    pub country: Option<String>,
    pub latitude: Option<String>,
    pub longitude: Option<String>,
}

/// A parking lot.
#[derive(Clone, Debug, Default, PartialEq, Eq)]
pub struct Parking {
    pub name: Option<String>,
    pub campus: Option<String>,
    pub address: Option<String>,
    pub description: Option<String>,
}

/// A course's title: its code, followed by its name after a dash where it
/// has one; its name alone where it has no code; else the label "Course".
pub open spec fn course_title(c: Course) -> Seq<char> {
    match (c.code, c.name) {
        (Some(code), Some(n)) => code@ + " - "@ + n@,
        (Some(code), None) => code@,
        (None, Some(n)) => n@,
        (None, None) => "Course"@,
    }
}

/// A course's calendar page, where it has a code.
pub open spec fn course_url(c: Course) -> Option<Seq<char>> {
    match c.code {
        Some(code) => Some(COURSE_PAGES@ + "/"@ + code@),
        None => None,
    }
}

/// How a course is shown.
pub open spec fn course_payload(c: Course) -> PayloadView {
    record_view(
        course_title(c),
        seq![
            fv("Campus"@, or_unavailable(c.campus), true),
            fv("Term"@, or_unavailable(c.term), true),
            fv("UTM Dist. Req."@, or_unavailable(c.utm_distribution), true),
            fv("Prereqs"@, or_unavailable(c.prerequisites), true),
            fv("Coreqs"@, or_unavailable(c.corequisites), true),
            fv("Exclusions"@, or_unavailable(c.exclusions), true),
            fv("Description"@, or_unavailable(c.description), false),
        ],
        None,
        course_url(c),
    )
}

/// The course codes of a textbook, one per line, the placeholder for each
/// code that is absent.
pub open spec fn code_lines(codes: Seq<Option<String>>) -> Seq<char>
    decreases codes.len(),
{
    if codes.len() == 0 {
        seq![]
    } else if codes.len() == 1 {
        or_unavailable(codes[0])
    } else {
        code_lines(codes.drop_last()) + "\n"@ + or_unavailable(codes.last())
    }
}

/// How a textbook is shown.
pub open spec fn textbook_payload(t: Textbook) -> PayloadView {
    record_view(
        or_else(t.title, "Textbook"@),
        seq![
            fv("Price"@, "$"@ + or_else(t.price, "-1"@), true),
            fv("ISBN"@, or_unavailable(t.isbn), true),
            fv("Courses"@, code_lines(t.course_codes@), false),
        ],
        opt_view(t.image),
        None,
    )
}

/// A field for an optional timestamp: none where it is absent.
pub open spec fn time_field(label: Seq<char>, t: Option<i64>) -> Seq<FieldView> {
    match t {
        Some(s) => seq![fv(label, time_text(s), true)],
        None => seq![],
    }
}

/// How an exam sitting is shown.
pub open spec fn exam_payload(e: Exam) -> PayloadView {
    record_view(
        "Exam"@,
        seq![
            fv("Course"@, or_unavailable(e.course_code), true),
            fv("Campus"@, or_unavailable(e.campus), true),
            fv("Date"@, or_unavailable(e.date), true),
        ] + time_field("Start"@, e.start) + time_field("End"@, e.end),
        None,
        None,
    )
}

/// How a course evaluation is shown.
pub open spec fn eval_payload(e: Eval) -> PayloadView {
    record_view(
        "Eval"@,
        seq![
            fv("Name"@, or_unavailable(e.name), true),
            fv("Campus"@, or_unavailable(e.campus), true),
            fv("Last Updated"@, or_unavailable(e.last_updated), true),
        ],
        None,
        None,
    )
}

/// How a food vendor is shown.
pub open spec fn food_payload(f: Food) -> PayloadView {
    record_view(
        or_else(f.name, "Food"@),
        seq![
            fv("Campus"@, or_unavailable(f.campus), true),
            fv("Address"@, or_unavailable(f.address), true),
            fv("Tags"@, or_unavailable(f.tags), true),
        ],
        opt_view(f.image),
        opt_view(f.url),
    )
}

/// How a campus service is shown.
pub open spec fn service_payload(s: Service) -> PayloadView {
    record_view(
        "Service"@,
        seq![
            fv("Name"@, or_unavailable(s.name), true),
            fv("Campus"@, or_unavailable(s.campus), true),
            fv("tags"@, or_unavailable(s.tags), true),
            fv("Building"@, or_unavailable(s.building_id), true),
        ],
        opt_view(s.image),
        None,
    )
}

/// A building's address: street, city and country, comma-separated, with
/// the placeholder for each that is absent.
pub open spec fn address_text(b: Building) -> Seq<char> {
    or_unavailable(b.street) + ","@ + or_unavailable(b.city) + ","@ + or_unavailable(b.country)
}

/// A building's coordinates, with 0 for each that is absent.
pub open spec fn coordinates_text(b: Building) -> Seq<char> {
    or_else(b.latitude, "0"@) + " degrees North, "@ + or_else(b.longitude, "0"@)
        + " degrees East"@
}

/// How a building is shown.
pub open spec fn building_payload(b: Building) -> PayloadView {
    record_view(
        or_else(b.name, "Building"@),
        seq![
            fv("Address"@, address_text(b), true),
            fv("Coordinates"@, coordinates_text(b), true),
        ],
        None,
        None,
    )
}

/// How a parking lot is shown.
pub open spec fn parking_payload(p: Parking) -> PayloadView {
    record_view(
        "Parking"@,
        seq![
            fv("Name"@, or_unavailable(p.name), true),
            fv("Campus"@, or_unavailable(p.campus), true),
            fv("Address"@, or_unavailable(p.address), true),
            fv("Tags"@, or_unavailable(p.description), false),
        ],
        None,
        None,
    )
}

/// An absent text field is shown as the placeholder "Unavailable", verbatim,
/// in every kind of record; an absent price is shown as the sentinel -1.
pub proof fn lemma_absent_fields_placeholder(
    c: Course,
    t: Textbook,
    x: Exam,
    e: Eval,
    f: Food,
    s: Service,
    b: Building,
    p: Parking,
)
    ensures
        c.campus is None ==> course_payload(c).fields[0].value == "Unavailable"@,
        c.description is None ==> course_payload(c).fields[6].value == "Unavailable"@,
        t.price is None ==> textbook_payload(t).fields[0].value == "$-1"@,
        t.isbn is None ==> textbook_payload(t).fields[1].value == "Unavailable"@,
        x.course_code is None ==> exam_payload(x).fields[0].value == "Unavailable"@,
        x.date is None ==> exam_payload(x).fields[2].value == "Unavailable"@,
        e.last_updated is None ==> eval_payload(e).fields[2].value == "Unavailable"@,
        f.tags is None ==> food_payload(f).fields[2].value == "Unavailable"@,
        s.building_id is None ==> service_payload(s).fields[3].value == "Unavailable"@,
        b.street is None && b.city is None && b.country is None ==> building_payload(b).fields[0].value
            == "Unavailable,Unavailable,Unavailable"@,
        p.description is None ==> parking_payload(p).fields[3].value == "Unavailable"@,
{
    if b.street is None && b.city is None && b.country is None {
        assert(address_text(b) =~= "Unavailable,Unavailable,Unavailable"@) by {
            reveal_strlit("Unavailable");
            reveal_strlit(",");
            reveal_strlit("Unavailable,Unavailable,Unavailable");
        }
    }
    if t.price is None {
        assert("$"@ + "-1"@ =~= "$-1"@) by {
            reveal_strlit("$");
            reveal_strlit("-1");
            reveal_strlit("$-1");
        }
    }
}

/// Renders a course.
pub fn render_course(c: Course) -> (r: Payload)
    ensures
        r@ == course_payload(c),
{
    let title = match (&c.code, &c.name) {
        (Some(code), Some(n)) => {
            let mut t = code.clone();
            t.append(" - ");
            t.append(n.as_str());
            t
        },
        (Some(code), None) => code.clone(),
        (None, Some(n)) => n.clone(),
        (None, None) => String::from_str("Course"),
    };
    let url = match &c.code {
        Some(code) => {
            let mut u = String::from_str(COURSE_PAGES);
            u.append("/");
            u.append(code.as_str());
            Some(u)
        },
        None => None,
    };
    let mut fields: Vec<Field> = Vec::new();
    fields.push(field("Campus", text_or_unavailable(&c.campus), true));
    fields.push(field("Term", text_or_unavailable(&c.term), true));
    fields.push(field("UTM Dist. Req.", text_or_unavailable(&c.utm_distribution), true));
    fields.push(field("Prereqs", text_or_unavailable(&c.prerequisites), true));
    fields.push(field("Coreqs", text_or_unavailable(&c.corequisites), true));
    fields.push(field("Exclusions", text_or_unavailable(&c.exclusions), true));
    fields.push(field("Description", text_or_unavailable(&c.description), false));
    assert(field_views(fields@) =~= course_payload(c).fields);
    assert(title@ =~= course_title(c));
    assert(opt_view(url) == course_url(c)) by {
        if let Some(code) = c.code {
            assert(COURSE_PAGES@ + "/"@ + code@ =~= (COURSE_PAGES@ + "/"@) + code@);
        }
    }
    record(title, fields, None, url)
}

/// The course codes of a textbook, one per line.
pub fn join_codes(codes: &Vec<Option<String>>) -> (r: String)
    ensures
        r@ == code_lines(codes@),
{
    let mut s = String::new();
    let mut i: usize = 0;
    while i < codes.len()
        invariant
            i <= codes@.len(),
            s@ == code_lines(codes@.subrange(0, i as int)),
        decreases codes@.len() - i,
    {
        let ghost before = s@;
        assert(codes@.subrange(0, i + 1).drop_last() =~= codes@.subrange(0, i as int));
        assert(codes@.subrange(0, i + 1).last() == codes@[i as int]);
        if i > 0 {
            s.append("\n");
        }
        let t = text_or_unavailable(&codes[i]);
        s.append(t.as_str());
        if i == 0 {
            assert(before =~= Seq::<char>::empty());
            assert(s@ =~= t@);
        }
        i = i + 1;
    }
    assert(codes@.subrange(0, codes@.len() as int) =~= codes@);
    s
}

/// Renders a textbook.
pub fn render_textbook(t: Textbook) -> (r: Payload)
    ensures
        r@ == textbook_payload(t),
{
    let title = text_or(&t.title, "Textbook");
    let mut price = String::from_str("$");
    let amount = text_or(&t.price, "-1");
    price.append(amount.as_str());
    let mut fields: Vec<Field> = Vec::new();
    fields.push(field("Price", price, true));
    fields.push(field("ISBN", text_or_unavailable(&t.isbn), true));
    fields.push(field("Courses", join_codes(&t.course_codes), false));
    assert(field_views(fields@) =~= textbook_payload(t).fields);
    record(title, fields, t.image, None)
}

/// Renders an exam sitting; its start and end appear only where present.
pub fn render_exam(e: Exam) -> (r: Payload)
    ensures
        r@ == exam_payload(e),
{
    let mut fields: Vec<Field> = Vec::new();
    fields.push(field("Course", text_or_unavailable(&e.course_code), true));
    fields.push(field("Campus", text_or_unavailable(&e.campus), true));
    fields.push(field("Date", text_or_unavailable(&e.date), true));
    let ghost head = field_views(fields@);
    if let Some(t) = e.start {
        fields.push(field("Start", convert_time(t), true));
    }
    let ghost middle = field_views(fields@);
    assert(middle =~= head + time_field("Start"@, e.start));
    if let Some(t) = e.end {
        fields.push(field("End", convert_time(t), true));
    }
    assert(field_views(fields@) =~= middle + time_field("End"@, e.end));
    assert(field_views(fields@) =~= exam_payload(e).fields);
    record(String::from_str("Exam"), fields, None, None)
}

/// Renders a course evaluation.
pub fn render_eval(e: Eval) -> (r: Payload)
    ensures
        r@ == eval_payload(e),
{
    let mut fields: Vec<Field> = Vec::new();
    fields.push(field("Name", text_or_unavailable(&e.name), true));
    fields.push(field("Campus", text_or_unavailable(&e.campus), true));
    fields.push(field("Last Updated", text_or_unavailable(&e.last_updated), true));
    assert(field_views(fields@) =~= eval_payload(e).fields);
    record(String::from_str("Eval"), fields, None, None)
}

/// Renders a food vendor.
pub fn render_food(f: Food) -> (r: Payload)
    ensures
        r@ == food_payload(f),
{
    let title = text_or(&f.name, "Food");
    let mut fields: Vec<Field> = Vec::new();
    fields.push(field("Campus", text_or_unavailable(&f.campus), true));
    fields.push(field("Address", text_or_unavailable(&f.address), true));
    fields.push(field("Tags", text_or_unavailable(&f.tags), true));
    assert(field_views(fields@) =~= food_payload(f).fields);
    record(title, fields, f.image, f.url)
}

/// Renders a campus service.
pub fn render_service(s: Service) -> (r: Payload)
    ensures
        r@ == service_payload(s),
{
    let mut fields: Vec<Field> = Vec::new();
    fields.push(field("Name", text_or_unavailable(&s.name), true));
    fields.push(field("Campus", text_or_unavailable(&s.campus), true));
    fields.push(field("tags", text_or_unavailable(&s.tags), true));
    fields.push(field("Building", text_or_unavailable(&s.building_id), true));
    assert(field_views(fields@) =~= service_payload(s).fields);
    record(String::from_str("Service"), fields, s.image, None)
}

/// Renders a building.
pub fn render_building(b: Building) -> (r: Payload)
    ensures
        r@ == building_payload(b),
{
    let title = text_or(&b.name, "Building");
    let mut address = text_or_unavailable(&b.street);
    address.append(",");
    let city = text_or_unavailable(&b.city);
    address.append(city.as_str());
    address.append(",");
    let country = text_or_unavailable(&b.country);
    address.append(country.as_str());
    let mut coordinates = text_or(&b.latitude, "0");
    coordinates.append(" degrees North, ");
    let longitude = text_or(&b.longitude, "0");
    coordinates.append(longitude.as_str());
    coordinates.append(" degrees East");
    assert(address@ =~= address_text(b));
    assert(coordinates@ =~= coordinates_text(b));
    let mut fields: Vec<Field> = Vec::new();
    fields.push(field("Address", address, true));
    fields.push(field("Coordinates", coordinates, true));
    assert(field_views(fields@) =~= building_payload(b).fields);
    record(title, fields, None, None)
}

/// Renders a parking lot.
pub fn render_parking(p: Parking) -> (r: Payload)
    ensures
        r@ == parking_payload(p),
{
    let mut fields: Vec<Field> = Vec::new();
    fields.push(field("Name", text_or_unavailable(&p.name), true));
    fields.push(field("Campus", text_or_unavailable(&p.campus), true));
    fields.push(field("Address", text_or_unavailable(&p.address), true));
    fields.push(field("Tags", text_or_unavailable(&p.description), false));
    assert(field_views(fields@) =~= parking_payload(p).fields);
    record(String::from_str("Parking"), fields, None, None)
}

} // verus!
