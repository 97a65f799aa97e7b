use campus_bot::clock::convert_time;
use campus_bot::command::{envelope_payload, reply, ApiFailure, Envelope};
use campus_bot::config::get_token;
use campus_bot::payload::{Field, Payload};
use campus_bot::records::{
    join_codes, render_building, render_course, render_eval, render_exam, render_food,
    render_parking, render_service, render_textbook, Building, Course, Eval, Exam, Food,
    Parking, Service, Textbook,
};

fn s(x: &str) -> Option<String> {
    Some(x.to_string())
}

fn values(p: &Payload) -> Vec<(String, String, bool)> {
    p.fields
        .iter()
        .map(|f: &Field| (f.name.clone(), f.value.clone(), f.inline))
        .collect()
}

fn fv(n: &str, v: &str, i: bool) -> (String, String, bool) {
    (n.to_string(), v.to_string(), i)
}

#[test]
fn course_full_record() {
    let c = Course {
        code: s("CSC108H1"),
        name: s("Introduction to Computer Programming"),
        campus: s("St. George"),
        term: s("2020 Fall"),
        utm_distribution: None,
        prerequisites: s(""),
        corequisites: None,
        exclusions: s("CSC120H1"),
        description: s("Programming in a language such as Python."),
    };
    let p = render_course(c);
    assert_eq!(p.title, "CSC108H1 - Introduction to Computer Programming");
    assert_eq!(p.colour, (0, 46, 100));
    assert_eq!(p.url, s("https://fas.calendar.utoronto.ca/course/CSC108H1"));
    assert_eq!(p.image, None);
    assert_eq!(
        values(&p),
        vec![
            fv("Campus", "St. George", true),
            fv("Term", "2020 Fall", true),
            fv("UTM Dist. Req.", "Unavailable", true),
            fv("Prereqs", "", true),
            fv("Coreqs", "Unavailable", true),
            fv("Exclusions", "CSC120H1", true),
            fv("Description", "Programming in a language such as Python.", false),
        ]
    );
}

#[test]
fn course_without_name_or_code() {
    let p = render_course(Course { code: s("MAT137"), ..Default::default() });
    assert_eq!(p.title, "MAT137");
    let q = render_course(Course::default());
    assert_eq!(q.title, "Course");
    assert_eq!(q.url, None);
    let r = render_course(Course { name: s("Calculus"), ..Default::default() });
    assert_eq!(r.title, "Calculus");
    assert_eq!(r.url, None);
}

#[test]
fn textbook_absent_price_is_sentinel() {
    let t = Textbook {
        title: None,
        price: None,
        isbn: None,
        course_codes: vec![s("CSC108H1"), None, s("CSC148H1")],
        image: s("https://img/x.png"),
    };
    let p = render_textbook(t);
    assert_eq!(p.title, "Textbook");
    assert_eq!(p.image, s("https://img/x.png"));
    assert_eq!(
        values(&p),
        vec![
            fv("Price", "$-1", true),
            fv("ISBN", "Unavailable", true),
            fv("Courses", "CSC108H1\nUnavailable\nCSC148H1", false),
        ]
    );
}

#[test]
fn textbook_with_price() {
    let t = Textbook {
        title: s("Calculus"),
        price: Some(format!("{}", 125.5_f64)),
        isbn: s("9780538497817"),
        course_codes: vec![],
        image: None,
    };
    let p = render_textbook(t);
    assert_eq!(p.title, "Calculus");
    assert_eq!(values(&p)[0], fv("Price", "$125.5", true));
    assert_eq!(values(&p)[2], fv("Courses", "", false));
}

#[test]
fn join_codes_single() {
    assert_eq!(join_codes(&vec![None]), "Unavailable");
    assert_eq!(join_codes(&vec![]), "");
}

#[test]
fn exam_times_converted() {
    let e = Exam {
        course_code: s("CSC108H1F"),
        campus: None,
        date: s("2020-12-10"),
        start: Some(0),
        end: Some(48600),
    };
    let p = render_exam(e);
    assert_eq!(p.title, "Exam");
    assert_eq!(
        values(&p),
        vec![
            fv("Course", "CSC108H1F", true),
            fv("Campus", "Unavailable", true),
            fv("Date", "2020-12-10", true),
            fv("Start", "12:00 am", true),
            fv("End", "01:30 pm", true),
        ]
    );
}

#[test]
fn exam_without_times_has_no_time_fields() {
    let p = render_exam(Exam::default());
    assert_eq!(values(&p).len(), 3);
    let q = render_exam(Exam { end: Some(3600), ..Default::default() });
    assert_eq!(values(&q)[3], fv("End", "01:00 am", true));
}

#[test]
fn convert_time_is_deterministic() {
    assert_eq!(convert_time(1_600_000_000), "12:26 pm");
    assert_eq!(convert_time(1_600_000_000), convert_time(1_600_000_000));
    assert_eq!(convert_time(i64::MAX), "Unavailable");
}

#[test]
fn convert_time_exact_texts() {
    assert_eq!(convert_time(0), "12:00 am");
    assert_eq!(convert_time(47100), "01:05 pm");
    assert_eq!(convert_time(-60), "11:59 pm");
    assert_eq!(convert_time(47100 + 86400), "01:05 pm");
    assert_eq!(convert_time(i64::MIN), "Unavailable");
}

#[test]
fn eval_record() {
    let p = render_eval(Eval { name: s("CSC108"), campus: None, last_updated: None });
    assert_eq!(p.title, "Eval");
    assert_eq!(
        values(&p),
        vec![
            fv("Name", "CSC108", true),
            fv("Campus", "Unavailable", true),
            fv("Last Updated", "Unavailable", true),
        ]
    );
}

#[test]
fn food_record_with_links() {
    let f = Food {
        name: None,
        campus: s("UTSG"),
        address: None,
        tags: s("coffee"),
        url: s("https://food.example/x"),
        image: None,
    };
    let p = render_food(f);
    assert_eq!(p.title, "Food");
    assert_eq!(p.url, s("https://food.example/x"));
    assert_eq!(p.image, None);
    assert_eq!(
        values(&p),
        vec![
            fv("Campus", "UTSG", true),
            fv("Address", "Unavailable", true),
            fv("Tags", "coffee", true),
        ]
    );
}

#[test]
fn service_record() {
    let p = render_service(Service {
        name: s("Library"),
        campus: None,
        tags: None,
        building_id: s("RL"),
        image: s("i.png"),
    });
    assert_eq!(p.title, "Service");
    assert_eq!(p.image, s("i.png"));
    assert_eq!(
        values(&p),
        vec![
            fv("Name", "Library", true),
            fv("Campus", "Unavailable", true),
            fv("tags", "Unavailable", true),
            fv("Building", "RL", true),
        ]
    );
}

#[test]
fn building_record_placeholders() {
    let b = Building {
        name: s("Robarts"),
        street: s("130 St George St"),
        city: None,
        country: s("Canada"),
        latitude: Some(format!("{}", 43.6645_f64)),
        longitude: None,
    };
    let p = render_building(b);
    assert_eq!(p.title, "Robarts");
    assert_eq!(
        values(&p),
        vec![
            fv("Address", "130 St George St,Unavailable,Canada", true),
            fv("Coordinates", "43.6645 degrees North, 0 degrees East", true),
        ]
    );
    let q = render_building(Building::default());
    assert_eq!(q.title, "Building");
    assert_eq!(
        values(&q),
        vec![
            fv("Address", "Unavailable,Unavailable,Unavailable", true),
            fv("Coordinates", "0 degrees North, 0 degrees East", true),
        ]
    );
}

#[test]
fn parking_record() {
    let p = render_parking(Parking { name: None, campus: s("UTM"), address: None, description: s("Lot 4") });
    assert_eq!(p.title, "Parking");
    assert_eq!(
        values(&p),
        vec![
            fv("Name", "Unavailable", true),
            fv("Campus", "UTM", true),
            fv("Address", "Unavailable", true),
            fv("Tags", "Lot 4", false),
        ]
    );
}

fn assert_no_results(p: &Payload) {
    assert_eq!(p.title, "No Results");
    assert_eq!(p.description, s("No results were returned by the API"));
    assert_eq!(p.colour, (242, 170, 0));
    assert!(p.fields.is_empty());
}

#[test]
fn empty_envelope_of_every_kind_is_no_results() {
    for env in vec![
        Envelope::Courses(vec![]),
        Envelope::Textbooks(vec![]),
        Envelope::Exams(vec![]),
        Envelope::Evals(vec![]),
        Envelope::Food(vec![]),
        Envelope::Services(vec![]),
        Envelope::Buildings(vec![]),
        Envelope::Parking(vec![]),
    ] {
        assert_no_results(&envelope_payload(env));
    }
}

#[test]
fn envelope_renders_first_record_only() {
    let env = Envelope::Evals(vec![
        Eval { name: s("first"), ..Default::default() },
        Eval { name: s("second"), ..Default::default() },
    ]);
    let p = reply(Ok(env));
    assert_eq!(values(&p)[0], fv("Name", "first", true));
}

#[test]
fn failed_query_reply() {
    let p = reply(Err(ApiFailure));
    assert_eq!(p.title, "Failed");
    assert_eq!(p.description, s("There was a problem with that"));
    assert_eq!(p.colour, (200, 100, 100));
    assert!(p.fields.is_empty());
}

#[test]
fn token_prefers_environment() {
    assert_eq!(get_token::<u8>(s("env"), Ok("file".to_string())), Ok("env".to_string()));
    assert_eq!(get_token::<u8>(s("env"), Err(7)), Ok("env".to_string()));
    assert_eq!(get_token::<u8>(None, Ok("file".to_string())), Ok("file".to_string()));
    assert_eq!(get_token::<u8>(None, Err(7)), Err(7));
}
