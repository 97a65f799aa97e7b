//! From a command to the payload it is answered with: which query a command
//! asks for, and how the outcome of that query is shown.
use vstd::prelude::*;
use crate::params::{pair_views, parse_spec, rest_after, to_params};
use crate::payload::{
    api_failure, api_failure_view, no_results, no_results_view, parse_failure,
    parse_failure_view, Payload, PayloadView,
};
use crate::records::{
    building_payload, course_payload, eval_payload, exam_payload, food_payload,
    parking_payload, render_building, render_course, render_eval, render_exam, render_food,
    render_parking, render_service, render_textbook, service_payload, textbook_payload,
    Building, Course, Eval, Exam, Food, Parking, Service, Textbook,
};

verus! {

/// The kinds of record a command can ask for.
#[derive(Clone, Copy, Debug, PartialEq, Eq)]
pub enum Verb {
    Courses,
    Textbooks,
    Exams,
    Evals,
    Food,
    Services,
    Buildings,
    Parking,
}

/// The key a bare remainder is given for each kind of query.
pub open spec fn default_key_view(v: Verb) -> Seq<char> {
    match v {
        Verb::Courses => "code"@,
        Verb::Textbooks => "title"@,
        Verb::Exams => "course_code"@,
        _ => "name"@,
    }
}

/// The key a bare remainder is given for each kind of query.
pub fn default_key(v: Verb) -> (r: &'static str)
    ensures
        r@ == default_key_view(v),
{
    match v {
        Verb::Courses => "code",
        Verb::Textbooks => "title",
        Verb::Exams => "course_code",
        _ => "name",
    }
}

/// The records a query returned, all of the kind that its verb asked for.
#[derive(Clone, Debug, PartialEq, Eq)]
pub enum Envelope {
    Courses(Vec<Course>),
    Textbooks(Vec<Textbook>),
    Exams(Vec<Exam>),
    Evals(Vec<Eval>),
    Food(Vec<Food>),
    Services(Vec<Service>),
    Buildings(Vec<Building>),
    Parking(Vec<Parking>),
}

/// How many records an envelope holds.
pub open spec fn envelope_len(e: Envelope) -> nat {
    match e {
        Envelope::Courses(v) => v@.len(),
        Envelope::Textbooks(v) => v@.len(),
        Envelope::Exams(v) => v@.len(),
        Envelope::Evals(v) => v@.len(),
        Envelope::Food(v) => v@.len(),
        Envelope::Services(v) => v@.len(),
        Envelope::Buildings(v) => v@.len(),
        Envelope::Parking(v) => v@.len(),
    }
}

/// What an envelope is shown as: the "No Results" notice where it is empty,
/// else its first record, rendered as its kind is.
pub open spec fn envelope_view(e: Envelope) -> PayloadView {
    if envelope_len(e) == 0 {
        no_results_view()
    } else {
        match e {
            Envelope::Courses(v) => course_payload(v@[0]),
            Envelope::Textbooks(v) => textbook_payload(v@[0]),
            Envelope::Exams(v) => exam_payload(v@[0]),
            Envelope::Evals(v) => eval_payload(v@[0]),
            Envelope::Food(v) => food_payload(v@[0]),
            Envelope::Services(v) => service_payload(v@[0]),
            Envelope::Buildings(v) => building_payload(v@[0]),
            Envelope::Parking(v) => parking_payload(v@[0]),
        }
    }
}

/// Renders the first record of an envelope, or the notice that it holds
/// none.
pub fn envelope_payload(env: Envelope) -> (r: Payload)
    ensures
        r@ == envelope_view(env),
{
    match env {
        Envelope::Courses(mut v) => if v.len() == 0 {
            no_results()
        } else {
            render_course(v.remove(0))
        },
        Envelope::Textbooks(mut v) => if v.len() == 0 {
            no_results()
        } else {
            render_textbook(v.remove(0))
        },
        Envelope::Exams(mut v) => if v.len() == 0 {
            no_results()
        } else {
            render_exam(v.remove(0))
        },
        Envelope::Evals(mut v) => if v.len() == 0 {
            no_results()
        } else {
            render_eval(v.remove(0))
        },
        Envelope::Food(mut v) => if v.len() == 0 {
            no_results()
        } else {
            render_food(v.remove(0))
        },
        Envelope::Services(mut v) => if v.len() == 0 {
            no_results()
        } else {
            render_service(v.remove(0))
        },
        Envelope::Buildings(mut v) => if v.len() == 0 {
            no_results()
        } else {
            render_building(v.remove(0))
        },
        Envelope::Parking(mut v) => if v.len() == 0 {
            no_results()
        } else {
            render_parking(v.remove(0))
        },
    }
}

/// A query that failed: the service could not be reached, answered with an
/// error, or sent what could not be read.
#[derive(Clone, Copy, Debug, PartialEq, Eq)]
pub struct ApiFailure;

/// What the outcome of a query is shown as.
pub open spec fn outcome_view(outcome: Result<Envelope, ApiFailure>) -> PayloadView {
    match outcome {
        Ok(env) => envelope_view(env),
        Err(_) => api_failure_view(),
    }
}

/// Renders the outcome of a query: its first record, the notice that there
/// was none, or the notice that the query failed.
pub fn reply(outcome: Result<Envelope, ApiFailure>) -> (r: Payload)
    ensures
        r@ == outcome_view(outcome),
{
    match outcome {
        Ok(env) => envelope_payload(env),
        Err(_) => api_failure(),
    }
}

/// What to do with a command: answer it at once, or send a query.
pub enum Step<'a> {
    Reply(Payload),
    Query(Vec<(&'a str, &'a str)>),
}

/// Decides what a command line for `verb` leads to: a query with its
/// parameters, or, where the line cannot be split into verb and remainder,
/// the parse-failure notice and no query.
pub fn plan<'a>(verb: Verb, content: &'a str) -> (r: Step<'a>)
    ensures
        match r {
            Step::Reply(p) => !content@.contains(' ') && p@ == parse_failure_view(),
            Step::Query(v) => content@.contains(' ') && pair_views(v@) == parse_spec(
                rest_after(content@, ' '),
                default_key_view(verb),
            ),
        },
{
    match to_params(content, default_key(verb)) {
        Ok(v) => Step::Query(v),
        Err(_) => Step::Reply(parse_failure()),
    }
}

/// An envelope without records is shown as the "No Results" notice,
/// whatever kind of record it was for.
pub proof fn lemma_empty_envelope_no_results(e: Envelope)
    requires
        envelope_len(e) == 0,
    ensures
        envelope_view(e) == no_results_view(),
        outcome_view(Ok(e)) == no_results_view(),
{
}

} // verus!
