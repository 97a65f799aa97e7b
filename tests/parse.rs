use campus_bot::command::{default_key, plan, Step, Verb};
use campus_bot::params::{contains_char, parse, split_command, to_params};
use campus_bot::text::{is_white, split_on, trim};

#[test]
fn parse_bare_remainder_uses_default_key() {
    assert_eq!(parse("CSC108", "code"), vec![("code", "CSC108")]);
}

#[test]
fn parse_bare_remainder_is_trimmed() {
    assert_eq!(parse("  Robarts Library \t", "name"), vec![("name", "Robarts Library")]);
}

#[test]
fn parse_well_formed_pairs_in_order() {
    assert_eq!(
        parse("name: Robarts, campus: UTSG", "name"),
        vec![("name", "Robarts"), ("campus", "UTSG")]
    );
}

#[test]
fn parse_drops_segment_without_colon() {
    assert_eq!(
        parse("name:Robarts,bogus,campus:UTSG", "name"),
        vec![("name", "Robarts"), ("campus", "UTSG")]
    );
}

#[test]
fn parse_drops_segment_with_two_colons() {
    assert_eq!(parse("a:b:c, d : e", "name"), vec![("d", "e")]);
}

#[test]
fn parse_keeps_duplicate_and_unknown_keys() {
    assert_eq!(
        parse("zz:1,zz:2", "name"),
        vec![("zz", "1"), ("zz", "2")]
    );
}

#[test]
fn parse_empty_value_is_kept() {
    assert_eq!(parse("name:", "name"), vec![("name", "")]);
}

#[test]
fn parse_empty_remainder() {
    assert_eq!(parse("", "code"), vec![("code", "")]);
}

#[test]
fn to_params_without_space_fails() {
    assert_eq!(to_params(".courses", "code"), Err(()));
    assert_eq!(to_params("", "code"), Err(()));
}

#[test]
fn to_params_with_remainder() {
    assert_eq!(to_params(".courses CSC108", "code"), Ok(vec![("code", "CSC108")]));
    assert_eq!(
        to_params(".buildings name: Robarts, campus: UTSG", "name"),
        Ok(vec![("name", "Robarts"), ("campus", "UTSG")])
    );
}

#[test]
fn to_params_splits_at_first_space_only() {
    assert_eq!(
        to_params(".food Tim Hortons", "name"),
        Ok(vec![("name", "Tim Hortons")])
    );
}

#[test]
fn split_command_first_delimiter() {
    assert_eq!(split_command("a b c", ' '), Ok(("a", "b c")));
    assert_eq!(split_command("abc ", ' '), Ok(("abc", "")));
    assert_eq!(split_command("abc", ' '), Err(()));
}

#[test]
fn split_on_keeps_empty_pieces() {
    assert_eq!(split_on(",a,,b,", ','), vec!["", "a", "", "b", ""]);
    assert_eq!(split_on("", ','), vec![""]);
}

#[test]
fn trim_removes_unicode_whitespace() {
    assert_eq!(trim("\u{3000} x y\u{a0}\n"), "x y");
    assert_eq!(trim(" \t "), "");
    assert!(is_white('\u{2028}'));
    assert!(!is_white('x'));
}

#[test]
fn contains_char_finds_colon() {
    assert!(contains_char("a:b", ':'));
    assert!(!contains_char("ab", ':'));
}

#[test]
fn default_keys_per_verb() {
    assert_eq!(default_key(Verb::Courses), "code");
    assert_eq!(default_key(Verb::Textbooks), "title");
    assert_eq!(default_key(Verb::Exams), "course_code");
    assert_eq!(default_key(Verb::Parking), "name");
}

#[test]
fn plan_queries_with_verb_default() {
    match plan(Verb::Exams, ".exams CSC108H1") {
        Step::Query(v) => assert_eq!(v, vec![("course_code", "CSC108H1")]),
        Step::Reply(_) => panic!("expected a query"),
    }
}

#[test]
fn plan_without_space_replies_parse_failure() {
    match plan(Verb::Courses, ".courses") {
        Step::Reply(p) => {
            assert_eq!(p.title, "Failed");
            assert_eq!(p.description, Some("Couldn't parse input".to_string()));
            assert_eq!(p.colour, (200, 100, 100));
        }
        Step::Query(_) => panic!("expected a reply"),
    }
}
