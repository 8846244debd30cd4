use qa_service::client::{question_line, refresh, Fetched};
use qa_service::record::QuestionRecord;

fn question(id: i32, text: &str) -> QuestionRecord {
    QuestionRecord { id, question_text: text.to_string() }
}

#[test]
fn line_is_text_dash_identifier() {
    assert_eq!(question_line(&question(1, "What is Rust?")), "What is Rust? - 1");
    assert_eq!(question_line(&question(42, "Why?")), "Why? - 42");
}

#[test]
fn line_writes_the_identifier_in_decimal() {
    assert_eq!(question_line(&question(0, "q")), "q - 0");
    assert_eq!(question_line(&question(9, "q")), "q - 9");
    assert_eq!(question_line(&question(10, "q")), "q - 10");
    assert_eq!(question_line(&question(1005, "q")), "q - 1005");
    assert_eq!(question_line(&question(i32::MAX, "q")), "q - 2147483647");
}

#[test]
fn line_writes_a_negative_identifier_with_a_minus_sign() {
    assert_eq!(question_line(&question(-1, "q")), "q - -1");
    assert_eq!(question_line(&question(-120, "q")), "q - -120");
    assert_eq!(question_line(&question(i32::MIN, "q")), "q - -2147483648");
}

#[test]
fn line_agrees_with_the_standard_formatting() {
    for id in [-100000, -77, -10, -9, 0, 7, 10, 99, 100, 101, 65536, 999999999] {
        let record = question(id, "text");
        assert_eq!(question_line(&record), format!("{} - {}", record.question_text, record.id));
    }
}

#[test]
fn line_of_an_empty_text_starts_with_the_dash() {
    assert_eq!(question_line(&question(3, "")), " - 3");
}

#[test]
fn page_shows_what_the_server_listed() {
    let shown = vec![question(1, "old")];
    let listed = vec![question(1, "new"), question(2, "newer")];
    assert_eq!(
        refresh(shown, Fetched::Questions(listed)),
        vec![question(1, "new"), question(2, "newer")]
    );
}

#[test]
fn page_shows_an_empty_list_the_server_sent() {
    assert_eq!(refresh(vec![question(1, "old")], Fetched::Questions(vec![])), vec![]);
}

#[test]
fn page_keeps_its_questions_when_the_fetch_brought_none() {
    assert_eq!(refresh(vec![question(1, "old")], Fetched::NoResponse), vec![question(1, "old")]);
    assert_eq!(
        refresh(vec![question(1, "old")], Fetched::Refused { status: 500 }),
        vec![question(1, "old")]
    );
    assert_eq!(refresh(vec![question(1, "old")], Fetched::Malformed), vec![question(1, "old")]);
    assert_eq!(refresh(vec![], Fetched::Malformed), vec![]);
}
