use qa_service::record::QuestionRecord;
use qa_service::reply::{Json, Member, Reply};
use qa_service::service::{handle, Request};
use qa_service::store::Store;

fn string(name: &str, value: &str) -> Member {
    Member { name: name.to_string(), value: Json::Text(value.to_string()) }
}

fn number(name: &str, value: i32) -> Member {
    Member { name: name.to_string(), value: Json::Int(value) }
}

fn listing(records: Vec<QuestionRecord>) -> Reply {
    Reply { members: vec![Member { name: "questions".to_string(), value: Json::Records(records) }] }
}

#[test]
fn posted_question_is_listed_with_identifier_one() {
    let mut store = Store::new();
    let posted =
        handle(&mut store, Request::CreateQuestion { question: "What is Rust?".to_string() });
    assert_eq!(
        posted,
        Reply { members: vec![string("message", "Question added successfully"), number("question_id", 1)] }
    );
    let listed = handle(&mut store, Request::ListQuestions);
    assert_eq!(
        listed,
        listing(vec![QuestionRecord { id: 1, question_text: "What is Rust?".to_string() }])
    );
}

#[test]
fn fresh_service_lists_no_questions() {
    let mut store = Store::new();
    assert_eq!(handle(&mut store, Request::ListQuestions), listing(vec![]));
}

#[test]
fn strict_service_reports_empty_text_as_a_failure() {
    let mut store = Store::strict();
    assert_eq!(
        handle(&mut store, Request::CreateQuestion { question: String::new() }),
        Reply { members: vec![string("error", "Failed to add question")] }
    );
    assert_eq!(handle(&mut store, Request::ListQuestions), listing(vec![]));
}

#[test]
fn put_changes_the_text_and_reports_a_missing_question() {
    let mut store = Store::new();
    handle(&mut store, Request::CreateQuestion { question: "first".to_string() });
    assert_eq!(
        handle(&mut store, Request::UpdateQuestion { id: 1, question: "changed".to_string() }),
        Reply {
            members: vec![string("message", "Question updated successfully"), number("question_id", 1)],
        }
    );
    assert_eq!(
        handle(&mut store, Request::UpdateQuestion { id: 2, question: "changed".to_string() }),
        Reply { members: vec![string("error", "Question not found"), number("question_id", 2)] }
    );
    assert_eq!(
        handle(&mut store, Request::ListQuestions),
        listing(vec![QuestionRecord { id: 1, question_text: "changed".to_string() }])
    );
}

#[test]
fn delete_removes_the_question_and_reports_a_missing_one() {
    let mut store = Store::new();
    handle(&mut store, Request::CreateQuestion { question: "first".to_string() });
    assert_eq!(
        handle(&mut store, Request::DeleteQuestion { id: 1 }),
        Reply {
            members: vec![string("message", "Question deleted successfully"), number("question_id", 1)],
        }
    );
    assert_eq!(
        handle(&mut store, Request::DeleteQuestion { id: 1 }),
        Reply { members: vec![string("error", "Question not found"), number("question_id", 1)] }
    );
    assert_eq!(handle(&mut store, Request::ListQuestions), listing(vec![]));
}

#[test]
fn answers_are_added_and_shown_with_their_question() {
    let mut store = Store::new();
    handle(&mut store, Request::CreateQuestion { question: "What is Rust?".to_string() });
    assert_eq!(
        handle(&mut store, Request::AddAnswer { question_id: 1, answer: "A language.".to_string() }),
        Reply { members: vec![string("message", "Answer added successfully"), number("answer_id", 1)] }
    );
    assert_eq!(
        handle(&mut store, Request::AddAnswer { question_id: 1, answer: "A fungus.".to_string() }),
        Reply { members: vec![string("message", "Answer added successfully"), number("answer_id", 2)] }
    );
    assert_eq!(
        handle(&mut store, Request::GetQuestion { id: 1 }),
        Reply {
            members: vec![
                number("id", 1),
                string("question", "What is Rust?"),
                Member {
                    name: "answers".to_string(),
                    value: Json::Texts(vec!["A language.".to_string(), "A fungus.".to_string()]),
                },
            ],
        }
    );
}

#[test]
fn answer_to_a_missing_question_is_a_failure_and_is_not_stored() {
    let mut store = Store::new();
    assert_eq!(
        handle(&mut store, Request::AddAnswer { question_id: 1, answer: "orphan".to_string() }),
        Reply { members: vec![string("error", "Failed to add answer")] }
    );
    handle(&mut store, Request::CreateQuestion { question: "first".to_string() });
    assert_eq!(
        handle(&mut store, Request::GetQuestion { id: 1 }),
        Reply {
            members: vec![
                number("id", 1),
                string("question", "first"),
                Member { name: "answers".to_string(), value: Json::Texts(vec![]) },
            ],
        }
    );
}

#[test]
fn missing_question_cannot_be_shown() {
    let mut store = Store::new();
    assert_eq!(
        handle(&mut store, Request::GetQuestion { id: 1 }),
        Reply { members: vec![string("error", "Failed to fetch question")] }
    );
}

#[test]
fn deleted_question_takes_its_answers_along() {
    let mut store = Store::new();
    handle(&mut store, Request::CreateQuestion { question: "first".to_string() });
    handle(&mut store, Request::CreateQuestion { question: "second".to_string() });
    handle(&mut store, Request::AddAnswer { question_id: 1, answer: "a".to_string() });
    handle(&mut store, Request::AddAnswer { question_id: 2, answer: "b".to_string() });
    handle(&mut store, Request::DeleteQuestion { id: 1 });
    assert_eq!(store.answers_for(1), Vec::<String>::new());
    assert_eq!(store.answers_for(2), vec!["b".to_string()]);
    assert_eq!(
        handle(&mut store, Request::GetQuestion { id: 1 }),
        Reply { members: vec![string("error", "Failed to fetch question")] }
    );
}
