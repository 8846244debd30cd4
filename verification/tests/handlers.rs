use qa_service::error::StoreError;
use qa_service::handlers::{
    add_answer, delete_question, get_question_with_answers, get_questions, post_question,
    rows_outcome, update_question, with_answers, Lookup,
};
use qa_service::record::QuestionRecord;
use qa_service::reply::{Json, Member, Reply};

fn string(name: &str, value: &str) -> Member {
    Member { name: name.to_string(), value: Json::Text(value.to_string()) }
}

fn number(name: &str, value: i32) -> Member {
    Member { name: name.to_string(), value: Json::Int(value) }
}

fn error_only(message: &str) -> Reply {
    Reply { members: vec![string("error", message)] }
}

#[test]
fn statement_that_touched_no_row_means_not_found() {
    assert_eq!(rows_outcome(0), Err(StoreError::NotFound));
    assert_eq!(rows_outcome(1), Ok(()));
    assert_eq!(rows_outcome(2), Ok(()));
    assert_eq!(rows_outcome(u64::MAX), Ok(()));
}

#[test]
fn get_questions_lists_the_records() {
    let records = vec![
        QuestionRecord { id: 1, question_text: "What is Rust?".to_string() },
        QuestionRecord { id: 5, question_text: "Why?".to_string() },
    ];
    let expected = vec![
        QuestionRecord { id: 1, question_text: "What is Rust?".to_string() },
        QuestionRecord { id: 5, question_text: "Why?".to_string() },
    ];
    assert_eq!(
        get_questions(Ok(records)),
        Reply {
            members: vec![Member {
                name: "questions".to_string(),
                value: Json::Records(expected),
            }],
        }
    );
}

#[test]
fn get_questions_lists_an_empty_store() {
    assert_eq!(
        get_questions(Ok(vec![])),
        Reply {
            members: vec![Member { name: "questions".to_string(), value: Json::Records(vec![]) }],
        }
    );
}

#[test]
fn get_questions_reports_a_failure() {
    assert_eq!(
        get_questions(Err(StoreError::BackendFailure)),
        error_only("Failed to fetch questions")
    );
}

#[test]
fn post_question_confirms_with_the_identifier() {
    assert_eq!(
        post_question(Ok(1)),
        Reply { members: vec![string("message", "Question added successfully"), number("question_id", 1)] }
    );
}

#[test]
fn post_question_reports_every_failure_alike() {
    assert_eq!(post_question(Err(StoreError::BackendFailure)), error_only("Failed to add question"));
    assert_eq!(
        post_question(Err(StoreError::ValidationFailure)),
        error_only("Failed to add question")
    );
    assert_eq!(post_question(Err(StoreError::NotFound)), error_only("Failed to add question"));
}

#[test]
fn update_question_confirms() {
    assert_eq!(
        update_question(3, Ok(())),
        Reply {
            members: vec![string("message", "Question updated successfully"), number("question_id", 3)],
        }
    );
}

#[test]
fn update_question_reports_a_missing_question_with_its_identifier() {
    assert_eq!(
        update_question(3, Err(StoreError::NotFound)),
        Reply { members: vec![string("error", "Question not found"), number("question_id", 3)] }
    );
    assert_eq!(
        update_question(-4, rows_outcome(0)),
        Reply { members: vec![string("error", "Question not found"), number("question_id", -4)] }
    );
}

#[test]
fn update_question_reports_a_failure() {
    assert_eq!(
        update_question(3, Err(StoreError::BackendFailure)),
        error_only("Failed to update question")
    );
    assert_eq!(
        update_question(3, Err(StoreError::ValidationFailure)),
        error_only("Failed to update question")
    );
}

#[test]
fn delete_question_confirms() {
    assert_eq!(
        delete_question(9, rows_outcome(1)),
        Reply {
            members: vec![string("message", "Question deleted successfully"), number("question_id", 9)],
        }
    );
}

#[test]
fn delete_question_reports_a_missing_question_with_its_identifier() {
    assert_eq!(
        delete_question(9, rows_outcome(0)),
        Reply { members: vec![string("error", "Question not found"), number("question_id", 9)] }
    );
}

#[test]
fn delete_question_reports_a_failure() {
    assert_eq!(
        delete_question(9, Err(StoreError::BackendFailure)),
        error_only("Failed to delete question")
    );
}

#[test]
fn add_answer_confirms_with_the_identifier() {
    assert_eq!(
        add_answer(Ok(12)),
        Reply { members: vec![string("message", "Answer added successfully"), number("answer_id", 12)] }
    );
}

#[test]
fn add_answer_reports_every_failure_alike() {
    assert_eq!(add_answer(Err(StoreError::NotFound)), error_only("Failed to add answer"));
    assert_eq!(add_answer(Err(StoreError::BackendFailure)), error_only("Failed to add answer"));
}

#[test]
fn lookup_asks_for_the_answers_of_a_found_question() {
    let found = QuestionRecord { id: 2, question_text: "Why?".to_string() };
    assert_eq!(
        get_question_with_answers(2, Ok(found)),
        Lookup::FetchAnswers {
            question_id: 2,
            question: QuestionRecord { id: 2, question_text: "Why?".to_string() },
        }
    );
}

#[test]
fn lookup_reports_a_question_that_could_not_be_fetched() {
    assert_eq!(
        get_question_with_answers(2, Err(StoreError::NotFound)),
        Lookup::Respond(error_only("Failed to fetch question"))
    );
    assert_eq!(
        get_question_with_answers(2, Err(StoreError::BackendFailure)),
        Lookup::Respond(error_only("Failed to fetch question"))
    );
}

#[test]
fn lookup_shows_the_question_with_its_answers() {
    let found = QuestionRecord { id: 2, question_text: "Why?".to_string() };
    assert_eq!(
        with_answers(found, Ok(vec!["Because.".to_string(), "No idea.".to_string()])),
        Reply {
            members: vec![
                number("id", 2),
                string("question", "Why?"),
                Member {
                    name: "answers".to_string(),
                    value: Json::Texts(vec!["Because.".to_string(), "No idea.".to_string()]),
                },
            ],
        }
    );
}

#[test]
fn lookup_reports_answers_that_could_not_be_fetched() {
    let found = QuestionRecord { id: 2, question_text: "Why?".to_string() };
    assert_eq!(
        with_answers(found, Err(StoreError::BackendFailure)),
        error_only("Failed to fetch answers")
    );
}

#[test]
fn reply_builders_write_the_members_in_order() {
    assert_eq!(
        Reply::confirmation("done", "thing_id", 4),
        Reply { members: vec![string("message", "done"), number("thing_id", 4)] }
    );
    assert_eq!(
        Reply::refusal("missing", 4),
        Reply { members: vec![string("error", "missing"), number("question_id", 4)] }
    );
    assert_eq!(Reply::failure("broken"), error_only("broken"));
    assert_eq!(
        Reply::detail(1, "q".to_string(), vec![]),
        Reply {
            members: vec![
                number("id", 1),
                string("question", "q"),
                Member { name: "answers".to_string(), value: Json::Texts(vec![]) },
            ],
        }
    );
    assert_eq!(
        Reply::listing(vec![]),
        Reply {
            members: vec![Member { name: "questions".to_string(), value: Json::Records(vec![]) }],
        }
    );
}
