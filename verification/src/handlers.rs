//! What each route answers, given how the storage operation behind it ended.
//!
//! Every reply is a JSON object sent with status 200; a failure is told by an
//! `error` member. The handler that shows one question makes two storage
//! calls in turn, so it is written as two steps: `get_question_with_answers`
//! decides after the first, `with_answers` after the second.

use crate::error::StoreError;
use crate::record::{QuestionRecord, QuestionView};
use crate::reply::{confirmation, detail, failure, listing, refusal, MemberView, Reply};
use vstd::prelude::*;

verus! {

/// How an UPDATE or DELETE that touched `rows_affected` rows ended.
pub open spec fn rows_outcome_of(rows_affected: int) -> Result<(), StoreError> {
    if rows_affected == 0 {
        Err(StoreError::NotFound)
    } else {
        Ok(())
    }
}

/// The body of `GET /questions`.
pub open spec fn questions_reply(outcome: Result<Seq<QuestionView>, StoreError>) -> Seq<
    MemberView,
> {
    match outcome {
        Ok(questions) => listing(questions),
        Err(_) => failure("Failed to fetch questions"@),
    }
}

/// The body of `POST /questions`.
pub open spec fn post_question_reply(outcome: Result<int, StoreError>) -> Seq<MemberView> {
    match outcome {
        Ok(id) => confirmation("Question added successfully"@, "question_id"@, id),
        Err(_) => failure("Failed to add question"@),
    }
}

/// The body of `PUT /questions/:id`.
pub open spec fn update_question_reply(id: int, outcome: Result<(), StoreError>) -> Seq<
    MemberView,
> {
    match outcome {
        Ok(_) => confirmation("Question updated successfully"@, "question_id"@, id),
        Err(StoreError::NotFound) => refusal("Question not found"@, id),
        Err(_) => failure("Failed to update question"@),
    }
}

/// The body of `DELETE /questions/:id`.
pub open spec fn delete_question_reply(id: int, outcome: Result<(), StoreError>) -> Seq<
    MemberView,
> {
    match outcome {
        Ok(_) => confirmation("Question deleted successfully"@, "question_id"@, id),
        Err(StoreError::NotFound) => refusal("Question not found"@, id),
        Err(_) => failure("Failed to delete question"@),
    }
}

/// The body of `POST /questions/:id/answers`.
pub open spec fn add_answer_reply(outcome: Result<int, StoreError>) -> Seq<MemberView> {
    match outcome {
        Ok(id) => confirmation("Answer added successfully"@, "answer_id"@, id),
        Err(_) => failure("Failed to add answer"@),
    }
}

/// The body of `GET /questions/:id` once the answers were asked for.
pub open spec fn with_answers_reply(
    question: QuestionView,
    answers: Result<Seq<Seq<char>>, StoreError>,
) -> Seq<MemberView> {
    match answers {
        Ok(texts) => detail(question.id, question.question_text, texts),
        Err(_) => failure("Failed to fetch answers"@),
    }
}

/// Where the handler of `GET /questions/:id` stands after its first storage
/// call.
#[derive(Debug, PartialEq, Eq)]
pub enum Lookup {
    /// The question was found: fetch the answers of `question_id`, then call
    /// `with_answers`.
    FetchAnswers { question_id: i32, question: QuestionRecord },
    /// The handler is done and answers with this body.
    Respond(Reply),
}

/// What a `Lookup` stands for.
pub enum LookupView {
    FetchAnswers { question_id: int, question: QuestionView },
    Respond(Seq<MemberView>),
}

impl View for Lookup {
    type V = LookupView;

    open spec fn view(&self) -> LookupView {
        match self {
            Lookup::FetchAnswers { question_id, question } => LookupView::FetchAnswers {
                question_id: *question_id as int,
                question: question@,
            },
            Lookup::Respond(reply) => LookupView::Respond(reply@),
        }
    }
}

/// The step after the first storage call of `GET /questions/:id`.
pub open spec fn lookup_step(id: int, question: Result<QuestionView, StoreError>) -> LookupView {
    match question {
        Ok(found) => LookupView::FetchAnswers { question_id: id, question: found },
        Err(_) => LookupView::Respond(failure("Failed to fetch question"@)),
    }
}

/// Tells a statement that touched no row from one that did: the first means
/// that the identifier names no question.
pub fn rows_outcome(rows_affected: u64) -> (outcome: Result<(), StoreError>)
    ensures
        outcome == rows_outcome_of(rows_affected as int),
{
    if rows_affected == 0 {
        Err(StoreError::NotFound)
    } else {
        Ok(())
    }
}

/// `GET /questions`: lists the questions, or reports that they could not be
/// fetched.
pub fn get_questions(outcome: Result<Vec<QuestionRecord>, StoreError>) -> (reply: Reply)
    ensures
        reply@ == questions_reply(
            match outcome {
                Ok(questions) => Ok(questions.deep_view()),
                Err(e) => Err(e),
            },
        ),
{
    match outcome {
        Ok(questions) => Reply::listing(questions),
        Err(_) => Reply::failure("Failed to fetch questions"),
    }
}

/// `POST /questions`: confirms the new question with its identifier, or
/// reports that it could not be added.
pub fn post_question(outcome: Result<i32, StoreError>) -> (reply: Reply)
    ensures
        reply@ == post_question_reply(
            match outcome {
                Ok(id) => Ok(id as int),
                Err(e) => Err(e),
            },
        ),
{
    match outcome {
        Ok(id) => Reply::confirmation("Question added successfully", "question_id", id),
        Err(_) => Reply::failure("Failed to add question"),
    }
}

/// `PUT /questions/:id`: confirms the update, reports that question `id` does
/// not exist, or reports that the update failed.
pub fn update_question(id: i32, outcome: Result<(), StoreError>) -> (reply: Reply)
    ensures
        reply@ == update_question_reply(id as int, outcome),
{
    match outcome {
        Ok(_) => Reply::confirmation("Question updated successfully", "question_id", id),
        Err(StoreError::NotFound) => Reply::refusal("Question not found", id),
        Err(_) => Reply::failure("Failed to update question"),
    }
}

/// `DELETE /questions/:id`: confirms the removal, reports that question `id`
/// does not exist, or reports that the removal failed.
pub fn delete_question(id: i32, outcome: Result<(), StoreError>) -> (reply: Reply)
    ensures
        reply@ == delete_question_reply(id as int, outcome),
{
    match outcome {
        Ok(_) => Reply::confirmation("Question deleted successfully", "question_id", id),
        Err(StoreError::NotFound) => Reply::refusal("Question not found", id),
        Err(_) => Reply::failure("Failed to delete question"),
    }
}

/// `POST /questions/:id/answers`: confirms the new answer with its
/// identifier, or reports that it could not be added.
pub fn add_answer(outcome: Result<i32, StoreError>) -> (reply: Reply)
    ensures
        reply@ == add_answer_reply(
            match outcome {
                Ok(id) => Ok(id as int),
                Err(e) => Err(e),
            },
        ),
{
    match outcome {
        Ok(id) => Reply::confirmation("Answer added successfully", "answer_id", id),
        Err(_) => Reply::failure("Failed to add answer"),
    }
}

/// `GET /questions/:id`, first step: with the question found, asks for the
/// answers of `id`; otherwise reports that the question could not be fetched.
pub fn get_question_with_answers(id: i32, question: Result<QuestionRecord, StoreError>) -> (step:
    Lookup)
    ensures
        step@ == lookup_step(
            id as int,
            match question {
                Ok(found) => Ok(found@),
                Err(e) => Err(e),
            },
        ),
{
    match question {
        Ok(found) => Lookup::FetchAnswers { question_id: id, question: found },
        Err(_) => Lookup::Respond(Reply::failure("Failed to fetch question")),
    }
}

/// `GET /questions/:id`, second step: shows the question with its answers, or
/// reports that the answers could not be fetched.
pub fn with_answers(question: QuestionRecord, answers: Result<Vec<String>, StoreError>) -> (reply:
    Reply)
    ensures
        reply@ == with_answers_reply(
            question@,
            match answers {
                Ok(texts) => Ok(texts.deep_view()),
                Err(e) => Err(e),
            },
        ),
{
    match answers {
        Ok(texts) => Reply::detail(question.id, question.question_text, texts),
        Err(_) => Reply::failure("Failed to fetch answers"),
    }
}

} // verus!
