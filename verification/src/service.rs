//! The service as one function: a decoded request goes in, the store is read
//! or changed, and the body of the reply comes out.

use crate::error::StoreError;
use crate::handlers;
use crate::handlers::{
    add_answer_reply, delete_question_reply, lookup_step, post_question_reply, questions_reply,
    update_question_reply, with_answers_reply, Lookup, LookupView,
};
use crate::record::QuestionView;
use crate::reply::{MemberView, Reply};
use crate::store::{Store, StoreView};
use vstd::prelude::*;

verus! {

/// A request, decoded: the route it came in on, the identifier of its path
/// and the text of its body.
#[derive(Debug, PartialEq, Eq)]
pub enum Request {
    /// `GET /questions`
    ListQuestions,
    /// `POST /questions` with `{question}`
    CreateQuestion { question: String },
    /// `PUT /questions/:id` with `{question}`
    UpdateQuestion { id: i32, question: String },
    /// `DELETE /questions/:id`
    DeleteQuestion { id: i32 },
    /// `POST /questions/:id/answers` with `{answer}`
    AddAnswer { question_id: i32, answer: String },
    /// `GET /questions/:id`
    GetQuestion { id: i32 },
}

/// What a `Request` stands for.
pub enum RequestView {
    ListQuestions,
    CreateQuestion { question: Seq<char> },
    UpdateQuestion { id: int, question: Seq<char> },
    DeleteQuestion { id: int },
    AddAnswer { question_id: int, answer: Seq<char> },
    GetQuestion { id: int },
}

impl View for Request {
    type V = RequestView;

    open spec fn view(&self) -> RequestView {
        match self {
            Request::ListQuestions => RequestView::ListQuestions,
            Request::CreateQuestion { question } => RequestView::CreateQuestion {
                question: question@,
            },
            Request::UpdateQuestion { id, question } => RequestView::UpdateQuestion {
                id: *id as int,
                question: question@,
            },
            Request::DeleteQuestion { id } => RequestView::DeleteQuestion { id: *id as int },
            Request::AddAnswer { question_id, answer } => RequestView::AddAnswer {
                question_id: *question_id as int,
                answer: answer@,
            },
            Request::GetQuestion { id } => RequestView::GetQuestion { id: *id as int },
        }
    }
}

/// The store after `request` was served.
pub open spec fn after(store: StoreView, request: RequestView) -> StoreView {
    match request {
        RequestView::ListQuestions => store,
        RequestView::CreateQuestion { question } => store.after_create_question(question),
        RequestView::UpdateQuestion { id, question } => store.after_update_question(id, question),
        RequestView::DeleteQuestion { id } => store.after_delete_question(id),
        RequestView::AddAnswer { question_id, answer } => store.after_add_answer(
            question_id,
            answer,
        ),
        RequestView::GetQuestion { id } => store,
    }
}

/// How looking up question `id` ends.
pub open spec fn find_outcome(store: StoreView, id: int) -> Result<QuestionView, StoreError> {
    if store.has_question(id) {
        Ok(store.question(id))
    } else {
        Err(StoreError::NotFound)
    }
}

/// The body that answers `request`, served from `store`.
pub open spec fn reply_to(store: StoreView, request: RequestView) -> Seq<MemberView> {
    match request {
        RequestView::ListQuestions => questions_reply(Ok(store.questions)),
        RequestView::CreateQuestion { question } => post_question_reply(
            store.create_question_outcome(question),
        ),
        RequestView::UpdateQuestion { id, question } => update_question_reply(
            id,
            store.presence(id),
        ),
        RequestView::DeleteQuestion { id } => delete_question_reply(id, store.presence(id)),
        RequestView::AddAnswer { question_id, answer } => add_answer_reply(
            store.add_answer_outcome(question_id),
        ),
        RequestView::GetQuestion { id } => match lookup_step(id, find_outcome(store, id)) {
            LookupView::FetchAnswers { question_id, question } => with_answers_reply(
                question,
                Ok(store.answers_of(question_id)),
            ),
            LookupView::Respond(body) => body,
        },
    }
}

/// Serves one request from the store.
pub fn handle(store: &mut Store, request: Request) -> (reply: Reply)
    ensures
        final(store)@.wf(),
        final(store)@ == after(old(store)@, request@),
        reply@ == reply_to(old(store)@, request@),
{
    match request {
        Request::ListQuestions => handlers::get_questions(Ok(store.get_all_questions())),
        Request::CreateQuestion { question } => handlers::post_question(
            store.create_question(question),
        ),
        Request::UpdateQuestion { id, question } => handlers::update_question(
            id,
            store.update_question(id, question),
        ),
        Request::DeleteQuestion { id } => handlers::delete_question(id, store.delete_question(id)),
        Request::AddAnswer { question_id, answer } => handlers::add_answer(
            store.add_answer(question_id, answer),
        ),
        Request::GetQuestion { id } => match handlers::get_question_with_answers(
            id,
            store.find_question(id),
        ) {
            Lookup::FetchAnswers { question_id, question } => handlers::with_answers(
                question,
                Ok(store.answers_for(question_id)),
            ),
            Lookup::Respond(reply) => reply,
        },
    }
}

} // verus!
