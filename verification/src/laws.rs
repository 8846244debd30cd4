//! What holds of the storage contract whatever the store holds.

use crate::error::StoreError;
use crate::record::{AnswerView, QuestionView};
use crate::seqs::{
    increasing, lemma_filter_keeps_none, lemma_filter_of_increasing, lemma_filter_within,
};
use crate::service::{after, RequestView};
use crate::store::{not_owned_by, owned_by, StoreView};
use vstd::prelude::*;

verus! {

/// Creating a question with text, while the sequence can still issue an
/// identifier, succeeds; the identifier was never issued before and no
/// question carried it; afterwards the question is listed under it with that
/// text, last in the list, and every question listed before is still listed
/// unchanged.
pub proof fn created_question_is_listed(store: StoreView, text: Seq<char>)
    requires
        store.wf(),
        text.len() > 0,
        store.last_question_id < i32::MAX,
    ensures
        store.create_question_outcome(text) == Ok::<int, StoreError>(store.last_question_id + 1),
        !store.issued(store.last_question_id + 1),
        !store.has_question(store.last_question_id + 1),
        store.after_create_question(text).wf(),
        store.after_create_question(text).issued(store.last_question_id + 1),
        store.after_create_question(text).has_question(store.last_question_id + 1),
        store.after_create_question(text).question(store.last_question_id + 1) == (QuestionView {
            id: store.last_question_id + 1,
            question_text: text,
        }),
        store.after_create_question(text).questions == store.questions.push(
            QuestionView { id: store.last_question_id + 1, question_text: text },
        ),
{
    let id = store.last_question_id + 1;
    let next = store.after_create_question(text);
    store.with_question_is_valid(text);
    assert(next.questions[store.questions.len() as int].id == id);
    next.question_at(id, store.questions.len() as int);
    if store.has_question(id) {
        let i = choose|i: int|
            0 <= i < store.questions.len() && (#[trigger] store.questions[i]).id == id;
        assert(store.questions[i].id <= store.last_question_id);
    }
}

/// Serving a request keeps a valid store valid and takes back no
/// identifier: what was issued stays issued, so an identifier handed out
/// later differs from every one handed out before.
pub proof fn issued_identifiers_stay_issued(store: StoreView, request: RequestView, id: int)
    requires
        store.wf(),
    ensures
        after(store, request).wf(),
        store.last_question_id <= after(store, request).last_question_id,
        store.issued(id) ==> after(store, request).issued(id),
        after(store, request).has_question(id) ==> after(store, request).issued(id),
{
    let next = after(store, request);
    match request {
        RequestView::ListQuestions => {},
        RequestView::CreateQuestion { question } => {
            if store.create_question_outcome(question) is Ok {
                store.with_question_is_valid(question);
            }
        },
        RequestView::UpdateQuestion { id: target, question } => {
            if store.has_question(target) {
                let at = choose|i: int|
                    0 <= i < store.questions.len() && (#[trigger] store.questions[i]).id == target;
                store.with_text_at(target, question, at);
            }
        },
        RequestView::DeleteQuestion { id: target } => {
            if store.has_question(target) {
                let at = choose|i: int|
                    0 <= i < store.questions.len() && (#[trigger] store.questions[i]).id == target;
                store.without_question_at(target, at);
            }
        },
        RequestView::AddAnswer { question_id, answer } => {
            if store.add_answer_outcome(question_id) is Ok {
                store.with_answer_is_valid(question_id, answer);
            }
        },
        RequestView::GetQuestion { id: target } => {},
    }
    if next.has_question(id) {
        let i = choose|i: int|
            0 <= i < next.questions.len() && (#[trigger] next.questions[i]).id == id;
        assert(1 <= next.questions[i].id <= next.last_question_id);
    }
}

/// Updating a live question succeeds, leaves it live with the new text, and
/// doing it again with the same text succeeds again and changes nothing
/// more.
pub proof fn update_is_idempotent(store: StoreView, id: int, text: Seq<char>)
    requires
        store.wf(),
        store.has_question(id),
    ensures
        store.presence(id) == Ok::<(), StoreError>(()),
        store.after_update_question(id, text).wf(),
        store.after_update_question(id, text).presence(id) == Ok::<(), StoreError>(()),
        store.after_update_question(id, text).question(id) == (QuestionView {
            id,
            question_text: text,
        }),
        store.after_update_question(id, text).after_update_question(id, text)
            == store.after_update_question(id, text),
{
    let at = choose|i: int|
        0 <= i < store.questions.len() && (#[trigger] store.questions[i]).id == id;
    let once = store.after_update_question(id, text);
    store.with_text_at(id, text, at);
    assert(once.questions[at].id == id);
    once.question_at(id, at);
    once.with_text_at(id, text, at);
    let twice = once.after_update_question(id, text);
    assert(twice.questions =~= once.questions);
}

/// Updating a question that does not exist reports `NotFound` and changes
/// nothing.
pub proof fn update_of_missing_question_changes_nothing(
    store: StoreView,
    id: int,
    text: Seq<char>,
)
    requires
        store.wf(),
        !store.has_question(id),
    ensures
        store.presence(id) == Err::<(), StoreError>(StoreError::NotFound),
        store.after_update_question(id, text) == store,
        store.with_text(id, text) == store,
{
    store.with_text_absent(id, text);
}

/// Deleting a question that does not exist reports `NotFound` and changes
/// nothing.
pub proof fn delete_of_missing_question_changes_nothing(store: StoreView, id: int)
    requires
        store.wf(),
        !store.has_question(id),
    ensures
        store.presence(id) == Err::<(), StoreError>(StoreError::NotFound),
        store.after_delete_question(id) == store,
        store.without_question(id) == store,
{
    store.without_question_absent(id);
}

/// Deleting a live question succeeds and takes its answers with it: no
/// answer names it as owner any more and it is no longer live. Every other
/// question is live as before, with its text and with the same answers.
pub proof fn delete_cascades_to_answers(store: StoreView, id: int, other: int)
    requires
        store.wf(),
        store.has_question(id),
        other != id,
    ensures
        store.presence(id) == Ok::<(), StoreError>(()),
        store.after_delete_question(id).wf(),
        !store.after_delete_question(id).has_question(id),
        store.after_delete_question(id).answers_of(id) == Seq::<Seq<char>>::empty(),
        forall|i: int|
            0 <= i < store.after_delete_question(id).answers.len() ==> (
            #[trigger] store.after_delete_question(id).answers[i]).question_id != id,
        store.after_delete_question(id).has_question(other) == store.has_question(other),
        store.has_question(other) ==> store.after_delete_question(id).question(other)
            == store.question(other),
        store.after_delete_question(id).answers_of(other) == store.answers_of(other),
{
    let next = store.after_delete_question(id);
    let at = choose|i: int|
        0 <= i < store.questions.len() && (#[trigger] store.questions[i]).id == id;
    store.without_question_at(id, at);
    let key = |a: AnswerView| a.id;
    assert(increasing(store.answers, key));
    lemma_filter_of_increasing(store.answers, key, not_owned_by(id));
    assert forall|i: int| 0 <= i < next.answers.len() implies (#[trigger] next.answers[i]).question_id
        != id by {
        assert(not_owned_by(id)(next.answers[i]));
    }
    assert forall|i: int| 0 <= i < next.answers.len() implies !owned_by(id)(
        #[trigger] next.answers[i],
    ) by {
        assert(not_owned_by(id)(next.answers[i]));
    }
    lemma_filter_keeps_none(next.answers, owned_by(id));
    assert(next.answers_of(id) =~= Seq::<Seq<char>>::empty());
    if next.has_question(id) {
        let i = choose|i: int|
            0 <= i < next.questions.len() && (#[trigger] next.questions[i]).id == id;
        if i < at {
            assert(store.questions[i].id < store.questions[at].id);
        } else {
            assert(store.questions[at].id < store.questions[i + 1].id);
        }
    }
    if store.has_question(other) {
        let k = choose|k: int|
            0 <= k < store.questions.len() && (#[trigger] store.questions[k]).id == other;
        store.question_at(other, k);
        if k < at {
            assert(next.questions[k].id == other);
            next.question_at(other, k);
        } else {
            assert(next.questions[k - 1].id == other);
            next.question_at(other, k - 1);
        }
    }
    if next.has_question(other) {
        let k = choose|k: int|
            0 <= k < next.questions.len() && (#[trigger] next.questions[k]).id == other;
        if k < at {
            assert(store.questions[k].id == other);
        } else {
            assert(store.questions[k + 1].id == other);
        }
    }
    assert forall|a: AnswerView| #[trigger] owned_by(other)(a) implies not_owned_by(id)(a) by {}
    lemma_filter_within(store.answers, not_owned_by(id), owned_by(other));
}

/// An answer to a question that was never created, or that is no longer
/// live, is turned away with `NotFound` and nothing is stored; in a valid
/// store every answer belongs to a live question.
pub proof fn answer_needs_a_live_question(store: StoreView, question_id: int, text: Seq<char>)
    requires
        store.wf(),
    ensures
        !store.issued(question_id) ==> !store.has_question(question_id),
        !store.has_question(question_id) ==> store.add_answer_outcome(question_id) == Err::<
            int,
            StoreError,
        >(StoreError::NotFound) && store.after_add_answer(question_id, text) == store,
        store.after_add_answer(question_id, text).wf(),
        forall|i: int|
            0 <= i < store.after_add_answer(question_id, text).answers.len()
                ==> store.after_add_answer(question_id, text).has_question(
                (#[trigger] store.after_add_answer(question_id, text).answers[i]).question_id,
            ),
{
    if store.has_question(question_id) {
        let i = choose|i: int|
            0 <= i < store.questions.len() && (#[trigger] store.questions[i]).id == question_id;
        assert(1 <= store.questions[i].id <= store.last_question_id);
    }
    if store.add_answer_outcome(question_id) is Ok {
        store.with_answer_is_valid(question_id, text);
    }
}

/// An answer added to a live question, while the sequence can still issue an
/// identifier, is the last of that question's answers afterwards.
pub proof fn added_answer_is_listed(store: StoreView, question_id: int, text: Seq<char>)
    requires
        store.wf(),
        store.has_question(question_id),
        store.last_answer_id < i32::MAX,
    ensures
        store.add_answer_outcome(question_id) == Ok::<int, StoreError>(store.last_answer_id + 1),
        store.after_add_answer(question_id, text).answers_of(question_id) == store.answers_of(
            question_id,
        ).push(text),
{
    let added = AnswerView { id: store.last_answer_id + 1, question_id, answer_text: text };
    store.answers.lemma_filter_push(added, owned_by(question_id));
    assert(store.after_add_answer(question_id, text).answers_of(question_id)
        =~= store.answers_of(question_id).push(text));
}

} // verus!
