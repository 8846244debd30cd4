//! The storage backend: questions and the answers they own, kept in process.
//!
//! Identifiers come from two sequences that start at 1 and never hand out a
//! number twice, whatever was deleted in between. An answer belongs to a live
//! question, and leaves with it.

use crate::error::StoreError;
use crate::record::{
    AnswerRecord, AnswerView, QuestionRecord, QuestionView, QuestionWithAnswers,
    QuestionWithAnswersView,
};
use crate::seqs::{
    increasing, lemma_filter_drops_one, lemma_filter_keeps_all, lemma_filter_of_increasing,
};
use vstd::prelude::*;

verus! {

/// What a `Store` stands for: its records in the order they were created, the
/// last identifier each sequence handed out, and whether empty question text
/// is turned away.
pub struct StoreView {
    pub questions: Seq<QuestionView>,
    pub answers: Seq<AnswerView>,
    pub last_question_id: int,
    pub last_answer_id: int,
    pub rejects_empty: bool,
}

/// Picks the questions other than `id`.
pub open spec fn other_than(id: int) -> spec_fn(QuestionView) -> bool {
    |q: QuestionView| q.id != id
}

/// Picks the answers that question `id` owns.
pub open spec fn owned_by(id: int) -> spec_fn(AnswerView) -> bool {
    |a: AnswerView| a.question_id == id
}

/// Picks the answers that question `id` does not own.
pub open spec fn not_owned_by(id: int) -> spec_fn(AnswerView) -> bool {
    |a: AnswerView| a.question_id != id
}

/// Gives question `id` the text `text` and leaves every other question alone.
pub open spec fn retitled(id: int, text: Seq<char>) -> spec_fn(QuestionView) -> QuestionView {
    |q: QuestionView|
        if q.id == id {
            QuestionView { id, question_text: text }
        } else {
            q
        }
}

impl StoreView {
    /// A store that holds nothing and has issued no identifier.
    pub open spec fn empty(rejects_empty: bool) -> StoreView {
        StoreView {
            questions: Seq::empty(),
            answers: Seq::empty(),
            last_question_id: 0,
            last_answer_id: 0,
            rejects_empty,
        }
    }

    /// Whether a live question carries `id`.
    pub open spec fn has_question(self, id: int) -> bool {
        exists|i: int| 0 <= i < self.questions.len() && (#[trigger] self.questions[i]).id == id
    }

    /// The live question `id`, where there is one.
    pub open spec fn question(self, id: int) -> QuestionView {
        let i = choose|i: int|
            0 <= i < self.questions.len() && (#[trigger] self.questions[i]).id == id;
        self.questions[i]
    }

    /// The texts of the answers that belong to question `id`, oldest first.
    pub open spec fn answers_of(self, id: int) -> Seq<Seq<char>> {
        self.answers.filter(owned_by(id)).map_values(|a: AnswerView| a.answer_text)
    }

    /// Whether the store has ever handed out `id` for a question.
    pub open spec fn issued(self, id: int) -> bool {
        1 <= id <= self.last_question_id
    }

    /// Validity: identifiers are positive, were issued, and grow along each
    /// list; every answer belongs to a live question.
    pub open spec fn wf(self) -> bool {
        &&& 0 <= self.last_question_id <= i32::MAX
        &&& 0 <= self.last_answer_id <= i32::MAX
        &&& forall|i: int|
            0 <= i < self.questions.len() ==> 1 <= (#[trigger] self.questions[i]).id
                <= self.last_question_id
        &&& forall|i: int, j: int|
            0 <= i < j < self.questions.len() ==> (#[trigger] self.questions[i]).id < (
            #[trigger] self.questions[j]).id
        &&& forall|i: int|
            0 <= i < self.answers.len() ==> 1 <= (#[trigger] self.answers[i]).id
                <= self.last_answer_id
        &&& forall|i: int, j: int|
            0 <= i < j < self.answers.len() ==> (#[trigger] self.answers[i]).id < (
            #[trigger] self.answers[j]).id
        &&& forall|i: int|
            0 <= i < self.answers.len() ==> self.has_question(
                (#[trigger] self.answers[i]).question_id,
            )
    }

    /// How creating a question with `text` ends: empty text is turned away
    /// where the store insists on text, an exhausted sequence is a backend
    /// failure, and otherwise the next identifier is handed out.
    pub open spec fn create_question_outcome(self, text: Seq<char>) -> Result<int, StoreError> {
        if self.rejects_empty && text.len() == 0 {
            Err(StoreError::ValidationFailure)
        } else if self.last_question_id >= i32::MAX {
            Err(StoreError::BackendFailure)
        } else {
            Ok(self.last_question_id + 1)
        }
    }

    /// The store with one more question, `text`, under the next identifier.
    pub open spec fn with_question(self, text: Seq<char>) -> StoreView {
        StoreView {
            questions: self.questions.push(
                QuestionView { id: self.last_question_id + 1, question_text: text },
            ),
            last_question_id: self.last_question_id + 1,
            ..self
        }
    }

    /// The store after an attempt to create a question with `text`.
    pub open spec fn after_create_question(self, text: Seq<char>) -> StoreView {
        if self.create_question_outcome(text) is Ok {
            self.with_question(text)
        } else {
            self
        }
    }

    /// How an operation on question `id` that needs it to exist ends.
    pub open spec fn presence(self, id: int) -> Result<(), StoreError> {
        if self.has_question(id) {
            Ok(())
        } else {
            Err(StoreError::NotFound)
        }
    }

    /// The store with the text of question `id` replaced by `text`.
    pub open spec fn with_text(self, id: int, text: Seq<char>) -> StoreView {
        StoreView {
            questions: self.questions.map_values(retitled(id, text)),
            ..self
        }
    }

    /// The store after an attempt to replace the text of question `id`.
    pub open spec fn after_update_question(self, id: int, text: Seq<char>) -> StoreView {
        if self.has_question(id) {
            self.with_text(id, text)
        } else {
            self
        }
    }

    /// The store without question `id` and without the answers it owned.
    pub open spec fn without_question(self, id: int) -> StoreView {
        StoreView {
            questions: self.questions.filter(other_than(id)),
            answers: self.answers.filter(not_owned_by(id)),
            ..self
        }
    }

    /// The store after an attempt to remove question `id`.
    pub open spec fn after_delete_question(self, id: int) -> StoreView {
        if self.has_question(id) {
            self.without_question(id)
        } else {
            self
        }
    }

    /// How adding an answer to question `question_id` ends: a missing
    /// question is reported first, then an exhausted sequence.
    pub open spec fn add_answer_outcome(self, question_id: int) -> Result<int, StoreError> {
        if !self.has_question(question_id) {
            Err(StoreError::NotFound)
        } else if self.last_answer_id >= i32::MAX {
            Err(StoreError::BackendFailure)
        } else {
            Ok(self.last_answer_id + 1)
        }
    }

    /// The store with one more answer, `text`, owned by `question_id`.
    pub open spec fn with_answer(self, question_id: int, text: Seq<char>) -> StoreView {
        StoreView {
            answers: self.answers.push(
                AnswerView { id: self.last_answer_id + 1, question_id, answer_text: text },
            ),
            last_answer_id: self.last_answer_id + 1,
            ..self
        }
    }
}

impl StoreView {
    /// The store after an attempt to add an answer `text` to `question_id`.
    pub open spec fn after_add_answer(self, question_id: int, text: Seq<char>) -> StoreView {
        if self.add_answer_outcome(question_id) is Ok {
            self.with_answer(question_id, text)
        } else {
            self
        }
    }

    /// A valid store that can still issue an identifier stays valid when a
    /// question is added.
    pub proof fn with_question_is_valid(self, text: Seq<char>)
        requires
            self.wf(),
            self.last_question_id < i32::MAX,
        ensures
            self.with_question(text).wf(),
    {
        let after = self.with_question(text);
        assert forall|i: int| 0 <= i < after.answers.len() implies after.has_question(
            (#[trigger] after.answers[i]).question_id,
        ) by {
            let owner = after.answers[i].question_id;
            assert(self.has_question(self.answers[i].question_id));
            let k = choose|k: int|
                0 <= k < self.questions.len() && (#[trigger] self.questions[k]).id == owner;
            assert(after.questions[k].id == owner);
        }
    }

    /// In a valid store the question found at an index is the one its
    /// identifier names.
    pub proof fn question_at(self, id: int, at: int)
        requires
            self.wf(),
            0 <= at < self.questions.len(),
            self.questions[at].id == id,
        ensures
            self.has_question(id),
            self.question(id) == self.questions[at],
    {
        let i = choose|i: int|
            0 <= i < self.questions.len() && (#[trigger] self.questions[i]).id == id;
        if i < at {
            assert(self.questions[i].id < self.questions[at].id);
        } else if at < i {
            assert(self.questions[at].id < self.questions[i].id);
        }
    }

    /// Replacing the text of a live question changes the one entry that
    /// carries its identifier, and the store stays valid.
    pub proof fn with_text_at(self, id: int, text: Seq<char>, at: int)
        requires
            self.wf(),
            0 <= at < self.questions.len(),
            self.questions[at].id == id,
        ensures
            self.with_text(id, text).questions == self.questions.update(
                at,
                QuestionView { id, question_text: text },
            ),
            self.with_text(id, text).wf(),
    {
        let after = self.with_text(id, text);
        assert forall|i: int| 0 <= i < self.questions.len() && i != at implies (
        #[trigger] self.questions[i]).id != id by {
            if i < at {
                assert(self.questions[i].id < self.questions[at].id);
            } else {
                assert(self.questions[at].id < self.questions[i].id);
            }
        }
        assert(after.questions =~= self.questions.update(
            at,
            QuestionView { id, question_text: text },
        ));
        assert forall|i: int| 0 <= i < after.questions.len() implies (
        #[trigger] after.questions[i]).id == self.questions[i].id by {}
        assert forall|i: int| 0 <= i < after.answers.len() implies after.has_question(
            (#[trigger] after.answers[i]).question_id,
        ) by {
            let owner = after.answers[i].question_id;
            assert(self.has_question(self.answers[i].question_id));
            let k = choose|k: int|
                0 <= k < self.questions.len() && (#[trigger] self.questions[k]).id == owner;
            assert(after.questions[k].id == owner);
        }
    }

    /// Replacing the text of a question that does not exist changes nothing.
    pub proof fn with_text_absent(self, id: int, text: Seq<char>)
        requires
            !self.has_question(id),
        ensures
            self.with_text(id, text) == self,
    {
        assert forall|i: int| 0 <= i < self.questions.len() implies (
        #[trigger] self.questions[i]).id != id by {}
        assert(self.with_text(id, text).questions =~= self.questions);
    }

    /// Removing a live question takes out the one entry that carries its
    /// identifier, and the store stays valid.
    pub proof fn without_question_at(self, id: int, at: int)
        requires
            self.wf(),
            0 <= at < self.questions.len(),
            self.questions[at].id == id,
        ensures
            self.without_question(id).questions == self.questions.remove(at),
            self.without_question(id).wf(),
    {
        let after = self.without_question(id);
        assert forall|i: int| 0 <= i < self.questions.len() && i != at implies other_than(id)(
            #[trigger] self.questions[i],
        ) by {
            if i < at {
                assert(self.questions[i].id < self.questions[at].id);
            } else {
                assert(self.questions[at].id < self.questions[i].id);
            }
        }
        lemma_filter_drops_one(self.questions, other_than(id), at);
        let key = |a: AnswerView| a.id;
        assert(increasing(self.answers, key));
        lemma_filter_of_increasing(self.answers, key, not_owned_by(id));
        assert forall|i: int| 0 <= i < after.answers.len() implies 1 <= (
        #[trigger] after.answers[i]).id <= after.last_answer_id && after.has_question(
            after.answers[i].question_id,
        ) by {
            let a = after.answers[i];
            assert(not_owned_by(id)(a));
            let k = choose|k: int| 0 <= k < self.answers.len() && #[trigger] self.answers[k] == a;
            assert(self.has_question(self.answers[k].question_id));
            let m = choose|m: int|
                0 <= m < self.questions.len() && (#[trigger] self.questions[m]).id
                    == a.question_id;
            if m < at {
                assert(after.questions[m].id == a.question_id);
            } else {
                assert(after.questions[m - 1].id == a.question_id);
            }
        }
        assert forall|i: int, j: int| 0 <= i < j < after.answers.len() implies (
        #[trigger] after.answers[i]).id < (#[trigger] after.answers[j]).id by {
            assert(key(after.answers[i]) < key(after.answers[j]));
        }
    }

    /// Removing a question that does not exist changes nothing in a valid
    /// store.
    pub proof fn without_question_absent(self, id: int)
        requires
            self.wf(),
            !self.has_question(id),
        ensures
            self.without_question(id) == self,
    {
        assert forall|i: int| 0 <= i < self.questions.len() implies other_than(id)(
            #[trigger] self.questions[i],
        ) by {}
        lemma_filter_keeps_all(self.questions, other_than(id));
        assert forall|i: int| 0 <= i < self.answers.len() implies not_owned_by(id)(
            #[trigger] self.answers[i],
        ) by {
            assert(self.has_question(self.answers[i].question_id));
        }
        lemma_filter_keeps_all(self.answers, not_owned_by(id));
    }

    /// A valid store that can still issue an identifier stays valid when an
    /// answer is added to a live question.
    pub proof fn with_answer_is_valid(self, question_id: int, text: Seq<char>)
        requires
            self.wf(),
            self.has_question(question_id),
            self.last_answer_id < i32::MAX,
        ensures
            self.with_answer(question_id, text).wf(),
    {
        let after = self.with_answer(question_id, text);
        assert forall|i: int| 0 <= i < after.answers.len() implies after.has_question(
            (#[trigger] after.answers[i]).question_id,
        ) by {
            let owner = after.answers[i].question_id;
            if i < self.answers.len() {
                assert(self.has_question(self.answers[i].question_id));
            }
            let k = choose|k: int|
                0 <= k < self.questions.len() && (#[trigger] self.questions[k]).id == owner;
            assert(after.questions[k].id == owner);
        }
    }
}

/// The in-process storage backend.
pub struct Store {
    questions: Vec<QuestionRecord>,
    answers: Vec<AnswerRecord>,
    last_question_id: i32,
    last_answer_id: i32,
    rejects_empty: bool,
}

impl View for Store {
    type V = StoreView;

    closed spec fn view(&self) -> StoreView {
        StoreView {
            questions: self.questions.deep_view(),
            answers: self.answers.deep_view(),
            last_question_id: self.last_question_id as int,
            last_answer_id: self.last_answer_id as int,
            rejects_empty: self.rejects_empty,
        }
    }
}

fn locate(questions: &Vec<QuestionRecord>, id: i32) -> (found: Option<usize>)
    ensures
        match found {
            Some(i) => i < questions.len() && questions[i as int].id == id,
            None => forall|j: int| 0 <= j < questions.len() ==> (#[trigger] questions[j]).id != id,
        },
{
    let mut i: usize = 0;
    while i < questions.len()
        invariant
            i <= questions.len(),
            forall|j: int| 0 <= j < i ==> (#[trigger] questions[j]).id != id,
        decreases questions.len() - i,
    {
        if questions[i].id == id {
            return Some(i);
        }
        i += 1;
    }
    None
}

fn texts_owned_by(answers: &Vec<AnswerRecord>, id: i32) -> (texts: Vec<String>)
    ensures
        texts.deep_view() == answers.deep_view().filter(owned_by(id as int)).map_values(
            |a: AnswerView| a.answer_text,
        ),
{
    let ghost all = answers.deep_view();
    let ghost text_of = |a: AnswerView| a.answer_text;
    let mut texts: Vec<String> = Vec::new();
    let mut i: usize = 0;
    assert(all.take(0) =~= Seq::empty());
    assert(all.take(0).filter(owned_by(id as int)) =~= Seq::empty()) by {
        reveal(Seq::filter);
    }
    assert(texts.deep_view() =~= all.take(0).filter(owned_by(id as int)).map_values(text_of));
    while i < answers.len()
        invariant
            i <= answers.len(),
            all == answers.deep_view(),
            text_of == |a: AnswerView| a.answer_text,
            texts.deep_view() == all.take(i as int).filter(owned_by(id as int)).map_values(
                text_of,
            ),
        decreases answers.len() - i,
    {
        let ghost before = texts.deep_view();
        let ghost seen = all.take(i as int);
        proof {
            all.lemma_take_succ_push(i as int);
            seen.lemma_filter_push(all[i as int], owned_by(id as int));
        }
        if answers[i].question_id == id {
            texts.push(answers[i].answer_text.clone());
            assert(texts.deep_view() =~= before.push(all[i as int].answer_text));
            proof {
                seen.filter(owned_by(id as int)).lemma_push_map_commute(text_of, all[i as int]);
            }
        }
        i += 1;
    }
    assert(all.take(i as int) =~= all);
    texts
}

fn answers_not_owned_by(answers: &Vec<AnswerRecord>, id: i32) -> (kept: Vec<AnswerRecord>)
    ensures
        kept.deep_view() == answers.deep_view().filter(not_owned_by(id as int)),
{
    let ghost all = answers.deep_view();
    let mut kept: Vec<AnswerRecord> = Vec::new();
    let mut i: usize = 0;
    assert(all.take(0) =~= Seq::empty());
    assert(kept.deep_view() =~= all.take(0).filter(not_owned_by(id as int))) by {
        reveal(Seq::filter);
    }
    while i < answers.len()
        invariant
            i <= answers.len(),
            all == answers.deep_view(),
            kept.deep_view() == all.take(i as int).filter(not_owned_by(id as int)),
        decreases answers.len() - i,
    {
        let ghost before = kept.deep_view();
        proof {
            all.lemma_take_succ_push(i as int);
            all.take(i as int).lemma_filter_push(all[i as int], not_owned_by(id as int));
        }
        if answers[i].question_id != id {
            kept.push(answers[i].clone());
            assert(kept.deep_view() =~= before.push(all[i as int]));
        }
        i += 1;
    }
    assert(all.take(i as int) =~= all);
    kept
}

impl Store {
    #[verifier::type_invariant]
    spec fn valid(self) -> bool {
        self@.wf()
    }

    /// An empty store that accepts any question text.
    pub fn new() -> (store: Store)
        ensures
            store@ == StoreView::empty(false),
            store@.wf(),
    {
        let store = Store {
            questions: Vec::new(),
            answers: Vec::new(),
            last_question_id: 0,
            last_answer_id: 0,
            rejects_empty: false,
        };
        assert(store@.questions =~= Seq::empty() && store@.answers =~= Seq::empty());
        store
    }

    /// An empty store that turns away a question without text.
    pub fn strict() -> (store: Store)
        ensures
            store@ == StoreView::empty(true),
            store@.wf(),
    {
        let store = Store {
            questions: Vec::new(),
            answers: Vec::new(),
            last_question_id: 0,
            last_answer_id: 0,
            rejects_empty: true,
        };
        assert(store@.questions =~= Seq::empty() && store@.answers =~= Seq::empty());
        store
    }

    /// An empty store whose sequences have already handed out identifiers
    /// up to `last_question_id` and `last_answer_id`, as after a restart over
    /// sequences that persist; it accepts any question text. `None` where one
    /// of the two is negative.
    pub fn with_sequences(last_question_id: i32, last_answer_id: i32) -> (store: Option<Store>)
        ensures
            match store {
                Some(s) => last_question_id >= 0 && last_answer_id >= 0 && s@.wf() && s@ == (
                StoreView {
                    last_question_id: last_question_id as int,
                    last_answer_id: last_answer_id as int,
                    ..StoreView::empty(false)
                }),
                None => last_question_id < 0 || last_answer_id < 0,
            },
    {
        if last_question_id < 0 || last_answer_id < 0 {
            return None;
        }
        let store = Store {
            questions: Vec::new(),
            answers: Vec::new(),
            last_question_id,
            last_answer_id,
            rejects_empty: false,
        };
        assert(store@.questions =~= Seq::empty() && store@.answers =~= Seq::empty());
        Some(store)
    }

    /// Stores a new question and hands out its identifier.
    pub fn create_question(&mut self, text: String) -> (outcome: Result<i32, StoreError>)
        ensures
            final(self)@.wf(),
            old(self)@.create_question_outcome(text@) == (match outcome {
                Ok(id) => Ok(id as int),
                Err(e) => Err(e),
            }),
            final(self)@ == old(self)@.after_create_question(text@),
    {
        proof {
            use_type_invariant(&*self);
        }
        if self.rejects_empty && text.as_str().is_empty() {
            return Err(StoreError::ValidationFailure);
        }
        if self.last_question_id == i32::MAX {
            return Err(StoreError::BackendFailure);
        }
        let id: i32 = self.last_question_id + 1;
        let mut taken = Store::new();
        std::mem::swap(self, &mut taken);
        let Store { mut questions, answers, last_question_id, last_answer_id, rejects_empty } =
            taken;
        let ghost before = questions.deep_view();
        questions.push(QuestionRecord { id, question_text: text });
        assert(questions.deep_view() =~= before.push(
            QuestionView { id: id as int, question_text: text@ },
        ));
        proof {
            old(self)@.with_question_is_valid(text@);
        }
        *self = Store { questions, answers, last_question_id: id, last_answer_id, rejects_empty };
        Ok(id)
    }

    /// Every question, oldest first.
    pub fn get_all_questions(&self) -> (questions: Vec<QuestionRecord>)
        ensures
            self@.wf(),
            questions.deep_view() == self@.questions,
    {
        proof {
            use_type_invariant(self);
        }
        let mut questions: Vec<QuestionRecord> = Vec::new();
        let mut i: usize = 0;
        while i < self.questions.len()
            invariant
                i <= self.questions.len(),
                questions.deep_view() == self.questions.deep_view().take(i as int),
            decreases self.questions.len() - i,
        {
            let ghost before = questions.deep_view();
            questions.push(self.questions[i].clone());
            assert(questions.deep_view() =~= before.push(self.questions[i as int]@));
            i += 1;
            assert(questions.deep_view() =~= self.questions.deep_view().take(i as int));
        }
        assert(self.questions.deep_view().take(i as int) =~= self.questions.deep_view());
        questions
    }

    /// The question `id`, or `NotFound` where no live question carries it.
    pub fn find_question(&self, id: i32) -> (outcome: Result<QuestionRecord, StoreError>)
        ensures
            self@.wf(),
            match outcome {
                Ok(found) => self@.has_question(id as int) && found@ == self@.question(id as int),
                Err(e) => !self@.has_question(id as int) && e == StoreError::NotFound,
            },
    {
        proof {
            use_type_invariant(self);
        }
        match locate(&self.questions, id) {
            Some(i) => {
                proof {
                    self@.question_at(id as int, i as int);
                }
                Ok(self.questions[i].clone())
            },
            None => Err(StoreError::NotFound),
        }
    }

    /// The texts of the answers that belong to `question_id`, oldest first;
    /// none where the question does not exist.
    pub fn answers_for(&self, question_id: i32) -> (texts: Vec<String>)
        ensures
            self@.wf(),
            texts.deep_view() == self@.answers_of(question_id as int),
    {
        proof {
            use_type_invariant(self);
        }
        texts_owned_by(&self.answers, question_id)
    }

    /// The question `id` with its answers, or `NotFound` where no live
    /// question carries it.
    pub fn get_question(&self, id: i32) -> (outcome: Result<QuestionWithAnswers, StoreError>)
        ensures
            self@.wf(),
            match outcome {
                Ok(found) => self@.has_question(id as int) && found@ == (QuestionWithAnswersView {
                    id: id as int,
                    question: self@.question(id as int).question_text,
                    answers: self@.answers_of(id as int),
                }),
                Err(e) => !self@.has_question(id as int) && e == StoreError::NotFound,
            },
    {
        proof {
            use_type_invariant(self);
        }
        match locate(&self.questions, id) {
            Some(i) => {
                proof {
                    self@.question_at(id as int, i as int);
                }
                Ok(
                    QuestionWithAnswers {
                        id,
                        question: self.questions[i].question_text.clone(),
                        answers: texts_owned_by(&self.answers, id),
                    },
                )
            },
            None => Err(StoreError::NotFound),
        }
    }

    /// Replaces the text of question `id`, or reports `NotFound`.
    pub fn update_question(&mut self, id: i32, text: String) -> (outcome: Result<(), StoreError>)
        ensures
            final(self)@.wf(),
            outcome == old(self)@.presence(id as int),
            final(self)@ == old(self)@.after_update_question(id as int, text@),
    {
        proof {
            use_type_invariant(&*self);
        }
        match locate(&self.questions, id) {
            Some(i) => {
                let mut taken = Store::new();
                std::mem::swap(self, &mut taken);
                let Store {
                    mut questions,
                    answers,
                    last_question_id,
                    last_answer_id,
                    rejects_empty,
                } = taken;
                questions.set(i, QuestionRecord { id, question_text: text });
                proof {
                    old(self)@.question_at(id as int, i as int);
                    old(self)@.with_text_at(id as int, text@, i as int);
                    assert(questions.deep_view() =~= old(self)@.questions.update(
                        i as int,
                        QuestionView { id: id as int, question_text: text@ },
                    ));
                }
                *self = Store { questions, answers, last_question_id, last_answer_id, rejects_empty };
                Ok(())
            },
            None => Err(StoreError::NotFound),
        }
    }

    /// Removes question `id` and every answer it owns, or reports `NotFound`.
    pub fn delete_question(&mut self, id: i32) -> (outcome: Result<(), StoreError>)
        ensures
            final(self)@.wf(),
            outcome == old(self)@.presence(id as int),
            final(self)@ == old(self)@.after_delete_question(id as int),
    {
        proof {
            use_type_invariant(&*self);
        }
        match locate(&self.questions, id) {
            Some(i) => {
                let mut taken = Store::new();
                std::mem::swap(self, &mut taken);
                let Store {
                    mut questions,
                    answers,
                    last_question_id,
                    last_answer_id,
                    rejects_empty,
                } = taken;
                questions.remove(i);
                let kept = answers_not_owned_by(&answers, id);
                proof {
                    old(self)@.question_at(id as int, i as int);
                    old(self)@.without_question_at(id as int, i as int);
                    assert(questions.deep_view() =~= old(self)@.questions.remove(i as int));
                }
                *self = Store {
                    questions,
                    answers: kept,
                    last_question_id,
                    last_answer_id,
                    rejects_empty,
                };
                Ok(())
            },
            None => Err(StoreError::NotFound),
        }
    }

    /// Stores a new answer to question `question_id` and hands out its
    /// identifier.
    pub fn add_answer(&mut self, question_id: i32, text: String) -> (outcome: Result<
        i32,
        StoreError,
    >)
        ensures
            final(self)@.wf(),
            old(self)@.add_answer_outcome(question_id as int) == (match outcome {
                Ok(id) => Ok(id as int),
                Err(e) => Err(e),
            }),
            final(self)@ == old(self)@.after_add_answer(question_id as int, text@),
    {
        proof {
            use_type_invariant(&*self);
        }
        match locate(&self.questions, question_id) {
            Some(i) => {
                proof {
                    old(self)@.question_at(question_id as int, i as int);
                }
                if self.last_answer_id == i32::MAX {
                    return Err(StoreError::BackendFailure);
                }
                let id: i32 = self.last_answer_id + 1;
                let mut taken = Store::new();
                std::mem::swap(self, &mut taken);
                let Store {
                    questions,
                    mut answers,
                    last_question_id,
                    last_answer_id,
                    rejects_empty,
                } = taken;
                let ghost before = answers.deep_view();
                answers.push(AnswerRecord { id, question_id, answer_text: text });
                proof {
                    assert(answers.deep_view() =~= before.push(
                        AnswerView {
                            id: id as int,
                            question_id: question_id as int,
                            answer_text: text@,
                        },
                    ));
                    old(self)@.with_answer_is_valid(question_id as int, text@);
                }
                *self = Store { questions, answers, last_question_id, last_answer_id: id, rejects_empty };
                Ok(id)
            },
            None => Err(StoreError::NotFound),
        }
    }
}

} // verus!
