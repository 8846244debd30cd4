//! The records the service stores and hands out, with their mathematical views.

use vstd::prelude::*;

verus! {

/// A question as the store lists it.
#[derive(Debug, PartialEq, Eq)]
pub struct QuestionRecord {
    pub id: i32,
    pub question_text: String,
}

/// What a `QuestionRecord` stands for.
pub struct QuestionView {
    pub id: int,
    pub question_text: Seq<char>,
}

impl View for QuestionRecord {
    type V = QuestionView;

    open spec fn view(&self) -> QuestionView {
        QuestionView { id: self.id as int, question_text: self.question_text@ }
    }
}

impl DeepView for QuestionRecord {
    type V = QuestionView;

    open spec fn deep_view(&self) -> QuestionView {
        self@
    }
}

impl Clone for QuestionRecord {
    fn clone(&self) -> (copy: Self)
        ensures
            copy@ == self@,
    {
        QuestionRecord { id: self.id, question_text: self.question_text.clone() }
    }
}

/// An answer as the store keeps it: it belongs to the question `question_id`.
#[derive(Debug, PartialEq, Eq)]
pub struct AnswerRecord {
    pub id: i32,
    pub question_id: i32,
    pub answer_text: String,
}

/// What an `AnswerRecord` stands for.
pub struct AnswerView {
    pub id: int,
    pub question_id: int,
    pub answer_text: Seq<char>,
}

impl View for AnswerRecord {
    type V = AnswerView;

    open spec fn view(&self) -> AnswerView {
        AnswerView {
            id: self.id as int,
            question_id: self.question_id as int,
            answer_text: self.answer_text@,
        }
    }
}

impl DeepView for AnswerRecord {
    type V = AnswerView;

    open spec fn deep_view(&self) -> AnswerView {
        self@
    }
}

impl Clone for AnswerRecord {
    fn clone(&self) -> (copy: Self)
        ensures
            copy@ == self@,
    {
        AnswerRecord {
            id: self.id,
            question_id: self.question_id,
            answer_text: self.answer_text.clone(),
        }
    }
}

/// A question together with the texts of its answers, oldest first.
#[derive(Debug, PartialEq, Eq)]
pub struct QuestionWithAnswers {
    pub id: i32,
    pub question: String,
    pub answers: Vec<String>,
}

/// What a `QuestionWithAnswers` stands for.
pub struct QuestionWithAnswersView {
    pub id: int,
    pub question: Seq<char>,
    pub answers: Seq<Seq<char>>,
}

impl View for QuestionWithAnswers {
    type V = QuestionWithAnswersView;

    open spec fn view(&self) -> QuestionWithAnswersView {
        QuestionWithAnswersView {
            id: self.id as int,
            question: self.question@,
            answers: self.answers.deep_view(),
        }
    }
}

} // verus!
