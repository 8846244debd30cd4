//! The JSON object a handler answers with, as data: named members in the
//! order they were written, each an integer, a text, a list of texts or a
//! list of question records.

use crate::record::{QuestionRecord, QuestionView};
use vstd::prelude::*;

verus! {

/// The value of one member of a reply.
#[derive(Debug, PartialEq, Eq)]
pub enum Json {
    Int(i32),
    Text(String),
    Texts(Vec<String>),
    Records(Vec<QuestionRecord>),
}

/// What a `Json` stands for.
pub enum JsonView {
    Int(int),
    Text(Seq<char>),
    Texts(Seq<Seq<char>>),
    Records(Seq<QuestionView>),
}

impl View for Json {
    type V = JsonView;

    open spec fn view(&self) -> JsonView {
        match self {
            Json::Int(n) => JsonView::Int(*n as int),
            Json::Text(text) => JsonView::Text(text@),
            Json::Texts(texts) => JsonView::Texts(texts.deep_view()),
            Json::Records(records) => JsonView::Records(records.deep_view()),
        }
    }
}

/// One named member of a reply.
#[derive(Debug, PartialEq, Eq)]
pub struct Member {
    pub name: String,
    pub value: Json,
}

/// What a `Member` stands for.
pub struct MemberView {
    pub name: Seq<char>,
    pub value: JsonView,
}

impl View for Member {
    type V = MemberView;

    open spec fn view(&self) -> MemberView {
        MemberView { name: self.name@, value: self.value@ }
    }
}

impl DeepView for Member {
    type V = MemberView;

    open spec fn deep_view(&self) -> MemberView {
        self@
    }
}

/// The body of a reply: a JSON object.
#[derive(Debug, PartialEq, Eq)]
pub struct Reply {
    pub members: Vec<Member>,
}

impl View for Reply {
    type V = Seq<MemberView>;

    open spec fn view(&self) -> Seq<MemberView> {
        self.members.deep_view()
    }
}

/// `{questions: [...]}`: every question of the store.
pub open spec fn listing(questions: Seq<QuestionView>) -> Seq<MemberView> {
    seq![MemberView { name: "questions"@, value: JsonView::Records(questions) }]
}

/// `{message, <key>}`: the operation was carried out on, or produced, `id`.
pub open spec fn confirmation(message: Seq<char>, key: Seq<char>, id: int) -> Seq<MemberView> {
    seq![
        MemberView { name: "message"@, value: JsonView::Text(message) },
        MemberView { name: key, value: JsonView::Int(id) },
    ]
}

/// `{error, question_id}`: the operation found no question `id`.
pub open spec fn refusal(message: Seq<char>, id: int) -> Seq<MemberView> {
    seq![
        MemberView { name: "error"@, value: JsonView::Text(message) },
        MemberView { name: "question_id"@, value: JsonView::Int(id) },
    ]
}

/// `{error}`: the backend failed.
pub open spec fn failure(message: Seq<char>) -> Seq<MemberView> {
    seq![MemberView { name: "error"@, value: JsonView::Text(message) }]
}

/// `{id, question, answers}`: one question with the texts of its answers.
pub open spec fn detail(id: int, question: Seq<char>, answers: Seq<Seq<char>>) -> Seq<
    MemberView,
> {
    seq![
        MemberView { name: "id"@, value: JsonView::Int(id) },
        MemberView { name: "question"@, value: JsonView::Text(question) },
        MemberView { name: "answers"@, value: JsonView::Texts(answers) },
    ]
}

fn member(name: &str, value: Json) -> (m: Member)
    ensures
        m@ == (MemberView { name: name@, value: value@ }),
{
    Member { name: name.to_owned(), value }
}

impl Reply {
    /// The reply that lists `questions`.
    pub fn listing(questions: Vec<QuestionRecord>) -> (reply: Reply)
        ensures
            reply@ == listing(questions.deep_view()),
    {
        let mut members: Vec<Member> = Vec::new();
        members.push(member("questions", Json::Records(questions)));
        let reply = Reply { members };
        assert(reply@ =~= listing(questions.deep_view()));
        reply
    }

    /// The reply that confirms an operation with `message` and gives the
    /// identifier under `key`.
    pub fn confirmation(message: &str, key: &str, id: i32) -> (reply: Reply)
        ensures
            reply@ == confirmation(message@, key@, id as int),
    {
        let mut members: Vec<Member> = Vec::new();
        members.push(member("message", Json::Text(message.to_owned())));
        members.push(member(key, Json::Int(id)));
        let reply = Reply { members };
        assert(reply@ =~= confirmation(message@, key@, id as int));
        reply
    }

    /// The reply that reports, with `message`, that no question `id` exists.
    pub fn refusal(message: &str, id: i32) -> (reply: Reply)
        ensures
            reply@ == refusal(message@, id as int),
    {
        let mut members: Vec<Member> = Vec::new();
        members.push(member("error", Json::Text(message.to_owned())));
        members.push(member("question_id", Json::Int(id)));
        let reply = Reply { members };
        assert(reply@ =~= refusal(message@, id as int));
        reply
    }

    /// The reply that reports a failed operation with `message`.
    pub fn failure(message: &str) -> (reply: Reply)
        ensures
            reply@ == failure(message@),
    {
        let mut members: Vec<Member> = Vec::new();
        members.push(member("error", Json::Text(message.to_owned())));
        let reply = Reply { members };
        assert(reply@ =~= failure(message@));
        reply
    }

    /// The reply that shows one question with its answers.
    pub fn detail(id: i32, question: String, answers: Vec<String>) -> (reply: Reply)
        ensures
            reply@ == detail(id as int, question@, answers.deep_view()),
    {
        let mut members: Vec<Member> = Vec::new();
        members.push(member("id", Json::Int(id)));
        members.push(member("question", Json::Text(question)));
        members.push(member("answers", Json::Texts(answers)));
        let reply = Reply { members };
        assert(reply@ =~= detail(id as int, question@, answers.deep_view()));
        reply
    }
}

} // verus!
