//! What the listing page decides: which questions it shows after a fetch, and
//! the text of each line.

use crate::record::{QuestionRecord, QuestionView};
use vstd::prelude::*;
use vstd::string::StringExecFns;

verus! {

/// The character of one decimal digit.
pub open spec fn digit_char(d: int) -> char {
    if d == 0 {
        '0'
    } else if d == 1 {
        '1'
    } else if d == 2 {
        '2'
    } else if d == 3 {
        '3'
    } else if d == 4 {
        '4'
    } else if d == 5 {
        '5'
    } else if d == 6 {
        '6'
    } else if d == 7 {
        '7'
    } else if d == 8 {
        '8'
    } else {
        '9'
    }
}

/// A natural number in decimal, without leading zeros.
pub open spec fn decimal_nat(n: nat) -> Seq<char>
    decreases n,
{
    if n < 10 {
        seq![digit_char(n as int)]
    } else {
        decimal_nat(n / 10).push(digit_char((n % 10) as int))
    }
}

/// An integer in decimal, with a minus sign in front of a negative one.
pub open spec fn decimal(n: int) -> Seq<char> {
    if n < 0 {
        seq!['-'] + decimal_nat((-n) as nat)
    } else {
        decimal_nat(n as nat)
    }
}

/// The line the page shows for a question: its text, " - ", its identifier.
pub open spec fn line_of(q: QuestionView) -> Seq<char> {
    q.question_text + seq![' ', '-', ' '] + decimal(q.id)
}

fn digit_text(d: u32) -> (text: &'static str)
    requires
        d < 10,
    ensures
        text@ == seq![digit_char(d as int)],
{
    proof {
        reveal_strlit("0");
        reveal_strlit("1");
        reveal_strlit("2");
        reveal_strlit("3");
        reveal_strlit("4");
        reveal_strlit("5");
        reveal_strlit("6");
        reveal_strlit("7");
        reveal_strlit("8");
        reveal_strlit("9");
    }
    let text = if d == 0 {
        "0"
    } else if d == 1 {
        "1"
    } else if d == 2 {
        "2"
    } else if d == 3 {
        "3"
    } else if d == 4 {
        "4"
    } else if d == 5 {
        "5"
    } else if d == 6 {
        "6"
    } else if d == 7 {
        "7"
    } else if d == 8 {
        "8"
    } else {
        "9"
    };
    assert(text@ =~= seq![digit_char(d as int)]);
    text
}

fn append_decimal(out: &mut String, n: u32)
    ensures
        final(out)@ == old(out)@ + decimal_nat(n as nat),
    decreases n,
{
    if n >= 10 {
        append_decimal(out, n / 10);
    }
    out.append(digit_text(n % 10));
    assert(out@ =~= old(out)@ + decimal_nat(n as nat));
}

/// The text of the line for one question.
pub fn question_line(question: &QuestionRecord) -> (line: String)
    ensures
        line@ == line_of(question@),
{
    proof {
        reveal_strlit(" - ");
        reveal_strlit("-");
    }
    let mut line = question.question_text.clone();
    line.append(" - ");
    assert(line@ =~= question@.question_text + seq![' ', '-', ' ']);
    if question.id < 0 {
        line.append("-");
        let magnitude: u32 = (-(question.id as i64)) as u32;
        append_decimal(&mut line, magnitude);
    } else {
        append_decimal(&mut line, question.id as u32);
    }
    assert(line@ =~= line_of(question@));
    line
}

/// How fetching the list of questions ended.
#[derive(Debug, PartialEq, Eq)]
pub enum Fetched {
    /// The request could not be sent, or no response came.
    NoResponse,
    /// The server answered with a status that is not a success.
    Refused { status: u16 },
    /// The body of the response was not a list of questions.
    Malformed,
    /// The server listed these questions.
    Questions(Vec<QuestionRecord>),
}

/// The questions on the page after a fetch: those the server listed, or,
/// where the fetch brought none, those shown before.
pub open spec fn shown_after(shown: Seq<QuestionView>, fetched: Fetched) -> Seq<QuestionView> {
    match fetched {
        Fetched::Questions(listed) => listed.deep_view(),
        _ => shown,
    }
}

/// Decides what the page shows after a fetch.
pub fn refresh(shown: Vec<QuestionRecord>, fetched: Fetched) -> (next: Vec<QuestionRecord>)
    ensures
        next.deep_view() == shown_after(shown.deep_view(), fetched),
{
    match fetched {
        Fetched::Questions(listed) => listed,
        _ => shown,
    }
}

} // verus!
