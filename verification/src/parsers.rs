//! An earlier, smaller line grammar kept alongside the main one: a header
//! without a category, single-line question text, and bracket-only checkbox
//! markers.  Its records carry the same field names as the main model but
//! stand on their own.

use crate::scan::{self, spec_number, spec_tag, spec_take_until};
use vstd::prelude::*;
use vstd::string::StrSliceExecFns;

verus! {

/// One answer of the line grammar: text and a correctness flag.
#[derive(Debug, PartialEq, Eq)]
pub struct Answer {
    pub text: String,
    pub is_correct: bool,
}

/// One question of the line grammar: only the number and the text are ever
/// filled in; the remaining fields stay at their defaults.
#[derive(Debug, PartialEq, Eq)]
pub struct Question {
    pub number: u32,
    pub text: String,
    pub answers: Vec<Answer>,
    pub reading: Option<String>,
    pub category: String,
}

/// Header line `## Question <digits>`: the digits must fit an unsigned
/// 32-bit integer.
pub open spec fn spec_simple_header(s: Seq<char>, pos: int) -> Option<(int, u32)> {
    match spec_tag(s, pos, "## Question "@) {
        None => None,
        Some(p1) => spec_number(s, p1),
    }
}

/// A checkbox `[ ]` or `[x]`, a space, and the answer text up to the end of
/// the line.
pub open spec fn spec_simple_answer(s: Seq<char>, pos: int) -> Option<(int, Seq<char>, bool)> {
    let checkbox = match spec_tag(s, pos, "[ ]"@) {
        Some(p) => Some((p, false)),
        None => match spec_tag(s, pos, "[x]"@) {
            Some(p) => Some((p, true)),
            None => None,
        },
    };
    match checkbox {
        None => None,
        Some((p1, correct)) => match spec_tag(s, p1, " "@) {
            None => None,
            Some(p2) => match spec_take_until(s, p2, "\n"@) {
                None => None,
                Some((p3, text)) => Some((p3, text, correct)),
            },
        },
    }
}

/// A header, its newline, one line of question text, and the blank line
/// after it.
pub open spec fn spec_simple_question(s: Seq<char>, pos: int) -> Option<(int, u32, Seq<char>)> {
    match spec_simple_header(s, pos) {
        None => None,
        Some((p1, num)) => match spec_tag(s, p1, "\n"@) {
            None => None,
            Some(p2) => match spec_take_until(s, p2, "\n"@) {
                None => None,
                Some((p3, text)) => match spec_tag(s, p3, "\n"@) {
                    None => None,
                    Some(p4) => match spec_tag(s, p4, "\n"@) {
                        None => None,
                        Some(p5) => Some((p5, num, text)),
                    },
                },
            },
        },
    }
}

/// A whole string of decimal digits read as a `u32`.
pub fn to_int(i: &str) -> (r: Option<u32>)
    ensures
        match r {
            Some(v) => spec_number(i@, 0) == Some((i@.len() as int, v)),
            None => spec_number(i@, 0) is None || spec_number(i@, 0)->Some_0.0 != i@.len(),
        },
{
    let n = i.unicode_len();
    match scan::number(i, 0) {
        Some((p, v)) => {
            if p == n {
                Some(v)
            } else {
                None
            }
        },
        None => None,
    }
}

/// A single line break.
pub fn new_line(s: &str, pos: usize) -> (r: Option<usize>)
    requires
        pos <= s@.len(),
    ensures
        match r {
            Some(p) => spec_tag(s@, pos as int, "\n"@) == Some(p as int) && p <= s@.len(),
            None => spec_tag(s@, pos as int, "\n"@) is None,
        },
{
    scan::tag(s, pos, "\n")
}

/// Everything up to, not including, the next line break.
pub fn text(s: &str, pos: usize) -> (r: Option<(usize, String)>)
    requires
        pos <= s@.len(),
    ensures
        match r {
            Some((p, t)) => spec_take_until(s@, pos as int, "\n"@) == Some((p as int, t@)) && pos
                <= p <= s@.len(),
            None => spec_take_until(s@, pos as int, "\n"@) is None,
        },
{
    proof {
        reveal_strlit("\n");
    }
    scan::take_until(s, pos, "\n")
}

/// Header line `## Question <digits>`.
pub fn question_header(s: &str, pos: usize) -> (r: Option<(usize, u32)>)
    requires
        pos <= s@.len(),
    ensures
        match r {
            Some((p, num)) => spec_simple_header(s@, pos as int) == Some((p as int, num)) && p
                <= s@.len(),
            None => spec_simple_header(s@, pos as int) is None,
        },
{
    let p1 = match scan::tag(s, pos, "## Question ") {
        Some(p) => p,
        None => {
            return None;
        },
    };
    scan::number(s, p1)
}

/// One answer line: a checkbox, a space, the answer text.
pub fn answer(s: &str, pos: usize) -> (r: Option<(usize, Answer)>)
    requires
        pos <= s@.len(),
    ensures
        match r {
            Some((p, a)) => spec_simple_answer(s@, pos as int) == Some(
                (p as int, a.text@, a.is_correct),
            ) && p <= s@.len(),
            None => spec_simple_answer(s@, pos as int) is None,
        },
{
    let (p1, correct) = match scan::tag(s, pos, "[ ]") {
        Some(p) => (p, false),
        None => match scan::tag(s, pos, "[x]") {
            Some(p) => (p, true),
            None => {
                return None;
            },
        },
    };
    let p2 = match scan::tag(s, p1, " ") {
        Some(p) => p,
        None => {
            return None;
        },
    };
    match text(s, p2) {
        Some((p3, t)) => Some((p3, Answer { text: t, is_correct: correct })),
        None => None,
    }
}

/// One question of the line grammar: header, newline, one line of text, and
/// the blank line after it.  The answer list stays empty, the reading link
/// absent and the category blank.
pub fn question(s: &str, pos: usize) -> (r: Option<(usize, Question)>)
    requires
        pos <= s@.len(),
    ensures
        match r {
            Some((p, q)) => {
                &&& spec_simple_question(s@, pos as int) == Some((p as int, q.number, q.text@))
                &&& p <= s@.len()
                &&& q.answers@.len() == 0
                &&& q.reading is None
                &&& q.category@.len() == 0
            },
            None => spec_simple_question(s@, pos as int) is None,
        },
{
    let (p1, number) = match question_header(s, pos) {
        Some(x) => x,
        None => {
            return None;
        },
    };
    let p2 = match new_line(s, p1) {
        Some(p) => p,
        None => {
            return None;
        },
    };
    let (p3, t) = match text(s, p2) {
        Some(x) => x,
        None => {
            return None;
        },
    };
    let p4 = match new_line(s, p3) {
        Some(p) => p,
        None => {
            return None;
        },
    };
    match new_line(s, p4) {
        Some(p5) => Some(
            (
                p5,
                Question {
                    number,
                    text: t,
                    answers: Vec::new(),
                    reading: None,
                    category: String::new(),
                },
            ),
        ),
        None => None,
    }
}

} // verus!
