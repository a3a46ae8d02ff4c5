//! The executable parser.  Each function advances a cursor over the input
//! and returns exactly what the grammar in [`crate::grammar`] assigns to
//! that position: success with the same cursor and model, or failure.

use crate::answer::{ClosedAnswer, OpenAnswer};
use crate::grammar::{
    collect_rest, is_ignore, lemma_closed_answer_advances, lemma_question_advances,
    spec_answer_checkbox, spec_closed_answer, spec_closed_answers, spec_closed_body,
    spec_directive, spec_marker, spec_number_and_category, spec_open_answer, spec_open_body,
    spec_question, spec_question_body, spec_question_epilog, spec_question_header,
    spec_question_prolog, spec_questions, spec_reading_header,
};
use crate::question::{ClosedQuestion, OpenQuestion, Question};
use crate::scan::{self, spec_number, spec_tag, spec_take_until};
use crate::MdQuestions;
use vstd::prelude::*;
use vstd::string::{StrSliceExecFns, StringExecFns};

verus! {

/// A whole string of decimal digits read as a `u32`; an empty string, a
/// stray character and a value beyond `u32::MAX` all fail.
pub fn to_int(i: &str) -> (r: Option<u32>)
    ensures
        match r {
            Some(v) => spec_number(i@, 0) == Some((i@.len() as int, v)),
            None => spec_number(i@, 0) is None || spec_number(i@, 0)->Some_0.0 != i@.len(),
        },
{
    let n = i.unicode_len();
    match scan::number(i, 0) {
        Some((p, v)) => {
            if p == n {
                Some(v)
            } else {
                None
            }
        },
        None => None,
    }
}

/// A blank line: two consecutive line breaks.
pub fn empty_line(s: &str, pos: usize) -> (r: Option<(usize, String)>)
    requires
        pos <= s@.len(),
    ensures
        match r {
            Some((p, t)) => spec_tag(s@, pos as int, "\n\n"@) == Some(p as int) && t@ == "\n\n"@
                && p <= s@.len(),
            None => spec_tag(s@, pos as int, "\n\n"@) is None,
        },
{
    match scan::tag(s, pos, "\n\n") {
        Some(p) => Some((p, String::from_str("\n\n"))),
        None => None,
    }
}

/// A paragraph: everything up to, not including, the first blank line.
pub fn paragraph(s: &str, pos: usize) -> (r: Option<(usize, String)>)
    requires
        pos <= s@.len(),
    ensures
        match r {
            Some((p, t)) => spec_take_until(s@, pos as int, "\n\n"@) == Some((p as int, t@)) && pos
                <= p <= s@.len(),
            None => spec_take_until(s@, pos as int, "\n\n"@) is None,
        },
{
    proof {
        reveal_strlit("\n\n");
    }
    scan::take_until(s, pos, "\n\n")
}

/// A line: everything up to, not including, the next line break.
pub fn line(s: &str, pos: usize) -> (r: Option<(usize, String)>)
    requires
        pos <= s@.len(),
    ensures
        match r {
            Some((p, t)) => spec_take_until(s@, pos as int, "\n"@) == Some((p as int, t@)) && pos
                <= p <= s@.len(),
            None => spec_take_until(s@, pos as int, "\n"@) is None,
        },
{
    proof {
        reveal_strlit("\n");
    }
    scan::take_until(s, pos, "\n")
}

/// The `## Answers` section tag of the closed branch.
pub fn answers_header(s: &str, pos: usize) -> (r: Option<usize>)
    requires
        pos <= s@.len(),
    ensures
        match r {
            Some(p) => spec_tag(s@, pos as int, "## Answers"@) == Some(p as int) && p <= s@.len(),
            None => spec_tag(s@, pos as int, "## Answers"@) is None,
        },
{
    scan::tag(s, pos, "## Answers")
}

/// The `## Answer` section tag of the open branch.
pub fn answer_header(s: &str, pos: usize) -> (r: Option<usize>)
    requires
        pos <= s@.len(),
    ensures
        match r {
            Some(p) => spec_tag(s@, pos as int, "## Answer"@) == Some(p as int) && p <= s@.len(),
            None => spec_tag(s@, pos as int, "## Answer"@) is None,
        },
{
    scan::tag(s, pos, "## Answer")
}

/// The horizontal rule that terminates every question block.
pub fn horizontal_rule(s: &str, pos: usize) -> (r: Option<usize>)
    requires
        pos <= s@.len(),
    ensures
        match r {
            Some(p) => spec_tag(s@, pos as int, "---"@) == Some(p as int) && p <= s@.len(),
            None => spec_tag(s@, pos as int, "---"@) is None,
        },
{
    scan::tag(s, pos, "---")
}

/// The reading link `## [Reading](<url>)`; yields the url, possibly empty.
pub fn reading_header(s: &str, pos: usize) -> (r: Option<(usize, String)>)
    requires
        pos <= s@.len(),
    ensures
        match r {
            Some((p, url)) => spec_reading_header(s@, pos as int) == Some((p as int, url@)) && p
                <= s@.len(),
            None => spec_reading_header(s@, pos as int) is None,
        },
{
    let _n = s.unicode_len();
    let p1 = match scan::tag(s, pos, "## [Reading](") {
        Some(p) => p,
        None => {
            return None;
        },
    };
    proof {
        reveal_strlit(")");
    }
    match scan::take_until(s, p1, ")") {
        Some((p2, url)) => Some((p2 + 1, url)),
        None => None,
    }
}

/// The header line without its optional marker: the question number and the
/// category.
pub fn number_and_category(s: &str, pos: usize) -> (r: Option<(usize, u32, String)>)
    requires
        pos <= s@.len(),
    ensures
        match r {
            Some((p, num, cat)) => spec_number_and_category(s@, pos as int) == Some(
                (p as int, num, cat@),
            ) && p <= s@.len(),
            None => spec_number_and_category(s@, pos as int) is None,
        },
{
    let _n = s.unicode_len();
    let p1 = match scan::tag(s, pos, "## Question ") {
        Some(p) => p,
        None => {
            return None;
        },
    };
    let (p2, num) = match scan::number(s, p1) {
        Some(x) => x,
        None => {
            return None;
        },
    };
    let p3 = match scan::tag(s, p2, " `") {
        Some(p) => p,
        None => {
            return None;
        },
    };
    proof {
        reveal_strlit("`");
    }
    match scan::take_until(s, p3, "`") {
        Some((p4, cat)) => Some((p4 + 1, num, cat)),
        None => None,
    }
}

/// The optional second backtick-delimited marker on a header line.
pub fn marker(s: &str, pos: usize) -> (r: Option<(usize, String)>)
    requires
        pos <= s@.len(),
    ensures
        match r {
            Some((p, m)) => spec_marker(s@, pos as int) == Some((p as int, m@)) && p <= s@.len(),
            None => spec_marker(s@, pos as int) is None,
        },
{
    let _n = s.unicode_len();
    let p1 = match scan::tag(s, pos, " `") {
        Some(p) => p,
        None => {
            return None;
        },
    };
    proof {
        reveal_strlit("`");
    }
    match scan::take_until(s, p1, "`") {
        Some((p2, m)) => Some((p2 + 1, m)),
        None => None,
    }
}

/// The marker text equals `ignore` up to ASCII case.
fn is_ignore_marker(m: &str) -> (r: bool)
    ensures
        r == is_ignore(m@),
{
    if m.unicode_len() != 6 {
        return false;
    }
    let c0 = m.get_char(0);
    let c1 = m.get_char(1);
    let c2 = m.get_char(2);
    let c3 = m.get_char(3);
    let c4 = m.get_char(4);
    let c5 = m.get_char(5);
    (c0 == 'i' || c0 == 'I') && (c1 == 'g' || c1 == 'G') && (c2 == 'n' || c2 == 'N') && (c3 == 'o'
        || c3 == 'O') && (c4 == 'r' || c4 == 'R') && (c5 == 'e' || c5 == 'E')
}

/// The header, with the ignore loop: headers whose marker reads `ignore`
/// discard their whole block, and header parsing retries after the block's
/// terminator until a kept header or a failure.
pub fn question_header(s: &str, pos: usize) -> (r: Option<(usize, u32, String)>)
    requires
        pos <= s@.len(),
    ensures
        match r {
            Some((p, num, cat)) => spec_question_header(s@, pos as int) == Some(
                (p as int, num, cat@),
            ) && p <= s@.len(),
            None => spec_question_header(s@, pos as int) is None,
        },
{
    let n = s.unicode_len();
    let mut cur = pos;
    loop
        invariant
            pos <= cur <= n,
            spec_question_header(s@, pos as int) == spec_question_header(s@, cur as int),
        decreases n - cur,
    {
        let (p1, num, cat) = match number_and_category(s, cur) {
            Some(x) => x,
            None => {
                return None;
            },
        };
        let (p2, m) = match marker(s, p1) {
            Some(x) => x,
            None => {
                return Some((p1, num, cat));
            },
        };
        if !is_ignore_marker(m.as_str()) {
            return Some((p2, num, cat));
        }
        proof {
            reveal_strlit("---");
        }
        let (p3, _skipped) = match scan::take_until(s, p2, "---") {
            Some(x) => x,
            None => {
                return None;
            },
        };
        let p4 = match horizontal_rule(s, p3) {
            Some(p) => p,
            None => {
                return None;
            },
        };
        let p5 = match empty_line(s, p4) {
            Some((p, _)) => p,
            None => {
                return None;
            },
        };
        proof {
            crate::grammar::lemma_number_and_category_advances(s@, cur as int);
            crate::grammar::lemma_marker_advances(s@, p1 as int);
        }
        cur = p5;
    }
}

/// Shared prolog: header, one newline, the prompt paragraph, and the blank
/// line that ends it.
pub fn question_prolog(s: &str, pos: usize) -> (r: Option<(usize, u32, String, String)>)
    requires
        pos <= s@.len(),
    ensures
        match r {
            Some((p, num, cat, text)) => spec_question_prolog(s@, pos as int) == Some(
                (p as int, num, cat@, text@),
            ) && p <= s@.len(),
            None => spec_question_prolog(s@, pos as int) is None,
        },
{
    let (p1, num, cat) = match question_header(s, pos) {
        Some(x) => x,
        None => {
            return None;
        },
    };
    let p2 = match scan::tag(s, p1, "\n") {
        Some(p) => p,
        None => {
            return None;
        },
    };
    let (p3, text) = match paragraph(s, p2) {
        Some(x) => x,
        None => {
            return None;
        },
    };
    match empty_line(s, p3) {
        Some((p4, _)) => Some((p4, num, cat, text)),
        None => None,
    }
}

/// Shared epilog: a newline, an optional reading link, an optional blank
/// line, the mandatory horizontal rule and its trailing blank line.
pub fn question_epilog(s: &str, pos: usize) -> (r: Option<(usize, Option<String>)>)
    requires
        pos <= s@.len(),
    ensures
        match r {
            Some((p, reading)) => spec_question_epilog(s@, pos as int) == Some(
                (p as int, reading.deep_view()),
            ) && p <= s@.len(),
            None => spec_question_epilog(s@, pos as int) is None,
        },
{
    let p1 = match scan::tag(s, pos, "\n") {
        Some(p) => p,
        None => {
            return None;
        },
    };
    let (p2, reading): (usize, Option<String>) = match reading_header(s, p1) {
        Some((p, url)) => (p, Some(url)),
        None => (p1, None),
    };
    let p3 = match scan::tag(s, p2, "\n\n") {
        Some(p) => p,
        None => p2,
    };
    let p4 = match horizontal_rule(s, p3) {
        Some(p) => p,
        None => {
            return None;
        },
    };
    match empty_line(s, p4) {
        Some((p5, _)) => Some((p5, reading)),
        None => None,
    }
}

/// One checkbox marker: `- [ ] ` is incorrect, `- [X] ` and `- [x] ` are
/// correct.
pub fn answer_checkbox(s: &str, pos: usize) -> (r: Option<(usize, bool)>)
    requires
        pos <= s@.len(),
    ensures
        match r {
            Some((p, correct)) => spec_answer_checkbox(s@, pos as int) == Some(
                (p as int, correct),
            ) && p <= s@.len(),
            None => spec_answer_checkbox(s@, pos as int) is None,
        },
{
    match scan::tag(s, pos, "- [ ] ") {
        Some(p) => Some((p, false)),
        None => match scan::tag(s, pos, "- [X] ") {
            Some(p) => Some((p, true)),
            None => match scan::tag(s, pos, "- [x] ") {
                Some(p) => Some((p, true)),
                None => None,
            },
        },
    }
}

/// One answer line: a checkbox marker, the answer text, the line break.
pub fn closed_answer(s: &str, pos: usize) -> (r: Option<(usize, ClosedAnswer)>)
    requires
        pos <= s@.len(),
    ensures
        match r {
            Some((p, a)) => spec_closed_answer(s@, pos as int) == Some((p as int, a@)) && p
                <= s@.len(),
            None => spec_closed_answer(s@, pos as int) is None,
        },
{
    let (p1, correct) = match answer_checkbox(s, pos) {
        Some(x) => x,
        None => {
            return None;
        },
    };
    let (p2, text) = match line(s, p1) {
        Some(x) => x,
        None => {
            return None;
        },
    };
    match scan::tag(s, p2, "\n") {
        Some(p3) => Some((p3, ClosedAnswer::new(text.as_str(), correct))),
        None => None,
    }
}

/// One or more answer lines.
pub fn closed_answers(s: &str, pos: usize) -> (r: Option<(usize, Vec<ClosedAnswer>)>)
    requires
        pos <= s@.len(),
    ensures
        match r {
            Some((p, aa)) => spec_closed_answers(s@, pos as int) == Some(
                (p as int, aa.deep_view()),
            ) && p <= s@.len(),
            None => spec_closed_answers(s@, pos as int) is None,
        },
{
    let n = s.unicode_len();
    let mut acc: Vec<ClosedAnswer> = Vec::new();
    let mut cur = pos;
    loop
        invariant
            pos <= cur <= n,
            acc.deep_view().len() == 0 ==> cur == pos,
            acc.deep_view().len() > 0 ==> pos < cur,
            spec_closed_answers(s@, pos as int) == collect_rest(
                acc.deep_view(),
                cur as int,
                spec_closed_answers(s@, cur as int),
            ),
        decreases n - cur,
    {
        let (p, a) = match closed_answer(s, cur) {
            Some(x) => x,
            None => {
                if acc.len() == 0 {
                    return None;
                }
                return Some((cur, acc));
            },
        };
        proof {
            lemma_closed_answer_advances(s@, cur as int);
            let ghost old_acc = acc.deep_view();
            let ghost a_view = a@;
            match spec_closed_answers(s@, p as int) {
                None => {
                    assert(old_acc.push(a_view) =~= old_acc + seq![a_view]);
                },
                Some((p2, rest)) => {
                    assert(old_acc.push(a_view) + rest =~= old_acc + (seq![a_view] + rest));
                },
            }
        }
        acc.push(a);
        cur = p;
    }
}

/// The single answer of an open question: a paragraph, of whose terminating
/// blank line one newline is consumed.
pub fn open_answer(s: &str, pos: usize) -> (r: Option<(usize, OpenAnswer)>)
    requires
        pos <= s@.len(),
    ensures
        match r {
            Some((p, a)) => spec_open_answer(s@, pos as int) == Some((p as int, a@)) && p
                <= s@.len(),
            None => spec_open_answer(s@, pos as int) is None,
        },
{
    let (p1, text) = match paragraph(s, pos) {
        Some(x) => x,
        None => {
            return None;
        },
    };
    match scan::tag(s, p1, "\n") {
        Some(p2) => Some((p2, OpenAnswer::new(text.as_str()))),
        None => None,
    }
}

/// A full metadata directive with its trailing blank line; `true` forces the
/// closed shape.
fn directive(s: &str, pos: usize) -> (r: Option<(usize, bool)>)
    requires
        pos <= s@.len(),
    ensures
        match r {
            Some((p, closed)) => spec_directive(s@, pos as int) == Some((p as int, closed)) && p
                <= s@.len(),
            None => spec_directive(s@, pos as int) is None,
        },
{
    let p1 = match scan::tag(s, pos, "[//]: # (") {
        Some(p) => p,
        None => {
            return None;
        },
    };
    match scan::tag(s, p1, "type: closed)") {
        Some(p2) => match scan::tag(s, p2, "\n\n") {
            Some(p3) => Some((p3, true)),
            None => None,
        },
        None => match scan::tag(s, p1, "type: open)") {
            Some(p2) => match scan::tag(s, p2, "\n\n") {
                Some(p3) => Some((p3, false)),
                None => None,
            },
            None => None,
        },
    }
}

/// A question body from the prolog on: `forced` fixes the branch where a
/// directive named it; otherwise the closed branch is taken exactly when the
/// `## Answers` tag follows the prolog.
fn question_body(s: &str, pos: usize, forced: Option<bool>) -> (r: Option<(usize, Question)>)
    requires
        pos <= s@.len(),
    ensures
        match r {
            Some((p, q)) => spec_question_body(s@, pos as int, forced) == Some((p as int, q@)) && p
                <= s@.len(),
            None => spec_question_body(s@, pos as int, forced) is None,
        },
{
    let (p1, number, category, text) = match question_prolog(s, pos) {
        Some(x) => x,
        None => {
            return None;
        },
    };
    let closed = match forced {
        Some(b) => b,
        None => match answers_header(s, p1) {
            Some(_) => true,
            None => false,
        },
    };
    if closed {
        let (p2, answers, reading) = match closed_body(s, p1) {
            Some(x) => x,
            None => {
                return None;
            },
        };
        let q = Question::from_closed(
            ClosedQuestion { number, text, answers, reading, category },
        );
        proof {
            assert(q@ =~= spec_question_body(s@, pos as int, forced)->Some_0.1);
        }
        Some((p2, q))
    } else {
        let (p2, answer, reading) = match open_body(s, p1) {
            Some(x) => x,
            None => {
                return None;
            },
        };
        let q = Question::from_open(OpenQuestion { number, text, answer, reading, category });
        proof {
            assert(q@ =~= spec_question_body(s@, pos as int, forced)->Some_0.1);
        }
        Some((p2, q))
    }
}

/// The closed branch after the prolog: `## Answers`, its newline, the answer
/// list and the epilog.
fn closed_body(s: &str, pos: usize) -> (r: Option<(usize, Vec<ClosedAnswer>, Option<String>)>)
    requires
        pos <= s@.len(),
    ensures
        match r {
            Some((p, aa, reading)) => spec_closed_body(s@, pos as int) == Some(
                (p as int, aa.deep_view(), reading.deep_view()),
            ) && p <= s@.len(),
            None => spec_closed_body(s@, pos as int) is None,
        },
{
    let p1 = match answers_header(s, pos) {
        Some(p) => p,
        None => {
            return None;
        },
    };
    let p2 = match scan::tag(s, p1, "\n") {
        Some(p) => p,
        None => {
            return None;
        },
    };
    let (p3, answers) = match closed_answers(s, p2) {
        Some(x) => x,
        None => {
            return None;
        },
    };
    match question_epilog(s, p3) {
        Some((p4, reading)) => Some((p4, answers, reading)),
        None => None,
    }
}

/// The open branch after the prolog: `## Answer`, its newline, the open
/// answer and the epilog.
fn open_body(s: &str, pos: usize) -> (r: Option<(usize, OpenAnswer, Option<String>)>)
    requires
        pos <= s@.len(),
    ensures
        match r {
            Some((p, a, reading)) => spec_open_body(s@, pos as int) == Some(
                (p as int, a@, reading.deep_view()),
            ) && p <= s@.len(),
            None => spec_open_body(s@, pos as int) is None,
        },
{
    let p1 = match answer_header(s, pos) {
        Some(p) => p,
        None => {
            return None;
        },
    };
    let p2 = match scan::tag(s, p1, "\n") {
        Some(p) => p,
        None => {
            return None;
        },
    };
    let (p3, answer) = match open_answer(s, p2) {
        Some(x) => x,
        None => {
            return None;
        },
    };
    match question_epilog(s, p3) {
        Some((p4, reading)) => Some((p4, answer, reading)),
        None => None,
    }
}

/// A closed question block: the shared prolog committed to the closed
/// branch.
pub fn closed_question(s: &str, pos: usize) -> (r: Option<(usize, Question)>)
    requires
        pos <= s@.len(),
    ensures
        match r {
            Some((p, q)) => spec_question_body(s@, pos as int, Some(true)) == Some(
                (p as int, q@),
            ) && p <= s@.len(),
            None => spec_question_body(s@, pos as int, Some(true)) is None,
        },
{
    question_body(s, pos, Some(true))
}

/// An open question block: the shared prolog committed to the open branch.
pub fn open_question(s: &str, pos: usize) -> (r: Option<(usize, Question)>)
    requires
        pos <= s@.len(),
    ensures
        match r {
            Some((p, q)) => spec_question_body(s@, pos as int, Some(false)) == Some(
                (p as int, q@),
            ) && p <= s@.len(),
            None => spec_question_body(s@, pos as int, Some(false)) is None,
        },
{
    question_body(s, pos, Some(false))
}

/// One question block, with metadata sniffing: a directive, when present,
/// must be well formed and forces the branch it names.
pub fn question(s: &str, pos: usize) -> (r: Option<(usize, Question)>)
    requires
        pos <= s@.len(),
    ensures
        match r {
            Some((p, q)) => spec_question(s@, pos as int) == Some((p as int, q@)) && p <= s@.len(),
            None => spec_question(s@, pos as int) is None,
        },
{
    match scan::tag(s, pos, "[//]: # (") {
        Some(_) => {
            match directive(s, pos) {
                Some((p1, closed)) => question_body(s, p1, Some(closed)),
                None => None,
            }
        },
        None => question_body(s, pos, None),
    }
}

/// The whole bank: one or more question blocks from the start of the input;
/// yields the cursor after the last block that parses.
pub fn questions(i: &str) -> (r: Option<(usize, MdQuestions)>)
    ensures
        match r {
            Some((p, bank)) => spec_questions(i@, 0) == Some((p as int, bank@)) && p <= i@.len(),
            None => spec_questions(i@, 0) is None,
        },
{
    let n = i.unicode_len();
    let mut acc: Vec<Question> = Vec::new();
    let mut cur: usize = 0;
    loop
        invariant
            cur <= n,
            acc.deep_view().len() == 0 ==> cur == 0,
            spec_questions(i@, 0) == collect_rest(
                acc.deep_view(),
                cur as int,
                spec_questions(i@, cur as int),
            ),
        decreases n - cur,
    {
        let (p, q) = match question(i, cur) {
            Some(x) => x,
            None => {
                if acc.len() == 0 {
                    return None;
                }
                return Some((cur, MdQuestions::new(acc)));
            },
        };
        proof {
            lemma_question_advances(i@, cur as int);
            let ghost old_acc = acc.deep_view();
            let ghost q_view = q@;
            match spec_questions(i@, p as int) {
                None => {
                    assert(old_acc.push(q_view) =~= old_acc + seq![q_view]);
                },
                Some((p2, rest)) => {
                    assert(old_acc.push(q_view) + rest =~= old_acc + (seq![q_view] + rest));
                },
            }
        }
        acc.push(q);
        cur = p;
    }
}

} // verus!
