//! The grammar of the question-bank dialect, as spec-level functions over
//! `Seq<char>`.
//!
//! Each function takes the whole input and a cursor and yields the cursor
//! just after the construct together with the construct's model, or `None`
//! when the construct does not parse there.  The executable parsers in
//! [`crate::parser`] are specified, clause for clause, against these
//! functions.

use crate::answer::{ClosedAnswerView, OpenAnswerView};
use crate::question::{ClosedQuestionView, OpenQuestionView, QuestionView};
use crate::scan::{
    lemma_digit_run_end_bounds, lemma_find_from_position, spec_number, spec_tag, spec_take_until,
    tag_at,
};
use vstd::prelude::*;

verus! {

/// Header line `## Question <digits> `<category>``: the digits must fit an
/// unsigned 32-bit integer, the category is everything up to the closing
/// backtick and may be empty.
pub open spec fn spec_number_and_category(s: Seq<char>, pos: int) -> Option<(int, u32, Seq<char>)> {
    match spec_tag(s, pos, "## Question "@) {
        None => None,
        Some(p1) => match spec_number(s, p1) {
            None => None,
            Some((p2, num)) => match spec_tag(s, p2, " `"@) {
                None => None,
                Some(p3) => match spec_take_until(s, p3, "`"@) {
                    None => None,
                    Some((p4, cat)) => Some((p4 + 1, num, cat)),
                },
            },
        },
    }
}

/// An optional second backtick-delimited marker on the header line.
pub open spec fn spec_marker(s: Seq<char>, pos: int) -> Option<(int, Seq<char>)> {
    match spec_tag(s, pos, " `"@) {
        None => None,
        Some(p1) => match spec_take_until(s, p1, "`"@) {
            None => None,
            Some((p2, m)) => Some((p2 + 1, m)),
        },
    }
}

/// The marker text equals `ignore` up to ASCII case.
pub open spec fn is_ignore(m: Seq<char>) -> bool {
    &&& m.len() == 6
    &&& (m[0] == 'i' || m[0] == 'I')
    &&& (m[1] == 'g' || m[1] == 'G')
    &&& (m[2] == 'n' || m[2] == 'N')
    &&& (m[3] == 'o' || m[3] == 'O')
    &&& (m[4] == 'r' || m[4] == 'R')
    &&& (m[5] == 'e' || m[5] == 'E')
}

/// The rest of an ignored block: everything up to and including the next
/// horizontal rule and the blank line after it.
pub open spec fn spec_skip_terminator(s: Seq<char>, pos: int) -> Option<int> {
    match spec_take_until(s, pos, "---"@) {
        None => None,
        Some((p1, _)) => match spec_tag(s, p1, "---"@) {
            None => None,
            Some(p2) => match spec_tag(s, p2, "\n\n"@) {
                None => None,
                Some(p3) => Some(p3),
            },
        },
    }
}

/// The header, with the ignore loop: a header whose marker reads `ignore`
/// (in any ASCII case) discards the whole block and header parsing retries
/// after the block's terminator, as often as needed.  Any other marker is
/// accepted as if it were absent.
pub open spec fn spec_question_header(s: Seq<char>, pos: int) -> Option<(int, u32, Seq<char>)>
    decreases s.len() - pos,
    via spec_question_header_decreases
{
    match spec_number_and_category(s, pos) {
        None => None,
        Some((p1, num, cat)) => match spec_marker(s, p1) {
            None => Some((p1, num, cat)),
            Some((p2, m)) => if !is_ignore(m) {
                Some((p2, num, cat))
            } else {
                match spec_skip_terminator(s, p2) {
                    None => None,
                    Some(p3) => spec_question_header(s, p3),
                }
            },
        },
    }
}

/// Shared prolog: header, one newline, the prompt paragraph (everything up
/// to the first blank line), and that blank line.
pub open spec fn spec_question_prolog(s: Seq<char>, pos: int) -> Option<
    (int, u32, Seq<char>, Seq<char>),
> {
    match spec_question_header(s, pos) {
        None => None,
        Some((p1, num, cat)) => match spec_tag(s, p1, "\n"@) {
            None => None,
            Some(p2) => match spec_take_until(s, p2, "\n\n"@) {
                None => None,
                Some((p3, text)) => match spec_tag(s, p3, "\n\n"@) {
                    None => None,
                    Some(p4) => Some((p4, num, cat, text)),
                },
            },
        },
    }
}

/// Optional reading link `## [Reading](<url>)`; the url may be empty.
pub open spec fn spec_reading_header(s: Seq<char>, pos: int) -> Option<(int, Seq<char>)> {
    match spec_tag(s, pos, "## [Reading]("@) {
        None => None,
        Some(p1) => match spec_take_until(s, p1, ")"@) {
            None => None,
            Some((p2, url)) => Some((p2 + 1, url)),
        },
    }
}

/// Shared epilog: a newline, an optional reading link, an optional blank
/// line, then the mandatory horizontal rule and its trailing blank line.
pub open spec fn spec_question_epilog(s: Seq<char>, pos: int) -> Option<(int, Option<Seq<char>>)> {
    match spec_tag(s, pos, "\n"@) {
        None => None,
        Some(p1) => {
            let (p2, reading) = match spec_reading_header(s, p1) {
                Some((p, url)) => (p, Some(url)),
                None => (p1, None),
            };
            let p3 = match spec_tag(s, p2, "\n\n"@) {
                Some(p) => p,
                None => p2,
            };
            match spec_tag(s, p3, "---"@) {
                None => None,
                Some(p4) => match spec_tag(s, p4, "\n\n"@) {
                    None => None,
                    Some(p5) => Some((p5, reading)),
                },
            }
        },
    }
}

/// One checkbox marker: `- [ ] ` is incorrect, `- [X] ` and `- [x] ` are
/// correct.
pub open spec fn spec_answer_checkbox(s: Seq<char>, pos: int) -> Option<(int, bool)> {
    match spec_tag(s, pos, "- [ ] "@) {
        Some(p) => Some((p, false)),
        None => match spec_tag(s, pos, "- [X] "@) {
            Some(p) => Some((p, true)),
            None => match spec_tag(s, pos, "- [x] "@) {
                Some(p) => Some((p, true)),
                None => None,
            },
        },
    }
}

/// One answer line: a checkbox marker, the answer text up to the end of the
/// line, and the line break.
pub open spec fn spec_closed_answer(s: Seq<char>, pos: int) -> Option<(int, ClosedAnswerView)> {
    match spec_answer_checkbox(s, pos) {
        None => None,
        Some((p1, correct)) => match spec_take_until(s, p1, "\n"@) {
            None => None,
            Some((p2, text)) => match spec_tag(s, p2, "\n"@) {
                None => None,
                Some(p3) => Some((p3, ClosedAnswerView { text, is_correct: correct })),
            },
        },
    }
}

/// One or more answer lines.
pub open spec fn spec_closed_answers(s: Seq<char>, pos: int) -> Option<(int, Seq<ClosedAnswerView>)>
    decreases s.len() - pos,
    via spec_closed_answers_decreases
{
    match spec_closed_answer(s, pos) {
        None => None,
        Some((p1, a)) => match spec_closed_answers(s, p1) {
            None => Some((p1, seq![a])),
            Some((p2, rest)) => Some((p2, seq![a] + rest)),
        },
    }
}

/// The single answer of an open question: a paragraph up to the blank line,
/// of which one newline is consumed.
pub open spec fn spec_open_answer(s: Seq<char>, pos: int) -> Option<(int, OpenAnswerView)> {
    match spec_take_until(s, pos, "\n\n"@) {
        None => None,
        Some((p1, text)) => match spec_tag(s, p1, "\n"@) {
            None => None,
            Some(p2) => Some((p2, OpenAnswerView { text })),
        },
    }
}

/// Closed branch after the prolog: the `## Answers` tag, its newline, the
/// answer list and the epilog.
pub open spec fn spec_closed_body(s: Seq<char>, pos: int) -> Option<
    (int, Seq<ClosedAnswerView>, Option<Seq<char>>),
> {
    match spec_tag(s, pos, "## Answers"@) {
        None => None,
        Some(p1) => match spec_tag(s, p1, "\n"@) {
            None => None,
            Some(p2) => match spec_closed_answers(s, p2) {
                None => None,
                Some((p3, answers)) => match spec_question_epilog(s, p3) {
                    None => None,
                    Some((p4, reading)) => Some((p4, answers, reading)),
                },
            },
        },
    }
}

/// Open branch after the prolog: the `## Answer` tag, its newline, the open
/// answer and the epilog.
pub open spec fn spec_open_body(s: Seq<char>, pos: int) -> Option<
    (int, OpenAnswerView, Option<Seq<char>>),
> {
    match spec_tag(s, pos, "## Answer"@) {
        None => None,
        Some(p1) => match spec_tag(s, p1, "\n"@) {
            None => None,
            Some(p2) => match spec_open_answer(s, p2) {
                None => None,
                Some((p3, answer)) => match spec_question_epilog(s, p3) {
                    None => None,
                    Some((p4, reading)) => Some((p4, answer, reading)),
                },
            },
        },
    }
}

/// A metadata directive opens at `pos`.
pub open spec fn directive_opens(s: Seq<char>, pos: int) -> bool {
    tag_at(s, pos, "[//]: # ("@)
}

/// A full metadata directive with its trailing blank line; `true` forces the
/// closed shape, `false` the open one.  Any other key or value is a failure.
pub open spec fn spec_directive(s: Seq<char>, pos: int) -> Option<(int, bool)> {
    match spec_tag(s, pos, "[//]: # ("@) {
        None => None,
        Some(p1) => match spec_tag(s, p1, "type: closed)"@) {
            Some(p2) => match spec_tag(s, p2, "\n\n"@) {
                None => None,
                Some(p3) => Some((p3, true)),
            },
            None => match spec_tag(s, p1, "type: open)"@) {
                None => None,
                Some(p2) => match spec_tag(s, p2, "\n\n"@) {
                    None => None,
                    Some(p3) => Some((p3, false)),
                },
            },
        },
    }
}

/// A question body: the shared prolog, then the closed or the open branch.
/// Without a forced shape the closed branch is taken exactly when the
/// `## Answers` tag follows the prolog; this resolves the overlap with the
/// open branch's `## Answer` tag in favour of closed.
pub open spec fn spec_question_body(s: Seq<char>, pos: int, forced: Option<bool>) -> Option<
    (int, QuestionView),
> {
    match spec_question_prolog(s, pos) {
        None => None,
        Some((p1, number, category, text)) => {
            let closed = match forced {
                Some(b) => b,
                None => tag_at(s, p1, "## Answers"@),
            };
            if closed {
                match spec_closed_body(s, p1) {
                    None => None,
                    Some((p2, answers, reading)) => Some(
                        (
                            p2,
                            QuestionView::Closed(
                                ClosedQuestionView { number, text, answers, reading, category },
                            ),
                        ),
                    ),
                }
            } else {
                match spec_open_body(s, p1) {
                    None => None,
                    Some((p2, answer, reading)) => Some(
                        (
                            p2,
                            QuestionView::Open(
                                OpenQuestionView { number, text, answer, reading, category },
                            ),
                        ),
                    ),
                }
            }
        },
    }
}

/// One question block, with metadata sniffing: a directive, when present,
/// must be well formed and forces the branch it names.
pub open spec fn spec_question(s: Seq<char>, pos: int) -> Option<(int, QuestionView)> {
    if directive_opens(s, pos) {
        match spec_directive(s, pos) {
            None => None,
            Some((p1, closed)) => spec_question_body(s, p1, Some(closed)),
        }
    } else {
        spec_question_body(s, pos, None)
    }
}

/// One or more question blocks, in source order; stops before the first
/// position where no block parses.
pub open spec fn spec_questions(s: Seq<char>, pos: int) -> Option<(int, Seq<QuestionView>)>
    decreases s.len() - pos,
    via spec_questions_decreases
{
    match spec_question(s, pos) {
        None => None,
        Some((p1, q)) => match spec_questions(s, p1) {
            None => Some((p1, seq![q])),
            Some((p2, qs)) => Some((p2, seq![q] + qs)),
        },
    }
}

/// The result of a one-or-more repetition when `acc` has already been
/// collected up to `cur` and `rest` is the repetition's result from `cur` on.
pub open spec fn collect_rest<T>(acc: Seq<T>, cur: int, rest: Option<(int, Seq<T>)>) -> Option<
    (int, Seq<T>),
> {
    match rest {
        None => if acc.len() == 0 {
            None
        } else {
            Some((cur, acc))
        },
        Some((p, more)) => Some((p, acc + more)),
    }
}

// ---------------------------------------------------------------------------
// Every grammar construct strictly advances the cursor and stays inside the
// input.  These facts bound the recursions above and below.
// ---------------------------------------------------------------------------

pub proof fn lemma_number_and_category_advances(s: Seq<char>, pos: int)
    requires
        spec_number_and_category(s, pos) is Some,
    ensures
        pos < spec_number_and_category(s, pos)->Some_0.0 <= s.len(),
{
    reveal_strlit("## Question ");
    reveal_strlit(" `");
    reveal_strlit("`");
    let p1 = spec_tag(s, pos, "## Question "@)->Some_0;
    lemma_digit_run_end_bounds(s, p1);
    let p2 = spec_number(s, p1)->Some_0.0;
    let p3 = spec_tag(s, p2, " `"@)->Some_0;
    lemma_find_from_position(s, p3, "`"@);
}

pub proof fn lemma_marker_advances(s: Seq<char>, pos: int)
    requires
        spec_marker(s, pos) is Some,
    ensures
        pos < spec_marker(s, pos)->Some_0.0 <= s.len(),
{
    reveal_strlit(" `");
    reveal_strlit("`");
    let p1 = spec_tag(s, pos, " `"@)->Some_0;
    lemma_find_from_position(s, p1, "`"@);
}

pub proof fn lemma_skip_terminator_advances(s: Seq<char>, pos: int)
    requires
        spec_skip_terminator(s, pos) is Some,
    ensures
        pos <= spec_skip_terminator(s, pos)->Some_0 - 5,
        spec_skip_terminator(s, pos)->Some_0 <= s.len(),
{
    reveal_strlit("---");
    reveal_strlit("\n\n");
    lemma_find_from_position(s, pos, "---"@);
}

pub proof fn lemma_question_header_advances(s: Seq<char>, pos: int)
    requires
        spec_question_header(s, pos) is Some,
    ensures
        pos < spec_question_header(s, pos)->Some_0.0 <= s.len(),
    decreases s.len() - pos,
{
    lemma_number_and_category_advances(s, pos);
    let p1 = spec_number_and_category(s, pos)->Some_0.0;
    match spec_marker(s, p1) {
        None => {},
        Some((p2, m)) => {
            lemma_marker_advances(s, p1);
            if is_ignore(m) {
                lemma_skip_terminator_advances(s, p2);
                let p3 = spec_skip_terminator(s, p2)->Some_0;
                lemma_question_header_advances(s, p3);
            }
        },
    }
}

#[via_fn]
proof fn spec_question_header_decreases(s: Seq<char>, pos: int) {
    match spec_number_and_category(s, pos) {
        None => {},
        Some((p1, num, cat)) => {
            lemma_number_and_category_advances(s, pos);
            match spec_marker(s, p1) {
                None => {},
                Some((p2, m)) => {
                    lemma_marker_advances(s, p1);
                    if is_ignore(m) {
                        match spec_skip_terminator(s, p2) {
                            None => {},
                            Some(p3) => {
                                lemma_skip_terminator_advances(s, p2);
                            },
                        }
                    }
                },
            }
        },
    }
}

pub proof fn lemma_question_prolog_advances(s: Seq<char>, pos: int)
    requires
        spec_question_prolog(s, pos) is Some,
    ensures
        pos < spec_question_prolog(s, pos)->Some_0.0 <= s.len(),
{
    reveal_strlit("\n");
    reveal_strlit("\n\n");
    lemma_question_header_advances(s, pos);
    let p1 = spec_question_header(s, pos)->Some_0.0;
    let p2 = spec_tag(s, p1, "\n"@)->Some_0;
    lemma_find_from_position(s, p2, "\n\n"@);
}

pub proof fn lemma_reading_header_advances(s: Seq<char>, pos: int)
    requires
        spec_reading_header(s, pos) is Some,
    ensures
        pos < spec_reading_header(s, pos)->Some_0.0 <= s.len(),
{
    reveal_strlit("## [Reading](");
    reveal_strlit(")");
    let p1 = spec_tag(s, pos, "## [Reading]("@)->Some_0;
    lemma_find_from_position(s, p1, ")"@);
}

pub proof fn lemma_question_epilog_advances(s: Seq<char>, pos: int)
    requires
        spec_question_epilog(s, pos) is Some,
    ensures
        pos < spec_question_epilog(s, pos)->Some_0.0 <= s.len(),
{
    reveal_strlit("\n");
    reveal_strlit("\n\n");
    reveal_strlit("---");
    let p1 = spec_tag(s, pos, "\n"@)->Some_0;
    match spec_reading_header(s, p1) {
        Some(_) => {
            lemma_reading_header_advances(s, p1);
        },
        None => {},
    }
}

pub proof fn lemma_closed_answer_advances(s: Seq<char>, pos: int)
    requires
        spec_closed_answer(s, pos) is Some,
    ensures
        pos < spec_closed_answer(s, pos)->Some_0.0 <= s.len(),
{
    reveal_strlit("- [ ] ");
    reveal_strlit("- [X] ");
    reveal_strlit("- [x] ");
    reveal_strlit("\n");
    let p1 = spec_answer_checkbox(s, pos)->Some_0.0;
    lemma_find_from_position(s, p1, "\n"@);
}

pub proof fn lemma_closed_answers_advances(s: Seq<char>, pos: int)
    requires
        spec_closed_answers(s, pos) is Some,
    ensures
        pos < spec_closed_answers(s, pos)->Some_0.0 <= s.len(),
    decreases s.len() - pos,
{
    lemma_closed_answer_advances(s, pos);
    let p1 = spec_closed_answer(s, pos)->Some_0.0;
    if spec_closed_answers(s, p1) is Some {
        lemma_closed_answers_advances(s, p1);
    }
}

#[via_fn]
proof fn spec_closed_answers_decreases(s: Seq<char>, pos: int) {
    match spec_closed_answer(s, pos) {
        None => {},
        Some((p1, a)) => {
            lemma_closed_answer_advances(s, pos);
        },
    }
}

pub proof fn lemma_open_answer_advances(s: Seq<char>, pos: int)
    requires
        spec_open_answer(s, pos) is Some,
    ensures
        pos <= spec_open_answer(s, pos)->Some_0.0 <= s.len(),
{
    reveal_strlit("\n");
    reveal_strlit("\n\n");
    lemma_find_from_position(s, pos, "\n\n"@);
}

pub proof fn lemma_closed_body_advances(s: Seq<char>, pos: int)
    requires
        spec_closed_body(s, pos) is Some,
    ensures
        pos < spec_closed_body(s, pos)->Some_0.0 <= s.len(),
{
    reveal_strlit("## Answers");
    reveal_strlit("\n");
    let p1 = spec_tag(s, pos, "## Answers"@)->Some_0;
    let p2 = spec_tag(s, p1, "\n"@)->Some_0;
    lemma_closed_answers_advances(s, p2);
    let p3 = spec_closed_answers(s, p2)->Some_0.0;
    lemma_question_epilog_advances(s, p3);
}

pub proof fn lemma_open_body_advances(s: Seq<char>, pos: int)
    requires
        spec_open_body(s, pos) is Some,
    ensures
        pos < spec_open_body(s, pos)->Some_0.0 <= s.len(),
{
    reveal_strlit("## Answer");
    reveal_strlit("\n");
    let p1 = spec_tag(s, pos, "## Answer"@)->Some_0;
    let p2 = spec_tag(s, p1, "\n"@)->Some_0;
    lemma_open_answer_advances(s, p2);
    let p3 = spec_open_answer(s, p2)->Some_0.0;
    lemma_question_epilog_advances(s, p3);
}

pub proof fn lemma_question_body_advances(s: Seq<char>, pos: int, forced: Option<bool>)
    requires
        spec_question_body(s, pos, forced) is Some,
    ensures
        pos < spec_question_body(s, pos, forced)->Some_0.0 <= s.len(),
{
    lemma_question_prolog_advances(s, pos);
    let p1 = spec_question_prolog(s, pos)->Some_0.0;
    let closed = match forced {
        Some(b) => b,
        None => tag_at(s, p1, "## Answers"@),
    };
    if closed {
        lemma_closed_body_advances(s, p1);
    } else {
        lemma_open_body_advances(s, p1);
    }
}

pub proof fn lemma_question_advances(s: Seq<char>, pos: int)
    requires
        spec_question(s, pos) is Some,
    ensures
        pos < spec_question(s, pos)->Some_0.0 <= s.len(),
{
    if directive_opens(s, pos) {
        reveal_strlit("[//]: # (");
        reveal_strlit("type: closed)");
        reveal_strlit("type: open)");
        reveal_strlit("\n\n");
        let (p1, closed) = spec_directive(s, pos)->Some_0;
        lemma_question_body_advances(s, p1, Some(closed));
    } else {
        lemma_question_body_advances(s, pos, None);
    }
}

#[via_fn]
proof fn spec_questions_decreases(s: Seq<char>, pos: int) {
    match spec_question(s, pos) {
        None => {},
        Some((p1, q)) => {
            lemma_question_advances(s, pos);
        },
    }
}

} // verus!
