//! A parser for a Markdown dialect that encodes a bank of quiz questions.
//!
//! The input is a sequence of question blocks.  Each block carries a header
//! line with a number and a category, a prompt paragraph, either a list of
//! checkbox answers (a closed question) or a single free-text answer (an open
//! question), an optional reading link, and a terminating horizontal rule.
//! Parsing the whole input yields an ordered bank of typed [`Question`]
//! values.
//!
//! Every parsing function is specified against the spec-level grammar in
//! [`grammar`]: its result is exactly what the grammar assigns to the input,
//! so parsing is deterministic and total over all inputs.

#![verifier::loop_isolation(false)]

use vstd::prelude::*;

pub mod answer;
pub mod grammar;
pub mod laws;
pub mod parser;
pub mod parsers;
pub mod question;
pub mod scan;

pub use crate::answer::{ClosedAnswer, OpenAnswer};
pub use crate::question::{ClosedQuestion, OpenQuestion, Question};

use crate::grammar::spec_questions;
use crate::question::QuestionView;
use vstd::string::StrSliceExecFns;

verus! {

/// The parsed bank: an insertion-ordered, immutable sequence of questions.
#[derive(Debug, PartialEq, Eq)]
pub struct MdQuestions {
    questions: Vec<Question>,
}

impl View for MdQuestions {
    type V = Seq<QuestionView>;

    closed spec fn view(&self) -> Seq<QuestionView> {
        self.questions.deep_view()
    }
}

impl MdQuestions {
    /// Wraps an already parsed list of questions.
    pub fn new(questions: Vec<Question>) -> (r: Self)
        ensures
            r@ == questions.deep_view(),
    {
        MdQuestions { questions }
    }

    /// How many questions the bank holds.
    pub fn count(&self) -> (r: usize)
        ensures
            r == self@.len(),
    {
        self.questions.len()
    }

    /// The bank holds no questions.
    pub fn is_empty(&self) -> (r: bool)
        ensures
            r == (self@.len() == 0),
    {
        self.questions.is_empty()
    }

    /// The question at a zero-based position; out of range is reported, not
    /// a default.
    pub fn get(&self, idx: usize) -> (r: Option<&Question>)
        ensures
            match r {
                Some(q) => idx < self@.len() && q@ == self@[idx as int],
                None => idx >= self@.len(),
            },
    {
        if idx < self.questions.len() {
            Some(&self.questions[idx])
        } else {
            None
        }
    }

    /// Parses a whole source text into a bank: one or more question blocks
    /// that together consume the entire input.  A malformed block, trailing
    /// content after the last block, and an input without a single block all
    /// yield `None`.
    pub fn from(content: &str) -> (r: Option<MdQuestions>)
        ensures
            ({
                let parsed = spec_questions(content@, 0);
                match r {
                    Some(bank) => parsed == Some((content@.len() as int, bank@)),
                    None => parsed is None || parsed->Some_0.0 != content@.len(),
                }
            }),
    {
        let n = content.unicode_len();
        match parser::questions(content) {
            Some((p, bank)) => if p == n {
                Some(bank)
            } else {
                None
            },
            None => None,
        }
    }
}

} // verus!
