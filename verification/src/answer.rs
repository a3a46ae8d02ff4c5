//! Answer records: a closed answer carries a text and a correctness flag, an
//! open answer carries a text alone.

use vstd::prelude::*;
use vstd::string::StringExecFns;

verus! {

/// Mathematical model of a closed answer.
pub struct ClosedAnswerView {
    pub text: Seq<char>,
    pub is_correct: bool,
}

/// One labelled answer of a closed question.
#[derive(Debug, PartialEq, Eq)]
pub struct ClosedAnswer {
    pub text: String,
    pub is_correct: bool,
}

impl View for ClosedAnswer {
    type V = ClosedAnswerView;

    open spec fn view(&self) -> ClosedAnswerView {
        ClosedAnswerView { text: self.text@, is_correct: self.is_correct }
    }
}

impl DeepView for ClosedAnswer {
    type V = ClosedAnswerView;

    open spec fn deep_view(&self) -> ClosedAnswerView {
        self@
    }
}

impl Clone for ClosedAnswer {
    fn clone(&self) -> (r: Self)
        ensures
            r == *self,
    {
        ClosedAnswer { text: self.text.clone(), is_correct: self.is_correct }
    }
}

impl ClosedAnswer {
    pub fn new(text: &str, is_correct: bool) -> (r: Self)
        ensures
            r@ == (ClosedAnswerView { text: text@, is_correct }),
    {
        ClosedAnswer { text: String::from_str(text), is_correct }
    }

    /// An answer flagged incorrect.
    pub fn incorrect(text: &str) -> (r: Self)
        ensures
            r@ == (ClosedAnswerView { text: text@, is_correct: false }),
    {
        Self::new(text, false)
    }

    /// An answer flagged correct.
    pub fn correct(text: &str) -> (r: Self)
        ensures
            r@ == (ClosedAnswerView { text: text@, is_correct: true }),
    {
        Self::new(text, true)
    }

    /// The answer's label.
    pub fn text(&self) -> (r: &String)
        ensures
            r@ == self@.text,
    {
        &self.text
    }

    /// Whether the answer is flagged correct.
    pub fn is_correct(&self) -> (r: bool)
        ensures
            r == self@.is_correct,
    {
        self.is_correct
    }
}

/// Mathematical model of an open answer.
pub struct OpenAnswerView {
    pub text: Seq<char>,
}

/// The single free-text answer of an open question.
#[derive(Debug, PartialEq, Eq)]
pub struct OpenAnswer {
    pub text: String,
}

impl View for OpenAnswer {
    type V = OpenAnswerView;

    open spec fn view(&self) -> OpenAnswerView {
        OpenAnswerView { text: self.text@ }
    }
}

impl DeepView for OpenAnswer {
    type V = OpenAnswerView;

    open spec fn deep_view(&self) -> OpenAnswerView {
        self@
    }
}

impl Clone for OpenAnswer {
    fn clone(&self) -> (r: Self)
        ensures
            r == *self,
    {
        OpenAnswer { text: self.text.clone() }
    }
}

impl OpenAnswer {
    pub fn new(text: &str) -> (r: Self)
        ensures
            r@ == (OpenAnswerView { text: text@ }),
    {
        OpenAnswer { text: String::from_str(text) }
    }

    /// The answer's text.
    pub fn text(&self) -> (r: &String)
        ensures
            r@ == self@.text,
    {
        &self.text
    }
}

} // verus!
