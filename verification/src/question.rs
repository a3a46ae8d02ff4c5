//! Question records: a closed question holds an ordered list of checkbox
//! answers, an open question holds a single free-text answer.  [`Question`]
//! is the tagged union over the two shapes.

use crate::answer::{ClosedAnswer, ClosedAnswerView, OpenAnswer, OpenAnswerView};
use vstd::prelude::*;

verus! {

/// Mathematical model of a closed question.
#[verifier::ext_equal]
pub struct ClosedQuestionView {
    pub number: u32,
    pub text: Seq<char>,
    pub answers: Seq<ClosedAnswerView>,
    pub reading: Option<Seq<char>>,
    pub category: Seq<char>,
}

/// Mathematical model of an open question.
#[verifier::ext_equal]
pub struct OpenQuestionView {
    pub number: u32,
    pub text: Seq<char>,
    pub answer: OpenAnswerView,
    pub reading: Option<Seq<char>>,
    pub category: Seq<char>,
}

/// Mathematical model of a question of either shape.
#[verifier::ext_equal]
pub enum QuestionView {
    Closed(ClosedQuestionView),
    Open(OpenQuestionView),
}

/// How many answers in `answers` are flagged correct.
pub open spec fn count_correct(answers: Seq<ClosedAnswerView>) -> nat
    decreases answers.len(),
{
    if answers.len() == 0 {
        0
    } else {
        count_correct(answers.drop_last()) + if answers.last().is_correct {
            1nat
        } else {
            0nat
        }
    }
}

/// A multiple-choice question: a declared ordinal, a prompt, one or more
/// checkbox answers, an optional reading link and a category label.
#[derive(Debug, PartialEq, Eq)]
pub struct ClosedQuestion {
    pub number: u32,
    pub text: String,
    pub answers: Vec<ClosedAnswer>,
    pub reading: Option<String>,
    pub category: String,
}

impl View for ClosedQuestion {
    type V = ClosedQuestionView;

    open spec fn view(&self) -> ClosedQuestionView {
        ClosedQuestionView {
            number: self.number,
            text: self.text@,
            answers: self.answers.deep_view(),
            reading: match self.reading {
                Some(r) => Some(r@),
                None => None,
            },
            category: self.category@,
        }
    }
}

impl Clone for ClosedQuestion {
    fn clone(&self) -> (r: Self)
        ensures
            r@ == self@,
    {
        let answers = self.answers.clone();
        proof {
            assert forall|i: int| 0 <= i < self.answers@.len() implies answers.deep_view()[i]
                == self.answers.deep_view()[i] by {
                assert(cloned::<ClosedAnswer>(self.answers@[i], answers@[i]));
            }
            assert(answers.deep_view() =~= self.answers.deep_view());
        }
        let r = ClosedQuestion {
            number: self.number,
            text: self.text.clone(),
            answers,
            reading: match &self.reading {
                Some(r) => Some(r.clone()),
                None => None,
            },
            category: self.category.clone(),
        };
        proof {
            assert(r@ =~= self@);
        }
        r
    }
}

impl ClosedQuestion {
    /// How many answers the question offers.
    pub fn answers_count(&self) -> (r: usize)
        ensures
            r == self@.answers.len(),
    {
        self.answers.len()
    }

    /// The answer at a zero-based position; out of range is reported, not a
    /// default.
    pub fn answer(&self, idx: usize) -> (r: Option<&ClosedAnswer>)
        ensures
            match r {
                Some(a) => idx < self@.answers.len() && a@ == self@.answers[idx as int],
                None => idx >= self@.answers.len(),
            },
    {
        if idx < self.answers.len() {
            Some(&self.answers[idx])
        } else {
            None
        }
    }

    /// The question expects more than one answer to be picked: strictly more
    /// than one of its answers is flagged correct.
    pub fn is_multi(&self) -> (r: bool)
        ensures
            r == (count_correct(self@.answers) > 1),
    {
        let mut correct: usize = 0;
        let mut i: usize = 0;
        while i < self.answers.len()
            invariant
                i <= self.answers.len(),
                correct <= i,
                correct == count_correct(self@.answers.subrange(0, i as int)),
            decreases self.answers.len() - i,
        {
            proof {
                assert(self@.answers.subrange(0, i + 1).drop_last() =~= self@.answers.subrange(
                    0,
                    i as int,
                ));
            }
            if self.answers[i].is_correct() {
                correct = correct + 1;
            }
            i = i + 1;
        }
        proof {
            assert(self@.answers.subrange(0, self.answers.len() as int) =~= self@.answers);
        }
        correct > 1
    }

    /// The question's declared ordinal.
    pub fn number(&self) -> (r: &u32)
        ensures
            r == self@.number,
    {
        &self.number
    }

    /// The question's prompt.
    pub fn text(&self) -> (r: &String)
        ensures
            r@ == self@.text,
    {
        &self.text
    }

    /// The ordered answer list.
    pub fn answers(&self) -> (r: &Vec<ClosedAnswer>)
        ensures
            r.deep_view() == self@.answers,
    {
        &self.answers
    }

    /// The optional reading link.
    pub fn reading(&self) -> (r: &Option<String>)
        ensures
            match r {
                Some(u) => self@.reading == Some(u@),
                None => self@.reading is None,
            },
    {
        &self.reading
    }

    /// The category label.
    pub fn category(&self) -> (r: &String)
        ensures
            r@ == self@.category,
    {
        &self.category
    }
}

/// A free-text question: the same metadata as a closed question, with a
/// single open answer.
#[derive(Debug, PartialEq, Eq)]
pub struct OpenQuestion {
    pub number: u32,
    pub text: String,
    pub answer: OpenAnswer,
    pub reading: Option<String>,
    pub category: String,
}

impl View for OpenQuestion {
    type V = OpenQuestionView;

    open spec fn view(&self) -> OpenQuestionView {
        OpenQuestionView {
            number: self.number,
            text: self.text@,
            answer: self.answer@,
            reading: match self.reading {
                Some(r) => Some(r@),
                None => None,
            },
            category: self.category@,
        }
    }
}

impl Clone for OpenQuestion {
    fn clone(&self) -> (r: Self)
        ensures
            r == *self,
    {
        OpenQuestion {
            number: self.number,
            text: self.text.clone(),
            answer: self.answer.clone(),
            reading: match &self.reading {
                Some(r) => Some(r.clone()),
                None => None,
            },
            category: self.category.clone(),
        }
    }
}

impl OpenQuestion {
    /// The question's declared ordinal.
    pub fn number(&self) -> (r: &u32)
        ensures
            r == self@.number,
    {
        &self.number
    }

    /// The question's prompt.
    pub fn text(&self) -> (r: &String)
        ensures
            r@ == self@.text,
    {
        &self.text
    }

    /// The single free-text answer.
    pub fn answer(&self) -> (r: &OpenAnswer)
        ensures
            r@ == self@.answer,
    {
        &self.answer
    }

    /// The optional reading link.
    pub fn reading(&self) -> (r: &Option<String>)
        ensures
            match r {
                Some(u) => self@.reading == Some(u@),
                None => self@.reading is None,
            },
    {
        &self.reading
    }

    /// The category label.
    pub fn category(&self) -> (r: &String)
        ensures
            r@ == self@.category,
    {
        &self.category
    }
}

/// A question of either shape; no third shape is representable.
#[derive(Debug, PartialEq, Eq)]
pub enum Question {
    Closed(ClosedQuestion),
    Open(OpenQuestion),
}

impl View for Question {
    type V = QuestionView;

    open spec fn view(&self) -> QuestionView {
        match self {
            Question::Closed(q) => QuestionView::Closed(q@),
            Question::Open(q) => QuestionView::Open(q@),
        }
    }
}

impl DeepView for Question {
    type V = QuestionView;

    open spec fn deep_view(&self) -> QuestionView {
        self@
    }
}

impl Clone for Question {
    fn clone(&self) -> (r: Self)
        ensures
            r@ == self@,
    {
        match self {
            Question::Closed(q) => Question::Closed(q.clone()),
            Question::Open(q) => Question::Open(q.clone()),
        }
    }
}

impl Question {
    /// Wraps a closed question.
    pub fn from_closed(q: ClosedQuestion) -> (r: Self)
        ensures
            r@ == QuestionView::Closed(q@),
    {
        Question::Closed(q)
    }

    /// Wraps an open question.
    pub fn from_open(q: OpenQuestion) -> (r: Self)
        ensures
            r@ == QuestionView::Open(q@),
    {
        Question::Open(q)
    }

    /// The question is of the closed (multiple-choice) shape.
    pub fn is_closed(&self) -> (r: bool)
        ensures
            r == (self@ is Closed),
    {
        match self {
            Question::Closed(_) => true,
            Question::Open(_) => false,
        }
    }

    /// The closed payload, when the question is closed.
    pub fn as_closed(&self) -> (r: Option<ClosedQuestion>)
        ensures
            match r {
                Some(q) => self@ == QuestionView::Closed(q@),
                None => self@ is Open,
            },
    {
        match self {
            Question::Closed(q) => Some(q.clone()),
            Question::Open(_) => None,
        }
    }

    /// The open payload, when the question is open.
    pub fn as_open(self) -> (r: Option<OpenQuestion>)
        ensures
            match r {
                Some(q) => self@ == QuestionView::Open(q@),
                None => self@ is Closed,
            },
    {
        match self {
            Question::Closed(_) => None,
            Question::Open(q) => Some(q),
        }
    }
}

} // verus!
