//! The library's stated laws: properties of the grammar that hold of every
//! input, proved once and for all.

use crate::grammar::{
    directive_opens, is_ignore, spec_marker, spec_number_and_category, spec_question,
    spec_question_header, spec_questions, spec_skip_terminator,
};
use vstd::prelude::*;

verus! {

/// Header parsing is a function of the input alone: two parses of the same
/// input at the same position yield identical number-and-category results.
pub proof fn lemma_header_parsing_idempotent(
    s: Seq<char>,
    pos: int,
    r1: Option<(int, u32, Seq<char>)>,
    r2: Option<(int, u32, Seq<char>)>,
)
    requires
        r1 == spec_question_header(s, pos),
        r2 == spec_question_header(s, pos),
    ensures
        r1 == r2,
{
}

/// Each question block contributes exactly one question to the bank: the
/// sequence parsed from `pos` is the block's question followed by whatever
/// parses after the block.
pub proof fn lemma_question_block_counts_one(s: Seq<char>, pos: int)
    requires
        spec_question(s, pos) is Some,
    ensures
        spec_questions(s, pos) is Some,
        ({
            let (p1, q) = spec_question(s, pos)->Some_0;
            let (pend, qs) = spec_questions(s, pos)->Some_0;
            &&& qs.len() >= 1
            &&& qs[0] == q
            &&& match spec_questions(s, p1) {
                Some((p2, rest)) => qs == seq![q] + rest && qs.len() == 1 + rest.len() && pend
                    == p2,
                None => qs == seq![q] && qs.len() == 1 && pend == p1,
            }
        }),
{
    let (p1, q) = spec_question(s, pos)->Some_0;
    match spec_questions(s, p1) {
        Some((p2, rest)) => {
            assert((seq![q] + rest)[0] == q);
        },
        None => {
            assert(seq![q][0] == q);
        },
    }
}

/// A block whose header carries an `ignore` marker contributes no question:
/// the bank parsed from the block's start equals the bank parsed from just
/// after the block's terminator.  This holds whenever parsing resumes at a
/// plain header, that is, no metadata directive opens at the resume point.
pub proof fn lemma_ignored_block_yields_no_question(s: Seq<char>, pos: int)
    requires
        spec_number_and_category(s, pos) is Some,
        spec_marker(s, spec_number_and_category(s, pos)->Some_0.0) is Some,
        is_ignore(spec_marker(s, spec_number_and_category(s, pos)->Some_0.0)->Some_0.1),
        spec_skip_terminator(
            s,
            spec_marker(s, spec_number_and_category(s, pos)->Some_0.0)->Some_0.0,
        ) is Some,
        !directive_opens(
            s,
            spec_skip_terminator(
                s,
                spec_marker(s, spec_number_and_category(s, pos)->Some_0.0)->Some_0.0,
            )->Some_0,
        ),
    ensures
        spec_questions(s, pos) == spec_questions(
            s,
            spec_skip_terminator(
                s,
                spec_marker(s, spec_number_and_category(s, pos)->Some_0.0)->Some_0.0,
            )->Some_0,
        ),
{
    let p1 = spec_number_and_category(s, pos)->Some_0.0;
    let p2 = spec_marker(s, p1)->Some_0.0;
    let p4 = spec_skip_terminator(s, p2)->Some_0;
    reveal_strlit("## Question ");
    reveal_strlit("[//]: # (");
    assert(!directive_opens(s, pos)) by {
        if directive_opens(s, pos) {
            assert(s.subrange(pos, pos + "[//]: # ("@.len())[0] == s[pos]);
            assert(s.subrange(pos, pos + "## Question "@.len())[0] == s[pos]);
        }
    }
    assert(spec_question_header(s, pos) == spec_question_header(s, p4));
    assert(spec_question(s, pos) == spec_question(s, p4));
    assert(spec_questions(s, pos) == spec_questions(s, p4));
}

} // verus!
