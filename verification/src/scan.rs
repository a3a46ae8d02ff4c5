//! Low-level text scanners: literal-tag matching, scanning up to a
//! delimiter, and decimal number parsing.
//!
//! All scanners work on a `&str` together with a cursor, a character index
//! into the string's view.  Each scanner's result is pinned to a spec-level
//! description of the same scan, so callers reason purely over `Seq<char>`.

use vstd::prelude::*;
use vstd::string::StrSliceExecFns;

verus! {

/// The literal `t` occurs in `s` at position `pos`.
pub open spec fn tag_at(s: Seq<char>, pos: int, t: Seq<char>) -> bool {
    &&& 0 <= pos
    &&& pos + t.len() <= s.len()
    &&& s.subrange(pos, pos + t.len()) == t
}

/// Position just after the literal `t`, when it occurs at `pos`.
pub open spec fn spec_tag(s: Seq<char>, pos: int, t: Seq<char>) -> Option<int> {
    if tag_at(s, pos, t) {
        Some(pos + t.len())
    } else {
        None
    }
}

/// The first position at or after `pos` where the literal `t` occurs.
pub open spec fn find_from(s: Seq<char>, pos: int, t: Seq<char>) -> Option<int>
    decreases s.len() - pos,
    when t.len() > 0
{
    if pos + t.len() > s.len() {
        None
    } else if tag_at(s, pos, t) {
        Some(pos)
    } else {
        find_from(s, pos + 1, t)
    }
}

/// The text from `pos` up to (not including) the first occurrence of the
/// delimiter `t`, paired with the delimiter's position; the delimiter itself
/// is not consumed.
pub open spec fn spec_take_until(s: Seq<char>, pos: int, t: Seq<char>) -> Option<(int, Seq<char>)> {
    match find_from(s, pos, t) {
        None => None,
        Some(p) => Some((p, s.subrange(pos, p))),
    }
}

pub proof fn lemma_find_from_position(s: Seq<char>, pos: int, t: Seq<char>)
    requires
        t.len() > 0,
        find_from(s, pos, t) is Some,
    ensures
        pos <= find_from(s, pos, t)->Some_0,
        tag_at(s, find_from(s, pos, t)->Some_0, t),
    decreases s.len() - pos,
{
    if pos + t.len() > s.len() {
    } else if tag_at(s, pos, t) {
    } else {
        lemma_find_from_position(s, pos + 1, t);
    }
}

/// Positions before the first occurrence of `t` carry no occurrence, so the
/// search result is the same from any of them.
proof fn lemma_find_from_skip(s: Seq<char>, pos: int, cur: int, t: Seq<char>)
    requires
        t.len() > 0,
        pos <= cur,
        forall|j: int| pos <= j < cur ==> !tag_at(s, j, t),
    ensures
        find_from(s, pos, t) == find_from(s, cur, t),
    decreases cur - pos,
{
    if pos < cur {
        if pos + t.len() > s.len() {
            lemma_find_from_none_beyond(s, pos, cur, t);
        } else {
            lemma_find_from_skip(s, pos + 1, cur, t);
        }
    }
}

proof fn lemma_find_from_none_beyond(s: Seq<char>, pos: int, cur: int, t: Seq<char>)
    requires
        t.len() > 0,
        pos <= cur,
        pos + t.len() > s.len(),
    ensures
        find_from(s, pos, t) is None,
        find_from(s, cur, t) is None,
    decreases cur - pos,
{
    if pos < cur {
        lemma_find_from_none_beyond(s, pos + 1, cur, t);
    }
}

/// The character `c` is a decimal digit.
pub open spec fn is_digit(c: char) -> bool {
    48 <= c as int && c as int <= 57
}

/// The first position at or after `pos` that does not hold a decimal digit.
pub open spec fn digit_run_end(s: Seq<char>, pos: int) -> int
    decreases s.len() - pos,
{
    if pos < 0 || pos >= s.len() {
        pos
    } else if !is_digit(s[pos]) {
        pos
    } else {
        digit_run_end(s, pos + 1)
    }
}

/// The value of a run of decimal digits.
pub open spec fn dec_value(ds: Seq<char>) -> int
    decreases ds.len(),
{
    if ds.len() == 0 {
        0
    } else {
        dec_value(ds.drop_last()) * 10 + (ds.last() as int - 48)
    }
}

/// A run of one or more decimal digits starting at `pos`, read as an unsigned
/// 32-bit number.  The run is maximal; a value beyond `u32::MAX` is a
/// failure, not a clamp.
pub open spec fn spec_number(s: Seq<char>, pos: int) -> Option<(int, u32)> {
    let end = digit_run_end(s, pos);
    if end <= pos {
        None
    } else if dec_value(s.subrange(pos, end)) > u32::MAX as int {
        None
    } else {
        Some((end, dec_value(s.subrange(pos, end)) as u32))
    }
}

pub proof fn lemma_digit_run_end_bounds(s: Seq<char>, pos: int)
    requires
        0 <= pos <= s.len(),
    ensures
        pos <= digit_run_end(s, pos) <= s.len(),
        forall|j: int| pos <= j < digit_run_end(s, pos) ==> is_digit(s[j]),
    decreases s.len() - pos,
{
    if pos < s.len() && is_digit(s[pos]) {
        lemma_digit_run_end_bounds(s, pos + 1);
    }
}

proof fn lemma_dec_value_nonneg(ds: Seq<char>)
    requires
        forall|j: int| 0 <= j < ds.len() ==> is_digit(ds[j]),
    ensures
        dec_value(ds) >= 0,
    decreases ds.len(),
{
    if ds.len() > 0 {
        lemma_dec_value_nonneg(ds.drop_last());
    }
}

/// A digit run is worth at least any of its prefixes.
proof fn lemma_dec_value_prefix_le(ds: Seq<char>, i: int)
    requires
        0 <= i <= ds.len(),
        forall|j: int| 0 <= j < ds.len() ==> is_digit(ds[j]),
    ensures
        dec_value(ds.subrange(0, i)) <= dec_value(ds),
    decreases ds.len() - i,
{
    if i == ds.len() {
        assert(ds.subrange(0, i) =~= ds);
    } else {
        let shorter = ds.subrange(0, ds.len() - 1);
        assert(shorter =~= ds.drop_last());
        assert(forall|j: int| 0 <= j < shorter.len() ==> is_digit(shorter[j]));
        lemma_dec_value_prefix_le(shorter, i);
        assert(shorter.subrange(0, i) =~= ds.subrange(0, i));
        lemma_dec_value_nonneg(shorter);
    }
}

/// `i < s@.len()` and the character there is a decimal digit.
fn digit_at(s: &str, i: usize) -> (r: bool)
    requires
        i <= s@.len(),
    ensures
        r == (i < s@.len() && is_digit(s@[i as int])),
{
    if i < s.unicode_len() {
        let u = s.get_char(i) as u32;
        48 <= u && u <= 57
    } else {
        false
    }
}

/// Reads a maximal run of one or more decimal digits at `pos` as a `u32`; on
/// success the new cursor stands just after the run.  An empty run and a
/// value beyond `u32::MAX` both fail.
pub fn number(s: &str, pos: usize) -> (r: Option<(usize, u32)>)
    requires
        pos <= s@.len(),
    ensures
        match r {
            Some((p, v)) => spec_number(s@, pos as int) == Some((p as int, v)) && pos < p <= s@.len(),
            None => spec_number(s@, pos as int) is None,
        },
{
    proof {
        lemma_digit_run_end_bounds(s@, pos as int);
    }
    let n = s.unicode_len();
    let mut end = pos;
    while digit_at(s, end)
        invariant
            pos <= end <= s@.len(),
            digit_run_end(s@, pos as int) == digit_run_end(s@, end as int),
        decreases s@.len() - end,
    {
        end = end + 1;
    }
    assert(digit_run_end(s@, pos as int) == end as int);
    if end == pos {
        return None;
    }
    let mut val: u64 = 0;
    let mut cur = pos;
    while cur < end
        invariant
            pos <= cur <= end,
            val as int == dec_value(s@.subrange(pos as int, cur as int)),
            val <= u32::MAX,
        decreases end - cur,
    {
        let c = s.get_char(cur);
        let d: u64 = c as u64 - 48;
        let nv: u64 = val * 10 + d;
        proof {
            assert(s@.subrange(pos as int, cur + 1).drop_last() =~= s@.subrange(
                pos as int,
                cur as int,
            ));
            assert(s@.subrange(pos as int, cur + 1).last() == s@[cur as int]);
        }
        if nv > 4294967295u64 {
            proof {
                let run = s@.subrange(pos as int, end as int);
                assert(run.subrange(0, cur + 1 - pos) =~= s@.subrange(pos as int, cur + 1));
                lemma_dec_value_prefix_le(run, cur + 1 - pos);
            }
            return None;
        }
        val = nv;
        cur = cur + 1;
    }
    Some((end, val as u32))
}

/// Matches the literal `t` at position `pos` of `s`; on success the new
/// cursor stands just after the match.
pub fn tag(s: &str, pos: usize, t: &str) -> (r: Option<usize>)
    requires
        pos <= s@.len(),
    ensures
        match r {
            Some(p) => spec_tag(s@, pos as int, t@) == Some(p as int) && p <= s@.len(),
            None => spec_tag(s@, pos as int, t@) is None,
        },
{
    let n = s.unicode_len();
    let tl = t.unicode_len();
    if tl > n - pos {
        return None;
    }
    let mut k: usize = 0;
    while k < tl
        invariant
            k <= tl,
            forall|j: int| 0 <= j < k ==> s@[pos + j] == t@[j],
        decreases tl - k,
    {
        if s.get_char(pos + k) != t.get_char(k) {
            proof {
                assert(s@.subrange(pos as int, pos + tl) != t@) by {
                    if s@.subrange(pos as int, pos + tl) == t@ {
                        assert(s@.subrange(pos as int, pos + tl)[k as int] == s@[pos + k]);
                    }
                }
            }
            return None;
        }
        k = k + 1;
    }
    proof {
        assert(s@.subrange(pos as int, pos + tl) =~= t@);
    }
    Some(pos + tl)
}

/// Scans from `pos` to the first occurrence of the delimiter `t` and returns
/// the text before it together with the delimiter's position; fails when the
/// delimiter does not occur.  The delimiter is left unconsumed.
pub fn take_until(s: &str, pos: usize, t: &str) -> (r: Option<(usize, String)>)
    requires
        pos <= s@.len(),
        t@.len() > 0,
    ensures
        match r {
            Some((p, txt)) => {
                &&& spec_take_until(s@, pos as int, t@) == Some((p as int, txt@))
                &&& pos <= p
                &&& p + t@.len() <= s@.len()
            },
            None => spec_take_until(s@, pos as int, t@) is None,
        },
{
    let n = s.unicode_len();
    let tl = t.unicode_len();
    let mut cur = pos;
    loop
        invariant
            pos <= cur <= n,
            forall|j: int| pos <= j < cur ==> !tag_at(s@, j, t@),
        decreases n - cur,
    {
        if tl > n - cur {
            proof {
                lemma_find_from_skip(s@, pos as int, cur as int, t@);
            }
            return None;
        }
        match tag(s, cur, t) {
            Some(_) => {
                proof {
                    lemma_find_from_skip(s@, pos as int, cur as int, t@);
                }
                let txt = s.substring_char(pos, cur).to_owned();
                return Some((cur, txt));
            },
            None => {
                cur = cur + 1;
            },
        }
    }
}

} // verus!
