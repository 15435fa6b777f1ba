//! The overwrite-confirmation rules of the persistence boundary: how one
//! prompt answer is read, and what a run of answers decides. The caller
//! owns the prompt loop itself and feeds the answers in.

use vstd::prelude::*;
use crate::text::{lower_seq, to_ascii_lower, trim_end, trim_end_ws};

verus! {

/// What one prompt answer means: overwrite, keep the file (and abort the
/// run), or ask again.
#[derive(Clone, Copy, PartialEq, Eq, Structural, Debug)]
pub enum ConfirmDecision {
    Proceed,
    Abort,
    Retry,
}

/// How one prompt answer is read: trimmed of trailing whitespace and
/// lowercased, `y`/`yes` means proceed and `n`/`no` means abort;
/// anything else asks again.
pub open spec fn spec_confirm_line(line: Seq<u8>) -> ConfirmDecision {
    let t = lower_seq(trim_end_ws(line));
    if t == seq![121u8] || t == seq![121u8, 101u8, 115u8] {
        ConfirmDecision::Proceed
    } else if t == seq![110u8] || t == seq![110u8, 111u8] {
        ConfirmDecision::Abort
    } else {
        ConfirmDecision::Retry
    }
}

/// Read one prompt answer, matching `spec_confirm_line`.
pub fn parse_confirm_line(line: &Vec<u8>) -> (d: ConfirmDecision)
    ensures
        d == spec_confirm_line(line@),
{
    let trimmed = trim_end(line);
    let t = to_ascii_lower(&trimmed);
    if t.len() == 1 && t[0] == 121 {
        proof {
            assert(t@ =~= seq![121u8]);
        }
        return ConfirmDecision::Proceed;
    }
    if t.len() == 3 && t[0] == 121 && t[1] == 101 && t[2] == 115 {
        proof {
            assert(t@ =~= seq![121u8, 101u8, 115u8]);
        }
        return ConfirmDecision::Proceed;
    }
    if t.len() == 1 && t[0] == 110 {
        proof {
            assert(t@ =~= seq![110u8]);
        }
        return ConfirmDecision::Abort;
    }
    if t.len() == 2 && t[0] == 110 && t[1] == 111 {
        proof {
            assert(t@ =~= seq![110u8, 111u8]);
        }
        return ConfirmDecision::Abort;
    }
    ConfirmDecision::Retry
}

/// The views of a list of answer lines.
pub open spec fn line_views(lines: Seq<Vec<u8>>) -> Seq<Seq<u8>> {
    lines.map_values(|v: Vec<u8>| v@)
}

/// What a run of prompt answers decides: the first decisive answer wins;
/// a run with none is still undecided.
pub open spec fn spec_confirm_scan(lines: Seq<Seq<u8>>) -> Option<bool>
    decreases lines.len(),
{
    if lines.len() == 0 {
        None
    } else if spec_confirm_line(lines.first()) is Proceed {
        Some(true)
    } else if spec_confirm_line(lines.first()) is Abort {
        Some(false)
    } else {
        spec_confirm_scan(lines.drop_first())
    }
}

/// An answer run whose first answer aborts decides against overwriting,
/// whatever follows.
pub proof fn lemma_decline_decides(lines: Seq<Seq<u8>>)
    requires
        lines.len() > 0,
        spec_confirm_line(lines.first()) is Abort,
    ensures
        spec_confirm_scan(lines) == Some(false),
{
}

/// Decide whether an output path may be written: a path that does not
/// exist yet always may; an existing one needs the first decisive prompt
/// answer to allow it. `None` means the answers ran out undecided and the
/// prompt must be repeated.
pub fn check_output_file(path_exists: bool, answers: &Vec<Vec<u8>>) -> (r: Option<bool>)
    ensures
        !path_exists ==> r == Some(true),
        path_exists ==> r == spec_confirm_scan(line_views(answers@)),
{
    if !path_exists {
        return Some(true);
    }
    let ghost lv = line_views(answers@);
    let mut i: usize = 0;
    proof {
        assert(lv.skip(0) =~= lv);
    }
    while i < answers.len()
        invariant
            path_exists,
            i <= answers@.len(),
            lv == line_views(answers@),
            spec_confirm_scan(lv) == spec_confirm_scan(lv.skip(i as int)),
        decreases answers@.len() - i,
    {
        proof {
            assert(lv.skip(i as int).first() == lv[i as int]);
            assert(lv.skip(i as int).drop_first() =~= lv.skip(i + 1));
        }
        match parse_confirm_line(&answers[i]) {
            ConfirmDecision::Proceed => {
                return Some(true);
            },
            ConfirmDecision::Abort => {
                return Some(false);
            },
            ConfirmDecision::Retry => {
                i += 1;
            },
        }
    }
    proof {
        assert(lv.skip(answers@.len() as int) =~= Seq::<Seq<u8>>::empty());
    }
    None
}

/// Decide whether the optional body-output path may be written: when no
/// path was named there is nothing to confirm; otherwise as
/// `check_output_file`.
pub fn check_body_output_file(present: bool, path_exists: bool, answers: &Vec<Vec<u8>>) -> (r: Option<
    bool,
>)
    ensures
        !present ==> r == Some(true),
        present && !path_exists ==> r == Some(true),
        present && path_exists ==> r == spec_confirm_scan(line_views(answers@)),
{
    if !present {
        return Some(true);
    }
    check_output_file(path_exists, answers)
}

} // verus!
