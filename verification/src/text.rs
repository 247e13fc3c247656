//! Small text utilities: exact string comparison, the reserved marker that
//! stands for an unreadable input line, and the case-insensitive yes/no
//! answer parser used by every confirmation prompt.

use vstd::prelude::*;

verus! {

/// The view of the reserved marker text that stands for "no value": an input
/// line that could not be read is reported as this marker rather than as an
/// error, and credential validation treats it as poisoned.
pub open spec fn invalid_marker() -> Seq<char> {
    "Invalid input"@
}

/// The reserved marker text itself, for callers that must compare against it.
pub fn invalid_input() -> (r: &'static str)
    ensures
        r@ == invalid_marker(),
{
    "Invalid input"
}

/// Exact, case-sensitive string equality.
pub fn str_eq(a: &str, b: &str) -> (r: bool)
    ensures
        r == (a@ == b@),
{
    let sa = a.to_owned();
    let sb = b.to_owned();
    sa == sb
}

/// Case folding for the letters that can occur in a yes/no answer; every
/// other character is left alone.
pub open spec fn spec_fold_char(c: char) -> char {
    match c {
        'Y' => 'y',
        'E' => 'e',
        'S' => 's',
        'N' => 'n',
        'O' => 'o',
        _ => c,
    }
}

/// Character-wise case folding of a whole answer.
pub open spec fn spec_fold(s: Seq<char>) -> Seq<char> {
    s.map_values(|c: char| spec_fold_char(c))
}

/// What a yes/no prompt makes of one answer line: `Some(true)` for an
/// affirmative, `Some(false)` for a negative, `None` when the prompt must be
/// repeated.
pub open spec fn spec_decision(s: Seq<char>) -> Option<bool> {
    if spec_fold(s) == "y"@ || spec_fold(s) == "yes"@ {
        Some(true)
    } else if spec_fold(s) == "n"@ || spec_fold(s) == "no"@ {
        Some(false)
    } else {
        None
    }
}

fn fold_char(c: char) -> (r: char)
    ensures
        r == spec_fold_char(c),
{
    match c {
        'Y' => 'y',
        'E' => 'e',
        'S' => 's',
        'N' => 'n',
        'O' => 'o',
        _ => c,
    }
}

/// Whether `a`, case-folded, equals `lit` exactly.
fn eq_folded(a: &str, lit: &str) -> (r: bool)
    ensures
        r == (spec_fold(a@) == lit@),
{
    let alen = a.unicode_len();
    let llen = lit.unicode_len();
    if alen != llen {
        proof {
            assert(spec_fold(a@).len() == a@.len());
        }
        return false;
    }
    let mut i: usize = 0;
    while i < alen
        invariant
            i <= alen,
            alen == a@.len(),
            alen == lit@.len(),
            forall|j: int| 0 <= j < i ==> spec_fold_char(a@[j]) == lit@[j],
        decreases alen - i,
    {
        let ca = a.get_char(i);
        let cl = lit.get_char(i);
        if fold_char(ca) != cl {
            proof {
                assert(spec_fold(a@)[i as int] != lit@[i as int]);
            }
            return false;
        }
        i += 1;
    }
    proof {
        assert(spec_fold(a@) =~= lit@);
    }
    true
}

/// Parses one answer line of a yes/no prompt: `y`/`yes` in any letter case
/// means yes, `n`/`no` means no, and anything else asks the prompt to repeat.
pub fn parse_decision(answer: &str) -> (r: Option<bool>)
    ensures
        r == spec_decision(answer@),
{
    if eq_folded(answer, "y") || eq_folded(answer, "yes") {
        Some(true)
    } else if eq_folded(answer, "n") || eq_folded(answer, "no") {
        Some(false)
    } else {
        None
    }
}

} // verus!
