//! Weather observations: every variable is optional, so an observation is judged
//! by the variables it has. The caller reports, per variable, whether it is present
//! and, when present, whether its value falls in the plausible range; these
//! functions combine those per-variable facts.

use vstd::prelude::*;

verus! {

/// The number of `true` entries of `s`.
pub open spec fn count_true(s: Seq<bool>) -> nat
    decreases s.len(),
{
    if s.len() == 0 {
        0
    } else {
        count_true(s.drop_last()) + if s.last() {
            1nat
        } else {
            0nat
        }
    }
}

/// An observation is plausible when no present variable is out of range: each entry
/// of `checks` is `None` for an absent variable, or whether the variable's value is
/// in its plausible range.
pub open spec fn all_present_in_range_spec(checks: Seq<Option<bool>>) -> bool {
    forall|i: int| 0 <= i < checks.len() ==> checks[i] != Some(false)
}

/// Count how many variables are present.
pub fn count_present(present: &[bool]) -> (n: usize)
    ensures
        n == count_true(present@),
        n <= present@.len(),
{
    let mut n: usize = 0;
    let mut i: usize = 0;
    while i < present.len()
        invariant
            i <= present@.len(),
            n == count_true(present@.subrange(0, i as int)),
            n <= i,
        decreases present@.len() - i,
    {
        assert(present@.subrange(0, i + 1).drop_last() =~= present@.subrange(0, i as int));
        if present[i] {
            n = n + 1;
        }
        i = i + 1;
    }
    assert(present@.subrange(0, present@.len() as int) =~= present@);
    n
}

/// Returns `true` if every present variable falls in its plausible range; absent
/// variables never make an observation implausible.
pub fn all_present_in_range(checks: &[Option<bool>]) -> (b: bool)
    ensures
        b == all_present_in_range_spec(checks@),
{
    let mut i: usize = 0;
    while i < checks.len()
        invariant
            i <= checks@.len(),
            forall|j: int| 0 <= j < i ==> checks@[j] != Some(false),
        decreases checks@.len() - i,
    {
        if let Some(ok) = checks[i] {
            if !ok {
                return false;
            }
        }
        i = i + 1;
    }
    true
}

/// The count of present variables is the number of entries kept when the
/// presence flags are filtered down to those that are set.
pub proof fn lemma_count_is_filtered_length(s: Seq<bool>)
    ensures
        count_true(s) == s.filter(|b: bool| b).len(),
    decreases s.len(),
{
    reveal(Seq::filter);
    if s.len() > 0 {
        lemma_count_is_filtered_length(s.drop_last());
    }
}

/// An observation with no variables present counts none, and an observation with
/// no variable out of range stays plausible whatever variables are absent.
pub proof fn lemma_absent_variables(n: nat)
    ensures
        count_true(Seq::new(n, |i: int| false)) == 0,
        all_present_in_range_spec(Seq::new(n, |i: int| None::<bool>)),
    decreases n,
{
    if n > 0 {
        lemma_absent_variables((n - 1) as nat);
        assert(Seq::new(n, |i: int| false).drop_last() =~= Seq::new((n - 1) as nat, |i: int| false));
    }
}

} // verus!
