//! The reconciler: whether a cycle pushes the candidate address or leaves
//! the record alone.

use vstd::prelude::*;
use crate::external::ExternalIp;
use crate::persistent::{changed, Persistance, PersistanceView};

verus! {

/// What a cycle does with the candidate address.
#[derive(Clone, Copy, Debug, PartialEq, Eq)]
pub enum Decision {
    /// Nothing: the record already holds the address.
    Skip,
    /// Push the address to the provider.
    Apply,
}

/// The decision for a last known address, a candidate and the force flag:
/// apply exactly where the candidate differs or force is set.
pub open spec fn decision(
    last_known: Option<Seq<char>>,
    candidate: Seq<char>,
    force: bool,
) -> Decision {
    if changed(last_known, candidate) || force {
        Decision::Apply
    } else {
        Decision::Skip
    }
}

/// Decides what the cycle does with `candidate`, given the stored state.
pub fn decide(state: &Persistance, candidate: &ExternalIp, force: bool) -> (r: Decision)
    ensures
        r == decision(state@.ip, candidate@.address, force),
{
    if state.ip_changed(candidate.address.as_str()) || force {
        Decision::Apply
    } else {
        Decision::Skip
    }
}

/// The store once a cycle that decided `made` for `candidate` has run to
/// its end without failure: the candidate is committed where it was applied,
/// and nothing has changed where it was skipped.
pub open spec fn settled(
    store: PersistanceView,
    candidate: Seq<char>,
    made: Decision,
) -> PersistanceView {
    match made {
        Decision::Apply => store.concluded(candidate, true),
        Decision::Skip => store,
    }
}

/// Idempotence: once a cycle has run to its end for a candidate, a second
/// one for the same candidate, not forced, skips, whatever the store held
/// before the first.
pub proof fn second_cycle_skips(store: PersistanceView, candidate: Seq<char>)
    ensures
        decision(
            settled(store, candidate, decision(store.ip, candidate, false)).ip,
            candidate,
            false,
        ) == Decision::Skip,
{
}

/// Crash safety of the store: a commit that failed leaves the decision as it
/// was. A candidate that was to be applied before the failed commit is to be
/// applied after it, so the next cycle tries again.
pub proof fn failed_commit_keeps_decision(store: PersistanceView, candidate: Seq<char>, force: bool)
    ensures
        decision(store.concluded(candidate, false).ip, candidate, force) == decision(
            store.ip,
            candidate,
            force,
        ),
        changed(store.ip, candidate) ==> changed(store.concluded(candidate, false).ip, candidate),
{
}

/// First run: with no last known address every candidate is applied.
pub proof fn first_run_applies(candidate: Seq<char>, force: bool)
    ensures
        decision(None, candidate, force) == Decision::Apply,
{
}

/// Force override: a forced cycle applies, even where the candidate is the
/// last known address.
pub proof fn force_applies(last_known: Option<Seq<char>>, candidate: Seq<char>)
    ensures
        decision(last_known, candidate, true) == Decision::Apply,
        decision(Some(candidate), candidate, true) == Decision::Apply,
{
}

/// No-op stability: a candidate that is the last known address is skipped
/// unless forced.
pub proof fn unchanged_skips(candidate: Seq<char>)
    ensures
        decision(Some(candidate), candidate, false) == Decision::Skip,
{
}

} // verus!
