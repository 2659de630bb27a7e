//! The aggregate result of one round's refresh phase: how many containers
//! were found and how each of them came out.  The summary is only reported;
//! nothing of it is persisted.

use vstd::prelude::*;
use crate::session::RefreshOutcome;

verus! {

/// The category of a per-container outcome, with the payloads stripped.
#[derive(Clone, Copy, Debug, PartialEq, Eq, Structural)]
pub enum OutcomeKind {
    Skipped,
    CheckSkipped,
    UpToDate,
    NewerAvailable,
    Updated,
    Failed,
}

/// The category an outcome falls under.
pub open spec fn outcome_kind(o: RefreshOutcome) -> OutcomeKind {
    match o {
        RefreshOutcome::Skipped { .. } => OutcomeKind::Skipped,
        RefreshOutcome::CheckSkipped => OutcomeKind::CheckSkipped,
        RefreshOutcome::UpToDate => OutcomeKind::UpToDate,
        RefreshOutcome::NewerAvailable => OutcomeKind::NewerAvailable,
        RefreshOutcome::Updated => OutcomeKind::Updated,
        RefreshOutcome::Failed { .. } => OutcomeKind::Failed,
    }
}

/// How many outcomes of the sequence fall under the given category.
pub open spec fn count_kind(s: Seq<RefreshOutcome>, k: OutcomeKind) -> nat
    decreases s.len(),
{
    if s.len() == 0 {
        0
    } else {
        count_kind(s.drop_last(), k) + (if outcome_kind(s.last()) == k {
            1nat
        } else {
            0nat
        })
    }
}

/// Every outcome falls under exactly one category, so the six counts
/// together cover the whole sequence.
pub proof fn lemma_outcomes_partition(s: Seq<RefreshOutcome>)
    ensures
        count_kind(s, OutcomeKind::Skipped) + count_kind(s, OutcomeKind::CheckSkipped)
            + count_kind(s, OutcomeKind::UpToDate) + count_kind(s, OutcomeKind::NewerAvailable)
            + count_kind(s, OutcomeKind::Updated) + count_kind(s, OutcomeKind::Failed) == s.len(),
    decreases s.len(),
{
    if s.len() > 0 {
        lemma_outcomes_partition(s.drop_last());
    }
}

/// The round summary: the number of containers found, and one counter per
/// outcome category.
#[derive(Clone, Copy, Debug)]
pub struct RoundSummary {
    pub found: usize,
    pub skipped: usize,
    pub check_skipped: usize,
    pub up_to_date: usize,
    pub newer_available: usize,
    pub updated: usize,
    pub failed: usize,
}

/// Count the per-container outcomes of one round.  The counters partition
/// the containers found: every container falls under exactly one of them.
pub fn summarize(outcomes: &Vec<RefreshOutcome>) -> (r: RoundSummary)
    ensures
        r.found == outcomes@.len(),
        r.skipped == count_kind(outcomes@, OutcomeKind::Skipped),
        r.check_skipped == count_kind(outcomes@, OutcomeKind::CheckSkipped),
        r.up_to_date == count_kind(outcomes@, OutcomeKind::UpToDate),
        r.newer_available == count_kind(outcomes@, OutcomeKind::NewerAvailable),
        r.updated == count_kind(outcomes@, OutcomeKind::Updated),
        r.failed == count_kind(outcomes@, OutcomeKind::Failed),
        r.skipped + r.check_skipped + r.up_to_date + r.newer_available + r.updated + r.failed
            == r.found,
{
    let mut skipped: usize = 0;
    let mut check_skipped: usize = 0;
    let mut up_to_date: usize = 0;
    let mut newer_available: usize = 0;
    let mut updated: usize = 0;
    let mut failed: usize = 0;
    let mut i: usize = 0;
    while i < outcomes.len()
        invariant
            0 <= i <= outcomes@.len(),
            skipped == count_kind(outcomes@.take(i as int), OutcomeKind::Skipped),
            check_skipped == count_kind(outcomes@.take(i as int), OutcomeKind::CheckSkipped),
            up_to_date == count_kind(outcomes@.take(i as int), OutcomeKind::UpToDate),
            newer_available == count_kind(outcomes@.take(i as int), OutcomeKind::NewerAvailable),
            updated == count_kind(outcomes@.take(i as int), OutcomeKind::Updated),
            failed == count_kind(outcomes@.take(i as int), OutcomeKind::Failed),
            skipped + check_skipped + up_to_date + newer_available + updated + failed == i,
        decreases outcomes@.len() - i,
    {
        proof {
            lemma_outcomes_partition(outcomes@.take(i as int));
            assert(outcomes@.take(i + 1).drop_last() =~= outcomes@.take(i as int));
            assert(outcomes@.take(i + 1).last() == outcomes@[i as int]);
        }
        match &outcomes[i] {
            RefreshOutcome::Skipped { .. } => {
                skipped = skipped + 1;
            },
            RefreshOutcome::CheckSkipped => {
                check_skipped = check_skipped + 1;
            },
            RefreshOutcome::UpToDate => {
                up_to_date = up_to_date + 1;
            },
            RefreshOutcome::NewerAvailable => {
                newer_available = newer_available + 1;
            },
            RefreshOutcome::Updated => {
                updated = updated + 1;
            },
            RefreshOutcome::Failed { .. } => {
                failed = failed + 1;
            },
        }
        i = i + 1;
    }
    proof {
        assert(outcomes@.take(outcomes@.len() as int) =~= outcomes@);
    }
    RoundSummary {
        found: outcomes.len(),
        skipped,
        check_skipped,
        up_to_date,
        newer_available,
        updated,
        failed,
    }
}

} // verus!
