//! Restart-time stages: corpus pruning and the restart itself.
use libafl_bolts::rands::{Rand, StdRand};
use vstd::prelude::*;

verus! {

#[verifier::external_type_specification]
#[verifier::external_body]
pub struct ExStdRand(StdRand);

/// Relies on `Rand::below`: a value below the (non-zero) bound.
#[verifier::external_body]
fn rand_below(rand: &mut StdRand, bound: usize) -> (r: usize)
    requires
        bound > 0,
    ensures
        r < bound,
{
    rand.below(core::num::NonZeroUsize::new(bound).unwrap())
}

/// Whether a corpus entry takes part in scheduling.
#[derive(Clone, Copy, Debug, PartialEq, Eq, Structural)]
pub enum EntryStatus {
    Active,
    Disabled,
}

/// Failure to move a corpus entry to the disabled set.
#[derive(Clone, Copy, Debug, PartialEq, Eq, Structural)]
pub enum CorpusError {
    /// The entry with this index is not active, so it cannot be removed.
    NotActive(usize),
}

/// The statuses after disabling the entries that `plan` marks.
pub open spec fn planned(plan: Seq<bool>, old: Seq<EntryStatus>) -> Seq<EntryStatus> {
    Seq::new(old.len(), |i: int| if plan[i] { EntryStatus::Disabled } else { old[i] })
}

/// Whether `plan` marks an entry that is not active.
pub open spec fn plan_blocked_at(plan: Seq<bool>, old: Seq<EntryStatus>, i: int) -> bool {
    plan[i] && old[i] != EntryStatus::Active
}

/// The stage that, at a restart, moves each corpus entry to the disabled set
/// unless a draw keeps it.
///
/// The retention chance is held in whole percent: for a chance `p`, an
/// entry is disabled when a draw `r` in `0..100` exceeds `p * 100`, which for
/// an integer `r` is the same as exceeding `floor(p * 100)`.
#[derive(Clone, Copy, Debug)]
pub struct CorpusPruning {
    retain_percent: usize,
}

/// The retention chance of a default pruning stage, in percent.
pub const DEFAULT_RETAIN_PERCENT: usize = 5;

/// The bound of the draws that decide each entry.
pub const DRAW_BOUND: usize = 100;

impl CorpusPruning {
    pub closed spec fn spec_retain_percent(&self) -> usize {
        self.retain_percent
    }

    /// Whether a draw of `draw` disables an entry.
    pub open spec fn spec_disables(&self, draw: usize) -> bool {
        self.spec_retain_percent() < draw
    }

    /// A stage with a retention chance of `retain_percent` percent.
    pub fn new(retain_percent: usize) -> (r: Self)
        requires
            retain_percent <= 100,
        ensures
            r.spec_retain_percent() == retain_percent,
    {
        CorpusPruning { retain_percent }
    }

    /// The retention chance, in percent.
    pub fn retain_percent(&self) -> (r: usize)
        ensures
            r == self.spec_retain_percent(),
    {
        self.retain_percent
    }

    /// Whether a draw of `draw` disables an entry.
    pub fn disables(&self, draw: usize) -> (r: bool)
        ensures
            r == self.spec_disables(draw),
    {
        self.retain_percent < draw
    }

    /// The plan for entries decided by `draws`: `true` disables.
    pub fn plan_from_draws(&self, draws: &Vec<usize>) -> (r: Vec<bool>)
        ensures
            r@.len() == draws@.len(),
            forall|i: int| 0 <= i < draws@.len() ==> r@[i] == self.spec_disables(#[trigger] draws@[i]),
    {
        let mut plan: Vec<bool> = Vec::new();
        let mut i: usize = 0;
        while i < draws.len()
            invariant
                i <= draws@.len(),
                plan@.len() == i,
                forall|j: int| 0 <= j < i ==> plan@[j] == self.spec_disables(#[trigger] draws@[j]),
            decreases draws@.len() - i,
        {
            plan.push(self.disables(draws[i]));
            i = i + 1;
        }
        plan
    }

    /// A plan for `n` entries, one draw below `DRAW_BOUND` each.
    pub fn draw_plan(&self, rand: &mut StdRand, n: usize) -> (r: Vec<bool>)
        ensures
            r@.len() == n,
            forall|i: int|
                0 <= i < n ==> (#[trigger] r@[i] ==> self.spec_retain_percent() + 1 < DRAW_BOUND),
    {
        let mut plan: Vec<bool> = Vec::new();
        let mut i: usize = 0;
        while i < n
            invariant
                i <= n,
                plan@.len() == i,
                forall|j: int|
                    0 <= j < i ==> (#[trigger] plan@[j] ==> self.spec_retain_percent() + 1
                        < DRAW_BOUND),
            decreases n - i,
        {
            let draw = rand_below(rand, DRAW_BOUND);
            plan.push(self.disables(draw));
            i = i + 1;
        }
        plan
    }

    /// Move the entries that `plan` marks from the active to the disabled
    /// set. Entries are never removed outright. A marked entry that is not
    /// active stops the work with an error, the entries before it done.
    pub fn apply_plan(plan: &Vec<bool>, corpus: &mut Vec<EntryStatus>) -> (r: Result<(), CorpusError>)
        requires
            plan@.len() == old(corpus)@.len(),
        ensures
            final(corpus)@.len() == old(corpus)@.len(),
            r is Ok <==> forall|i: int|
                0 <= i < plan@.len() ==> !plan_blocked_at(plan@, old(corpus)@, i),
            r is Ok ==> final(corpus)@ == planned(plan@, old(corpus)@),
            r matches Err(CorpusError::NotActive(k)) ==> {
                &&& k < plan@.len()
                &&& plan_blocked_at(plan@, old(corpus)@, k as int)
                &&& forall|j: int| 0 <= j < k ==> !plan_blocked_at(plan@, old(corpus)@, j)
                &&& forall|j: int|
                    0 <= j < plan@.len() ==> #[trigger] final(corpus)@[j] == if j < k {
                        planned(plan@, old(corpus)@)[j]
                    } else {
                        old(corpus)@[j]
                    }
            },
    {
        let ghost start = corpus@;
        let mut i: usize = 0;
        while i < plan.len()
            invariant
                i <= plan@.len(),
                start == old(corpus)@,
                plan@.len() == start.len(),
                corpus@.len() == start.len(),
                forall|j: int| 0 <= j < i ==> !plan_blocked_at(plan@, start, j),
                forall|j: int|
                    0 <= j < start.len() ==> #[trigger] corpus@[j] == if j < i {
                        planned(plan@, start)[j]
                    } else {
                        start[j]
                    },
            decreases plan@.len() - i,
        {
            if plan[i] {
                if corpus[i] != EntryStatus::Active {
                    assert(plan_blocked_at(plan@, start, i as int));
                    return Err(CorpusError::NotActive(i));
                }
                corpus.set(i, EntryStatus::Disabled);
            }
            i = i + 1;
        }
        assert(corpus@ =~= planned(plan@, start));
        Ok(())
    }

    /// Prune the corpus: draw for each entry, then disable those that the
    /// draws mark. Each entry stays where it was or moves from active to
    /// disabled; none is removed. With a retention chance of 99 percent or
    /// more, nothing moves.
    pub fn perform(&self, rand: &mut StdRand, corpus: &mut Vec<EntryStatus>) -> (r: Result<(), CorpusError>)
        ensures
            final(corpus)@.len() == old(corpus)@.len(),
            (forall|i: int| 0 <= i < old(corpus)@.len() ==> old(corpus)@[i] == EntryStatus::Active)
                ==> r is Ok,
            r is Ok ==> forall|i: int|
                0 <= i < old(corpus)@.len() ==> #[trigger] final(corpus)@[i] == old(corpus)@[i] || (
                old(corpus)@[i] == EntryStatus::Active && final(corpus)@[i] == EntryStatus::Disabled),
            self.spec_retain_percent() + 1 >= DRAW_BOUND ==> r is Ok && final(corpus)@ == old(
                corpus,
            )@,
    {
        let plan = self.draw_plan(rand, corpus.len());
        let r = Self::apply_plan(&plan, corpus);
        proof {
            if self.spec_retain_percent() + 1 >= DRAW_BOUND {
                assert(forall|i: int| 0 <= i < plan@.len() ==> !plan@[i]);
                assert(final(corpus)@ =~= old(corpus)@);
            }
        }
        r
    }

    /// The stage does not run the target, so a restart is always safe.
    pub fn should_restart(&self) -> (r: bool)
        ensures
            r,
    {
        true
    }

    /// The stage keeps no progress to clear.
    pub fn clear_progress(&self) {
    }
}

impl Default for CorpusPruning {
    fn default() -> (r: Self)
        ensures
            r.spec_retain_percent() == DEFAULT_RETAIN_PERCENT,
    {
        CorpusPruning { retain_percent: DEFAULT_RETAIN_PERCENT }
    }
}

/// The stage that restarts the fuzzer process, once the event manager has
/// made its transport safe to leave.
#[derive(Clone, Copy, Debug)]
pub struct RestartStage {}

impl RestartStage {
    /// A restart stage.
    pub fn new() -> (r: Self) {
        RestartStage {}
    }

    /// A restart is always safe for this stage.
    pub fn should_restart(&self) -> (r: bool)
        ensures
            r,
    {
        true
    }

    /// The stage keeps no progress to clear.
    pub fn clear_progress(&self) {
    }
}

} // verus!
