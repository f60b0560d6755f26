//! A batch of transfers: which entries of a catalog are fetched, and what became of each.
//!
//! Every entry is a unit of its own. Whether it is fetched depends on its own probe, what
//! becomes of it on its own transfer, and the report of the batch lists every entry that did
//! not complete: no failure ends the batch.

use crate::fetch::FetchError;
use vstd::prelude::*;

verus! {

/// The status that a server gives for a file that exists.
pub const STATUS_OK: u16 = 200;

/// The number of transfers that run at a time.
pub const WORKERS: usize = 10;

/// What asking the server for an entry gave, before anything is fetched.
#[derive(Clone, Copy, Debug, PartialEq, Eq)]
pub enum Probe {
    /// The server answered with this status.
    Status(u16),
    /// The server could not be asked.
    Unreachable,
}

/// What became of one entry of the catalog.
#[derive(Clone, Copy, Debug, PartialEq, Eq)]
pub enum EntryOutcome {
    /// The probe did not find the file: nothing was fetched.
    Skipped(Probe),
    /// The artifact is complete.
    Completed,
    /// The transfer was given up.
    Failed(FetchError),
}

/// What a batch came to.
#[derive(Debug, PartialEq, Eq)]
pub struct BatchReport {
    /// The entries that did not complete, by their place in the catalog, in order
    pub failed: Vec<usize>,
}

/// Whether the probe found the file: the server answered, with the status 200.
pub open spec fn probe_passes(probe: Probe) -> bool {
    probe == Probe::Status(STATUS_OK)
}

/// What becomes of an entry with this probe whose transfer, if it runs, ends with `fetched`.
pub open spec fn outcome_of(probe: Probe, fetched: Result<(), FetchError>) -> EntryOutcome {
    if !probe_passes(probe) {
        EntryOutcome::Skipped(probe)
    } else {
        match fetched {
            Ok(_) => EntryOutcome::Completed,
            Err(e) => EntryOutcome::Failed(e),
        }
    }
}

/// What becomes of each entry of a batch, entry by entry.
pub open spec fn batch_outcomes(
    probes: Seq<Probe>,
    fetched: Seq<Result<(), FetchError>>,
) -> Seq<EntryOutcome> {
    Seq::new(probes.len(), |i: int| outcome_of(probes[i], fetched[i]))
}

/// The entries that did not complete, in the order of the catalog.
pub open spec fn failed_entries(outcomes: Seq<EntryOutcome>) -> Seq<usize>
    decreases outcomes.len(),
{
    if outcomes.len() == 0 {
        Seq::empty()
    } else if outcomes.last() is Completed {
        failed_entries(outcomes.drop_last())
    } else {
        failed_entries(outcomes.drop_last()).push((outcomes.len() - 1) as usize)
    }
}

/// The list of failed entries holds exactly the places of the entries that did not complete,
/// each once and in rising order.
pub proof fn lemma_failed_entries(outcomes: Seq<EntryOutcome>)
    requires
        outcomes.len() <= usize::MAX,
    ensures
        forall|k: int|
            0 <= k < failed_entries(outcomes).len() ==> (#[trigger] failed_entries(outcomes)[k])
                < outcomes.len() && !(outcomes[failed_entries(outcomes)[k] as int] is Completed),
        forall|k: int, l: int|
            0 <= k < l < failed_entries(outcomes).len() ==> failed_entries(outcomes)[k]
                < failed_entries(outcomes)[l],
        forall|i: int|
            0 <= i < outcomes.len() && !(#[trigger] outcomes[i] is Completed) ==> failed_entries(
                outcomes,
            ).contains(i as usize),
    decreases outcomes.len(),
{
    if outcomes.len() > 0 {
        let init = outcomes.drop_last();
        let last = (outcomes.len() - 1) as usize;
        lemma_failed_entries(init);
        let failed = failed_entries(outcomes);
        let before = failed_entries(init);
        assert forall|i: int|
            0 <= i < outcomes.len() && !(#[trigger] outcomes[i] is Completed)
        implies failed.contains(i as usize) by {
            if i < init.len() {
                assert(!(init[i] is Completed));
                let k = choose|k: int| 0 <= k < before.len() && before[k] == i as usize;
                assert(failed[k] == i as usize);
            } else {
                assert(failed[failed.len() - 1] == last);
            }
        }
        assert forall|k: int| 0 <= k < failed.len() implies (#[trigger] failed[k]) < outcomes.len()
            && !(outcomes[failed[k] as int] is Completed) by {
            if k < before.len() {
                assert(before[k] < init.len());
                assert(init[before[k] as int] == outcomes[before[k] as int]);
            }
        }
        assert forall|k: int, l: int| 0 <= k < l < failed.len() implies failed[k] < failed[l] by {
            if l < before.len() {
                assert(before[k] < before[l]);
            } else {
                assert(before[k] < init.len());
            }
        }
    }
}

/// Where the probe of exactly one entry fails and the servers of the others do as they are
/// asked, every other entry completes, and the report lists the one entry alone.
pub proof fn lemma_failed_probe_is_isolated(
    probes: Seq<Probe>,
    fetched: Seq<Result<(), FetchError>>,
    unlucky: int,
)
    requires
        probes.len() == fetched.len(),
        probes.len() <= usize::MAX,
        0 <= unlucky < probes.len(),
        !probe_passes(probes[unlucky]),
        forall|i: int|
            0 <= i < probes.len() && i != unlucky ==> probe_passes(#[trigger] probes[i])
                && fetched[i] is Ok,
    ensures
        forall|i: int|
            0 <= i < probes.len() && i != unlucky ==> #[trigger] batch_outcomes(probes, fetched)[i]
                == EntryOutcome::Completed,
        batch_outcomes(probes, fetched)[unlucky] == EntryOutcome::Skipped(probes[unlucky]),
        failed_entries(batch_outcomes(probes, fetched)) == seq![unlucky as usize],
{
    let outcomes = batch_outcomes(probes, fetched);
    let failed = failed_entries(outcomes);
    lemma_failed_entries(outcomes);
    assert(!(outcomes[unlucky] is Completed));
    assert(failed.contains(unlucky as usize));
    assert forall|k: int| 0 <= k < failed.len() implies failed[k] == unlucky as usize by {
        let i = failed[k] as int;
        assert(!(outcomes[i] is Completed));
        if i != unlucky {
            assert(probe_passes(probes[i]));
        }
    }
    if failed.len() > 1 {
        assert(failed[0] < failed[1]);
    }
    assert(failed =~= seq![unlucky as usize]);
}

/// What becomes of an entry depends on its own probe and its own transfer alone: two batches
/// that agree on an entry agree on what becomes of it, whatever happens to the other entries.
pub proof fn lemma_entries_are_independent(
    probes: Seq<Probe>,
    fetched: Seq<Result<(), FetchError>>,
    other_probes: Seq<Probe>,
    other_fetched: Seq<Result<(), FetchError>>,
    entry: int,
)
    requires
        0 <= entry < probes.len(),
        0 <= entry < other_probes.len(),
        probes[entry] == other_probes[entry],
        fetched[entry] == other_fetched[entry],
    ensures
        batch_outcomes(probes, fetched)[entry] == batch_outcomes(
            other_probes,
            other_fetched,
        )[entry],
{
}

impl Probe {
    /// Whether the entry is to be fetched: the probe found the file.
    pub fn passes(&self) -> (launch: bool)
        ensures
            launch == probe_passes(*self),
    {
        match self {
            Probe::Status(status) => *status == STATUS_OK,
            Probe::Unreachable => false,
        }
    }
}

impl EntryOutcome {
    /// What becomes of an entry with this probe whose transfer, if it runs, ends with
    /// `fetched`.
    pub fn of(probe: Probe, fetched: Result<(), FetchError>) -> (outcome: EntryOutcome)
        ensures
            outcome == outcome_of(probe, fetched),
    {
        if !probe.passes() {
            EntryOutcome::Skipped(probe)
        } else {
            match fetched {
                Ok(_) => EntryOutcome::Completed,
                Err(e) => EntryOutcome::Failed(e),
            }
        }
    }

    /// Whether the artifact of the entry is complete.
    pub fn is_completed(&self) -> (completed: bool)
        ensures
            completed == (*self is Completed),
    {
        match self {
            EntryOutcome::Completed => true,
            _ => false,
        }
    }
}

impl BatchReport {
    /// Whether every entry completed.
    pub open spec fn all_succeeded(&self) -> bool {
        self.failed@.len() == 0
    }

    /// Whether every entry completed.
    pub fn is_success(&self) -> (success: bool)
        ensures
            success == self.all_succeeded(),
    {
        self.failed.len() == 0
    }
}

/// Gathers what became of the entries of a batch, given in the order of the catalog, into
/// the report: every entry that did not complete is listed, and a failure of one entry hides
/// none of the others.
pub fn summarize(outcomes: &Vec<EntryOutcome>) -> (report: BatchReport)
    ensures
        report.failed@ == failed_entries(outcomes@),
        report.all_succeeded() <==> forall|i: int|
            0 <= i < outcomes@.len() ==> #[trigger] outcomes@[i] is Completed,
{
    let mut failed: Vec<usize> = Vec::new();
    let mut i: usize = 0;
    assert(outcomes@.take(0) =~= Seq::<EntryOutcome>::empty());
    while i < outcomes.len()
        invariant
            i <= outcomes@.len(),
            failed@ == failed_entries(outcomes@.take(i as int)),
        decreases outcomes@.len() - i,
    {
        assert(outcomes@.take(i + 1).drop_last() =~= outcomes@.take(i as int));
        if !outcomes[i].is_completed() {
            failed.push(i);
        }
        i += 1;
    }
    proof {
        assert(outcomes@.take(i as int) =~= outcomes@);
        lemma_failed_entries(outcomes@);
        if failed@.len() > 0 {
            assert(!(outcomes@[failed@[0] as int] is Completed));
        }
    }
    BatchReport { failed }
}

} // verus!
