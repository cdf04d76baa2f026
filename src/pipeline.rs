//! The per-height state machine of a range backfill, and the run's tallies.
use crate::records::{
    height_normalized, normalize_height, NormalizedHeight, RawBlock, RawReceipt, RawTransaction,
};
use crate::rpc::FetchError;
use vstd::prelude::*;

verus! {

/// Where the work on one height stands.
#[derive(Clone, Copy, Debug, PartialEq, Eq, Structural)]
pub enum Phase {
    Fetching,
    Normalizing,
    Writing,
    Done,
    /// The block could not be fetched: the height is skipped.
    Errored,
}

/// What became of one of a height's two fetches.
#[derive(Clone, Copy, Debug, PartialEq, Eq, Structural)]
pub enum Arrival {
    Pending,
    Succeeded,
    Failed,
}

/// The state of one height: its phase and its two fetches.
#[derive(Clone, Copy, Debug, PartialEq, Eq, Structural)]
pub struct HeightTask {
    pub height: u64,
    pub phase: Phase,
    pub block: Arrival,
    pub receipts: Arrival,
}

pub open spec fn arrival(ok: bool) -> Arrival {
    if ok {
        Arrival::Succeeded
    } else {
        Arrival::Failed
    }
}

/// Once both fetches have completed, a fetching height moves on: to
/// normalizing where the block came, to the error state where it did not.
pub open spec fn settle(t: HeightTask) -> HeightTask {
    if t.phase == Phase::Fetching && t.block != Arrival::Pending && t.receipts != Arrival::Pending {
        HeightTask {
            phase: if t.block == Arrival::Succeeded {
                Phase::Normalizing
            } else {
                Phase::Errored
            },
            ..t
        }
    } else {
        t
    }
}

/// The state after the block fetch completes.
pub open spec fn after_block(t: HeightTask, ok: bool) -> HeightTask {
    if t.phase == Phase::Fetching && t.block == Arrival::Pending {
        settle(HeightTask { block: arrival(ok), ..t })
    } else {
        t
    }
}

/// The state after the receipts fetch completes.
pub open spec fn after_receipts(t: HeightTask, ok: bool) -> HeightTask {
    if t.phase == Phase::Fetching && t.receipts == Arrival::Pending {
        settle(HeightTask { receipts: arrival(ok), ..t })
    } else {
        t
    }
}

impl HeightTask {
    /// The phase agrees with the fetches: a height leaves `Fetching` only
    /// once both have completed, and is written only where the block came.
    pub open spec fn wf(&self) -> bool {
        match self.phase {
            Phase::Fetching => self.block == Arrival::Pending || self.receipts == Arrival::Pending,
            Phase::Errored => self.block == Arrival::Failed && self.receipts != Arrival::Pending,
            _ => self.block == Arrival::Succeeded && self.receipts != Arrival::Pending,
        }
    }

    /// A height whose two fetches have just been issued.
    pub fn new(height: u64) -> (t: HeightTask)
        ensures
            t == (HeightTask {
                height,
                phase: Phase::Fetching,
                block: Arrival::Pending,
                receipts: Arrival::Pending,
            }),
            t.wf(),
    {
        HeightTask {
            height,
            phase: Phase::Fetching,
            block: Arrival::Pending,
            receipts: Arrival::Pending,
        }
    }

    fn settle_now(&mut self)
        requires
            old(self).phase == Phase::Fetching,
        ensures
            *final(self) == settle(*old(self)),
    {
        if self.block != Arrival::Pending && self.receipts != Arrival::Pending {
            self.phase = if self.block == Arrival::Succeeded {
                Phase::Normalizing
            } else {
                Phase::Errored
            };
        }
    }

    /// Records the completion of the block fetch.
    pub fn block_fetched(&mut self, ok: bool)
        requires
            old(self).wf(),
        ensures
            *final(self) == after_block(*old(self), ok),
            final(self).wf(),
    {
        if self.phase == Phase::Fetching && self.block == Arrival::Pending {
            self.block = if ok {
                Arrival::Succeeded
            } else {
                Arrival::Failed
            };
            self.settle_now();
        }
    }

    /// Records the completion of the receipts fetch.
    pub fn receipts_fetched(&mut self, ok: bool)
        requires
            old(self).wf(),
        ensures
            *final(self) == after_receipts(*old(self), ok),
            final(self).wf(),
    {
        if self.phase == Phase::Fetching && self.receipts == Arrival::Pending {
            self.receipts = if ok {
                Arrival::Succeeded
            } else {
                Arrival::Failed
            };
            self.settle_now();
        }
    }

    /// Records that the height's records are normalized: they go to writing.
    pub fn normalized(&mut self)
        requires
            old(self).wf(),
        ensures
            *final(self) == (if old(self).phase == Phase::Normalizing {
                HeightTask { phase: Phase::Writing, ..*old(self) }
            } else {
                *old(self)
            }),
            final(self).wf(),
    {
        if self.phase == Phase::Normalizing {
            self.phase = Phase::Writing;
        }
    }

    /// Records that the height's records are written: it is done.
    pub fn written(&mut self)
        requires
            old(self).wf(),
        ensures
            *final(self) == (if old(self).phase == Phase::Writing {
                HeightTask { phase: Phase::Done, ..*old(self) }
            } else {
                *old(self)
            }),
            final(self).wf(),
    {
        if self.phase == Phase::Writing {
            self.phase = Phase::Done;
        }
    }
}

/// A well-formed height is written only after both of its fetches have
/// completed, and its block fetch has succeeded.
pub proof fn law_writing_after_both_fetches(t: HeightTask)
    requires
        t.wf(),
        t.phase == Phase::Writing,
    ensures
        t.block == Arrival::Succeeded,
        t.receipts != Arrival::Pending,
{
}

/// The two fetches of a height may complete in either order: the state after
/// both is the same, and it is normalizing exactly when the block came.
pub proof fn law_fetch_order_irrelevant(height: u64, block_ok: bool, receipts_ok: bool)
    ensures
        ({
            let t = HeightTask {
                height,
                phase: Phase::Fetching,
                block: Arrival::Pending,
                receipts: Arrival::Pending,
            };
            let a = after_receipts(after_block(t, block_ok), receipts_ok);
            let b = after_block(after_receipts(t, receipts_ok), block_ok);
            &&& a == b
            &&& a.phase == (if block_ok {
                Phase::Normalizing
            } else {
                Phase::Errored
            })
        }),
{
}

/// A single completed fetch never moves a height out of `Fetching`.
pub proof fn law_one_fetch_is_not_enough(height: u64, ok: bool)
    ensures
        ({
            let t = HeightTask {
                height,
                phase: Phase::Fetching,
                block: Arrival::Pending,
                receipts: Arrival::Pending,
            };
            &&& after_block(t, ok).phase == Phase::Fetching
            &&& after_receipts(t, ok).phase == Phase::Fetching
        }),
{
}

/// The receipts that a height's records are built from: those fetched, or
/// none where their fetch failed.
pub open spec fn receipts_or_none(
    receipts: Result<Vec<RawReceipt>, FetchError>,
) -> Seq<RawReceipt> {
    match receipts {
        Ok(rs) => rs@,
        Err(_) => Seq::empty(),
    }
}

/// Takes a height through its fetches and normalization, once both fetches
/// have completed. Where the block fetch failed the height ends in `Errored`
/// with nothing to write. Otherwise its records are normalized (without
/// receipts where their fetch failed) and the height waits in `Writing`.
pub fn process_height(
    height: u64,
    block: Result<(RawBlock, Vec<RawTransaction>), FetchError>,
    receipts: Result<Vec<RawReceipt>, FetchError>,
) -> (r: (HeightTask, Option<NormalizedHeight>))
    ensures
        r.0.wf(),
        r.0.height == height,
        r.0.block == arrival(block is Ok),
        r.0.receipts == arrival(receipts is Ok),
        block is Err ==> r.0.phase == Phase::Errored && r.1 is None,
        block matches Ok(p) ==> r.0.phase == Phase::Writing && (r.1 matches Some(h)
            && height_normalized(p.0, p.1@, receipts_or_none(receipts), h)),
{
    let mut task = HeightTask::new(height);
    task.block_fetched(block.is_ok());
    task.receipts_fetched(receipts.is_ok());
    match block {
        Ok((raw_block, txs)) => {
            let rs = match receipts {
                Ok(rs) => rs,
                Err(_) => Vec::new(),
            };
            let h = normalize_height(raw_block, txs, rs);
            task.normalized();
            (task, Some(h))
        },
        Err(_) => (task, None),
    }
}

/// Totals of a run.
#[derive(Clone, Copy, Debug, PartialEq, Eq, Structural)]
pub struct RunStats {
    /// Heights whose records were written.
    pub blocks: u64,
    /// Transactions written, saturating at `u64::MAX`.
    pub transactions: u64,
    /// Receipts written, saturating at `u64::MAX`.
    pub receipts: u64,
    /// Heights skipped because their block could not be fetched.
    pub skipped: u64,
}

/// `a + b`, or `u64::MAX` where the sum does not fit.
pub open spec fn saturating_sum(a: u64, b: int) -> u64 {
    if a + b <= u64::MAX {
        (a + b) as u64
    } else {
        u64::MAX
    }
}

/// A backfill of the heights `start .. start + count`, taken in order.
#[derive(Clone, Copy, Debug)]
pub struct Run {
    pub start: u64,
    pub count: u64,
    /// How many heights are finished.
    pub finished: u64,
    pub stats: RunStats,
}

impl Run {
    /// Every finished height was either written or skipped.
    pub open spec fn wf(&self) -> bool {
        &&& self.start + self.count <= u64::MAX
        &&& self.finished <= self.count
        &&& self.stats.blocks + self.stats.skipped == self.finished
    }

    /// The height that the run works on next, if any is left.
    pub open spec fn next_spec(&self) -> Option<u64> {
        if self.finished < self.count {
            Some((self.start + self.finished) as u64)
        } else {
            None
        }
    }

    /// A run over `count` heights from `start`, nothing done yet.
    pub fn new(start: u64, count: u64) -> (r: Run)
        requires
            start + count <= u64::MAX,
        ensures
            r.wf(),
            r.start == start,
            r.count == count,
            r.finished == 0,
            r.stats == (RunStats { blocks: 0, transactions: 0, receipts: 0, skipped: 0 }),
    {
        Run {
            start,
            count,
            finished: 0,
            stats: RunStats { blocks: 0, transactions: 0, receipts: 0, skipped: 0 },
        }
    }

    /// The height to work on next, or `None` once the range is done.
    pub fn next_height(&self) -> (r: Option<u64>)
        requires
            self.wf(),
        ensures
            r == self.next_spec(),
    {
        if self.finished < self.count {
            Some(self.start + self.finished)
        } else {
            None
        }
    }

    /// Finishes the current height: a done height counts as written with its
    /// records, an errored one as skipped; either way the run moves on.
    pub fn finish_height(&mut self, task: &HeightTask, transactions: usize, receipts: usize)
        requires
            old(self).wf(),
            old(self).next_spec() == Some(task.height),
            task.phase == Phase::Done || task.phase == Phase::Errored,
        ensures
            final(self).wf(),
            final(self).start == old(self).start,
            final(self).count == old(self).count,
            final(self).finished == old(self).finished + 1,
            task.phase == Phase::Done ==> final(self).stats == (RunStats {
                blocks: (old(self).stats.blocks + 1) as u64,
                transactions: saturating_sum(old(self).stats.transactions, transactions as int),
                receipts: saturating_sum(old(self).stats.receipts, receipts as int),
                ..old(self).stats
            }),
            task.phase == Phase::Errored ==> final(self).stats == (RunStats {
                skipped: (old(self).stats.skipped + 1) as u64,
                ..old(self).stats
            }),
    {
        if task.phase == Phase::Done {
            self.stats.blocks = self.stats.blocks + 1;
            self.stats.transactions = self.stats.transactions.saturating_add(transactions as u64);
            self.stats.receipts = self.stats.receipts.saturating_add(receipts as u64);
        } else {
            self.stats.skipped = self.stats.skipped + 1;
        }
        self.finished = self.finished + 1;
    }
}

/// Once a run has no height left, every height of its range was attempted and
/// counted once: as written or as skipped.
pub proof fn law_run_accounts_every_height(run: Run)
    requires
        run.wf(),
        run.next_spec() is None,
    ensures
        run.stats.blocks + run.stats.skipped == run.count,
{
}

} // verus!
