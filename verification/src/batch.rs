//! Running an operation over the selected GPUs.
//!
//! In table mode every GPU is handled and each failure is shown in its row;
//! the run then fails, with an error that has already been reported, when
//! any GPU failed. In text mode the run stops at the first GPU that fails
//! and passes that GPU's error on. The work on each GPU is done by the
//! caller: [`DeviceBatch`] says which GPU comes next and takes its outcome.

use vstd::prelude::*;
use crate::error::{AppError, AppErrorView};

verus! {

/// `reset` and overclock runs show a table unless tables are turned off,
/// even for a single GPU.
pub fn batch_uses_table(no_table: bool) -> (b: bool)
    ensures
        b == !no_table,
{
    !no_table
}

/// The state of a run over several GPUs.
pub struct BatchState {
    pub count: nat,
    pub table: bool,
    pub next: nat,
    pub failed: bool,
    pub error: Option<AppErrorView>,
}

/// The GPU a batch handles next: the next index in order, unless all have
/// been handled or, in text mode, one has failed.
pub open spec fn next_device_spec(s: BatchState) -> Option<nat> {
    if s.next >= s.count || (!s.table && s.failed) {
        None
    } else {
        Some(s.next)
    }
}

/// The content of an outcome.
pub open spec fn batch_outcome_view(outcome: Result<(), AppError>) -> Result<(), AppErrorView> {
    match outcome {
        Ok(()) => Ok(()),
        Err(e) => Err(e@),
    }
}

/// The state after the current GPU had `outcome`: the next GPU is due, a
/// failure is noted, and in text mode the failure's error is kept.
pub open spec fn batch_step(s: BatchState, outcome: Result<(), AppErrorView>) -> BatchState {
    match outcome {
        Ok(()) => BatchState { next: s.next + 1, ..s },
        Err(e) => BatchState {
            next: s.next + 1,
            failed: true,
            error: if s.table {
                s.error
            } else {
                Some(e)
            },
            ..s
        },
    }
}

/// The state of a run over `count` GPUs after the GPUs handled so far had
/// the outcomes `o`, in order.
pub open spec fn batch_after(count: nat, table: bool, o: Seq<Result<(), AppErrorView>>) -> BatchState
    decreases o.len(),
{
    if o.len() == 0 {
        BatchState { count, table, next: 0, failed: false, error: None }
    } else {
        batch_step(batch_after(count, table, o.drop_last()), o.last())
    }
}

/// After the outcomes `o`, a batch has handled `o.len()` GPUs and has
/// failed exactly when one of them failed; in table mode it keeps no error.
pub proof fn lemma_batch_after(count: nat, table: bool, o: Seq<Result<(), AppErrorView>>)
    ensures
        batch_after(count, table, o).count == count,
        batch_after(count, table, o).table == table,
        batch_after(count, table, o).next == o.len(),
        batch_after(count, table, o).failed <==> exists|j: int| 0 <= j < o.len() && o[j] is Err,
        table ==> batch_after(count, table, o).error is None,
    decreases o.len(),
{
    if o.len() > 0 {
        let init = o.drop_last();
        lemma_batch_after(count, table, init);
        if exists|j: int| 0 <= j < init.len() && init[j] is Err {
            let j = choose|j: int| 0 <= j < init.len() && init[j] is Err;
            assert(o[j] is Err);
        }
        if exists|j: int| 0 <= j < o.len() && o[j] is Err {
            let j = choose|j: int| 0 <= j < o.len() && o[j] is Err;
            if j < o.len() - 1 {
                assert(init[j] is Err);
            }
        }
    }
}

/// In table mode every GPU is handled, in order, whatever failed before,
/// and the run ends having failed exactly when some GPU failed.
pub proof fn lemma_table_handles_every_gpu(count: nat, o: Seq<Result<(), AppErrorView>>)
    requires
        o.len() == count,
    ensures
        forall|i: int|
            0 <= i < count ==> #[trigger] next_device_spec(batch_after(count, true, o.take(i)))
                == Some(i as nat),
        next_device_spec(batch_after(count, true, o)) is None,
        batch_after(count, true, o).failed <==> exists|j: int| 0 <= j < o.len() && o[j] is Err,
{
    assert forall|i: int| 0 <= i < count implies #[trigger] next_device_spec(
        batch_after(count, true, o.take(i)),
    ) == Some(i as nat) by {
        lemma_batch_after(count, true, o.take(i));
    }
    lemma_batch_after(count, true, o);
}

/// In text mode the run stops at the first GPU that fails: no GPU is
/// handled after it, and its error is the one the run ends with.
pub proof fn lemma_text_stops_at_first_failure(count: nat, o: Seq<Result<(), AppErrorView>>)
    requires
        1 <= o.len() <= count,
        forall|j: int| 0 <= j < o.len() - 1 ==> o[j] is Ok,
        o.last() is Err,
    ensures
        next_device_spec(batch_after(count, false, o)) is None,
        batch_after(count, false, o).error == Some(o.last()->Err_0),
{
    lemma_batch_after(count, false, o);
    assert(o[o.len() - 1] is Err);
}

/// In text mode a run in which no GPU fails handles every GPU and ends
/// without an error.
pub proof fn lemma_text_all_succeed(count: nat, o: Seq<Result<(), AppErrorView>>)
    requires
        o.len() == count,
        forall|j: int| 0 <= j < o.len() ==> o[j] is Ok,
    ensures
        forall|i: int|
            0 <= i < count ==> #[trigger] next_device_spec(batch_after(count, false, o.take(i)))
                == Some(i as nat),
        next_device_spec(batch_after(count, false, o)) is None,
        batch_after(count, false, o).error is None,
{
    assert forall|i: int| 0 <= i < count implies #[trigger] next_device_spec(
        batch_after(count, false, o.take(i)),
    ) == Some(i as nat) by {
        lemma_batch_after(count, false, o.take(i));
    }
    lemma_batch_after(count, false, o);
    lemma_text_error_none(count, o);
}

/// In text mode, a run without failures keeps no error.
proof fn lemma_text_error_none(count: nat, o: Seq<Result<(), AppErrorView>>)
    requires
        forall|j: int| 0 <= j < o.len() ==> o[j] is Ok,
    ensures
        batch_after(count, false, o).error is None,
    decreases o.len(),
{
    if o.len() > 0 {
        lemma_text_error_none(count, o.drop_last());
        assert(o[o.len() - 1] is Ok);
    }
}

/// A run over `count` GPUs in progress.
pub struct DeviceBatch {
    count: usize,
    table: bool,
    next: usize,
    failed: bool,
    error: Option<AppError>,
}

impl View for DeviceBatch {
    type V = BatchState;

    closed spec fn view(&self) -> BatchState {
        BatchState {
            count: self.count as nat,
            table: self.table,
            next: self.next as nat,
            failed: self.failed,
            error: match self.error {
                Some(e) => Some(e@),
                None => None,
            },
        }
    }
}

impl DeviceBatch {
    /// Starts a run over `count` GPUs, in table or text mode.
    pub fn new(count: usize, table: bool) -> (b: Self)
        ensures
            b@ == (BatchState { count: count as nat, table, next: 0, failed: false, error: None }),
    {
        DeviceBatch { count, table, next: 0, failed: false, error: None }
    }

    /// The position of the GPU to handle next; `None` when the run is over.
    pub fn next_device(&self) -> (i: Option<usize>)
        ensures
            match next_device_spec(self@) {
                Some(n) => i == Some(n as usize),
                None => i is None,
            },
    {
        if self.next >= self.count || (!self.table && self.failed) {
            None
        } else {
            Some(self.next)
        }
    }

    /// Whether each GPU gets a heading line: in text mode, when there are
    /// several.
    pub fn shows_headings(&self) -> (b: bool)
        ensures
            b == (!self@.table && self@.count > 1),
    {
        !self.table && self.count > 1
    }

    /// Takes the outcome of the GPU [`next_device`](Self::next_device) gave.
    pub fn device_done(&mut self, outcome: Result<(), AppError>)
        requires
            next_device_spec(old(self)@) is Some,
        ensures
            final(self)@ == batch_step(old(self)@, batch_outcome_view(outcome)),
    {
        self.next = self.next + 1;
        if let Err(e) = outcome {
            self.failed = true;
            if !self.table {
                self.error = Some(e);
            }
        }
    }

    /// The result of the run. In table mode: success unless a GPU failed,
    /// else an already-reported error of `domain`. In text mode: success, or
    /// the error of the GPU that failed.
    pub fn finish(self, domain: &'static str) -> (r: Result<(), AppError>)
        ensures
            self@.table ==> if self@.failed {
                r matches Err(e) && e@.domain == domain@ && e@.source is None && e@.message is None
                    && e@.printed
            } else {
                r is Ok
            },
            !self@.table ==> match self@.error {
                Some(err) => r matches Err(e) && e@ == err,
                None => r is Ok,
            },
    {
        if self.table {
            if self.failed {
                Err(AppError::printed(domain))
            } else {
                Ok(())
            }
        } else {
            match self.error {
                Some(e) => Err(e),
                None => Ok(()),
            }
        }
    }
}

} // verus!
