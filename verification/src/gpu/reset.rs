//! Resetting a GPU to its default settings.
//!
//! A reset goes through every step and collects the failures instead of
//! stopping at the first one. The driver calls themselves are made by the
//! caller: [`ResetRun`] says which call comes next and takes its outcome.

use vstd::prelude::*;
use crate::error::AppError;

verus! {

/// Locked-clock range (MHz) that Blackwell GPUs must be set to before their
/// locked clocks can be reset.
pub const BLACKWELL_IDLE_MIN: u32 = 180;

/// Upper end of the idle locked-clock range (MHz).
pub const BLACKWELL_IDLE_MAX: u32 = 600;

/// Default graphics clock offset (MHz).
pub const DEFAULT_GRAPHICS_OFFSET: i32 = 0;

/// Default memory clock offset (MHz).
pub const DEFAULT_MEMORY_OFFSET: i32 = 0;

/// A driver call that a reset asks for.
#[derive(Debug, Clone, Copy, PartialEq, Eq, Structural)]
pub enum ResetAction {
    /// Lock the graphics clocks to `min..=max` MHz.
    LockIdleClocks { min: u32, max: u32 },
    /// Release locked graphics clocks.
    ResetGpuLockedClocks,
    /// Release locked memory clocks.
    ResetMemoryLockedClocks,
    /// Set the graphics clock offset of performance state P0 (MHz).
    SetGraphicsOffset(i32),
    /// Set the memory clock offset (MHz).
    SetMemoryOffset(i32),
    /// Restore the default power limit.
    ResetPowerLimit,
}

/// The stage after the last one.
pub open spec fn reset_done_stage() -> nat {
    6
}

/// The driver call of each stage of a reset.
pub open spec fn reset_action_spec(stage: nat) -> Option<ResetAction> {
    if stage == 0 {
        Some(ResetAction::LockIdleClocks { min: BLACKWELL_IDLE_MIN, max: BLACKWELL_IDLE_MAX })
    } else if stage == 1 {
        Some(ResetAction::ResetGpuLockedClocks)
    } else if stage == 2 {
        Some(ResetAction::ResetMemoryLockedClocks)
    } else if stage == 3 {
        Some(ResetAction::SetGraphicsOffset(DEFAULT_GRAPHICS_OFFSET))
    } else if stage == 4 {
        Some(ResetAction::SetMemoryOffset(DEFAULT_MEMORY_OFFSET))
    } else if stage == 5 {
        Some(ResetAction::ResetPowerLimit)
    } else {
        None
    }
}

/// The name under which a failure of each stage is reported.
pub open spec fn reset_domain(stage: nat) -> Seq<char> {
    if stage == 1 {
        "gpu clocks"@
    } else if stage == 2 {
        "mem clocks"@
    } else if stage == 3 {
        "gpu offset"@
    } else if stage == 4 {
        "mem offset"@
    } else {
        "power limit"@
    }
}

/// The failure recorded when the idle clocks cannot be set.
pub open spec fn idle_failure() -> Seq<char> {
    "gpu clocks: failed to set idle clocks for reset"@
}

/// The state of a reset: the next stage and the failures so far.
pub struct ResetState {
    pub stage: nat,
    pub errors: Seq<Seq<char>>,
}

/// `errors` after the outcome of a call of `domain`: a failure adds
/// "DOMAIN: MESSAGE".
pub open spec fn record_outcome(
    errors: Seq<Seq<char>>,
    domain: Seq<char>,
    outcome: Result<(), Seq<char>>,
) -> Seq<Seq<char>> {
    match outcome {
        Ok(()) => errors,
        Err(m) => errors.push(domain + ": "@ + m),
    }
}

/// The state after the call of the current stage had `outcome`. When the
/// idle clocks cannot be set, the release of locked graphics clocks is
/// skipped; every other stage runs whatever failed before.
pub open spec fn reset_step(s: ResetState, outcome: Result<(), Seq<char>>) -> ResetState {
    if s.stage == 0 {
        match outcome {
            Ok(()) => ResetState { stage: 1, errors: s.errors },
            Err(_) => ResetState { stage: 2, errors: s.errors.push(idle_failure()) },
        }
    } else if s.stage < reset_done_stage() {
        ResetState {
            stage: s.stage + 1,
            errors: record_outcome(s.errors, reset_domain(s.stage), outcome),
        }
    } else {
        s
    }
}

/// The strings of `list` joined by `sep`.
pub open spec fn join_spec(list: Seq<Seq<char>>, sep: Seq<char>) -> Seq<char>
    decreases list.len(),
{
    if list.len() == 0 {
        Seq::empty()
    } else if list.len() == 1 {
        list[0]
    } else {
        join_spec(list.drop_last(), sep) + sep + list.last()
    }
}

/// The text of an outcome reported by the driver.
pub open spec fn outcome_view(outcome: Result<(), String>) -> Result<(), Seq<char>> {
    match outcome {
        Ok(()) => Ok(()),
        Err(m) => Err(m@),
    }
}

/// Adds a failure of `domain` to `errors`, as "DOMAIN: MESSAGE", when the
/// call failed; leaves `errors` alone when it succeeded.
pub fn try_reset(domain: &str, outcome: Result<(), String>, errors: &mut Vec<String>)
    ensures
        final(errors)@.map_values(|e: String| e@) == record_outcome(
            old(errors)@.map_values(|e: String| e@),
            domain@,
            outcome_view(outcome),
        ),
{
    if let Err(e) = outcome {
        let mut line = domain.to_owned();
        line.append(": ");
        line.append(e.as_str());
        errors.push(line);
    }
    assert(errors@.map_values(|e: String| e@) =~= record_outcome(
        old(errors)@.map_values(|e: String| e@),
        domain@,
        outcome_view(outcome),
    ));
}

/// The strings of `list` joined by `sep`.
pub fn join(list: &Vec<String>, sep: &str) -> (s: String)
    ensures
        s@ == join_spec(list@.map_values(|e: String| e@), sep@),
{
    let ghost lv = list@.map_values(|e: String| e@);
    let mut s = String::new();
    let mut i: usize = 0;
    while i < list.len()
        invariant
            i <= list@.len(),
            lv == list@.map_values(|e: String| e@),
            s@ == join_spec(lv.take(i as int), sep@),
        decreases list@.len() - i,
    {
        if i != 0 {
            s.append(sep);
        }
        s.append(list[i].as_str());
        assert(lv.take(i + 1).drop_last() =~= lv.take(i as int));
        i = i + 1;
    }
    assert(lv.take(list@.len() as int) =~= lv);
    s
}

/// The state of a reset (not a dry run) after the calls had the outcomes
/// `o`, in order.
pub open spec fn reset_after(o: Seq<Result<(), Seq<char>>>) -> ResetState
    decreases o.len(),
{
    if o.len() == 0 {
        ResetState { stage: 0, errors: Seq::empty() }
    } else {
        reset_step(reset_after(o.drop_last()), o.last())
    }
}

/// The number of failed calls among `o`.
pub open spec fn failures(o: Seq<Result<(), Seq<char>>>) -> nat
    decreases o.len(),
{
    if o.len() == 0 {
        0
    } else {
        failures(o.drop_last()) + if o.last() is Err {
            1nat
        } else {
            0nat
        }
    }
}

/// The number of calls a reset makes: five when the idle clocks cannot be
/// set (the release of locked graphics clocks is then skipped), six
/// otherwise.
pub open spec fn reset_call_count(first: Result<(), Seq<char>>) -> nat {
    if first is Err {
        5
    } else {
        6
    }
}

/// After the first `i` outcomes (at least one), a reset is at stage `i`, or
/// one further when the idle clocks could not be set, and holds one failure
/// per failed call.
pub proof fn lemma_reset_prefix(o: Seq<Result<(), Seq<char>>>, i: nat)
    requires
        1 <= i <= o.len(),
        i <= reset_call_count(o[0]),
    ensures
        reset_after(o.take(i as int)).stage == i + if o[0] is Err {
            1nat
        } else {
            0nat
        },
        reset_after(o.take(i as int)).errors.len() == failures(o.take(i as int)),
    decreases i,
{
    let t = o.take(i as int);
    if i == 1 {
        assert(failures(t.drop_last()) == 0);
        assert(reset_after(t.drop_last()) == ResetState { stage: 0, errors: Seq::<Seq<char>>::empty() });
    } else {
        lemma_reset_prefix(o, (i - 1) as nat);
        assert(t.drop_last() =~= o.take(i - 1));
    }
}

/// A reset makes every one of its calls whatever failed before: after its
/// five or six calls it is done, and it has recorded exactly one failure
/// per failed call (so it succeeds exactly when no call failed).
pub proof fn lemma_reset_attempts_every_step(o: Seq<Result<(), Seq<char>>>)
    requires
        o.len() >= 1,
        o.len() == reset_call_count(o[0]),
    ensures
        forall|i: int| 0 <= i < o.len() ==> #[trigger] reset_after(o.take(i)).stage < reset_done_stage(),
        reset_after(o).stage == reset_done_stage(),
        reset_after(o).errors.len() == failures(o),
{
    assert forall|i: int| 0 <= i < o.len() implies #[trigger] reset_after(o.take(i)).stage < reset_done_stage() by {
        if i == 0 {
        } else {
            lemma_reset_prefix(o, i as nat);
        }
    }
    lemma_reset_prefix(o, o.len());
    assert(o.take(o.len() as int) =~= o);
}

/// A reset of one GPU in progress.
pub struct ResetRun {
    stage: u8,
    errors: Vec<String>,
}

impl View for ResetRun {
    type V = ResetState;

    closed spec fn view(&self) -> ResetState {
        ResetState { stage: self.stage as nat, errors: self.errors@.map_values(|e: String| e@) }
    }
}

impl ResetRun {
    /// Starts a reset; a dry run has nothing to do.
    pub fn new(dry_run: bool) -> (r: Self)
        ensures
            r@.stage == if dry_run {
                reset_done_stage()
            } else {
                0
            },
            r@.errors == Seq::<Seq<char>>::empty(),
    {
        let r = ResetRun { stage: if dry_run { 6 } else { 0 }, errors: Vec::new() };
        r
    }

    /// Whether every stage has run.
    pub fn is_done(&self) -> (b: bool)
        ensures
            b == (self@.stage >= reset_done_stage()),
    {
        self.stage >= 6
    }

    /// The driver call the reset needs next; `None` once it is done.
    pub fn next_action(&self) -> (a: Option<ResetAction>)
        ensures
            a == reset_action_spec(self@.stage),
    {
        match self.stage {
            0 => Some(ResetAction::LockIdleClocks { min: BLACKWELL_IDLE_MIN, max: BLACKWELL_IDLE_MAX }),
            1 => Some(ResetAction::ResetGpuLockedClocks),
            2 => Some(ResetAction::ResetMemoryLockedClocks),
            3 => Some(ResetAction::SetGraphicsOffset(DEFAULT_GRAPHICS_OFFSET)),
            4 => Some(ResetAction::SetMemoryOffset(DEFAULT_MEMORY_OFFSET)),
            5 => Some(ResetAction::ResetPowerLimit),
            _ => None,
        }
    }

    /// Takes the outcome of the call [`next_action`](Self::next_action)
    /// asked for; a failure carries the driver's message.
    pub fn record(&mut self, outcome: Result<(), String>)
        requires
            old(self)@.stage < reset_done_stage(),
        ensures
            final(self)@ == reset_step(old(self)@, outcome_view(outcome)),
    {
        if self.stage == 0 {
            match outcome {
                Ok(()) => {
                    self.stage = 1;
                },
                Err(_) => {
                    let mut line = String::new();
                    line.append("gpu clocks: failed to set idle clocks for reset");
                    self.errors.push(line);
                    self.stage = 2;
                },
            }
        } else {
            let domain: &str = if self.stage == 1 {
                "gpu clocks"
            } else if self.stage == 2 {
                "mem clocks"
            } else if self.stage == 3 {
                "gpu offset"
            } else if self.stage == 4 {
                "mem offset"
            } else {
                "power limit"
            };
            try_reset(domain, outcome, &mut self.errors);
            self.stage = self.stage + 1;
        }
        assert(self@.errors =~= reset_step(old(self)@, outcome_view(outcome)).errors);
    }

    /// The result of the reset: success when nothing failed, else an error
    /// of "reset" listing the failures, in order, joined by "; ".
    pub fn finish(self) -> (r: Result<(), AppError>)
        requires
            self@.stage >= reset_done_stage(),
        ensures
            self@.errors.len() == 0 ==> r is Ok,
            self@.errors.len() > 0 ==> (r matches Err(e) && e@.domain == "reset"@ && e@.source is None
                && e@.message == Some(join_spec(self@.errors, "; "@)) && !e@.printed),
    {
        if self.errors.len() == 0 {
            Ok(())
        } else {
            Err(AppError::msg("reset", join(&self.errors, "; ")))
        }
    }
}

} // verus!
