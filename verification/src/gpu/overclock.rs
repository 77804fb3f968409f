//! Applying overclock settings to a GPU.
//!
//! The settings are applied in a fixed order (locked clocks, graphics
//! offset, memory offset, power limit) and the run stops at the first
//! failure. A dry run makes no driver call for the first three settings; the
//! power limit is always handed to the power-limit routine, which honours
//! the dry-run flag itself. The driver calls are made by the caller:
//! [`OverclockRun`] says which call comes next and takes its outcome.

use vstd::prelude::*;
use crate::cli::OverclockParams;
use crate::error::AppError;
use crate::text::{decimal, push_decimal, signed_decimal, signed_text};

verus! {

/// What was applied (or, in a dry run, would be): the text shown for each
/// setting that was given.
#[derive(Debug, Clone)]
pub struct OverclockSummary {
    pub clocks: Option<String>,
    pub graphics_offset: Option<String>,
    pub memory_offset: Option<String>,
    pub power: Option<String>,
}

/// The content of an [`OverclockSummary`].
pub struct SummaryView {
    pub clocks: Option<Seq<char>>,
    pub graphics_offset: Option<Seq<char>>,
    pub memory_offset: Option<Seq<char>>,
    pub power: Option<Seq<char>>,
}

/// The text of an optional string.
pub open spec fn text_opt(s: Option<String>) -> Option<Seq<char>> {
    match s {
        Some(s) => Some(s@),
        None => None,
    }
}

impl View for OverclockSummary {
    type V = SummaryView;

    open spec fn view(&self) -> SummaryView {
        SummaryView {
            clocks: text_opt(self.clocks),
            graphics_offset: text_opt(self.graphics_offset),
            memory_offset: text_opt(self.memory_offset),
            power: text_opt(self.power),
        }
    }
}

/// A driver call that an overclock run asks for.
#[derive(Debug, Clone, Copy, PartialEq, Eq, Structural)]
pub enum OverclockAction {
    /// Lock the graphics clocks to `min..=max` MHz.
    SetLockedClocks { min: u32, max: u32 },
    /// Set the graphics clock offset of performance state P0 (MHz).
    SetGraphicsOffset(i32),
    /// Set the memory clock offset (MHz).
    SetMemoryOffset(i32),
    /// Apply a power limit given as a percentage of the default limit.
    ApplyPowerLimit { percentage: u32, dry_run: bool },
}

/// The stage after the last one. Stages: 0 locked clocks, 1 graphics
/// offset, 2 memory offset, 3 power limit.
pub open spec fn oc_done_stage() -> nat {
    4
}

/// Whether the settings include the one of stage `k`.
pub open spec fn stage_given(p: OverclockParams, k: nat) -> bool {
    if k == 0 {
        p.clocks is Some
    } else if k == 1 {
        p.graphics_offset is Some
    } else if k == 2 {
        p.memory_offset is Some
    } else if k == 3 {
        p.power_limit is Some
    } else {
        false
    }
}

/// Whether stage `k` needs a call by the caller: the power limit whenever it
/// is given, the other settings when given and not a dry run.
pub open spec fn stage_needs_call(p: OverclockParams, k: nat) -> bool {
    stage_given(p, k) && (k == 3 || !p.dry_run)
}

/// The lower locked-clock bound of the settings (0 when none is given).
pub open spec fn clock_min(p: OverclockParams) -> u32 {
    match p.clocks {
        Some((min, _)) => min,
        None => 0,
    }
}

/// The upper locked-clock bound of the settings (0 when none is given).
pub open spec fn clock_max(p: OverclockParams) -> u32 {
    match p.clocks {
        Some((_, max)) => max,
        None => 0,
    }
}

/// The text shown for the setting of stage `k` (0, 1 or 2): "MIN-MAX" for
/// clocks, the offset with an explicit sign.
pub open spec fn stage_label(p: OverclockParams, k: nat) -> Seq<char> {
    if k == 0 {
        decimal(clock_min(p) as nat) + "-"@ + decimal(clock_max(p) as nat)
    } else if k == 1 {
        signed_decimal(p.graphics_offset->0 as int)
    } else {
        signed_decimal(p.memory_offset->0 as int)
    }
}

/// A dry run shows the same text for each setting as a real run.
pub proof fn lemma_labels_ignore_dry_run(p: OverclockParams, k: nat)
    ensures
        stage_label(p, k) == stage_label(OverclockParams { dry_run: !p.dry_run, ..p }, k),
{
}

/// The name under which a failure of stage `k` (0, 1 or 2) is reported.
pub open spec fn stage_domain(k: nat) -> Seq<char> {
    if k == 0 {
        "clocks"@
    } else if k == 1 {
        "gpu offset"@
    } else {
        "mem offset"@
    }
}

/// The driver call of stage `k`.
pub open spec fn stage_action(p: OverclockParams, k: nat) -> OverclockAction {
    if k == 0 {
        OverclockAction::SetLockedClocks { min: clock_min(p), max: clock_max(p) }
    } else if k == 1 {
        OverclockAction::SetGraphicsOffset(p.graphics_offset->0)
    } else if k == 2 {
        OverclockAction::SetMemoryOffset(p.memory_offset->0)
    } else {
        OverclockAction::ApplyPowerLimit { percentage: p.power_limit->0, dry_run: p.dry_run }
    }
}

/// Each call carries exactly the value given for its setting: the locked
/// clocks, the graphics and memory offsets as given (negative ones
/// included), and the power-limit percentage with the run's dry-run flag.
pub proof fn lemma_actions_carry_given_values(p: OverclockParams)
    ensures
        p.clocks matches Some((min, max)) ==> stage_action(p, 0) == (OverclockAction::SetLockedClocks {
            min,
            max,
        }),
        p.graphics_offset matches Some(v) ==> stage_action(p, 1) == OverclockAction::SetGraphicsOffset(
            v,
        ),
        p.memory_offset matches Some(v) ==> stage_action(p, 2) == OverclockAction::SetMemoryOffset(v),
        p.power_limit matches Some(pct) ==> stage_action(p, 3) == (OverclockAction::ApplyPowerLimit {
            percentage: pct,
            dry_run: p.dry_run,
        }),
{
}

/// The first stage from `k` on that needs a call, or the done stage.
pub open spec fn next_call_stage(p: OverclockParams, k: nat) -> nat
    decreases oc_done_stage() - k,
{
    if k >= oc_done_stage() {
        oc_done_stage()
    } else if stage_needs_call(p, k) {
        k
    } else {
        next_call_stage(p, k + 1)
    }
}

/// The next stage that needs a call is never before `k`.
pub proof fn lemma_next_call_ge(p: OverclockParams, k: nat)
    requires
        k <= oc_done_stage(),
    ensures
        k <= next_call_stage(p, k) <= oc_done_stage(),
    decreases oc_done_stage() - k,
{
    if k < oc_done_stage() && !stage_needs_call(p, k) {
        lemma_next_call_ge(p, k + 1);
    }
}

/// No stage between `k` and the next stage that needs a call needs one: the
/// run skips exactly the settings that were not given, and in a dry run the
/// settings other than the power limit.
pub proof fn lemma_next_call_is_first(p: OverclockParams, k: nat, j: nat)
    requires
        k <= j < next_call_stage(p, k),
    ensures
        !stage_needs_call(p, j),
    decreases oc_done_stage() - k,
{
    if k < oc_done_stage() && !stage_needs_call(p, k) && k < j {
        lemma_next_call_is_first(p, k + 1, j);
    }
}

/// The stage a run stops at for a call is one whose setting was given and
/// needs a call.
pub proof fn lemma_next_call_needs_call(p: OverclockParams, k: nat)
    requires
        k <= oc_done_stage(),
        next_call_stage(p, k) < oc_done_stage(),
    ensures
        stage_needs_call(p, next_call_stage(p, k)),
    decreases oc_done_stage() - k,
{
    if k < oc_done_stage() && !stage_needs_call(p, k) {
        lemma_next_call_needs_call(p, k + 1);
    }
}

/// `s` with the text of stage `k` (0, 1 or 2) recorded.
pub open spec fn with_label(s: SummaryView, k: nat, label: Seq<char>) -> SummaryView {
    if k == 0 {
        SummaryView { clocks: Some(label), ..s }
    } else if k == 1 {
        SummaryView { graphics_offset: Some(label), ..s }
    } else if k == 2 {
        SummaryView { memory_offset: Some(label), ..s }
    } else {
        SummaryView { power: Some(label), ..s }
    }
}

/// `s` with the texts of the given settings of stages `from..to` recorded
/// (the stages a dry run settles without a call).
pub open spec fn settle(p: OverclockParams, s: SummaryView, from: nat, to: nat) -> SummaryView
    decreases to - from,
{
    if from >= to {
        s
    } else if stage_given(p, from) {
        settle(p, with_label(s, from, stage_label(p, from)), from + 1, to)
    } else {
        settle(p, s, from + 1, to)
    }
}

/// The entry of stage `k` in a summary.
pub open spec fn summary_field(s: SummaryView, k: nat) -> Option<Seq<char>> {
    if k == 0 {
        s.clocks
    } else if k == 1 {
        s.graphics_offset
    } else if k == 2 {
        s.memory_offset
    } else {
        s.power
    }
}

/// Settling the stages `from..to` records the text of each given setting
/// among them, and of no other.
pub proof fn lemma_settle_records_given(p: OverclockParams, s: SummaryView, from: nat, to: nat)
    requires
        from <= to <= oc_done_stage(),
        to == oc_done_stage() ==> !stage_given(p, 3),
    ensures
        forall|k: nat|
            k < oc_done_stage() ==> #[trigger] summary_field(settle(p, s, from, to), k) == if from <= k
                < to && stage_given(p, k) {
                Some(stage_label(p, k))
            } else {
                summary_field(s, k)
            },
    decreases to - from,
{
    if from < to {
        if stage_given(p, from) {
            lemma_settle_records_given(p, with_label(s, from, stage_label(p, from)), from + 1, to);
        } else {
            lemma_settle_records_given(p, s, from + 1, to);
        }
    }
}

/// In a dry run the only call a run asks for is the power-limit routine,
/// and it is told that the run is a dry run.
pub proof fn lemma_dry_run_asks_only_power(p: OverclockParams, k: nat)
    requires
        p.dry_run,
        k <= oc_done_stage(),
        next_call_stage(p, k) < oc_done_stage(),
    ensures
        next_call_stage(p, k) == 3,
        stage_action(p, next_call_stage(p, k)) == (OverclockAction::ApplyPowerLimit {
            percentage: p.power_limit->0,
            dry_run: true,
        }),
    decreases oc_done_stage() - k,
{
    if k < oc_done_stage() && !stage_needs_call(p, k) {
        lemma_dry_run_asks_only_power(p, k + 1);
    }
}

/// The state of an overclock run.
pub struct OverclockState {
    pub params: OverclockParams,
    pub stage: nat,
    pub summary: SummaryView,
    pub error: Option<crate::error::AppErrorView>,
    pub awaiting: bool,
}

/// An overclock run of one GPU in progress.
pub struct OverclockRun {
    params: OverclockParams,
    stage: u8,
    summary: OverclockSummary,
    error: Option<AppError>,
    awaiting: bool,
}

/// The content of an optional error.
pub open spec fn error_view(e: Option<AppError>) -> Option<crate::error::AppErrorView> {
    match e {
        Some(e) => Some(e@),
        None => None,
    }
}

impl View for OverclockRun {
    type V = OverclockState;

    closed spec fn view(&self) -> OverclockState {
        OverclockState {
            params: self.params,
            stage: self.stage as nat,
            summary: self.summary@,
            error: error_view(self.error),
            awaiting: self.awaiting,
        }
    }
}

/// A summary with nothing recorded.
pub open spec fn empty_summary() -> SummaryView {
    SummaryView { clocks: None, graphics_offset: None, memory_offset: None, power: None }
}

/// The text shown for a pair of locked clocks: "MIN-MAX".
pub fn clocks_label(min: u32, max: u32) -> (s: String)
    ensures
        s@ == decimal(min as nat) + "-"@ + decimal(max as nat),
{
    let mut s = String::new();
    push_decimal(&mut s, min);
    s.append("-");
    push_decimal(&mut s, max);
    s
}

impl OverclockRun {
    /// Starts a run that applies `params`.
    pub fn new(params: &OverclockParams) -> (r: Self)
        ensures
            r@.params == *params,
            r@.stage == 0,
            r@.summary == empty_summary(),
            r@.error is None,
            !r@.awaiting,
    {
        OverclockRun {
            params: *params,
            stage: 0,
            summary: OverclockSummary {
                clocks: None,
                graphics_offset: None,
                memory_offset: None,
                power: None,
            },
            error: None,
            awaiting: false,
        }
    }

    /// Whether the run is over: every stage has run, or one failed.
    pub fn is_done(&self) -> (b: bool)
        ensures
            b == (self@.error is Some || (self@.stage >= oc_done_stage() && !self@.awaiting)),
    {
        self.error.is_some() || (self.stage >= 4 && !self.awaiting)
    }

    /// Whether a call has been asked for and its outcome not yet given.
    pub fn is_awaiting(&self) -> (b: bool)
        ensures
            b == self@.awaiting,
    {
        self.awaiting
    }

    /// Records the text of the setting of the current stage (0, 1 or 2).
    fn record_label(&mut self)
        requires
            old(self)@.stage < 3,
            stage_given(old(self)@.params, old(self)@.stage),
        ensures
            final(self)@ == (OverclockState {
                summary: with_label(
                    old(self)@.summary,
                    old(self)@.stage,
                    stage_label(old(self)@.params, old(self)@.stage),
                ),
                ..old(self)@
            }),
    {
        if self.stage == 0 {
            if let Some((min, max)) = self.params.clocks {
                self.summary.clocks = Some(clocks_label(min, max));
            }
        } else if self.stage == 1 {
            if let Some(offset) = self.params.graphics_offset {
                self.summary.graphics_offset = Some(signed_text(offset));
            }
        } else {
            if let Some(offset) = self.params.memory_offset {
                self.summary.memory_offset = Some(signed_text(offset));
            }
        }
    }

    /// Moves to the next stage that needs a call and returns that call,
    /// recording on the way the settings a dry run settles without one.
    /// Returns `None` when the run is over.
    pub fn next_action(&mut self) -> (a: Option<OverclockAction>)
        requires
            !old(self)@.awaiting,
        ensures
            old(self)@.error is Some ==> a is None && final(self)@ == old(self)@,
            old(self)@.error is None ==> ({
                let k = next_call_stage(old(self)@.params, old(self)@.stage);
                &&& final(self)@.params == old(self)@.params
                &&& final(self)@.error is None
                &&& final(self)@.summary == settle(old(self)@.params, old(self)@.summary, old(self)@.stage, k)
                &&& final(self)@.stage == k
                &&& if k < oc_done_stage() {
                    a == Some(stage_action(old(self)@.params, k)) && final(self)@.awaiting
                } else {
                    a is None && !final(self)@.awaiting
                }
            }),
            a matches Some(OverclockAction::SetLockedClocks { min, max }) ==> old(self)@.params.clocks
                == Some((min, max)) && !old(self)@.params.dry_run,
            a matches Some(OverclockAction::SetGraphicsOffset(v)) ==> old(
                self,
            )@.params.graphics_offset == Some(v) && !old(self)@.params.dry_run,
            a matches Some(OverclockAction::SetMemoryOffset(v)) ==> old(self)@.params.memory_offset
                == Some(v) && !old(self)@.params.dry_run,
            a matches Some(OverclockAction::ApplyPowerLimit { percentage, dry_run }) ==> old(
                self,
            )@.params.power_limit == Some(percentage) && dry_run == old(self)@.params.dry_run,
    {
        if self.error.is_some() {
            return None;
        }
        let ghost p = self.params;
        let ghost start = self.stage as nat;
        let ghost s0 = self@.summary;
        if self.stage > 4 {
            self.stage = 4;
        }
        while self.stage < 4
            invariant
                self.params == p,
                p == old(self)@.params,
                start == old(self)@.stage,
                s0 == old(self)@.summary,
                old(self)@.error is None,
                self.error is None,
                !self.awaiting,
                start <= self.stage <= 4 || (start > 4 && self.stage == 4),
                next_call_stage(p, start) == next_call_stage(p, self.stage as nat),
                settle(p, s0, start, next_call_stage(p, start)) == settle(
                    p,
                    self@.summary,
                    self.stage as nat,
                    next_call_stage(p, start),
                ),
            decreases 4 - self.stage,
        {
            let k = self.stage;
            let given = match k {
                0 => self.params.clocks.is_some(),
                1 => self.params.graphics_offset.is_some(),
                2 => self.params.memory_offset.is_some(),
                _ => self.params.power_limit.is_some(),
            };
            if given && (k == 3 || !self.params.dry_run) {
                self.awaiting = true;
                let action = match k {
                    0 => {
                        let (min, max) = self.params.clocks.unwrap();
                        OverclockAction::SetLockedClocks { min, max }
                    },
                    1 => OverclockAction::SetGraphicsOffset(self.params.graphics_offset.unwrap()),
                    2 => OverclockAction::SetMemoryOffset(self.params.memory_offset.unwrap()),
                    _ => OverclockAction::ApplyPowerLimit {
                        percentage: self.params.power_limit.unwrap(),
                        dry_run: self.params.dry_run,
                    },
                };
                return Some(action);
            }
            proof {
                lemma_next_call_ge(p, (k + 1) as nat);
            }
            if given {
                self.record_label();
            }
            self.stage = self.stage + 1;
        }
        None
    }

    /// Takes the outcome of a locked-clock or clock-offset call; a failure
    /// carries the driver's message and ends the run with an error named
    /// after the setting.
    pub fn hardware_done(&mut self, outcome: Result<(), String>)
        requires
            old(self)@.awaiting,
            old(self)@.stage < 3,
            old(self)@.error is None,
            stage_given(old(self)@.params, old(self)@.stage),
        ensures
            final(self)@.params == old(self)@.params,
            !final(self)@.awaiting,
            match outcome {
                Ok(()) => {
                    &&& final(self)@.error is None
                    &&& final(self)@.stage == old(self)@.stage + 1
                    &&& final(self)@.summary == with_label(
                        old(self)@.summary,
                        old(self)@.stage,
                        stage_label(old(self)@.params, old(self)@.stage),
                    )
                },
                Err(m) => {
                    &&& final(self)@.error matches Some(e)
                    &&& e.domain == stage_domain(old(self)@.stage)
                    &&& e.source == Some(m@)
                    &&& e.message is None
                    &&& !e.printed
                    &&& final(self)@.stage == old(self)@.stage
                    &&& final(self)@.summary == old(self)@.summary
                },
            },
    {
        self.awaiting = false;
        match outcome {
            Ok(()) => {
                self.record_label();
                self.stage = self.stage + 1;
            },
            Err(m) => {
                let domain: &'static str = if self.stage == 0 {
                    "clocks"
                } else if self.stage == 1 {
                    "gpu offset"
                } else {
                    "mem offset"
                };
                self.error = Some(AppError::new(domain, m));
            },
        }
    }

    /// Takes the outcome of the power-limit routine: the text it reports for
    /// the applied limit, or the error it ended with.
    pub fn power_done(&mut self, outcome: Result<String, AppError>)
        requires
            old(self)@.awaiting,
            old(self)@.stage == 3,
            old(self)@.error is None,
        ensures
            final(self)@.params == old(self)@.params,
            !final(self)@.awaiting,
            match outcome {
                Ok(label) => {
                    &&& final(self)@.error is None
                    &&& final(self)@.stage == oc_done_stage()
                    &&& final(self)@.summary == with_label(old(self)@.summary, 3, label@)
                },
                Err(e) => {
                    &&& final(self)@.error == Some(e@)
                    &&& final(self)@.stage == old(self)@.stage
                    &&& final(self)@.summary == old(self)@.summary
                },
            },
    {
        self.awaiting = false;
        match outcome {
            Ok(label) => {
                self.summary.power = Some(label);
                self.stage = 4;
            },
            Err(e) => {
                self.error = Some(e);
            },
        }
    }

    /// The result of the run: the summary, or the error it stopped at.
    pub fn finish(self) -> (r: Result<OverclockSummary, AppError>)
        requires
            !self@.awaiting,
            self@.error is Some || self@.stage >= oc_done_stage(),
        ensures
            match self@.error {
                Some(e) => r matches Err(x) && x@ == e,
                None => r matches Ok(s) && s@ == self@.summary,
            },
    {
        match self.error {
            Some(e) => Err(e),
            None => Ok(self.summary),
        }
    }
}

} // verus!
