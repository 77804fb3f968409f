//! Power figures: the driver reports milliwatts, the tool shows watts, and a
//! power limit is requested as a percentage of the GPU's default limit.

use vstd::prelude::*;
use crate::gpu::info::PowerInfo;
use crate::error::AppError;
use crate::text::{decimal, push_decimal};

verus! {

/// Whole watts in a number of milliwatts (rounded down).
pub fn watts_from_milliwatts(mw: u32) -> (w: u32)
    ensures
        w == mw / 1000,
{
    mw / 1000
}

/// The power settings of a GPU from the driver's milliwatt figures.
pub fn power_info_from_milliwatts(limit_mw: u32, min_mw: u32, default_mw: u32, max_mw: u32) -> (p:
    PowerInfo)
    ensures
        p.limit_watts == limit_mw / 1000,
        p.min_watts == min_mw / 1000,
        p.default_watts == default_mw / 1000,
        p.max_watts == max_mw / 1000,
{
    PowerInfo {
        limit_watts: watts_from_milliwatts(limit_mw),
        min_watts: watts_from_milliwatts(min_mw),
        default_watts: watts_from_milliwatts(default_mw),
        max_watts: watts_from_milliwatts(max_mw),
    }
}

/// The limit, in milliwatts, that is `percentage` percent of the default
/// limit (rounded down); `None` when it does not fit in a `u32`.
pub fn power_target_milliwatts(default_mw: u32, percentage: u32) -> (r: Option<u32>)
    ensures
        default_mw * percentage / 100 <= u32::MAX ==> r == Some((default_mw * percentage / 100) as u32),
        default_mw * percentage / 100 > u32::MAX ==> r is None,
{
    assert((default_mw as u64) * (percentage as u64) <= u64::MAX) by (nonlinear_arith)
        requires
            default_mw <= u32::MAX,
            percentage <= u32::MAX,
    ;
    let product: u64 = (default_mw as u64) * (percentage as u64);
    let target: u64 = product / 100;
    if target > u32::MAX as u64 {
        None
    } else {
        Some(target as u32)
    }
}

/// The text shown for an applied power limit: "PERCENT%".
pub fn power_label(percentage: u32) -> (s: String)
    ensures
        s@ == decimal(percentage as nat) + "%"@,
{
    let mut s = String::new();
    push_decimal(&mut s, percentage);
    s.append("%");
    s
}

/// What applying a power limit comes to: the limit to set, in milliwatts
/// (none in a dry run), and the text shown for it.
#[derive(Debug)]
pub struct PowerStep {
    pub set_milliwatts: Option<u32>,
    pub label: String,
}

/// Decides how to apply a power limit of `percentage` percent of the
/// default limit `default_mw`: the target is set unless it is a dry run; a
/// target that does not fit in a `u32` is refused with an error of "power".
pub fn power_limit_step(default_mw: u32, percentage: u32, dry_run: bool) -> (r: Result<
    PowerStep,
    AppError,
>)
    ensures
        default_mw * percentage / 100 > u32::MAX ==> (r matches Err(e) && e@.domain == "power"@
            && e@.source is None && e@.message == Some("power limit out of range"@)
            && !e@.printed),
        default_mw * percentage / 100 <= u32::MAX ==> (r matches Ok(s) && s.set_milliwatts == (
        if dry_run {
            None
        } else {
            Some((default_mw * percentage / 100) as u32)
        }) && s.label@ == decimal(percentage as nat) + "%"@),
{
    match power_target_milliwatts(default_mw, percentage) {
        None => {
            let mut m = String::new();
            m.append("power limit out of range");
            Err(AppError::msg("power", m))
        },
        Some(target) => Ok(
            PowerStep {
                set_milliwatts: if dry_run {
                    None
                } else {
                    Some(target)
                },
                label: power_label(percentage),
            },
        ),
    }
}

} // verus!
