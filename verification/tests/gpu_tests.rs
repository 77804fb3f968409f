use nvoc::cli::{DeviceSelector, OverclockParams};
use nvoc::error::AppError;
use nvoc::gpu::info::{get_gpu_info, gpu_info_text, info_cells, GpuReadings, PowerInfo};
use nvoc::gpu::overclock::{OverclockAction, OverclockRun};
use nvoc::gpu::power::{power_info_from_milliwatts, power_label, power_target_milliwatts, watts_from_milliwatts};
use nvoc::gpu::reset::{join, try_reset, ResetAction, ResetRun, BLACKWELL_IDLE_MAX, BLACKWELL_IDLE_MIN};
use nvoc::gpu::{check_driver_version, select_devices, DeviceRef, SelectError};

fn devices() -> Vec<DeviceRef> {
    vec![
        DeviceRef { index: 0, name: "NVIDIA GeForce RTX 5060 Ti".to_string() },
        DeviceRef { index: 1, name: "NVIDIA GeForce RTX 5060 Ti".to_string() },
        DeviceRef { index: 2, name: "NVIDIA GeForce RTX 5090".to_string() },
        DeviceRef { index: 3, name: "NVIDIA GeForce RTX 4090".to_string() },
    ]
}

fn indices(v: &[DeviceRef]) -> Vec<u32> {
    v.iter().map(|d| d.index).collect()
}

#[test]
fn select_all_keeps_every_gpu() {
    let v = select_devices(devices(), &DeviceSelector::All).unwrap();
    assert_eq!(indices(&v), vec![0, 1, 2, 3]);
}

#[test]
fn select_single_by_index() {
    let v = select_devices(devices(), &DeviceSelector::Single(2)).unwrap();
    assert_eq!(indices(&v), vec![2]);
    assert_eq!(v[0].name, "NVIDIA GeForce RTX 5090");
}

#[test]
fn select_single_missing_index_is_invalid() {
    let r = select_devices(devices(), &DeviceSelector::Single(7));
    assert!(matches!(r, Err(SelectError::InvalidArgument)));
}

#[test]
fn select_by_name_pattern_keeps_order() {
    let v = select_devices(devices(), &DeviceSelector::Match(".*RTX 5090.*".to_string())).unwrap();
    assert_eq!(indices(&v), vec![2]);
    let v = select_devices(devices(), &DeviceSelector::Match(r"RTX\s+50\d0".to_string())).unwrap();
    assert_eq!(indices(&v), vec![0, 1, 2]);
    let v = select_devices(devices(), &DeviceSelector::Match("Radeon".to_string())).unwrap();
    assert!(v.is_empty());
}

#[test]
fn select_by_invalid_pattern_is_invalid() {
    let r = select_devices(devices(), &DeviceSelector::Match("RTX(".to_string()));
    assert!(matches!(r, Err(SelectError::InvalidArgument)));
}

#[test]
fn driver_version_accepted() {
    assert_eq!(check_driver_version("595.58.03").ok(), Some(595));
    assert_eq!(check_driver_version("550").ok(), Some(550));
}

#[test]
fn driver_version_too_old() {
    let e = check_driver_version("535.104.05").unwrap_err();
    assert_eq!(e.describe(), "error[driver]: version 535.104.05 too old, need 550+");
    assert!(!e.is_printed());
}

#[test]
fn driver_version_unparseable() {
    let e = check_driver_version("abc.1").unwrap_err();
    assert_eq!(e.describe(), "error[driver]: unparseable version: abc.1");
    let e = check_driver_version("").unwrap_err();
    assert_eq!(e.describe(), "error[driver]: unparseable version: ");
}

#[test]
fn app_error_texts() {
    assert_eq!(AppError::new("gpu offset", "Not Supported".to_string()).describe(), "error[gpu offset]: Not Supported");
    assert_eq!(AppError::msg("device", "no GPUs matched selector".to_string()).describe(), "error[device]: no GPUs matched selector");
    let p = AppError::printed("reset");
    assert_eq!(p.describe(), "error[reset]");
    assert!(p.is_printed());
}

fn readings(power: Option<PowerInfo>) -> GpuReadings {
    GpuReadings {
        gpu_clock_mhz: Some(525),
        gpu_offset_mhz: Some(-350),
        mem_clock_mhz: None,
        mem_offset_mhz: Some(6000),
        temp_c: Some(44),
        power_w: Some(20),
        power,
    }
}

#[test]
fn info_row_and_text() {
    let p = PowerInfo { limit_watts: 604, min_watts: 400, default_watts: 575, max_watts: 600 };
    assert_eq!(p.current_percentage(), 105);
    let row = get_gpu_info(readings(Some(p)), 2, "NVIDIA GeForce RTX 5090".to_string());
    assert_eq!(row.power_limit_w, Some(604));
    assert_eq!(row.power_limit_pct, Some(105));
    assert_eq!(row.power_range.as_deref(), Some("400-575W (hard 600W)"));
    assert_eq!(
        gpu_info_text(&row),
        vec![
            "gpu 2: NVIDIA GeForce RTX 5090",
            "gpu clock: 525MHz",
            "gpu offset: -350MHz",
            "mem clock: n/a",
            "mem offset: 6000MHz",
            "temp: 44°C",
            "power: 20W",
            "power limit: 604W (105%)",
            "power range: 400-575W (hard 600W)",
        ]
    );
    assert_eq!(
        info_cells(&row),
        vec!["2", "NVIDIA GeForce RTX 5090", "525", "-350", "n/a", "6000", "44", "20", "604", "105", "400-575W (hard 600W)"]
    );
}

#[test]
fn info_without_power_settings() {
    let row = get_gpu_info(readings(None), 0, "GPU".to_string());
    assert_eq!(row.power_limit_w, None);
    assert_eq!(row.power_range, None);
    let text = gpu_info_text(&row);
    assert_eq!(text.len(), 8);
    assert_eq!(text[7], "power limit: n/a");
    let cells = info_cells(&row);
    assert_eq!(&cells[8..], &["n/a", "n/a", "n/a"]);
}

#[test]
fn percentage_of_zero_default_is_zero() {
    assert_eq!(PowerInfo { limit_watts: 100, min_watts: 0, default_watts: 0, max_watts: 0 }.current_percentage(), 0);
    assert_eq!(PowerInfo { limit_watts: u32::MAX, min_watts: 0, default_watts: 1, max_watts: 0 }.current_percentage(), u32::MAX);
}

#[test]
fn power_figures() {
    assert_eq!(watts_from_milliwatts(575_999), 575);
    let p = power_info_from_milliwatts(180_000, 150_000, 180_000, 198_000);
    assert_eq!((p.limit_watts, p.min_watts, p.default_watts, p.max_watts), (180, 150, 180, 198));
    assert_eq!(power_target_milliwatts(575_000, 105), Some(603_750));
    assert_eq!(power_target_milliwatts(u32::MAX, 200), None);
    assert_eq!(power_label(105), "105%");
}

#[test]
fn try_reset_records_only_failures() {
    let mut errors = Vec::new();
    try_reset("mem clocks", Ok(()), &mut errors);
    assert!(errors.is_empty());
    try_reset("mem clocks", Err("Not Supported".to_string()), &mut errors);
    assert_eq!(errors, vec!["mem clocks: Not Supported"]);
}

#[test]
fn join_with_separator() {
    assert_eq!(join(&vec![], "; "), "");
    assert_eq!(join(&vec!["a".to_string()], "; "), "a");
    assert_eq!(join(&vec!["a".to_string(), "b".to_string(), "c".to_string()], "; "), "a; b; c");
}

fn run_reset(outcomes: &[Result<(), &str>]) -> (Vec<ResetAction>, Result<(), AppError>) {
    let mut run = ResetRun::new(false);
    let mut actions = Vec::new();
    let mut i = 0;
    while let Some(a) = run.next_action() {
        actions.push(a);
        run.record(outcomes[i].map_err(|m| m.to_string()));
        i += 1;
    }
    (actions, run.finish())
}

#[test]
fn reset_all_succeeding() {
    let (actions, r) = run_reset(&[Ok(()); 6]);
    assert_eq!(
        actions,
        vec![
            ResetAction::LockIdleClocks { min: BLACKWELL_IDLE_MIN, max: BLACKWELL_IDLE_MAX },
            ResetAction::ResetGpuLockedClocks,
            ResetAction::ResetMemoryLockedClocks,
            ResetAction::SetGraphicsOffset(0),
            ResetAction::SetMemoryOffset(0),
            ResetAction::ResetPowerLimit,
        ]
    );
    assert!(r.is_ok());
}

#[test]
fn reset_continues_after_failures() {
    let (actions, r) = run_reset(&[Ok(()), Err("busy"), Ok(()), Err("Not Supported"), Ok(()), Err("No Permission")]);
    assert_eq!(actions.len(), 6);
    assert_eq!(
        r.unwrap_err().describe(),
        "error[reset]: gpu clocks: busy; gpu offset: Not Supported; power limit: No Permission"
    );
}

#[test]
fn reset_skips_clock_release_when_idle_clocks_fail() {
    let (actions, r) = run_reset(&[Err("x"), Ok(()), Ok(()), Ok(()), Ok(())]);
    assert_eq!(actions.len(), 5);
    assert_eq!(actions[1], ResetAction::ResetMemoryLockedClocks);
    assert_eq!(r.unwrap_err().describe(), "error[reset]: gpu clocks: failed to set idle clocks for reset");
}

#[test]
fn reset_dry_run_does_nothing() {
    let run = ResetRun::new(true);
    assert!(run.is_done());
    assert!(run.next_action().is_none());
    assert!(run.finish().is_ok());
}

fn params(dry_run: bool) -> OverclockParams {
    OverclockParams {
        clocks: Some((200, 2820)),
        graphics_offset: Some(856),
        memory_offset: Some(-2000),
        power_limit: Some(105),
        dry_run,
    }
}

#[test]
fn overclock_applies_in_order() {
    let mut run = OverclockRun::new(&params(false));
    let mut actions = Vec::new();
    while let Some(a) = run.next_action() {
        actions.push(a);
        match a {
            OverclockAction::ApplyPowerLimit { percentage, .. } => run.power_done(Ok(power_label(percentage))),
            _ => run.hardware_done(Ok(())),
        }
    }
    assert_eq!(
        actions,
        vec![
            OverclockAction::SetLockedClocks { min: 200, max: 2820 },
            OverclockAction::SetGraphicsOffset(856),
            OverclockAction::SetMemoryOffset(-2000),
            OverclockAction::ApplyPowerLimit { percentage: 105, dry_run: false },
        ]
    );
    let s = run.finish().unwrap();
    assert_eq!(s.clocks.as_deref(), Some("200-2820"));
    assert_eq!(s.graphics_offset.as_deref(), Some("+856"));
    assert_eq!(s.memory_offset.as_deref(), Some("-2000"));
    assert_eq!(s.power.as_deref(), Some("105%"));
}

#[test]
fn overclock_stops_at_first_failure() {
    let mut run = OverclockRun::new(&params(false));
    assert_eq!(run.next_action(), Some(OverclockAction::SetLockedClocks { min: 200, max: 2820 }));
    run.hardware_done(Ok(()));
    assert_eq!(run.next_action(), Some(OverclockAction::SetGraphicsOffset(856)));
    run.hardware_done(Err("Not Supported".to_string()));
    assert!(run.is_done());
    assert_eq!(run.next_action(), None);
    assert_eq!(run.finish().unwrap_err().describe(), "error[gpu offset]: Not Supported");
}

#[test]
fn overclock_power_failure_is_passed_on() {
    let mut p = params(false);
    p.clocks = None;
    p.graphics_offset = None;
    p.memory_offset = None;
    let mut run = OverclockRun::new(&p);
    assert_eq!(run.next_action(), Some(OverclockAction::ApplyPowerLimit { percentage: 105, dry_run: false }));
    run.power_done(Err(AppError::msg("power", "out of range".to_string())));
    assert_eq!(run.finish().unwrap_err().describe(), "error[power]: out of range");
}

#[test]
fn overclock_dry_run_only_asks_for_power() {
    let mut run = OverclockRun::new(&params(true));
    assert_eq!(run.next_action(), Some(OverclockAction::ApplyPowerLimit { percentage: 105, dry_run: true }));
    run.power_done(Ok("105%".to_string()));
    assert_eq!(run.next_action(), None);
    let s = run.finish().unwrap();
    assert_eq!(s.clocks.as_deref(), Some("200-2820"));
    assert_eq!(s.graphics_offset.as_deref(), Some("+856"));
    assert_eq!(s.memory_offset.as_deref(), Some("-2000"));
}

#[test]
fn overclock_dry_run_without_power_needs_no_call() {
    let mut p = params(true);
    p.power_limit = None;
    p.memory_offset = None;
    p.graphics_offset = Some(0);
    let mut run = OverclockRun::new(&p);
    assert_eq!(run.next_action(), None);
    let s = run.finish().unwrap();
    assert_eq!(s.graphics_offset.as_deref(), Some("+0"));
    assert_eq!(s.memory_offset, None);
    assert_eq!(s.power, None);
}
