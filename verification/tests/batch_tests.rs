use nvoc::batch::{batch_uses_table, DeviceBatch};
use nvoc::error::AppError;
use nvoc::gpu::power::power_limit_step;

fn run(count: usize, table: bool, fails: &[usize]) -> (Vec<usize>, Result<(), AppError>) {
    let mut batch = DeviceBatch::new(count, table);
    let mut seen = Vec::new();
    while let Some(i) = batch.next_device() {
        seen.push(i);
        let outcome = if fails.contains(&i) { Err(AppError::new("gpu", format!("failure {i}"))) } else { Ok(()) };
        batch.device_done(outcome);
    }
    (seen, batch.finish("reset"))
}

#[test]
fn tables_even_for_one_gpu() {
    assert!(batch_uses_table(false));
    assert!(!batch_uses_table(true));
}

#[test]
fn table_mode_handles_every_gpu() {
    let (seen, r) = run(4, true, &[1, 2]);
    assert_eq!(seen, vec![0, 1, 2, 3]);
    let e = r.unwrap_err();
    assert!(e.is_printed());
    assert_eq!(e.describe(), "error[reset]");
}

#[test]
fn table_mode_without_failures_succeeds() {
    let (seen, r) = run(2, true, &[]);
    assert_eq!(seen, vec![0, 1]);
    assert!(r.is_ok());
}

#[test]
fn text_mode_stops_at_first_failure() {
    let (seen, r) = run(4, false, &[1, 2]);
    assert_eq!(seen, vec![0, 1]);
    let e = r.unwrap_err();
    assert!(!e.is_printed());
    assert_eq!(e.describe(), "error[gpu]: failure 1");
}

#[test]
fn text_mode_without_failures_succeeds() {
    let (seen, r) = run(3, false, &[]);
    assert_eq!(seen, vec![0, 1, 2]);
    assert!(r.is_ok());
}

#[test]
fn empty_batch_does_nothing() {
    let (seen, r) = run(0, false, &[]);
    assert!(seen.is_empty());
    assert!(r.is_ok());
}

#[test]
fn headings_only_for_several_gpus_in_text_mode() {
    assert!(DeviceBatch::new(2, false).shows_headings());
    assert!(!DeviceBatch::new(1, false).shows_headings());
    assert!(!DeviceBatch::new(3, true).shows_headings());
}

#[test]
fn power_step_sets_target_unless_dry_run() {
    let s = power_limit_step(575_000, 105, false).unwrap();
    assert_eq!(s.set_milliwatts, Some(603_750));
    assert_eq!(s.label, "105%");
    let s = power_limit_step(575_000, 105, true).unwrap();
    assert_eq!(s.set_milliwatts, None);
    assert_eq!(s.label, "105%");
}

#[test]
fn power_step_refuses_oversized_target() {
    let e = power_limit_step(u32::MAX, 200, true).unwrap_err();
    assert_eq!(e.describe(), "error[power]: power limit out of range");
}
