use nvoc::cli::DeviceSelector;
use nvoc::gpu::overclock::OverclockSummary;
use nvoc::output::table::Table;
use nvoc::report::{
    check_selection, device_heading, info_uses_table, overclock_columns, overclock_row,
    overclock_summary_lines, reset_columns, reset_done_line, reset_row,
};

#[test]
fn table_unless_disabled_or_single_gpu() {
    assert!(info_uses_table(false, &DeviceSelector::All));
    assert!(info_uses_table(false, &DeviceSelector::Match("x".to_string())));
    assert!(!info_uses_table(false, &DeviceSelector::Single(2)));
    assert!(!info_uses_table(true, &DeviceSelector::All));
}

#[test]
fn empty_selection_is_an_error() {
    assert!(check_selection(1).is_ok());
    assert_eq!(check_selection(0).unwrap_err().describe(), "error[device]: no GPUs matched selector");
}

#[test]
fn reset_rows() {
    assert_eq!(reset_row(0, "GPU".to_string(), true, Ok(())), vec!["0", "GPU", "true", "OK", "-"]);
    assert_eq!(
        reset_row(3, "GPU".to_string(), false, Err("error[reset]: power limit: x".to_string())),
        vec!["3", "GPU", "false", "ERR", "error[reset]: power limit: x"]
    );
}

fn summary() -> OverclockSummary {
    OverclockSummary {
        clocks: Some("200-2800".to_string()),
        graphics_offset: None,
        memory_offset: Some("+6000".to_string()),
        power: None,
    }
}

#[test]
fn overclock_rows() {
    assert_eq!(
        overclock_row(1, "GPU".to_string(), true, Ok(summary())),
        vec!["1", "GPU", "200-2800", "-", "+6000", "-", "true", "OK", "-"]
    );
    assert_eq!(
        overclock_row(1, "GPU".to_string(), false, Err("error[clocks]: x".to_string())),
        vec!["1", "GPU", "-", "-", "-", "-", "false", "ERR", "error[clocks]: x"]
    );
}

#[test]
fn overclock_table_layout() {
    let mut t = Table::new(overclock_columns());
    t.push_row(overclock_row(0, "NVIDIA GeForce RTX 5090".to_string(), true, Ok(summary())));
    let lines = t.render();
    assert_eq!(lines[1], "| idx | name                    |   clocks | gpu_off | mem_off | power | dry_run | status | error |");
    assert_eq!(lines[3], "|   0 | NVIDIA GeForce RTX 5090 | 200-2800 |       - |   +6000 |     - | true    | OK     | -     |");
}

#[test]
fn reset_table_layout() {
    let mut t = Table::new(reset_columns());
    t.push_row(reset_row(0, "GPU".to_string(), false, Ok(())));
    let lines = t.render();
    assert_eq!(lines[1], "| idx | name | dry_run | status | error |");
    assert_eq!(lines[3], "|   0 | GPU  | false   | OK     | -     |");
}

#[test]
fn summary_text() {
    assert_eq!(overclock_summary_lines(&summary(), false), vec!["clocks: 200-2800", "mem offset: +6000"]);
    assert_eq!(
        overclock_summary_lines(&summary(), true),
        vec!["clocks: 200-2800 (dry run)", "mem offset: +6000 (dry run)"]
    );
}

#[test]
fn text_headings() {
    assert_eq!(device_heading(2, "NVIDIA GeForce RTX 5090"), "gpu 2: NVIDIA GeForce RTX 5090");
    assert_eq!(reset_done_line(true), "reset: all (dry run)");
    assert_eq!(reset_done_line(false), "reset: all");
}
