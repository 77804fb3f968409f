use nvoc::gpu::info::{get_gpu_info, GpuReadings, InfoRow, PowerInfo};
use nvoc::output::table::{truncate, Align, Column, Table};
use nvoc::report::info_table;

fn readme_row(index: u32, name: &str, clk: u32, off: i32, mem: u32, moff: i32, temp: u32, power: u32, limit: u32, min: u32, max: u32) -> InfoRow {
    let readings = GpuReadings {
        gpu_clock_mhz: Some(clk),
        gpu_offset_mhz: Some(off),
        mem_clock_mhz: Some(mem),
        mem_offset_mhz: Some(moff),
        temp_c: Some(temp),
        power_w: Some(power),
        power: Some(PowerInfo { limit_watts: limit, min_watts: min, default_watts: limit, max_watts: max }),
    };
    get_gpu_info(readings, index, name.to_string())
}

#[test]
fn info_table_matches_documented_layout() {
    let rows = vec![
        readme_row(0, "NVIDIA GeForce RTX 5060 Ti", 577, 400, 405, 6000, 33, 2, 180, 150, 198),
        readme_row(1, "NVIDIA GeForce RTX 5060 Ti", 577, 400, 405, 6000, 34, 3, 180, 150, 198),
        readme_row(2, "NVIDIA GeForce RTX 5090", 525, 350, 405, 6000, 44, 20, 575, 400, 600),
        readme_row(3, "NVIDIA GeForce RTX 4090", 210, 0, 405, 0, 38, 22, 450, 150, 450),
    ];
    let lines = info_table(&rows).render();
    let expected = vec![
        "+-----+----------------------------+---------+---------+---------+---------+------+-------+-------+-------+----------------------+",
        "| idx | name                       | gpu_clk | gpu_off | mem_clk | mem_off | temp | power | pwr_w | pwr_% | pwr_range            |",
        "+-----+----------------------------+---------+---------+---------+---------+------+-------+-------+-------+----------------------+",
        "|   0 | NVIDIA GeForce RTX 5060 Ti |     577 |     400 |     405 |    6000 |   33 |     2 |   180 |   100 | 150-180W (hard 198W) |",
        "|   1 | NVIDIA GeForce RTX 5060 Ti |     577 |     400 |     405 |    6000 |   34 |     3 |   180 |   100 | 150-180W (hard 198W) |",
        "|   2 | NVIDIA GeForce RTX 5090    |     525 |     350 |     405 |    6000 |   44 |    20 |   575 |   100 | 400-575W (hard 600W) |",
        "|   3 | NVIDIA GeForce RTX 4090    |     210 |       0 |     405 |       0 |   38 |    22 |   450 |   100 | 150-450W (hard 450W) |",
        "+-----+----------------------------+---------+---------+---------+---------+------+-------+-------+-------+----------------------+",
    ];
    assert_eq!(lines, expected);
}

fn small_table() -> Table {
    let mut t = Table::new(vec![
        Column { header: "a", align: Align::Left, max_width: None },
        Column { header: "bb", align: Align::Right, max_width: Some(3) },
    ]);
    t.push_row(vec!["xyz".to_string(), "12345".to_string()]);
    t.push_row(vec!["q".to_string()]);
    t.push_row(vec!["1".to_string(), "2".to_string(), "ignored".to_string()]);
    t
}

#[test]
fn widths_take_widest_cell_and_respect_cap() {
    assert_eq!(small_table().compute_widths(), vec![3, 3]);
}

#[test]
fn rows_are_truncated_padded_and_aligned() {
    let lines = small_table().render();
    assert_eq!(
        lines,
        vec![
            "+-----+-----+",
            "| a   |  bb |",
            "+-----+-----+",
            "| xyz | 12… |",
            "| q   |     |",
            "| 1   |   2 |",
            "+-----+-----+",
        ]
    );
}

#[test]
fn all_lines_have_equal_width() {
    let lines = small_table().render();
    let w = lines[0].chars().count();
    assert!(lines.iter().all(|l| l.chars().count() == w));
}

#[test]
fn empty_table_renders_header_only() {
    let t = Table::new(vec![Column { header: "status", align: Align::Left, max_width: None }]);
    assert_eq!(t.render(), vec!["+--------+", "| status |", "+--------+", "+--------+"]);
}

#[test]
fn truncate_keeps_short_text() {
    assert_eq!(truncate("abc", 3), "abc");
    assert_eq!(truncate("", 0), "");
}

#[test]
fn truncate_marks_cut_with_ellipsis() {
    assert_eq!(truncate("abcdef", 4), "abc…");
    assert_eq!(truncate("abcdef", 1), "…");
    assert_eq!(truncate("abcdef", 0), "");
    assert_eq!(truncate("héllo wörld", 5), "héll…");
}

#[test]
fn border_line_has_two_dashes_more_than_width() {
    let t = Table::new(vec![]);
    assert_eq!(t.border_line(&vec![0, 2]), "+--+----+");
}

#[test]
fn header_width_counts_bytes() {
    let t = Table::new(vec![Column { header: "°C", align: Align::Left, max_width: None }]);
    assert_eq!(t.compute_widths(), vec![3]);
}

#[test]
fn pushing_rows_never_narrows_and_respects_caps() {
    let mut t = small_table();
    let before = t.compute_widths();
    t.push_row(vec!["a".to_string(), "a very long cell".to_string()]);
    let after = t.compute_widths();
    assert!(before.iter().zip(&after).all(|(b, a)| b <= a));
    assert_eq!(after[1], 3);
}
