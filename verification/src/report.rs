//! What a run shows: which output form it uses, the table layouts, and the
//! rows and lines reported for each GPU.

use vstd::prelude::*;
use crate::cli::DeviceSelector;
use crate::error::AppError;
use crate::gpu::overclock::{OverclockSummary, SummaryView, text_opt};
use crate::gpu::info::{InfoRow, info_cells, info_cells_spec};
use crate::output::table::{Align, Column, Table};
use crate::text::{decimal, push_decimal, u32_text};

verus! {

/// `info` shows a table unless tables are turned off or a single GPU is
/// selected by index.
pub fn info_uses_table(no_table: bool, selector: &DeviceSelector) -> (b: bool)
    ensures
        b == (!no_table && !(*selector is Single)),
{
    !no_table && !matches!(selector, DeviceSelector::Single(_))
}

/// The error of a run whose selector matched no GPU.
pub fn check_selection(count: usize) -> (r: Result<(), AppError>)
    ensures
        count > 0 ==> r is Ok,
        count == 0 ==> (r matches Err(e) && e@.domain == "device"@ && e@.source is None
            && e@.message == Some("no GPUs matched selector"@) && !e@.printed),
{
    if count == 0 {
        let mut m = String::new();
        m.append("no GPUs matched selector");
        Err(AppError::msg("device", m))
    } else {
        Ok(())
    }
}

/// A column of a report table.
fn column(header: &'static str, align: Align, max_width: Option<usize>) -> (c: Column)
    ensures
        c.header == header,
        c.align == align,
        c.max_width == max_width,
{
    Column { header, align, max_width }
}

/// The headers, alignments and width caps of a table layout.
pub open spec fn layout_matches(
    cols: Seq<Column>,
    headers: Seq<Seq<char>>,
    right: Seq<bool>,
    caps: Seq<Option<usize>>,
) -> bool {
    &&& cols.len() == headers.len() == right.len() == caps.len()
    &&& forall|i: int|
        0 <= i < cols.len() ==> {
            &&& (#[trigger] cols[i]).header@ == headers[i]
            &&& (cols[i].align is Right) == right[i]
            &&& cols[i].max_width == caps[i]
        }
}

/// The layout of the info table.
pub open spec fn info_layout(cols: Seq<Column>) -> bool {
    layout_matches(
        cols,
        seq![
            "idx"@,
            "name"@,
            "gpu_clk"@,
            "gpu_off"@,
            "mem_clk"@,
            "mem_off"@,
            "temp"@,
            "power"@,
            "pwr_w"@,
            "pwr_%"@,
            "pwr_range"@,
        ],
        seq![true, false, true, true, true, true, true, true, true, true, false],
        seq![None, Some(40usize), None, None, None, None, None, None, None, None, Some(28usize)],
    )
}

/// The layout of the reset table.
pub open spec fn reset_layout(cols: Seq<Column>) -> bool {
    layout_matches(
        cols,
        seq!["idx"@, "name"@, "dry_run"@, "status"@, "error"@],
        seq![true, false, false, false, false],
        seq![None, Some(40usize), None, None, Some(80usize)],
    )
}

/// The layout of the overclock table.
pub open spec fn overclock_layout(cols: Seq<Column>) -> bool {
    layout_matches(
        cols,
        seq![
            "idx"@,
            "name"@,
            "clocks"@,
            "gpu_off"@,
            "mem_off"@,
            "power"@,
            "dry_run"@,
            "status"@,
            "error"@,
        ],
        seq![true, false, true, true, true, true, false, false, false],
        seq![None, Some(40usize), None, None, None, None, None, None, Some(80usize)],
    )
}

/// The columns of the info table.
pub fn info_columns() -> (cols: Vec<Column>)
    ensures
        info_layout(cols@),
{
    let mut cols: Vec<Column> = Vec::new();
    cols.push(column("idx", Align::Right, None));
    cols.push(column("name", Align::Left, Some(40)));
    cols.push(column("gpu_clk", Align::Right, None));
    cols.push(column("gpu_off", Align::Right, None));
    cols.push(column("mem_clk", Align::Right, None));
    cols.push(column("mem_off", Align::Right, None));
    cols.push(column("temp", Align::Right, None));
    cols.push(column("power", Align::Right, None));
    cols.push(column("pwr_w", Align::Right, None));
    cols.push(column("pwr_%", Align::Right, None));
    cols.push(column("pwr_range", Align::Left, Some(28)));
    cols
}

/// The columns of the reset table.
pub fn reset_columns() -> (cols: Vec<Column>)
    ensures
        reset_layout(cols@),
{
    let mut cols: Vec<Column> = Vec::new();
    cols.push(column("idx", Align::Right, None));
    cols.push(column("name", Align::Left, Some(40)));
    cols.push(column("dry_run", Align::Left, None));
    cols.push(column("status", Align::Left, None));
    cols.push(column("error", Align::Left, Some(80)));
    cols
}

/// The columns of the overclock table.
pub fn overclock_columns() -> (cols: Vec<Column>)
    ensures
        overclock_layout(cols@),
{
    let mut cols: Vec<Column> = Vec::new();
    cols.push(column("idx", Align::Right, None));
    cols.push(column("name", Align::Left, Some(40)));
    cols.push(column("clocks", Align::Right, None));
    cols.push(column("gpu_off", Align::Right, None));
    cols.push(column("mem_off", Align::Right, None));
    cols.push(column("power", Align::Right, None));
    cols.push(column("dry_run", Align::Left, None));
    cols.push(column("status", Align::Left, None));
    cols.push(column("error", Align::Left, Some(80)));
    cols
}

/// "true" or "false".
pub open spec fn bool_text(b: bool) -> Seq<char> {
    if b {
        "true"@
    } else {
        "false"@
    }
}

/// "true" or "false".
pub fn bool_string(b: bool) -> (s: String)
    ensures
        s@ == bool_text(b),
{
    let mut s = String::new();
    if b {
        s.append("true");
    } else {
        s.append("false");
    }
    s
}

/// A string holding `text`.
fn owned(text: &str) -> (s: String)
    ensures
        s@ == text@,
{
    text.to_owned()
}

/// The status and error cells for an outcome: "OK" and "-", or "ERR" and the
/// error's text.
pub open spec fn status_cells(outcome: Result<(), Seq<char>>) -> Seq<Seq<char>> {
    match outcome {
        Ok(()) => seq!["OK"@, "-"@],
        Err(m) => seq!["ERR"@, m],
    }
}

/// The text of an outcome.
pub open spec fn outcome_text(outcome: Result<(), String>) -> Result<(), Seq<char>> {
    match outcome {
        Ok(()) => Ok(()),
        Err(m) => Err(m@),
    }
}

/// The row of the reset table for GPU `index` named `name`: its index,
/// name, the dry-run flag, then "OK" and "-", or "ERR" and the error's text.
pub fn reset_row(index: u32, name: String, dry_run: bool, outcome: Result<(), String>) -> (cells:
    Vec<String>)
    ensures
        cells@.map_values(|c: String| c@) == seq![decimal(index as nat), name@, bool_text(dry_run)]
            + status_cells(outcome_text(outcome)),
{
    let mut cells: Vec<String> = Vec::new();
    cells.push(u32_text(index));
    cells.push(name);
    cells.push(bool_string(dry_run));
    match outcome {
        Ok(()) => {
            cells.push(owned("OK"));
            cells.push(owned("-"));
        },
        Err(m) => {
            cells.push(owned("ERR"));
            cells.push(m);
        },
    }
    assert(cells@.map_values(|c: String| c@) =~= seq![
        decimal(index as nat),
        name@,
        bool_text(dry_run),
    ] + status_cells(outcome_text(outcome)));
    cells
}

/// A summary entry as shown in a table cell: its text, or "-".
pub open spec fn dash_or(v: Option<Seq<char>>) -> Seq<char> {
    match v {
        Some(s) => s,
        None => "-"@,
    }
}

/// A summary entry as shown in a table cell.
fn dash_or_text(v: Option<String>) -> (s: String)
    ensures
        s@ == dash_or(text_opt(v)),
{
    match v {
        Some(s) => s,
        None => owned("-"),
    }
}

/// The cells of the overclock table that show what was applied: all "-"
/// when the run failed.
pub open spec fn applied_cells(outcome: Result<SummaryView, Seq<char>>) -> Seq<Seq<char>> {
    match outcome {
        Ok(s) => seq![
            dash_or(s.clocks),
            dash_or(s.graphics_offset),
            dash_or(s.memory_offset),
            dash_or(s.power),
        ],
        Err(_) => seq!["-"@, "-"@, "-"@, "-"@],
    }
}

/// The content of an overclock outcome.
pub open spec fn oc_outcome_view(outcome: Result<OverclockSummary, String>) -> Result<
    SummaryView,
    Seq<char>,
> {
    match outcome {
        Ok(s) => Ok(s@),
        Err(m) => Err(m@),
    }
}

/// The status of an overclock outcome.
pub open spec fn oc_status(outcome: Result<SummaryView, Seq<char>>) -> Result<(), Seq<char>> {
    match outcome {
        Ok(_) => Ok(()),
        Err(m) => Err(m),
    }
}

/// The row of the overclock table for GPU `index` named `name`: its index
/// and name, what was applied, the dry-run flag, then "OK" and "-", or "ERR"
/// and the error's text.
pub fn overclock_row(
    index: u32,
    name: String,
    dry_run: bool,
    outcome: Result<OverclockSummary, String>,
) -> (cells: Vec<String>)
    ensures
        cells@.map_values(|c: String| c@) == seq![decimal(index as nat), name@] + applied_cells(
            oc_outcome_view(outcome),
        ) + seq![bool_text(dry_run)] + status_cells(oc_status(oc_outcome_view(outcome))),
{
    let mut cells: Vec<String> = Vec::new();
    cells.push(u32_text(index));
    cells.push(name);
    match outcome {
        Ok(summary) => {
            cells.push(dash_or_text(summary.clocks));
            cells.push(dash_or_text(summary.graphics_offset));
            cells.push(dash_or_text(summary.memory_offset));
            cells.push(dash_or_text(summary.power));
            cells.push(bool_string(dry_run));
            cells.push(owned("OK"));
            cells.push(owned("-"));
        },
        Err(m) => {
            cells.push(owned("-"));
            cells.push(owned("-"));
            cells.push(owned("-"));
            cells.push(owned("-"));
            cells.push(bool_string(dry_run));
            cells.push(owned("ERR"));
            cells.push(m);
        },
    }
    assert(cells@.map_values(|c: String| c@) =~= seq![decimal(index as nat), name@]
        + applied_cells(oc_outcome_view(outcome)) + seq![bool_text(dry_run)] + status_cells(
        oc_status(oc_outcome_view(outcome)),
    ));
    cells
}

/// " (dry run)" for a dry run, else nothing.
pub open spec fn dry_run_suffix(dry_run: bool) -> Seq<char> {
    if dry_run {
        " (dry run)"@
    } else {
        Seq::empty()
    }
}

/// The line "LABEL: VALUE" with the dry-run suffix, when there is a value.
pub open spec fn summary_line(label: Seq<char>, v: Option<Seq<char>>, dry_run: bool) -> Seq<
    Seq<char>,
> {
    match v {
        Some(s) => seq![label + ": "@ + s + dry_run_suffix(dry_run)],
        None => Seq::empty(),
    }
}

/// The text report of an overclock run: one line per applied setting.
pub open spec fn summary_text_spec(s: SummaryView, dry_run: bool) -> Seq<Seq<char>> {
    summary_line("clocks"@, s.clocks, dry_run) + summary_line("gpu offset"@, s.graphics_offset, dry_run)
        + summary_line("mem offset"@, s.memory_offset, dry_run) + summary_line(
        "power limit"@,
        s.power,
        dry_run,
    )
}

/// 1 for a recorded setting, 0 for one left alone.
pub open spec fn present(v: Option<Seq<char>>) -> nat {
    if v is Some {
        1
    } else {
        0
    }
}

/// The text report has one line for each setting recorded in the summary
/// and no other: "clocks", "gpu offset", "mem offset" and "power limit",
/// each followed by ": ", the recorded text and the dry-run suffix.
pub proof fn lemma_summary_reports_each_setting(s: SummaryView, dry_run: bool)
    ensures
        summary_text_spec(s, dry_run).len() == present(s.clocks) + present(s.graphics_offset)
            + present(s.memory_offset) + present(s.power),
        s.clocks matches Some(v) ==> summary_text_spec(s, dry_run).contains(
            "clocks"@ + ": "@ + v + dry_run_suffix(dry_run),
        ),
        s.graphics_offset matches Some(v) ==> summary_text_spec(s, dry_run).contains(
            "gpu offset"@ + ": "@ + v + dry_run_suffix(dry_run),
        ),
        s.memory_offset matches Some(v) ==> summary_text_spec(s, dry_run).contains(
            "mem offset"@ + ": "@ + v + dry_run_suffix(dry_run),
        ),
        s.power matches Some(v) ==> summary_text_spec(s, dry_run).contains(
            "power limit"@ + ": "@ + v + dry_run_suffix(dry_run),
        ),
{
    let a = summary_line("clocks"@, s.clocks, dry_run);
    let b = summary_line("gpu offset"@, s.graphics_offset, dry_run);
    let c = summary_line("mem offset"@, s.memory_offset, dry_run);
    let d = summary_line("power limit"@, s.power, dry_run);
    let all = summary_text_spec(s, dry_run);
    assert(all == a + b + c + d);
    if s.clocks is Some {
        assert(all[0] == a[0]);
    }
    if s.graphics_offset is Some {
        assert(all[a.len() as int] == b[0]);
    }
    if s.memory_offset is Some {
        assert(all[(a.len() + b.len()) as int] == c[0]);
    }
    if s.power is Some {
        assert(all[(a.len() + b.len() + c.len()) as int] == d[0]);
    }
}

/// Appends the line for one setting, if it was applied.
fn push_summary_line(lines: &mut Vec<String>, label: &str, v: &Option<String>, dry_run: bool)
    ensures
        final(lines)@.map_values(|l: String| l@) == old(lines)@.map_values(|l: String| l@)
            + summary_line(label@, text_opt(*v), dry_run),
{
    if let Some(text) = v {
        let mut l = label.to_owned();
        l.append(": ");
        l.append(text.as_str());
        if dry_run {
            l.append(" (dry run)");
        }
        lines.push(l);
    }
    assert(lines@.map_values(|l: String| l@) =~= old(lines)@.map_values(|l: String| l@)
        + summary_line(label@, text_opt(*v), dry_run));
}

/// The text report of an overclock run, line by line.
pub fn overclock_summary_lines(summary: &OverclockSummary, dry_run: bool) -> (lines: Vec<String>)
    ensures
        lines@.map_values(|l: String| l@) == summary_text_spec(summary@, dry_run),
        lines@.len() == present(summary@.clocks) + present(summary@.graphics_offset) + present(
            summary@.memory_offset,
        ) + present(summary@.power),
        summary@.clocks matches Some(v) ==> lines@.map_values(|l: String| l@).contains(
            "clocks"@ + ": "@ + v + dry_run_suffix(dry_run),
        ),
        summary@.graphics_offset matches Some(v) ==> lines@.map_values(|l: String| l@).contains(
            "gpu offset"@ + ": "@ + v + dry_run_suffix(dry_run),
        ),
        summary@.memory_offset matches Some(v) ==> lines@.map_values(|l: String| l@).contains(
            "mem offset"@ + ": "@ + v + dry_run_suffix(dry_run),
        ),
        summary@.power matches Some(v) ==> lines@.map_values(|l: String| l@).contains(
            "power limit"@ + ": "@ + v + dry_run_suffix(dry_run),
        ),
{
    let mut lines: Vec<String> = Vec::new();
    push_summary_line(&mut lines, "clocks", &summary.clocks, dry_run);
    push_summary_line(&mut lines, "gpu offset", &summary.graphics_offset, dry_run);
    push_summary_line(&mut lines, "mem offset", &summary.memory_offset, dry_run);
    push_summary_line(&mut lines, "power limit", &summary.power, dry_run);
    proof {
        lemma_summary_reports_each_setting(summary@, dry_run);
    }
    lines
}

/// The heading printed before each GPU when several are handled in text
/// form: "gpu INDEX: NAME".
pub fn device_heading(index: u32, name: &str) -> (s: String)
    ensures
        s@ == "gpu "@ + decimal(index as nat) + ": "@ + name@,
{
    let mut s = owned("gpu ");
    push_decimal(&mut s, index);
    s.append(": ");
    s.append(name);
    s
}

/// The line printed after a reset in text form.
pub fn reset_done_line(dry_run: bool) -> (s: String)
    ensures
        s@ == if dry_run {
            "reset: all (dry run)"@
        } else {
            "reset: all"@
        },
{
    if dry_run {
        owned("reset: all (dry run)")
    } else {
        owned("reset: all")
    }
}

/// The info table: its columns and one row per GPU, in order.
pub fn info_table(rows: &Vec<InfoRow>) -> (t: Table)
    ensures
        info_layout(t.columns_view()),
        t.rows_view().len() == rows@.len(),
        forall|i: int| 0 <= i < rows@.len() ==> #[trigger] t.rows_view()[i] == info_cells_spec(rows@[i]),
{
    let mut t = Table::new(info_columns());
    let mut i: usize = 0;
    while i < rows.len()
        invariant
            i <= rows@.len(),
            info_layout(t.columns_view()),
            t.rows_view().len() == i,
            forall|j: int| 0 <= j < i ==> #[trigger] t.rows_view()[j] == info_cells_spec(rows@[j]),
        decreases rows@.len() - i,
    {
        let cells = info_cells(&rows[i]);
        t.push_row(cells);
        i = i + 1;
    }
    t
}

} // verus!
