//! GPU information: the readings of one GPU gathered into a row, and the
//! text shown for it.

use vstd::prelude::*;
use crate::text::{decimal, int_decimal, push_decimal, u32_text, i32_text};

verus! {

/// The power-limit settings of a GPU, in watts.
#[derive(Debug, Clone, Copy)]
pub struct PowerInfo {
    pub limit_watts: u32,
    pub min_watts: u32,
    pub default_watts: u32,
    pub max_watts: u32,
}

/// The current limit as a whole percentage of the default limit (rounded
/// down; 0 when the default is 0; at most `u32::MAX`).
pub open spec fn percentage_spec(limit: u32, default: u32) -> u32 {
    if default == 0 {
        0
    } else if limit * 100 / default as int > u32::MAX {
        u32::MAX
    } else {
        (limit * 100 / default as int) as u32
    }
}

/// The percentage is the limit over the default in whole percent, rounded
/// down: that many percent of the default is at most the limit, one percent
/// more is above it. A limit at the default shows 100.
pub proof fn lemma_percentage_rounds_down(limit: u32, default: u32)
    requires
        default > 0,
        limit * 100 / default as int <= u32::MAX,
    ensures
        percentage_spec(limit, default) * default <= limit * 100 < (percentage_spec(limit, default)
            + 1) * default,
        limit == default ==> percentage_spec(limit, default) == 100,
{
    let x: int = limit * 100;
    let d: int = default as int;
    let q: int = x / d;
    assert(q * d <= x < (q + 1) * d) by (nonlinear_arith)
        requires
            d > 0,
            x >= 0,
            q == x / d,
    ;
    assert(limit == default ==> q == 100) by (nonlinear_arith)
        requires
            d > 0,
            q == x / d,
            x == limit * 100,
            d == default,
    ;
}

/// Of two limits over the same default, the higher never shows the lower
/// percentage.
pub proof fn lemma_percentage_monotonic(low: u32, high: u32, default: u32)
    requires
        low <= high,
    ensures
        percentage_spec(low, default) <= percentage_spec(high, default),
{
    if default > 0 {
        let d: int = default as int;
        assert(low * 100 / d <= high * 100 / d) by (nonlinear_arith)
            requires
                d > 0,
                low <= high,
        ;
    }
}

/// The power range as shown: "MIN-DEFAULTW (hard MAXW)".
pub open spec fn power_range_spec(p: PowerInfo) -> Seq<char> {
    decimal(p.min_watts as nat) + "-"@ + decimal(p.default_watts as nat) + "W (hard "@ + decimal(
        p.max_watts as nat,
    ) + "W)"@
}

impl PowerInfo {
    /// The current limit as a percentage of the default limit.
    pub fn current_percentage(&self) -> (pct: u32)
        ensures
            pct == percentage_spec(self.limit_watts, self.default_watts),
            self.default_watts == 0 ==> pct == 0,
            self.default_watts > 0 && self.limit_watts * 100 / self.default_watts as int <= u32::MAX
                ==> pct * self.default_watts <= self.limit_watts * 100 < (pct + 1) * self.default_watts,
            self.default_watts > 0 && self.limit_watts * 100 / self.default_watts as int > u32::MAX
                ==> pct == u32::MAX,
    {
        proof {
            if self.default_watts > 0 && self.limit_watts * 100 / self.default_watts as int <= u32::MAX {
                lemma_percentage_rounds_down(self.limit_watts, self.default_watts);
            }
        }
        if self.default_watts == 0 {
            return 0;
        }
        let scaled: u64 = (self.limit_watts as u64) * 100;
        let q: u64 = scaled / (self.default_watts as u64);
        if q > u32::MAX as u64 {
            u32::MAX
        } else {
            q as u32
        }
    }

    /// The power range as shown.
    pub fn range_text(&self) -> (s: String)
        ensures
            s@ == power_range_spec(*self),
    {
        let mut s = String::new();
        push_decimal(&mut s, self.min_watts);
        s.append("-");
        push_decimal(&mut s, self.default_watts);
        s.append("W (hard ");
        push_decimal(&mut s, self.max_watts);
        s.append("W)");
        s
    }
}

/// What could be read from a GPU; `None` where the driver gave no value.
#[derive(Debug, Clone, Copy)]
pub struct GpuReadings {
    pub gpu_clock_mhz: Option<u32>,
    pub gpu_offset_mhz: Option<i32>,
    pub mem_clock_mhz: Option<u32>,
    pub mem_offset_mhz: Option<i32>,
    pub temp_c: Option<u32>,
    pub power_w: Option<u32>,
    pub power: Option<PowerInfo>,
}

/// One GPU's information, as shown in the info table.
#[derive(Debug, Clone)]
pub struct InfoRow {
    pub index: u32,
    pub name: String,
    pub gpu_clock_mhz: Option<u32>,
    pub gpu_offset_mhz: Option<i32>,
    pub mem_clock_mhz: Option<u32>,
    pub mem_offset_mhz: Option<i32>,
    pub temp_c: Option<u32>,
    pub power_w: Option<u32>,
    pub power_limit_w: Option<u32>,
    pub power_limit_pct: Option<u32>,
    pub power_range: Option<String>,
}

/// Gathers the readings of GPU `device_index`, named `name`, into a row; the
/// three power-limit columns come from the power settings when they could be
/// read.
pub fn get_gpu_info(readings: GpuReadings, device_index: u32, name: String) -> (row: InfoRow)
    ensures
        row.index == device_index,
        row.name == name,
        row.gpu_clock_mhz == readings.gpu_clock_mhz,
        row.gpu_offset_mhz == readings.gpu_offset_mhz,
        row.mem_clock_mhz == readings.mem_clock_mhz,
        row.mem_offset_mhz == readings.mem_offset_mhz,
        row.temp_c == readings.temp_c,
        row.power_w == readings.power_w,
        match readings.power {
            Some(p) => {
                &&& row.power_limit_w == Some(p.limit_watts)
                &&& row.power_limit_pct == Some(percentage_spec(p.limit_watts, p.default_watts))
                &&& row.power_range matches Some(r) && r@ == power_range_spec(p)
            },
            None => {
                &&& row.power_limit_w is None
                &&& row.power_limit_pct is None
                &&& row.power_range is None
            },
        },
{
    let (power_limit_w, power_limit_pct, power_range) = match readings.power {
        Some(info) => (Some(info.limit_watts), Some(info.current_percentage()), Some(info.range_text())),
        None => (None, None, None),
    };
    InfoRow {
        index: device_index,
        name,
        gpu_clock_mhz: readings.gpu_clock_mhz,
        gpu_offset_mhz: readings.gpu_offset_mhz,
        mem_clock_mhz: readings.mem_clock_mhz,
        mem_offset_mhz: readings.mem_offset_mhz,
        temp_c: readings.temp_c,
        power_w: readings.power_w,
        power_limit_w,
        power_limit_pct,
        power_range,
    }
}

/// The text of an optional unsigned reading.
pub open spec fn u32_opt_text(v: Option<u32>) -> Option<Seq<char>> {
    match v {
        Some(x) => Some(decimal(x as nat)),
        None => None,
    }
}

/// The text of an optional signed reading.
pub open spec fn i32_opt_text(v: Option<i32>) -> Option<Seq<char>> {
    match v {
        Some(x) => Some(int_decimal(x as int)),
        None => None,
    }
}

/// The text of an optional string.
pub open spec fn str_opt_text(v: Option<String>) -> Option<Seq<char>> {
    match v {
        Some(x) => Some(x@),
        None => None,
    }
}

/// A value as shown in a table cell: its text, or "n/a" when missing.
pub open spec fn na_or(v: Option<Seq<char>>) -> Seq<char> {
    match v {
        Some(s) => s,
        None => "n/a"@,
    }
}

/// A line of the text listing: "LABEL: VALUEUNIT", or "LABEL: n/a".
pub open spec fn field_line(label: Seq<char>, unit: Seq<char>, v: Option<Seq<char>>) -> Seq<char> {
    match v {
        Some(s) => label + ": "@ + s + unit,
        None => label + ": n/a"@,
    }
}

/// The text listing of a row, line by line.
pub open spec fn info_text_spec(row: InfoRow) -> Seq<Seq<char>> {
    let head = seq![
        "gpu "@ + decimal(row.index as nat) + ": "@ + row.name@,
        field_line("gpu clock"@, "MHz"@, u32_opt_text(row.gpu_clock_mhz)),
        field_line("gpu offset"@, "MHz"@, i32_opt_text(row.gpu_offset_mhz)),
        field_line("mem clock"@, "MHz"@, u32_opt_text(row.mem_clock_mhz)),
        field_line("mem offset"@, "MHz"@, i32_opt_text(row.mem_offset_mhz)),
        field_line("temp"@, "°C"@, u32_opt_text(row.temp_c)),
        field_line("power"@, "W"@, u32_opt_text(row.power_w)),
    ];
    match (row.power_limit_w, row.power_limit_pct, row.power_range) {
        (Some(w), Some(pct), Some(range)) => head + seq![
            "power limit: "@ + decimal(w as nat) + "W ("@ + decimal(pct as nat) + "%)"@,
            "power range: "@ + range@,
        ],
        _ => head.push("power limit: n/a"@),
    }
}

/// Builds a "LABEL: VALUEUNIT" line, or "LABEL: n/a" when there is no value.
fn field_text(label: &str, unit: &str, v: Option<String>) -> (s: String)
    ensures
        s@ == field_line(label@, unit@, str_opt_text(v)),
{
    let mut s = label.to_owned();
    match v {
        Some(text) => {
            s.append(": ");
            s.append(text.as_str());
            s.append(unit);
        },
        None => {
            s.append(": n/a");
        },
    }
    s
}

/// The text of an optional unsigned reading.
fn u32_opt(v: Option<u32>) -> (r: Option<String>)
    ensures
        str_opt_text(r) == u32_opt_text(v),
{
    match v {
        Some(x) => Some(u32_text(x)),
        None => None,
    }
}

/// The text of an optional signed reading.
fn i32_opt(v: Option<i32>) -> (r: Option<String>)
    ensures
        str_opt_text(r) == i32_opt_text(v),
{
    match v {
        Some(x) => Some(i32_text(x)),
        None => None,
    }
}

/// The text listing of one GPU's information, line by line.
pub fn gpu_info_text(row: &InfoRow) -> (lines: Vec<String>)
    ensures
        lines@.map_values(|l: String| l@) == info_text_spec(*row),
{
    let mut lines: Vec<String> = Vec::new();
    let mut head = String::new();
    head.append("gpu ");
    push_decimal(&mut head, row.index);
    head.append(": ");
    head.append(row.name.as_str());
    lines.push(head);
    lines.push(field_text("gpu clock", "MHz", u32_opt(row.gpu_clock_mhz)));
    lines.push(field_text("gpu offset", "MHz", i32_opt(row.gpu_offset_mhz)));
    lines.push(field_text("mem clock", "MHz", u32_opt(row.mem_clock_mhz)));
    lines.push(field_text("mem offset", "MHz", i32_opt(row.mem_offset_mhz)));
    lines.push(field_text("temp", "°C", u32_opt(row.temp_c)));
    lines.push(field_text("power", "W", u32_opt(row.power_w)));
    match (row.power_limit_w, row.power_limit_pct, &row.power_range) {
        (Some(w), Some(pct), Some(range)) => {
            let mut l = String::new();
            l.append("power limit: ");
            push_decimal(&mut l, w);
            l.append("W (");
            push_decimal(&mut l, pct);
            l.append("%)");
            lines.push(l);
            let mut r = String::new();
            r.append("power range: ");
            r.append(range.as_str());
            lines.push(r);
        },
        _ => {
            let mut l = String::new();
            l.append("power limit: n/a");
            lines.push(l);
        },
    }
    lines
}

/// The cells of a row in the info table: index, name, then each reading or
/// "n/a".
pub open spec fn info_cells_spec(row: InfoRow) -> Seq<Seq<char>> {
    seq![
        decimal(row.index as nat),
        row.name@,
        na_or(u32_opt_text(row.gpu_clock_mhz)),
        na_or(i32_opt_text(row.gpu_offset_mhz)),
        na_or(u32_opt_text(row.mem_clock_mhz)),
        na_or(i32_opt_text(row.mem_offset_mhz)),
        na_or(u32_opt_text(row.temp_c)),
        na_or(u32_opt_text(row.power_w)),
        na_or(u32_opt_text(row.power_limit_w)),
        na_or(u32_opt_text(row.power_limit_pct)),
        na_or(str_opt_text(row.power_range)),
    ]
}

/// A value for a table cell: its text, or "n/a" when missing.
pub fn opt(v: Option<String>) -> (s: String)
    ensures
        s@ == na_or(str_opt_text(v)),
{
    match v {
        Some(s) => s,
        None => {
            let mut s = String::new();
            s.append("n/a");
            s
        },
    }
}

/// The cells of a row in the info table.
pub fn info_cells(row: &InfoRow) -> (cells: Vec<String>)
    ensures
        cells@.map_values(|c: String| c@) == info_cells_spec(*row),
{
    let mut cells: Vec<String> = Vec::new();
    cells.push(u32_text(row.index));
    cells.push(row.name.clone());
    cells.push(opt(u32_opt(row.gpu_clock_mhz)));
    cells.push(opt(i32_opt(row.gpu_offset_mhz)));
    cells.push(opt(u32_opt(row.mem_clock_mhz)));
    cells.push(opt(i32_opt(row.mem_offset_mhz)));
    cells.push(opt(u32_opt(row.temp_c)));
    cells.push(opt(u32_opt(row.power_w)));
    cells.push(opt(u32_opt(row.power_limit_w)));
    cells.push(opt(u32_opt(row.power_limit_pct)));
    let range = match &row.power_range {
        Some(r) => Some(r.clone()),
        None => None,
    };
    cells.push(opt(range));
    cells
}

} // verus!
