//! Command-line configuration: the operation to run, which GPUs it targets,
//! and the parsing of the `--clocks MIN,MAX` argument.

use vstd::prelude::*;
use crate::text::{chars_of, decimal, is_digit, lemma_decimal_digits, lemma_parse_decimal, parse_u32_chars, parse_u32_spec};

verus! {

/// The settings that an overclock run applies; `None` leaves a setting alone.
#[derive(Debug, Clone, Copy)]
pub struct OverclockParams {
    pub clocks: Option<(u32, u32)>,
    pub graphics_offset: Option<i32>,
    pub memory_offset: Option<i32>,
    pub power_limit: Option<u32>,
    pub dry_run: bool,
}

/// What a run of the tool does.
#[derive(Debug)]
pub enum Operation {
    Info,
    Reset { dry_run: bool },
    Overclock(OverclockParams),
}

impl Operation {
    /// Whether the operation changes GPU settings (everything but `Info`).
    pub fn modifies_gpu(&self) -> (b: bool)
        ensures
            b == !(*self is Info),
    {
        match self {
            Operation::Info => false,
            Operation::Reset { .. } => true,
            Operation::Overclock(_) => true,
        }
    }
}

/// Which GPUs an operation targets.
#[derive(Debug, Clone)]
pub enum DeviceSelector {
    Single(u32),
    All,
    Match(String),
}

/// A complete run configuration.
#[derive(Debug)]
pub struct Config {
    pub selector: DeviceSelector,
    pub no_table: bool,
    pub operation: Operation,
}

/// The subcommand given on the command line, if any.
#[derive(Debug)]
pub enum Command {
    Info,
    Reset { dry_run: bool },
    Apply,
}

/// The values read from the command line, before they are checked and
/// combined into a [`Config`].
#[derive(Debug)]
pub struct ArgValues {
    pub command: Command,
    pub clocks: Option<(u32, u32)>,
    pub graphics_offset: Option<i32>,
    pub memory_offset: Option<i32>,
    pub power_limit: Option<u32>,
    pub dry_run: bool,
    pub no_table: bool,
    pub device: Option<u32>,
    pub match_regex: Option<String>,
    pub all: bool,
}

/// Why the command line does not describe a run.
#[derive(Debug)]
pub enum ConfigError {
    /// No subcommand and none of the overclock options.
    NoOperation,
}

impl ConfigError {
    /// The message shown to the user.
    pub fn message(&self) -> (m: &'static str)
        ensures
            m@ == "No operation specified. Use a subcommand (info, reset) or provide overclock options (-c, -o, -m, -p)."@,
    {
        "No operation specified. Use a subcommand (info, reset) or provide overclock options (-c, -o, -m, -p)."
    }
}

/// True when no overclock option was given.
pub open spec fn no_overclock_options(a: ArgValues) -> bool {
    &&& a.clocks is None
    &&& a.graphics_offset is None
    &&& a.memory_offset is None
    &&& a.power_limit is None
}

/// The selector used when none of `--device`, `--all`, `--match` is given:
/// every GPU for `Info`, GPU 0 for the operations that change settings.
pub open spec fn default_selector(op: Operation) -> DeviceSelector {
    match op {
        Operation::Info => DeviceSelector::All,
        _ => DeviceSelector::Single(0),
    }
}

/// The selector chosen from the arguments: `--device` first, then `--all`,
/// then `--match`, else the default of the operation.
pub open spec fn selector_spec(a: ArgValues, op: Operation) -> DeviceSelector {
    if a.device is Some {
        DeviceSelector::Single(a.device->0)
    } else if a.all {
        DeviceSelector::All
    } else if a.match_regex is Some {
        DeviceSelector::Match(a.match_regex->0)
    } else {
        default_selector(op)
    }
}

/// The operation the arguments ask for; `None` when there is no subcommand
/// and no overclock option.
pub open spec fn operation_spec(a: ArgValues) -> Option<Operation> {
    match a.command {
        Command::Reset { dry_run } => Some(Operation::Reset { dry_run }),
        Command::Info => Some(Operation::Info),
        Command::Apply => if no_overclock_options(a) {
            None
        } else {
            Some(
                Operation::Overclock(
                    OverclockParams {
                        clocks: a.clocks,
                        graphics_offset: a.graphics_offset,
                        memory_offset: a.memory_offset,
                        power_limit: a.power_limit,
                        dry_run: a.dry_run,
                    },
                ),
            )
        },
    }
}

/// The operation follows the subcommand: `reset` resets with exactly the
/// dry-run flag given with it, `info` shows information, and without a
/// subcommand the overclock options are applied as given, dry-run flag
/// included; with neither there is no operation.
pub proof fn lemma_operation_follows_command(a: ArgValues)
    ensures
        a.command matches Command::Reset { dry_run } ==> operation_spec(a) == Some(
            (Operation::Reset { dry_run }),
        ),
        a.command is Info ==> operation_spec(a) == Some(Operation::Info),
        a.command is Apply ==> (operation_spec(a) is None <==> no_overclock_options(a)),
        a.command is Apply && !no_overclock_options(a) ==> operation_spec(a) == Some(
            Operation::Overclock(
                (OverclockParams {
                    clocks: a.clocks,
                    graphics_offset: a.graphics_offset,
                    memory_offset: a.memory_offset,
                    power_limit: a.power_limit,
                    dry_run: a.dry_run,
                }),
            ),
        ),
{
}

/// `--device` wins over `--all`, which wins over `--match`; with none of
/// them `info` covers every GPU and the operations that change settings
/// target GPU 0.
pub proof fn lemma_selector_precedence(a: ArgValues, op: Operation)
    ensures
        a.device matches Some(d) ==> selector_spec(a, op) == DeviceSelector::Single(d),
        a.device is None && a.all ==> selector_spec(a, op) == DeviceSelector::All,
        a.device is None && !a.all && a.match_regex is Some ==> selector_spec(a, op)
            == DeviceSelector::Match(a.match_regex->0),
        a.device is None && !a.all && a.match_regex is None && op is Info ==> selector_spec(a, op)
            == DeviceSelector::All,
        a.device is None && !a.all && a.match_regex is None && !(op is Info) ==> selector_spec(a, op)
            == DeviceSelector::Single(0),
{
}

impl Config {
    /// Combines the command-line values into a configuration.
    pub fn from_values(a: ArgValues) -> (r: Result<Config, ConfigError>)
        ensures
            operation_spec(a) is None <==> r is Err,
            r matches Ok(c) ==> {
                &&& Some(c.operation) == operation_spec(a)
                &&& c.selector == selector_spec(a, c.operation)
                &&& c.no_table == a.no_table
            },
            a.command matches Command::Reset { dry_run } ==> (r matches Ok(c) && c.operation == (
            Operation::Reset { dry_run })),
            a.command is Info ==> (r matches Ok(c) && c.operation is Info),
            a.command is Apply ==> (r is Err <==> no_overclock_options(a)),
            r matches Ok(c) ==> (a.device matches Some(d) ==> c.selector == DeviceSelector::Single(
                d,
            )),
            r matches Ok(c) ==> (a.device is None && a.all ==> c.selector is All),
            r matches Ok(c) ==> (a.device is None && !a.all && a.match_regex is Some ==> c.selector
                == DeviceSelector::Match(a.match_regex->0)),
            r matches Ok(c) ==> (a.device is None && !a.all && a.match_regex is None ==> c.selector
                == if a.command is Info {
                DeviceSelector::All
            } else {
                DeviceSelector::Single(0)
            }),
            a.command is Apply ==> (r matches Ok(c) ==> c.operation == Operation::Overclock(
                (OverclockParams {
                    clocks: a.clocks,
                    graphics_offset: a.graphics_offset,
                    memory_offset: a.memory_offset,
                    power_limit: a.power_limit,
                    dry_run: a.dry_run,
                }),
            )),
    {
        let operation = match a.command {
            Command::Reset { dry_run } => Operation::Reset { dry_run },
            Command::Info => Operation::Info,
            Command::Apply => {
                if a.clocks.is_none() && a.graphics_offset.is_none() && a.memory_offset.is_none()
                    && a.power_limit.is_none() {
                    return Err(ConfigError::NoOperation);
                }
                Operation::Overclock(
                    OverclockParams {
                        clocks: a.clocks,
                        graphics_offset: a.graphics_offset,
                        memory_offset: a.memory_offset,
                        power_limit: a.power_limit,
                        dry_run: a.dry_run,
                    },
                )
            },
        };
        let selector = if let Some(device) = a.device {
            DeviceSelector::Single(device)
        } else if a.all {
            DeviceSelector::All
        } else if let Some(re) = a.match_regex {
            DeviceSelector::Match(re)
        } else {
            match operation {
                Operation::Info => DeviceSelector::All,
                Operation::Reset { .. } => DeviceSelector::Single(0),
                Operation::Overclock(_) => DeviceSelector::Single(0),
            }
        };
        Ok(Config { selector, no_table: a.no_table, operation })
    }
}

/// `s` holds exactly one comma, at index `i`.
pub open spec fn single_comma_at(s: Seq<char>, i: int) -> bool {
    &&& 0 <= i < s.len()
    &&& s[i] == ','
    &&& forall|j: int| 0 <= j < s.len() && j != i ==> s[j] != ','
}

/// What `parse_clocks` gives for `s`: exactly two comma-separated fields,
/// each a `u32` as `str::parse` reads it, the first below the second.
pub open spec fn parse_clocks_spec(s: Seq<char>) -> Result<(u32, u32), Seq<char>> {
    if exists|i: int| single_comma_at(s, i) {
        let i = choose|i: int| single_comma_at(s, i);
        match parse_u32_spec(s.take(i)) {
            None => Err("Invalid minimum clock value"@),
            Some(min) => match parse_u32_spec(s.skip(i + 1)) {
                None => Err("Invalid maximum clock value"@),
                Some(max) => if min >= max {
                    Err("Minimum clock must be less than maximum clock"@)
                } else {
                    Ok((min, max))
                },
            },
        }
    } else {
        Err("Clock format must be 'min,max'"@)
    }
}

/// Parses the `--clocks` argument `MIN,MAX` into a pair of locked-clock
/// bounds in MHz.
pub fn parse_clocks(s: &str) -> (r: Result<(u32, u32), &'static str>)
    ensures
        match r {
            Ok(p) => parse_clocks_spec(s@) == Ok::<(u32, u32), Seq<char>>(p),
            Err(m) => parse_clocks_spec(s@) == Err::<(u32, u32), Seq<char>>(m@),
        },
{
    let v = chars_of(s);
    let ghost sv = v@;
    let mut first: Option<usize> = None;
    let mut repeated = false;
    let mut k: usize = 0;
    while k < v.len()
        invariant
            k <= v.len(),
            sv == v@,
            first is None ==> forall|j: int| 0 <= j < k ==> sv[j] != ',',
            first matches Some(i) ==> {
                &&& i < k
                &&& sv[i as int] == ','
                &&& !repeated ==> forall|j: int| 0 <= j < k && j != i ==> sv[j] != ','
                &&& repeated ==> exists|j: int| 0 <= j < k && j != i && sv[j] == ','
            },
            first is None ==> !repeated,
        decreases v.len() - k,
    {
        if v[k] == ',' {
            match first {
                None => {
                    first = Some(k);
                },
                Some(_) => {
                    repeated = true;
                },
            }
        }
        k = k + 1;
    }
    let i = match first {
        Some(i) => {
            if repeated {
                assert forall|x: int| !single_comma_at(sv, x) by {
                    if single_comma_at(sv, x) {
                        // a second comma `j` besides the one at `i`
                        let j = choose|j: int| 0 <= j < sv.len() && j != i && sv[j] == ',';
                        assert(j != i && sv[j] == ',' && sv[i as int] == ',');
                    }
                }
                return Err("Clock format must be 'min,max'");
            }
            i
        },
        None => {
            return Err("Clock format must be 'min,max'");
        },
    };
    assert(single_comma_at(sv, i as int));
    let min = match parse_u32_chars(&v, 0, i) {
        Some(m) => m,
        None => {
            return Err("Invalid minimum clock value");
        },
    };
    let max = match parse_u32_chars(&v, i + 1, v.len()) {
        Some(m) => m,
        None => {
            return Err("Invalid maximum clock value");
        },
    };
    if min >= max {
        return Err("Minimum clock must be less than maximum clock");
    }
    Ok((min, max))
}

/// Writing two clock bounds as "MIN,MAX" in decimal and parsing the text
/// back gives the same bounds, whenever MIN is below MAX.
pub proof fn lemma_parse_clocks_roundtrip(min: u32, max: u32)
    requires
        min < max,
    ensures
        parse_clocks_spec(decimal(min as nat) + seq![','] + decimal(max as nat)) == Ok::<
            (u32, u32),
            Seq<char>,
        >((min, max)),
{
    let da = decimal(min as nat);
    let db = decimal(max as nat);
    let s = da + seq![','] + db;
    lemma_decimal_digits(min as nat);
    lemma_decimal_digits(max as nat);
    lemma_parse_decimal(min);
    lemma_parse_decimal(max);
    let i = da.len() as int;
    assert(single_comma_at(s, i));
    assert(s.take(i) =~= da);
    assert(s.skip(i + 1) =~= db);
}

} // verus!
