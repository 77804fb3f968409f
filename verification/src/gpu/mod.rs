//! GPU selection and driver checks.

use vstd::prelude::*;
use crate::cli::DeviceSelector;
use crate::error::AppError;
use crate::text::{chars_of, parse_u32_chars, parse_u32_spec, push_decimal, decimal};

pub mod info;
pub mod overclock;
pub mod pattern;
pub mod power;
pub mod reset;

use pattern::{compile, is_match, regex_compiles, regex_is_match};

verus! {

/// The oldest driver major version the tool works with.
pub const MIN_DRIVER_VERSION: u32 = 550;

/// A GPU found on the system: its index and its name.
#[derive(Debug, Clone)]
pub struct DeviceRef {
    pub index: u32,
    pub name: String,
}

impl DeviceRef {
    /// A copy of the reference.
    pub fn duplicate(&self) -> (d: DeviceRef)
        ensures
            d == *self,
    {
        DeviceRef { index: self.index, name: self.name.clone() }
    }
}

/// Why a selector picks no GPUs.
#[derive(Debug)]
pub enum SelectError {
    /// No GPU has the requested index, or the name pattern does not compile.
    InvalidArgument,
}

/// The devices among `devices` whose names the pattern matches, in order.
pub open spec fn matching(devices: Seq<DeviceRef>, pattern: Seq<char>) -> Seq<DeviceRef>
    decreases devices.len(),
{
    if devices.len() == 0 {
        Seq::empty()
    } else {
        let rest = matching(devices.drop_last(), pattern);
        if regex_is_match(pattern, devices.last().name@) {
            rest.push(devices.last())
        } else {
            rest
        }
    }
}

/// A name pattern picks exactly the GPUs found whose names it matches, and
/// never more GPUs than were found.
pub proof fn lemma_matching_exact(devices: Seq<DeviceRef>, pattern: Seq<char>)
    ensures
        matching(devices, pattern).len() <= devices.len(),
        forall|x: DeviceRef|
            #[trigger] matching(devices, pattern).contains(x) <==> (devices.contains(x)
                && regex_is_match(pattern, x.name@)),
    decreases devices.len(),
{
    if devices.len() > 0 {
        let init = devices.drop_last();
        lemma_matching_exact(init, pattern);
        let rest = matching(init, pattern);
        assert forall|x: DeviceRef|
            #[trigger] matching(devices, pattern).contains(x) <==> (devices.contains(x)
                && regex_is_match(pattern, x.name@)) by {
            if devices.contains(x) {
                let j = choose|j: int| 0 <= j < devices.len() && devices[j] == x;
                if j < devices.len() - 1 {
                    assert(init[j] == x);
                }
            }
            if init.contains(x) {
                let j = choose|j: int| 0 <= j < init.len() && init[j] == x;
            }
            if regex_is_match(pattern, devices.last().name@) {
                assert(rest.push(devices.last()).last() == devices.last());
                if rest.contains(x) {
                    let j = choose|j: int| 0 <= j < rest.len() && rest[j] == x;
                    assert(rest.push(devices.last())[j] == x);
                }
                if rest.push(devices.last()).contains(x) && x != devices.last() {
                    let j = choose|j: int| 0 <= j < rest.len() + 1 && rest.push(devices.last())[j] == x;
                }
            }
        }
    }
}

/// `j` is the first position of a device with index `idx`.
pub open spec fn first_with_index(devices: Seq<DeviceRef>, idx: u32, j: int) -> bool {
    &&& 0 <= j < devices.len()
    &&& devices[j].index == idx
    &&& forall|k: int| 0 <= k < j ==> devices[k].index != idx
}

/// Picks the GPUs a selector names among the GPUs found: all of them; the
/// first one with the given index; or, in order, those whose names match the
/// pattern.
pub fn select_devices(devices: Vec<DeviceRef>, selector: &DeviceSelector) -> (r: Result<
    Vec<DeviceRef>,
    SelectError,
>)
    ensures
        *selector is All ==> (r matches Ok(v) && v@ == devices@),
        *selector matches DeviceSelector::Single(idx) ==> {
            &&& (r is Ok <==> exists|j: int| 0 <= j < devices@.len() && devices@[j].index == idx)
            &&& r matches Ok(v) ==> exists|j: int|
                first_with_index(devices@, idx, j) && v@ == seq![devices@[j]]
        },
        *selector matches DeviceSelector::Match(re) ==> {
            &&& (r is Ok <==> regex_compiles(re@))
            &&& r matches Ok(v) ==> v@ == matching(devices@, re@)
        },
{
    match selector {
        DeviceSelector::All => Ok(devices),
        DeviceSelector::Single(index) => {
            let mut j: usize = 0;
            while j < devices.len()
                invariant
                    j <= devices@.len(),
                    *selector == DeviceSelector::Single(*index),
                    forall|k: int| 0 <= k < j ==> devices@[k].index != *index,
                decreases devices@.len() - j,
            {
                if devices[j].index == *index {
                    let mut out: Vec<DeviceRef> = Vec::new();
                    out.push(devices[j].duplicate());
                    assert(first_with_index(devices@, *index, j as int));
                    return Ok(out);
                }
                j = j + 1;
            }
            Err(SelectError::InvalidArgument)
        },
        DeviceSelector::Match(re) => {
            let pattern = match compile(re.as_str()) {
                Ok(p) => p,
                Err(_) => {
                    return Err(SelectError::InvalidArgument);
                },
            };
            let mut out: Vec<DeviceRef> = Vec::new();
            let mut j: usize = 0;
            while j < devices.len()
                invariant
                    j <= devices@.len(),
                    pattern@ == re@,
                    out@ == matching(devices@.take(j as int), re@),
                decreases devices@.len() - j,
            {
                assert(devices@.take(j + 1).drop_last() =~= devices@.take(j as int));
                if is_match(&pattern, devices[j].name.as_str()) {
                    out.push(devices[j].duplicate());
                }
                j = j + 1;
            }
            assert(devices@.take(devices@.len() as int) =~= devices@);
            Ok(out)
        },
    }
}

/// The text before the first '.' of `s` (all of `s` when it has none).
pub open spec fn major_field(s: Seq<char>) -> Seq<char> {
    if exists|i: int| 0 <= i < s.len() && s[i] == '.' {
        s.take(choose|i: int| 0 <= i < s.len() && s[i] == '.' && forall|k: int| 0 <= k < i ==> s[k] != '.')
    } else {
        s
    }
}

/// The driver's major version, read from the text before the first '.'.
pub open spec fn driver_major(version: Seq<char>) -> Option<u32> {
    parse_u32_spec(major_field(version))
}

/// Checks that the driver version string names a supported driver: its major
/// version must parse and be at least [`MIN_DRIVER_VERSION`].
pub fn check_driver_version(driver_version: &str) -> (r: Result<u32, AppError>)
    ensures
        match driver_major(driver_version@) {
            None => (r matches Err(e) && e@.domain == "driver"@ && e@.source is None
                && e@.message == Some("unparseable version: "@ + driver_version@) && !e@.printed),
            Some(major) => if major < MIN_DRIVER_VERSION {
                (r matches Err(e) && e@.domain == "driver"@ && e@.source is None
                    && e@.message == Some(
                    "version "@ + driver_version@ + " too old, need "@ + decimal(
                        MIN_DRIVER_VERSION as nat,
                    ) + "+"@,
                ) && !e@.printed)
            } else {
                r == Ok::<u32, AppError>(major)
            },
        },
{
    let v = chars_of(driver_version);
    let mut end: usize = 0;
    while end < v.len() && v[end] != '.'
        invariant
            end <= v@.len(),
            v@ == driver_version@,
            forall|k: int| 0 <= k < end ==> v@[k] != '.',
        decreases v@.len() - end,
    {
        end = end + 1;
    }
    proof {
        let s = driver_version@;
        if end < v.len() {
            let c = choose|i: int| 0 <= i < s.len() && s[i] == '.' && forall|k: int| 0 <= k < i ==> s[k] != '.';
        } else {
            assert(major_field(s) =~= v@.subrange(0, end as int));
        }
    }
    match parse_u32_chars(&v, 0, end) {
        None => {
            let mut m = String::new();
            m.append("unparseable version: ");
            m.append(driver_version);
            Err(AppError::msg("driver", m))
        },
        Some(major) => {
            if major < MIN_DRIVER_VERSION {
                let mut m = String::new();
                m.append("version ");
                m.append(driver_version);
                m.append(" too old, need ");
                push_decimal(&mut m, MIN_DRIVER_VERSION);
                m.append("+");
                Err(AppError::msg("driver", m))
            } else {
                Ok(major)
            }
        },
    }
}

} // verus!
