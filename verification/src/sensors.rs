//! The CPU side of a poll: pick the temperature components that belong to
//! the CPU by the platform's label heuristics, average them, and fold the
//! running peak with the previous reading.

use vstd::prelude::*;

use crate::params::CurrentOperatingSystem;
use crate::params::HardwareParameters;
use crate::params::SensorError;
use crate::params::fold_max_temperature;
use crate::params::folded_max;
use crate::text::contains_pattern;
use crate::text::str_contains;

verus! {

/// One labeled temperature component as the host enumerates it.
#[derive(Debug)]
pub struct SensorReading {
    pub label: String,
    pub temperature: u64,
}

/// The temperatures of the components whose label contains `pat`, in
/// enumeration order.
pub open spec fn matching_temperatures(comps: Seq<SensorReading>, pat: Seq<char>) -> Seq<u64>
    decreases comps.len(),
{
    if comps.len() == 0 {
        Seq::empty()
    } else {
        let rest = matching_temperatures(comps.drop_last(), pat);
        if contains_pattern(comps.last().label@, pat) {
            rest.push(comps.last().temperature)
        } else {
            rest
        }
    }
}

/// The temperatures the platform heuristics select for the CPU.
///
/// Each platform matches a primary marker; Linux and macOS fall back to a
/// secondary marker when the primary matches nothing (AMD before Intel
/// package sensors on Linux, Apple-silicon before Intel on macOS).
pub open spec fn selected_cpu_temperatures(
    os: CurrentOperatingSystem,
    comps: Seq<SensorReading>,
) -> Seq<u64> {
    match os {
        CurrentOperatingSystem::Windows => matching_temperatures(comps, "Cpu"@),
        CurrentOperatingSystem::Linux => {
            let amd = matching_temperatures(comps, "k10temp Tctl"@);
            if amd.len() == 0 {
                matching_temperatures(comps, "Package"@)
            } else {
                amd
            }
        },
        CurrentOperatingSystem::MacOS => {
            let silicon = matching_temperatures(comps, "MTR"@);
            if silicon.len() == 0 {
                matching_temperatures(comps, "CPU"@)
            } else {
                silicon
            }
        },
    }
}

/// The sum of a sequence of temperatures.
pub open spec fn sum_of(temps: Seq<u64>) -> int
    decreases temps.len(),
{
    if temps.len() == 0 {
        0
    } else {
        sum_of(temps.drop_last()) + temps.last()
    }
}

/// The mean temperature, rounded toward zero. Meaningful only for a
/// non-empty sequence; an empty one has no mean and the callers below
/// report `SensorError::SensorUnavailable` instead.
pub open spec fn average_of(temps: Seq<u64>) -> int {
    sum_of(temps) / (temps.len() as int)
}

/// The CPU label shown to callers: the brand of the first core, with a
/// platform suffix on macOS.
pub open spec fn cpu_label(os: CurrentOperatingSystem, brand: Seq<char>) -> Seq<char> {
    match os {
        CurrentOperatingSystem::MacOS => brand + " CPU"@,
        _ => brand,
    }
}

/// The CPU reading a poll produces from its samples, when one can be
/// produced at all: the labeled brand, the given usage, the mean selected
/// temperature, and the running peak folded with the previous reading.
pub open spec fn cpu_reading_of(
    os: CurrentOperatingSystem,
    comps: Seq<SensorReading>,
    usage: u64,
    brand: Seq<char>,
    prev: Option<crate::params::ParamsView>,
) -> crate::params::ParamsView {
    let current = average_of(selected_cpu_temperatures(os, comps)) as u64;
    crate::params::ParamsView {
        label: cpu_label(os, brand),
        usage_percentage: usage,
        current_temperature: current,
        max_temperature: folded_max(prev, current),
    }
}

/// Across two successive polls the CPU peak never falls and always covers
/// the fresh temperature; on the first poll it equals the fresh
/// temperature.
pub proof fn lemma_cpu_peak_monotonic(
    os: CurrentOperatingSystem,
    comps: Seq<SensorReading>,
    usage: u64,
    brand: Seq<char>,
    prev: Option<crate::params::ParamsView>,
)
    ensures
        cpu_reading_of(os, comps, usage, brand, prev).max_temperature >= cpu_reading_of(
            os,
            comps,
            usage,
            brand,
            prev,
        ).current_temperature,
        prev matches Some(p) ==> cpu_reading_of(os, comps, usage, brand, prev).max_temperature
            >= p.max_temperature,
        prev is None ==> cpu_reading_of(os, comps, usage, brand, prev).max_temperature
            == cpu_reading_of(os, comps, usage, brand, prev).current_temperature,
{
}

/// Collects the temperatures of the components whose label contains `pat`.
pub fn matching_temperatures_exec(comps: &Vec<SensorReading>, pat: &str) -> (out: Vec<u64>)
    ensures
        out@ == matching_temperatures(comps@, pat@),
{
    let mut out: Vec<u64> = Vec::new();
    let mut i: usize = 0;
    while i < comps.len()
        invariant
            0 <= i <= comps@.len(),
            out@ == matching_temperatures(comps@.subrange(0, i as int), pat@),
        decreases comps@.len() - i,
    {
        if str_contains(comps[i].label.as_str(), pat) {
            out.push(comps[i].temperature);
        }
        proof {
            let pre = comps@.subrange(0, i as int);
            let post = comps@.subrange(0, i + 1);
            assert(post.drop_last() =~= pre);
            assert(post.last() == comps@[i as int]);
        }
        i += 1;
    }
    proof {
        assert(comps@.subrange(0, comps@.len() as int) =~= comps@);
    }
    out
}

/// Collects the CPU temperatures that the platform heuristics select.
pub fn selected_cpu_temperatures_exec(
    os: CurrentOperatingSystem,
    comps: &Vec<SensorReading>,
) -> (out: Vec<u64>)
    ensures
        out@ == selected_cpu_temperatures(os, comps@),
{
    match os {
        CurrentOperatingSystem::Windows => matching_temperatures_exec(comps, "Cpu"),
        CurrentOperatingSystem::Linux => {
            let amd = matching_temperatures_exec(comps, "k10temp Tctl");
            if amd.len() == 0 {
                matching_temperatures_exec(comps, "Package")
            } else {
                amd
            }
        },
        CurrentOperatingSystem::MacOS => {
            let silicon = matching_temperatures_exec(comps, "MTR");
            if silicon.len() == 0 {
                matching_temperatures_exec(comps, "CPU")
            } else {
                silicon
            }
        },
    }
}

/// Averages a non-empty sequence of temperatures. The mean of `u64` values
/// is itself within `u64` range.
pub fn average_of_exec(temps: &Vec<u64>) -> (a: u64)
    requires
        temps@.len() > 0,
    ensures
        a == average_of(temps@),
{
    let mut sum: u128 = 0;
    let mut i: usize = 0;
    while i < temps.len()
        invariant
            0 <= i <= temps@.len(),
            sum == sum_of(temps@.subrange(0, i as int)),
            sum <= (i as int) * (u64::MAX as int),
        decreases temps@.len() - i,
    {
        proof {
            let pre = temps@.subrange(0, i as int);
            let post = temps@.subrange(0, i + 1);
            assert(post.drop_last() =~= pre);
            assert(post.last() == temps@[i as int]);
        }
        sum = sum + (temps[i] as u128);
        i += 1;
    }
    proof {
        assert(temps@.subrange(0, temps@.len() as int) =~= temps@);
        let n = temps@.len() as int;
        let s = sum as int;
        vstd::arithmetic::div_mod::lemma_div_is_ordered(s, n * (u64::MAX as int), n);
        vstd::arithmetic::div_mod::lemma_div_by_multiple(u64::MAX as int, n);
        assert(s / n <= u64::MAX as int);
        vstd::arithmetic::div_mod::lemma_div_pos_is_pos(s, n);
    }
    let q: u128 = sum / (temps.len() as u128);
    q as u64
}

/// One CPU reading from fresh samples, folding the running peak with the
/// previous poll's reading.
///
/// `components` is the temperature-component enumeration, `usage` the global
/// CPU utilization, and `cpu_brand` the brand string of the first logical
/// core (`None` when the host enumerates no cores at all).
///
/// Succeeds exactly when a core exists and at least one component matches
/// the platform's heuristics; a host without cores is `NoCpuDetected`, one
/// whose components all miss the heuristics is `SensorUnavailable`.
pub fn read_cpu_parameters(
    os: CurrentOperatingSystem,
    components: &Vec<SensorReading>,
    usage: u64,
    cpu_brand: &Option<String>,
    previous: &Option<HardwareParameters>,
) -> (r: Result<HardwareParameters, SensorError>)
    ensures
        r is Ok <==> (cpu_brand is Some && selected_cpu_temperatures(os, components@).len() > 0),
        r matches Ok(p) ==> cpu_brand matches Some(b) && {
            &&& p@.label == cpu_label(os, b@)
            &&& p@.usage_percentage == usage
            &&& p@.current_temperature == average_of(selected_cpu_temperatures(os, components@))
            &&& p@.max_temperature == folded_max(previous.deep_view(), p@.current_temperature)
            &&& p@ == cpu_reading_of(os, components@, usage, b@, previous.deep_view())
            &&& p@.wf()
        },
        r matches Err(e) ==> (e == SensorError::NoCpuDetected <==> cpu_brand is None),
        r matches Err(e) ==> (e == SensorError::SensorUnavailable <==> (cpu_brand is Some
            && selected_cpu_temperatures(os, components@).len() == 0)),
{
    let brand = match cpu_brand {
        Some(b) => b,
        None => {
            return Err(SensorError::NoCpuDetected);
        },
    };
    let temps = selected_cpu_temperatures_exec(os, components);
    if temps.len() == 0 {
        return Err(SensorError::SensorUnavailable);
    }
    let current_temperature = average_of_exec(&temps);
    let label = match os {
        CurrentOperatingSystem::MacOS => brand.clone().concat(" CPU"),
        _ => brand.clone(),
    };
    let max_temperature = fold_max_temperature(previous, current_temperature);
    Ok(
        HardwareParameters {
            label,
            usage_percentage: usage,
            current_temperature,
            max_temperature,
        },
    )
}

} // verus!
