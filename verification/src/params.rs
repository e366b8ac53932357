//! The normalized data model: one reading per compute unit, the per-poll
//! snapshot, and the running-maximum fold applied across successive polls.

use vstd::prelude::*;

verus! {

/// The host operating system, fixed once when the monitor is built.
/// There is no fallback variant: on any other system the monitor cannot
/// be constructed at all.
#[derive(Clone, Copy, Debug, PartialEq, Eq, Structural)]
pub enum CurrentOperatingSystem {
    Windows,
    Linux,
    MacOS,
}

impl CurrentOperatingSystem {
    /// The platform's display name.
    pub fn implementation_name(&self) -> (r: String)
        ensures
            self is Windows ==> r@ == "Windows"@,
            self is Linux ==> r@ == "Linux"@,
            self is MacOS ==> r@ == "MacOS"@,
    {
        match self {
            CurrentOperatingSystem::Windows => "Windows".to_owned(),
            CurrentOperatingSystem::Linux => "Linux".to_owned(),
            CurrentOperatingSystem::MacOS => "MacOS".to_owned(),
        }
    }
}

/// One compute unit (a CPU package or one GPU device) at a point in time.
///
/// `usage_percentage`, `current_temperature` and `max_temperature` are
/// fixed-point values in whatever scale the caller samples in; this crate
/// only compares, averages and folds them. `max_temperature` is the running
/// peak temperature observed for the unit since the monitor was created.
#[derive(Debug)]
pub struct HardwareParameters {
    pub label: String,
    pub usage_percentage: u64,
    pub current_temperature: u64,
    pub max_temperature: u64,
}

/// The mathematical value of a `HardwareParameters`: the label as a
/// character sequence beside the three quantities.
pub struct ParamsView {
    pub label: Seq<char>,
    pub usage_percentage: u64,
    pub current_temperature: u64,
    pub max_temperature: u64,
}

impl View for HardwareParameters {
    type V = ParamsView;

    open spec fn view(&self) -> ParamsView {
        ParamsView {
            label: self.label@,
            usage_percentage: self.usage_percentage,
            current_temperature: self.current_temperature,
            max_temperature: self.max_temperature,
        }
    }
}

impl DeepView for HardwareParameters {
    type V = ParamsView;

    open spec fn deep_view(&self) -> ParamsView {
        self.view()
    }
}

impl Clone for HardwareParameters {
    fn clone(&self) -> (r: Self)
        ensures
            r@ == self@,
    {
        HardwareParameters {
            label: self.label.clone(),
            usage_percentage: self.usage_percentage,
            current_temperature: self.current_temperature,
            max_temperature: self.max_temperature,
        }
    }
}

impl ParamsView {
    /// A reading is well formed once the peak is no smaller than the
    /// current value; every reading this crate produces satisfies it.
    pub open spec fn wf(self) -> bool {
        self.max_temperature >= self.current_temperature
    }
}

/// The per-poll snapshot handed back to callers: one optional aggregated CPU
/// reading, and zero or more GPU readings in device-enumeration order.
#[derive(Debug)]
pub struct HardwareStatus {
    pub cpu: Option<HardwareParameters>,
    pub gpu: Vec<HardwareParameters>,
}

/// The views of a sequence of readings, elementwise.
pub open spec fn views_of(s: Seq<HardwareParameters>) -> Seq<ParamsView> {
    s.map_values(|p: HardwareParameters| p@)
}

impl Clone for HardwareStatus {
    fn clone(&self) -> (r: Self)
        ensures
            r.cpu.deep_view() == self.cpu.deep_view(),
            r.gpu.deep_view() == self.gpu.deep_view(),
    {
        let cpu = match &self.cpu {
            Some(p) => Some(p.clone()),
            None => None,
        };
        let mut gpu: Vec<HardwareParameters> = Vec::new();
        let mut i: usize = 0;
        while i < self.gpu.len()
            invariant
                0 <= i <= self.gpu.len(),
                gpu.deep_view() =~= views_of(self.gpu@.subrange(0, i as int)),
            decreases self.gpu.len() - i,
        {
            gpu.push(self.gpu[i].clone());
            proof {
                let pre = self.gpu@.subrange(0, i as int);
                let post = self.gpu@.subrange(0, i + 1);
                assert(post =~= pre.push(self.gpu@[i as int]));
                assert(views_of(post) =~= views_of(pre).push(self.gpu@[i as int]@));
                assert(gpu.deep_view() =~= views_of(post));
            }
            i += 1;
        }
        proof {
            assert(self.gpu@.subrange(0, self.gpu@.len() as int) =~= self.gpu@);
        }
        HardwareStatus { cpu, gpu }
    }
}

/// Why a CPU reading could not be produced from the given samples.
#[derive(Clone, Copy, Debug, PartialEq, Eq, Structural)]
pub enum SensorError {
    /// The core enumeration was empty, so no model label exists. The unit
    /// itself is missing; this is not a degradable condition.
    NoCpuDetected,
    /// No temperature component matched the platform's label heuristics;
    /// the reading as a whole is unavailable and the poll degrades.
    SensorUnavailable,
}

impl Default for HardwareParameters {
    /// The placeholder reading: no label, all quantities zero.
    fn default() -> (d: Self)
        ensures
            d.label@ == "N/A"@,
            d.usage_percentage == 0,
            d.current_temperature == 0,
            d.max_temperature == 0,
            d@.wf(),
    {
        HardwareParameters {
            label: "N/A".to_owned(),
            usage_percentage: 0,
            current_temperature: 0,
            max_temperature: 0,
        }
    }
}

/// The running-maximum fold: with a previous reading for the same unit the
/// new peak is the larger of the old peak and the fresh temperature; on the
/// first poll for a unit the fresh temperature is itself the peak.
pub open spec fn folded_max(previous: Option<ParamsView>, current: u64) -> u64 {
    match previous {
        Some(p) => if p.max_temperature >= current {
            p.max_temperature
        } else {
            current
        },
        None => current,
    }
}

/// Computes `folded_max` on real values.
pub fn fold_max_temperature(previous: &Option<HardwareParameters>, current: u64) -> (m: u64)
    ensures
        m == folded_max(previous.deep_view(), current),
{
    match previous {
        Some(p) => if p.max_temperature >= current {
            p.max_temperature
        } else {
            current
        },
        None => current,
    }
}

/// Across two successive polls of one unit, the peak never falls: the new
/// peak is at least the old peak and at least the fresh temperature.
pub proof fn lemma_running_max_monotonic(previous: ParamsView, current: u64)
    ensures
        folded_max(Some(previous), current) >= previous.max_temperature,
        folded_max(Some(previous), current) >= current,
{
}

/// On the first poll for a unit the peak equals the fresh temperature.
pub proof fn lemma_first_poll_max(current: u64)
    ensures
        folded_max(None, current) == current,
{
}

} // verus!
