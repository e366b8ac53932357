//! The GPU side of a poll: turn per-device telemetry (or, without a vendor
//! library, generic sensor signals) into an ordered reading list, folding
//! each device's running peak with the positionally-matching previous entry.

use vstd::prelude::*;

use crate::params::CurrentOperatingSystem;
use crate::params::HardwareParameters;
use crate::params::ParamsView;
use crate::params::folded_max;
use crate::sensors::SensorReading;
use crate::sensors::average_of;
use crate::sensors::average_of_exec;
use crate::sensors::matching_temperatures;
use crate::sensors::matching_temperatures_exec;

verus! {

/// One successful vendor-telemetry query for one GPU device.
#[derive(Debug)]
pub struct GpuReading {
    pub name: String,
    pub temperature: u64,
    pub utilization: u64,
}

/// The mathematical value of a `GpuReading`.
pub struct GpuReadingView {
    pub name: Seq<char>,
    pub temperature: u64,
    pub utilization: u64,
}

impl View for GpuReading {
    type V = GpuReadingView;

    open spec fn view(&self) -> GpuReadingView {
        GpuReadingView {
            name: self.name@,
            temperature: self.temperature,
            utilization: self.utilization,
        }
    }
}

impl DeepView for GpuReading {
    type V = GpuReadingView;

    open spec fn deep_view(&self) -> GpuReadingView {
        self.view()
    }
}

/// What one poll could gather about the GPUs, as the caller sampled it.
#[derive(Debug)]
pub enum GpuSample {
    /// No vendor telemetry provider could be initialized; the reading list
    /// is empty.
    Unavailable,
    /// Vendor telemetry: one entry per device index, in enumeration order.
    /// `None` marks a device whose query failed; that index is skipped, not
    /// padded.
    Devices(Vec<Option<GpuReading>>),
    /// Generic sensor fallback for a platform without a vendor library:
    /// the full temperature-component enumeration, the per-core brand
    /// strings, and the global CPU utilization standing in for GPU usage.
    Generic { components: Vec<SensorReading>, cpu_brands: Vec<String>, usage: u64 },
}

/// The previous reading at device index `i`, if one exists. A device the
/// previous poll skipped or did not see has no prior peak.
pub open spec fn prev_at(prev: Seq<ParamsView>, i: int) -> Option<ParamsView> {
    if 0 <= i < prev.len() {
        Some(prev[i])
    } else {
        None
    }
}

/// The reading built from one vendor query, its peak folded with the
/// positionally-matching previous entry.
pub open spec fn vendor_reading(r: GpuReadingView, prev: Option<ParamsView>) -> ParamsView {
    ParamsView {
        label: r.name,
        usage_percentage: r.utilization,
        current_temperature: r.temperature,
        max_temperature: folded_max(prev, r.temperature),
    }
}

/// The readings for vendor device indices below `n`, skipping failed ones.
pub open spec fn vendor_readings_prefix(
    devs: Seq<Option<GpuReadingView>>,
    prev: Seq<ParamsView>,
    n: int,
) -> Seq<ParamsView>
    decreases n,
{
    if n <= 0 {
        Seq::empty()
    } else {
        let rest = vendor_readings_prefix(devs, prev, n - 1);
        match devs[n - 1] {
            Some(r) => rest.push(vendor_reading(r, prev_at(prev, n - 1))),
            None => rest,
        }
    }
}

/// The full vendor reading list for one poll.
pub open spec fn vendor_readings(
    devs: Seq<Option<GpuReadingView>>,
    prev: Seq<ParamsView>,
) -> Seq<ParamsView> {
    vendor_readings_prefix(devs, prev, devs.len() as int)
}

/// One generic-fallback reading for device index `i`: the label is the
/// matching core brand, usage is the global CPU usage, and the temperature
/// is the mean over the GPU-labeled components. With a previous entry the
/// reported temperature stays the previous one and only the peak folds in
/// the fresh mean; without one the mean is both current and peak.
pub open spec fn generic_reading(
    brand: Seq<char>,
    usage: u64,
    avg: u64,
    prev: Option<ParamsView>,
) -> ParamsView {
    match prev {
        Some(p) => ParamsView {
            label: brand + " GPU"@,
            usage_percentage: usage,
            current_temperature: p.current_temperature,
            max_temperature: folded_max(Some(p), avg),
        },
        None => ParamsView {
            label: brand + " GPU"@,
            usage_percentage: usage,
            current_temperature: avg,
            max_temperature: avg,
        },
    }
}

/// The generic-fallback readings for device indices below `n`; an index
/// with no matching core brand is skipped.
pub open spec fn generic_readings_prefix(
    brands: Seq<Seq<char>>,
    usage: u64,
    avg: u64,
    prev: Seq<ParamsView>,
    n: int,
) -> Seq<ParamsView>
    decreases n,
{
    if n <= 0 {
        Seq::empty()
    } else {
        let rest = generic_readings_prefix(brands, usage, avg, prev, n - 1);
        if n - 1 < brands.len() {
            rest.push(generic_reading(brands[n - 1], usage, avg, prev_at(prev, n - 1)))
        } else {
            rest
        }
    }
}

/// The full generic-fallback list: the device count is the number of
/// GPU-labeled components, and their mean temperature stands in for every
/// device.
pub open spec fn generic_readings(
    comps: Seq<SensorReading>,
    brands: Seq<Seq<char>>,
    usage: u64,
    prev: Seq<ParamsView>,
) -> Seq<ParamsView> {
    let temps = matching_temperatures(comps, "GPU"@);
    if temps.len() == 0 {
        Seq::empty()
    } else {
        generic_readings_prefix(brands, usage, average_of(temps) as u64, prev, temps.len() as int)
    }
}

/// The reading list one poll produces from a GPU sample.
pub open spec fn gpu_readings_of(sample: GpuSample, prev: Seq<ParamsView>) -> Seq<ParamsView> {
    match sample {
        GpuSample::Unavailable => Seq::empty(),
        GpuSample::Devices(devs) => vendor_readings(devs.deep_view(), prev),
        GpuSample::Generic { components, cpu_brands, usage } => generic_readings(
            components@,
            cpu_brands.deep_view(),
            usage,
            prev,
        ),
    }
}

/// How many device indices below `n` answered their vendor query.
pub open spec fn present_count(devs: Seq<Option<GpuReadingView>>, n: int) -> int
    decreases n,
{
    if n <= 0 {
        0
    } else {
        present_count(devs, n - 1) + if devs[n - 1] is Some {
            1int
        } else {
            0int
        }
    }
}

/// The vendor list holds exactly one reading per answering device: skipped
/// indices add nothing, so the list never exceeds the device count.
pub proof fn lemma_vendor_list_within_device_count(
    devs: Seq<Option<GpuReadingView>>,
    prev: Seq<ParamsView>,
)
    ensures
        vendor_readings(devs, prev).len() == present_count(devs, devs.len() as int),
        vendor_readings(devs, prev).len() <= devs.len(),
{
    lemma_vendor_prefix_len(devs, prev, devs.len() as int);
}

proof fn lemma_vendor_prefix_len(devs: Seq<Option<GpuReadingView>>, prev: Seq<ParamsView>, n: int)
    requires
        n >= 0,
    ensures
        vendor_readings_prefix(devs, prev, n).len() == present_count(devs, n),
        present_count(devs, n) <= n,
    decreases n,
{
    if n > 0 {
        lemma_vendor_prefix_len(devs, prev, n - 1);
    }
}

/// The generic-fallback list holds one reading per device index that has a
/// matching core brand, so it never exceeds the device count (the number of
/// GPU-labeled components).
pub proof fn lemma_generic_list_within_device_count(
    comps: Seq<SensorReading>,
    brands: Seq<Seq<char>>,
    usage: u64,
    prev: Seq<ParamsView>,
)
    ensures
        generic_readings(comps, brands, usage, prev).len() == (if brands.len() < matching_temperatures(
            comps,
            "GPU"@,
        ).len() {
            brands.len() as int
        } else {
            matching_temperatures(comps, "GPU"@).len() as int
        }),
        generic_readings(comps, brands, usage, prev).len() <= matching_temperatures(
            comps,
            "GPU"@,
        ).len(),
{
    let temps = matching_temperatures(comps, "GPU"@);
    if temps.len() > 0 {
        lemma_generic_prefix_len(brands, usage, average_of(temps) as u64, prev, temps.len() as int);
    }
}

proof fn lemma_generic_prefix_len(
    brands: Seq<Seq<char>>,
    usage: u64,
    avg: u64,
    prev: Seq<ParamsView>,
    n: int,
)
    requires
        n >= 0,
    ensures
        generic_readings_prefix(brands, usage, avg, prev, n).len() == (if brands.len() < n {
            brands.len() as int
        } else {
            n
        }),
    decreases n,
{
    if n > 0 {
        lemma_generic_prefix_len(brands, usage, avg, prev, n - 1);
    }
}

/// One vendor reading's peak is at least the fresh temperature, at least
/// the previous peak where a positionally-matching entry exists, and
/// exactly the fresh temperature where none does (the device's first
/// appearance).
pub proof fn lemma_vendor_reading_peak(r: GpuReadingView, prev: Option<ParamsView>)
    ensures
        vendor_reading(r, prev).max_temperature >= r.temperature,
        prev matches Some(p) ==> vendor_reading(r, prev).max_temperature >= p.max_temperature,
        prev is None ==> vendor_reading(r, prev).max_temperature == r.temperature,
{
}

/// Every reading in a poll's GPU list is well formed, provided the previous
/// list's readings were (the generic fallback carries a previous current
/// temperature forward, so it needs the previous peak above it).
pub proof fn lemma_gpu_readings_wf(sample: GpuSample, prev: Seq<ParamsView>)
    requires
        forall|i: int| 0 <= i < prev.len() ==> (#[trigger] prev[i]).wf(),
    ensures
        forall|i: int|
            0 <= i < gpu_readings_of(sample, prev).len() ==> (#[trigger] gpu_readings_of(
                sample,
                prev,
            )[i]).wf(),
{
    match sample {
        GpuSample::Unavailable => {},
        GpuSample::Devices(devs) => {
            lemma_vendor_prefix_wf(devs.deep_view(), prev, devs.deep_view().len() as int);
        },
        GpuSample::Generic { components, cpu_brands, usage } => {
            let temps = matching_temperatures(components@, "GPU"@);
            if temps.len() > 0 {
                lemma_generic_prefix_wf(
                    cpu_brands.deep_view(),
                    usage,
                    average_of(temps) as u64,
                    prev,
                    temps.len() as int,
                );
            }
        },
    }
}

proof fn lemma_vendor_prefix_wf(devs: Seq<Option<GpuReadingView>>, prev: Seq<ParamsView>, n: int)
    ensures
        forall|i: int|
            0 <= i < vendor_readings_prefix(devs, prev, n).len() ==> (
            #[trigger] vendor_readings_prefix(devs, prev, n)[i]).wf(),
    decreases n,
{
    if n > 0 {
        lemma_vendor_prefix_wf(devs, prev, n - 1);
        let rest = vendor_readings_prefix(devs, prev, n - 1);
        let cur = vendor_readings_prefix(devs, prev, n);
        assert forall|i: int| 0 <= i < cur.len() implies (#[trigger] cur[i]).wf() by {
            if i < rest.len() {
                assert(cur[i] == rest[i]);
            } else {
                assert(devs[n - 1] matches Some(r) && cur[i] == vendor_reading(
                    r,
                    prev_at(prev, n - 1),
                ));
            }
        }
    }
}

proof fn lemma_generic_prefix_wf(
    brands: Seq<Seq<char>>,
    usage: u64,
    avg: u64,
    prev: Seq<ParamsView>,
    n: int,
)
    requires
        forall|i: int| 0 <= i < prev.len() ==> (#[trigger] prev[i]).wf(),
    ensures
        forall|i: int|
            0 <= i < generic_readings_prefix(brands, usage, avg, prev, n).len() ==> (
            #[trigger] generic_readings_prefix(brands, usage, avg, prev, n)[i]).wf(),
    decreases n,
{
    if n > 0 {
        lemma_generic_prefix_wf(brands, usage, avg, prev, n - 1);
        let rest = generic_readings_prefix(brands, usage, avg, prev, n - 1);
        let cur = generic_readings_prefix(brands, usage, avg, prev, n);
        assert forall|i: int| 0 <= i < cur.len() implies (#[trigger] cur[i]).wf() by {
            if i < rest.len() {
                assert(cur[i] == rest[i]);
            } else {
                assert(n - 1 < brands.len() && cur[i] == generic_reading(
                    brands[n - 1],
                    usage,
                    avg,
                    prev_at(prev, n - 1),
                ));
                match prev_at(prev, n - 1) {
                    Some(p) => {
                        assert(p == prev[n - 1]);
                        assert(p.wf());
                    },
                    None => {},
                }
            }
        }
    }
}

/// One poll's GPU reading list, built from the sample and the previous
/// poll's list.
pub fn read_gpu_parameters(sample: &GpuSample, previous: &Vec<HardwareParameters>) -> (r: Vec<
    HardwareParameters,
>)
    ensures
        r.deep_view() == gpu_readings_of(*sample, previous.deep_view()),
{
    match sample {
        GpuSample::Unavailable => {
            let r: Vec<HardwareParameters> = Vec::new();
            proof {
                assert(r.deep_view() =~= Seq::<ParamsView>::empty());
            }
            r
        },
        GpuSample::Devices(devs) => read_vendor_devices(devs, previous),
        GpuSample::Generic { components, cpu_brands, usage } => read_generic_components(
            components,
            cpu_brands,
            *usage,
            previous,
        ),
    }
}

/// Builds the vendor-telemetry reading list, skipping failed indices.
fn read_vendor_devices(devs: &Vec<Option<GpuReading>>, previous: &Vec<HardwareParameters>) -> (r:
    Vec<HardwareParameters>)
    ensures
        r.deep_view() == vendor_readings(devs.deep_view(), previous.deep_view()),
{
    let ghost dv = devs.deep_view();
    let ghost pv = previous.deep_view();
    let mut out: Vec<HardwareParameters> = Vec::new();
    let mut i: usize = 0;
    proof {
        assert(out.deep_view() =~= vendor_readings_prefix(dv, pv, 0));
    }
    while i < devs.len()
        invariant
            0 <= i <= devs@.len(),
            dv == devs.deep_view(),
            pv == previous.deep_view(),
            out.deep_view() =~= vendor_readings_prefix(dv, pv, i as int),
        decreases devs@.len() - i,
    {
        match &devs[i] {
            Some(reading) => {
                let temperature = reading.temperature;
                let max_temperature = if i < previous.len() {
                    let pm = previous[i].max_temperature;
                    if pm >= temperature {
                        pm
                    } else {
                        temperature
                    }
                } else {
                    temperature
                };
                out.push(
                    HardwareParameters {
                        label: reading.name.clone(),
                        usage_percentage: reading.utilization,
                        current_temperature: temperature,
                        max_temperature,
                    },
                );
            },
            None => {},
        }
        proof {
            assert(dv[i as int] == devs@[i as int].deep_view());
            assert(out.deep_view() =~= vendor_readings_prefix(dv, pv, i + 1));
        }
        i += 1;
    }
    out
}

/// Builds the generic-fallback reading list for a host without a vendor
/// library.
fn read_generic_components(
    components: &Vec<SensorReading>,
    cpu_brands: &Vec<String>,
    usage: u64,
    previous: &Vec<HardwareParameters>,
) -> (r: Vec<HardwareParameters>)
    ensures
        r.deep_view() == generic_readings(
            components@,
            cpu_brands.deep_view(),
            usage,
            previous.deep_view(),
        ),
{
    let ghost bv = cpu_brands.deep_view();
    let ghost pv = previous.deep_view();
    let temps = matching_temperatures_exec(components, "GPU");
    let n = temps.len();
    let mut out: Vec<HardwareParameters> = Vec::new();
    if n == 0 {
        proof {
            assert(out.deep_view() =~= Seq::<ParamsView>::empty());
        }
        return out;
    }
    let avg = average_of_exec(&temps);
    let mut i: usize = 0;
    proof {
        assert(out.deep_view() =~= generic_readings_prefix(bv, usage, avg, pv, 0));
    }
    while i < n
        invariant
            0 <= i <= n,
            n == matching_temperatures(components@, "GPU"@).len(),
            n > 0,
            avg == average_of(matching_temperatures(components@, "GPU"@)) as u64,
            bv == cpu_brands.deep_view(),
            pv == previous.deep_view(),
            out.deep_view() =~= generic_readings_prefix(bv, usage, avg, pv, i as int),
        decreases n - i,
    {
        if i < cpu_brands.len() {
            let label = cpu_brands[i].clone().concat(" GPU");
            let reading = if i < previous.len() {
                let prev_current = previous[i].current_temperature;
                let pm = previous[i].max_temperature;
                HardwareParameters {
                    label,
                    usage_percentage: usage,
                    current_temperature: prev_current,
                    max_temperature: if pm >= avg {
                        pm
                    } else {
                        avg
                    },
                }
            } else {
                HardwareParameters {
                    label,
                    usage_percentage: usage,
                    current_temperature: avg,
                    max_temperature: avg,
                }
            };
            out.push(reading);
        }
        proof {
            if (i as int) < bv.len() {
                assert(bv[i as int] == cpu_brands@[i as int]@);
            }
            assert(out.deep_view() =~= generic_readings_prefix(bv, usage, avg, pv, i + 1));
        }
        i += 1;
    }
    out
}

} // verus!
