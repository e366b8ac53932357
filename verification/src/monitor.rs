//! The monitor facade: it owns the platform choice and the readings
//! retained between polls, and turns one round of raw samples into the next
//! snapshot.
//!
//! The facade is process-wide state in the application that hosts it;
//! callers there keep one instance behind a read/write lock so a poll
//! (a writer) excludes readers and other polls, and readers of the last
//! snapshot never see a half-written one. A poll may block its caller
//! briefly while the samples are gathered; that sampling, and all file
//! reading, happens outside this crate, which only receives the results.

use vstd::prelude::*;

use crate::gpu::GpuSample;
use crate::gpu::gpu_readings_of;
use crate::gpu::lemma_gpu_readings_wf;
use crate::gpu::read_gpu_parameters;
use crate::params::CurrentOperatingSystem;
use crate::params::HardwareParameters;
use crate::params::HardwareStatus;
use crate::params::SensorError;
use crate::sensors::SensorReading;
use crate::sensors::cpu_reading_of;
use crate::sensors::read_cpu_parameters;
use crate::sensors::selected_cpu_temperatures;
use crate::status_file::GpuStatus;
use crate::status_file::devices_of_content;
use crate::status_file::read_gpu_devices_from;

verus! {

/// What one poll gathered about the CPU: the temperature-component
/// enumeration, the global CPU utilization, and the brand string of the
/// first logical core (`None` when the host enumerates no cores).
#[derive(Debug)]
pub struct CpuSample {
    pub components: Vec<SensorReading>,
    pub usage: u64,
    pub cpu_brand: Option<String>,
}

/// The monitor: the platform choice made at construction, and the readings
/// retained from the previous poll for running-peak folding.
#[derive(Debug)]
pub struct HardwareMonitor {
    pub current_os: CurrentOperatingSystem,
    pub cpu: Option<HardwareParameters>,
    pub gpu: Vec<HardwareParameters>,
    pub gpu_devices: Vec<GpuStatus>,
}

impl HardwareMonitor {
    /// Every retained reading keeps its peak at or above its current
    /// temperature; polls preserve this.
    pub open spec fn wf(self) -> bool {
        &&& (self.cpu matches Some(p) ==> p@.wf())
        &&& forall|i: int| 0 <= i < self.gpu@.len() ==> (#[trigger] self.gpu.deep_view()[i]).wf()
    }

    /// A fresh monitor for the given host: no reading retained yet, so the
    /// first poll initializes every unit's peak.
    pub fn new(current_os: CurrentOperatingSystem) -> (m: Self)
        ensures
            m.current_os == current_os,
            m.cpu is None,
            m.gpu@.len() == 0,
            m.gpu_devices@.len() == 0,
            m.wf(),
    {
        HardwareMonitor { current_os, cpu: None, gpu: Vec::new(), gpu_devices: Vec::new() }
    }

    /// One poll: computes this round's CPU and GPU readings from the
    /// samples and the previous poll's readings, replaces the retained
    /// state with them, and returns the snapshot.
    ///
    /// A host without cores is the one fatal case and leaves the state
    /// untouched; a CPU whose temperature components all miss the platform
    /// heuristics degrades to an absent CPU reading (so the next poll
    /// starts the peak afresh), exactly as callers must treat it.
    pub fn read_hardware_parameters(
        &mut self,
        cpu_sample: &CpuSample,
        gpu_sample: &GpuSample,
    ) -> (r: Result<HardwareStatus, SensorError>)
        ensures
            r is Err <==> cpu_sample.cpu_brand is None,
            r matches Err(e) ==> e == SensorError::NoCpuDetected && *final(self) == *old(self),
            r matches Ok(st) ==> {
                &&& st.gpu.deep_view() == gpu_readings_of(*gpu_sample, old(self).gpu.deep_view())
                &&& (cpu_sample.cpu_brand matches Some(b) && {
                    let selected = selected_cpu_temperatures(
                        old(self).current_os,
                        cpu_sample.components@,
                    );
                    if selected.len() > 0 {
                        st.cpu matches Some(p) && p@ == cpu_reading_of(
                            old(self).current_os,
                            cpu_sample.components@,
                            cpu_sample.usage,
                            b@,
                            old(self).cpu.deep_view(),
                        )
                    } else {
                        st.cpu is None
                    }
                })
                &&& final(self).cpu.deep_view() == st.cpu.deep_view()
                &&& final(self).gpu.deep_view() == st.gpu.deep_view()
            },
            final(self).current_os == old(self).current_os,
            final(self).gpu_devices.deep_view() == old(self).gpu_devices.deep_view(),
            old(self).wf() ==> final(self).wf(),
    {
        let cpu = match read_cpu_parameters(
            self.current_os,
            &cpu_sample.components,
            cpu_sample.usage,
            &cpu_sample.cpu_brand,
            &self.cpu,
        ) {
            Ok(p) => Some(p),
            Err(SensorError::NoCpuDetected) => {
                return Err(SensorError::NoCpuDetected);
            },
            Err(SensorError::SensorUnavailable) => None,
        };
        let gpu = read_gpu_parameters(gpu_sample, &self.gpu);
        proof {
            if old(self).wf() {
                lemma_gpu_readings_wf(*gpu_sample, old(self).gpu.deep_view());
            }
        }
        let status = HardwareStatus { cpu, gpu };
        let retained = status.clone();
        self.cpu = retained.cpu;
        self.gpu = retained.gpu;
        Ok(status)
    }

    /// One read of the GPU status file, given its content (`None` when the
    /// file does not exist): replaces the retained device list with what
    /// the content yields — the empty list for a missing or non-canonical
    /// file, discarding whatever was cached before — and returns it.
    pub fn read_gpu_devices(&mut self, content: &Option<String>) -> (r: Vec<GpuStatus>)
        ensures
            r.deep_view() == devices_of_content(content.deep_view()),
            final(self).gpu_devices.deep_view() == r.deep_view(),
            final(self).cpu == old(self).cpu,
            final(self).gpu == old(self).gpu,
            final(self).current_os == old(self).current_os,
            old(self).wf() ==> final(self).wf(),
    {
        let devices = read_gpu_devices_from(content);
        let mut retained: Vec<GpuStatus> = Vec::new();
        let mut i: usize = 0;
        while i < devices.len()
            invariant
                0 <= i <= devices@.len(),
                retained.deep_view() =~= devices.deep_view().subrange(0, i as int),
            decreases devices@.len() - i,
        {
            retained.push(devices[i].clone());
            proof {
                let dv = devices.deep_view();
                assert(dv[i as int] == devices@[i as int]@);
                assert(dv.subrange(0, i + 1) =~= dv.subrange(0, i as int).push(dv[i as int]));
                assert(retained.deep_view() =~= dv.subrange(0, i + 1));
            }
            i += 1;
        }
        proof {
            assert(devices.deep_view().subrange(0, devices@.len() as int) =~= devices.deep_view());
        }
        self.gpu_devices = retained;
        devices
    }
}

} // verus!
