use hardware_monitor::gpu::GpuReading;
use hardware_monitor::gpu::GpuSample;
use hardware_monitor::monitor::CpuSample;
use hardware_monitor::monitor::HardwareMonitor;
use hardware_monitor::params::CurrentOperatingSystem;
use hardware_monitor::params::HardwareParameters;
use hardware_monitor::params::SensorError;
use hardware_monitor::sensors::SensorReading;

fn component(label: &str, temperature: u64) -> SensorReading {
    SensorReading { label: label.to_string(), temperature }
}

fn cpu_sample(labels: &[(&str, u64)], usage: u64, brand: Option<&str>) -> CpuSample {
    CpuSample {
        components: labels.iter().map(|(l, t)| component(l, *t)).collect(),
        usage,
        cpu_brand: brand.map(|b| b.to_string()),
    }
}

#[test]
fn default_reading_is_placeholder() {
    let d = HardwareParameters::default();
    assert_eq!(d.label, "N/A");
    assert_eq!(d.usage_percentage, 0);
    assert_eq!(d.current_temperature, 0);
    assert_eq!(d.max_temperature, 0);
}

#[test]
fn first_poll_max_equals_current() {
    let mut m = HardwareMonitor::new(CurrentOperatingSystem::Windows);
    let sample = cpu_sample(&[("Cpu Package", 40)], 10, Some("X"));
    let status = m
        .read_hardware_parameters(&sample, &GpuSample::Unavailable)
        .unwrap();
    let cpu = status.cpu.unwrap();
    assert_eq!(cpu.label, "X");
    assert_eq!(cpu.usage_percentage, 10);
    assert_eq!(cpu.current_temperature, 40);
    assert_eq!(cpu.max_temperature, 40);
}

#[test]
fn running_peak_folds_across_polls() {
    // Previous reading {label:"X", usage:10, current:40, max:45}; a new
    // sample at 50 must yield {label:"X", current:50, max:50}.
    let mut m = HardwareMonitor::new(CurrentOperatingSystem::Windows);
    m.read_hardware_parameters(&cpu_sample(&[("Cpu", 45)], 3, Some("X")), &GpuSample::Unavailable)
        .unwrap();
    let mid = m
        .read_hardware_parameters(&cpu_sample(&[("Cpu", 40)], 10, Some("X")), &GpuSample::Unavailable)
        .unwrap();
    let mid_cpu = mid.cpu.unwrap();
    assert_eq!(mid_cpu.label, "X");
    assert_eq!(mid_cpu.usage_percentage, 10);
    assert_eq!(mid_cpu.current_temperature, 40);
    assert_eq!(mid_cpu.max_temperature, 45);
    let last = m
        .read_hardware_parameters(&cpu_sample(&[("Cpu", 50)], 22, Some("X")), &GpuSample::Unavailable)
        .unwrap();
    let cpu = last.cpu.unwrap();
    assert_eq!(cpu.label, "X");
    assert_eq!(cpu.usage_percentage, 22);
    assert_eq!(cpu.current_temperature, 50);
    assert_eq!(cpu.max_temperature, 50);
}

#[test]
fn cpu_temperature_is_mean_of_matching_components() {
    let mut m = HardwareMonitor::new(CurrentOperatingSystem::Windows);
    let sample = cpu_sample(&[("Cpu a", 40), ("fan", 90), ("Cpu b", 50)], 1, Some("X"));
    let status = m
        .read_hardware_parameters(&sample, &GpuSample::Unavailable)
        .unwrap();
    assert_eq!(status.cpu.unwrap().current_temperature, 45);
}

#[test]
fn linux_prefers_amd_sensor_over_intel_package() {
    let mut m = HardwareMonitor::new(CurrentOperatingSystem::Linux);
    let sample = cpu_sample(&[("Package id 0", 50), ("k10temp Tctl", 70)], 1, Some("X"));
    let status = m
        .read_hardware_parameters(&sample, &GpuSample::Unavailable)
        .unwrap();
    assert_eq!(status.cpu.unwrap().current_temperature, 70);
}

#[test]
fn linux_falls_back_to_intel_package() {
    let mut m = HardwareMonitor::new(CurrentOperatingSystem::Linux);
    let sample = cpu_sample(&[("Package id 0", 50), ("acpitz", 30)], 1, Some("X"));
    let status = m
        .read_hardware_parameters(&sample, &GpuSample::Unavailable)
        .unwrap();
    assert_eq!(status.cpu.unwrap().current_temperature, 50);
}

#[test]
fn macos_labels_carry_cpu_suffix() {
    let mut m = HardwareMonitor::new(CurrentOperatingSystem::MacOS);
    let sample = cpu_sample(&[("MTR die", 38)], 1, Some("Apple M1"));
    let status = m
        .read_hardware_parameters(&sample, &GpuSample::Unavailable)
        .unwrap();
    let cpu = status.cpu.unwrap();
    assert_eq!(cpu.label, "Apple M1 CPU");
    assert_eq!(cpu.current_temperature, 38);
}

#[test]
fn macos_falls_back_to_intel_cpu_sensor() {
    let mut m = HardwareMonitor::new(CurrentOperatingSystem::MacOS);
    let sample = cpu_sample(&[("CPU proximity", 52)], 1, Some("Intel"));
    let status = m
        .read_hardware_parameters(&sample, &GpuSample::Unavailable)
        .unwrap();
    assert_eq!(status.cpu.unwrap().current_temperature, 52);
}

#[test]
fn missing_cores_is_fatal_and_leaves_state_alone() {
    let mut m = HardwareMonitor::new(CurrentOperatingSystem::Linux);
    m.read_hardware_parameters(&cpu_sample(&[("Package", 44)], 1, Some("X")), &GpuSample::Unavailable)
        .unwrap();
    let err = m
        .read_hardware_parameters(&cpu_sample(&[("Package", 60)], 1, None), &GpuSample::Unavailable)
        .unwrap_err();
    assert_eq!(err, SensorError::NoCpuDetected);
    // The retained reading still carries the first poll's values.
    let cpu = m.cpu.as_ref().unwrap();
    assert_eq!(cpu.current_temperature, 44);
    assert_eq!(cpu.max_temperature, 44);
}

#[test]
fn unmatched_components_degrade_to_absent_cpu() {
    let mut m = HardwareMonitor::new(CurrentOperatingSystem::Windows);
    let status = m
        .read_hardware_parameters(&cpu_sample(&[("gpu hot spot", 90)], 1, Some("X")), &GpuSample::Unavailable)
        .unwrap();
    assert!(status.cpu.is_none());
    assert!(m.cpu.is_none());
}

#[test]
fn heuristics_are_case_sensitive() {
    let mut m = HardwareMonitor::new(CurrentOperatingSystem::Windows);
    let status = m
        .read_hardware_parameters(&cpu_sample(&[("cpu", 40)], 1, Some("X")), &GpuSample::Unavailable)
        .unwrap();
    assert!(status.cpu.is_none());
}

fn vendor_device(name: &str, temperature: u64, utilization: u64) -> Option<GpuReading> {
    Some(GpuReading { name: name.to_string(), temperature, utilization })
}

#[test]
fn vendor_gpus_skip_failed_indices() {
    let mut m = HardwareMonitor::new(CurrentOperatingSystem::Linux);
    let sample = GpuSample::Devices(vec![
        vendor_device("gpu0", 70, 30),
        None,
        vendor_device("gpu2", 60, 40),
    ]);
    let status = m
        .read_hardware_parameters(&cpu_sample(&[("Package", 40)], 1, Some("X")), &sample)
        .unwrap();
    assert_eq!(status.gpu.len(), 2);
    assert_eq!(status.gpu[0].label, "gpu0");
    assert_eq!(status.gpu[0].usage_percentage, 30);
    assert_eq!(status.gpu[0].current_temperature, 70);
    assert_eq!(status.gpu[0].max_temperature, 70);
    assert_eq!(status.gpu[1].label, "gpu2");
    assert_eq!(status.gpu[1].current_temperature, 60);
}

#[test]
fn vendor_gpu_peak_folds_positionally() {
    let mut m = HardwareMonitor::new(CurrentOperatingSystem::Linux);
    let cpu = cpu_sample(&[("Package", 40)], 1, Some("X"));
    let first = GpuSample::Devices(vec![vendor_device("gpu0", 80, 10)]);
    m.read_hardware_parameters(&cpu, &first).unwrap();
    // Same device cooler now: the peak stays at 80. A device the previous
    // poll did not see starts its own peak.
    let second = GpuSample::Devices(vec![
        vendor_device("gpu0", 70, 10),
        vendor_device("gpu1", 65, 10),
    ]);
    let status = m.read_hardware_parameters(&cpu, &second).unwrap();
    assert_eq!(status.gpu[0].current_temperature, 70);
    assert_eq!(status.gpu[0].max_temperature, 80);
    assert_eq!(status.gpu[1].current_temperature, 65);
    assert_eq!(status.gpu[1].max_temperature, 65);
}

#[test]
fn no_vendor_library_means_no_gpus() {
    let mut m = HardwareMonitor::new(CurrentOperatingSystem::Windows);
    let status = m
        .read_hardware_parameters(&cpu_sample(&[("Cpu", 40)], 1, Some("X")), &GpuSample::Unavailable)
        .unwrap();
    assert!(status.gpu.is_empty());
}

#[test]
fn generic_gpus_use_mean_component_temperature() {
    let mut m = HardwareMonitor::new(CurrentOperatingSystem::MacOS);
    let cpu = cpu_sample(&[("MTR", 40)], 1, Some("Apple M1"));
    let sample = GpuSample::Generic {
        components: vec![component("GPU a", 60), component("GPU b", 70)],
        cpu_brands: vec!["Apple M1".to_string(), "Apple M1".to_string()],
        usage: 12,
    };
    let status = m.read_hardware_parameters(&cpu, &sample).unwrap();
    assert_eq!(status.gpu.len(), 2);
    assert_eq!(status.gpu[0].label, "Apple M1 GPU");
    assert_eq!(status.gpu[0].usage_percentage, 12);
    assert_eq!(status.gpu[0].current_temperature, 65);
    assert_eq!(status.gpu[0].max_temperature, 65);
}

#[test]
fn generic_gpus_carry_previous_current_and_fold_peak() {
    let mut m = HardwareMonitor::new(CurrentOperatingSystem::MacOS);
    let cpu = cpu_sample(&[("MTR", 40)], 1, Some("Apple M1"));
    let hot = GpuSample::Generic {
        components: vec![component("GPU", 80)],
        cpu_brands: vec!["Apple M1".to_string()],
        usage: 5,
    };
    m.read_hardware_parameters(&cpu, &hot).unwrap();
    let cool = GpuSample::Generic {
        components: vec![component("GPU", 60)],
        cpu_brands: vec!["Apple M1".to_string()],
        usage: 5,
    };
    let status = m.read_hardware_parameters(&cpu, &cool).unwrap();
    // The previous entry's current temperature is carried forward; only
    // the peak folds in the fresh mean.
    assert_eq!(status.gpu[0].current_temperature, 80);
    assert_eq!(status.gpu[0].max_temperature, 80);
}

#[test]
fn generic_gpus_without_matching_core_are_skipped() {
    let mut m = HardwareMonitor::new(CurrentOperatingSystem::MacOS);
    let cpu = cpu_sample(&[("MTR", 40)], 1, Some("Apple M1"));
    let sample = GpuSample::Generic {
        components: vec![component("GPU a", 60), component("GPU b", 70)],
        cpu_brands: vec!["Apple M1".to_string()],
        usage: 9,
    };
    let status = m.read_hardware_parameters(&cpu, &sample).unwrap();
    assert_eq!(status.gpu.len(), 1);
}
