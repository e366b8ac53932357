use hardware_monitor::monitor::HardwareMonitor;
use hardware_monitor::params::fold_max_temperature;
use hardware_monitor::params::CurrentOperatingSystem;
use hardware_monitor::params::HardwareParameters;
use hardware_monitor::status_file::GpuStatusFile;
use hardware_monitor::status_file::parse_gpu_status_file;
use hardware_monitor::text::str_contains;

#[test]
fn missing_file_reads_as_empty() {
    let mut m = HardwareMonitor::new(CurrentOperatingSystem::Linux);
    let devices = m.read_gpu_devices(&None);
    assert!(devices.is_empty());
    assert!(m.gpu_devices.is_empty());
}

#[test]
fn one_record_reads_verbatim() {
    let mut m = HardwareMonitor::new(CurrentOperatingSystem::Linux);
    let content = "[{\"device_name\":\"RTX-X\",\"is_available\":true}]".to_string();
    let devices = m.read_gpu_devices(&Some(content));
    assert_eq!(devices.len(), 1);
    assert_eq!(devices[0].device_name, "RTX-X");
    assert!(devices[0].is_available);
}

#[test]
fn malformed_content_discards_the_cached_list() {
    let mut m = HardwareMonitor::new(CurrentOperatingSystem::Linux);
    let good = "[{\"device_name\":\"RTX-X\",\"is_available\":true}]".to_string();
    assert_eq!(m.read_gpu_devices(&Some(good)).len(), 1);
    let devices = m.read_gpu_devices(&Some("not json".to_string()));
    assert!(devices.is_empty());
    assert!(m.gpu_devices.is_empty());
}

#[test]
fn whitespace_and_many_records_are_accepted() {
    let content = " [ {\"device_name\": \"a\", \"is_available\": true} ,\n\t{\"device_name\":\"b\",\"is_available\":false} ] ";
    let devices = parse_gpu_status_file(content).unwrap();
    assert_eq!(devices.len(), 2);
    assert_eq!(devices[0].device_name, "a");
    assert!(devices[0].is_available);
    assert_eq!(devices[1].device_name, "b");
    assert!(!devices[1].is_available);
}

#[test]
fn empty_array_is_an_empty_list() {
    let devices = parse_gpu_status_file("  [ ]  ").unwrap();
    assert!(devices.is_empty());
}

#[test]
fn documents_outside_the_canonical_form_are_refused() {
    assert!(parse_gpu_status_file("").is_none());
    assert!(parse_gpu_status_file("{}").is_none());
    assert!(parse_gpu_status_file("[{\"device_name\":\"a\"}]").is_none());
    assert!(parse_gpu_status_file("[{\"is_available\":true,\"device_name\":\"a\"}]").is_none());
    assert!(parse_gpu_status_file("[{\"device_name\":\"a\",\"is_available\":maybe}]").is_none());
    assert!(parse_gpu_status_file("[{\"device_name\":\"a\",\"is_available\":true}] x").is_none());
    assert!(parse_gpu_status_file("[{\"device_name\":\"a\\b\",\"is_available\":true}]").is_none());
    assert!(parse_gpu_status_file("[{\"device_name\":\"a\",\"is_available\":true},]").is_none());
}

#[test]
fn status_file_shape_holds_the_records() {
    let records = parse_gpu_status_file("[{\"device_name\":\"a\",\"is_available\":true}]").unwrap();
    let file = GpuStatusFile { gpu_devices: records };
    assert_eq!(file.gpu_devices.len(), 1);
}

#[test]
fn platform_names_are_fixed() {
    assert_eq!(CurrentOperatingSystem::Windows.implementation_name(), "Windows");
    assert_eq!(CurrentOperatingSystem::Linux.implementation_name(), "Linux");
    assert_eq!(CurrentOperatingSystem::MacOS.implementation_name(), "MacOS");
}

#[test]
fn peak_fold_takes_the_larger_value() {
    let previous = HardwareParameters {
        label: "X".to_string(),
        usage_percentage: 10,
        current_temperature: 40,
        max_temperature: 45,
    };
    assert_eq!(fold_max_temperature(&Some(previous.clone()), 50), 50);
    assert_eq!(fold_max_temperature(&Some(previous), 30), 45);
    assert_eq!(fold_max_temperature(&None, 30), 30);
}

#[test]
fn label_matching_is_substring_containment() {
    assert!(str_contains("k10temp Tctl composite", "k10temp Tctl"));
    assert!(str_contains("Cpu", "Cpu"));
    assert!(str_contains("anything", ""));
    assert!(!str_contains("cpu", "Cpu"));
    assert!(!str_contains("Cp", "Cpu"));
}
