//! Host hardware telemetry, normalized.
//!
//! The crate samples CPU and GPU telemetry (utilization, temperature, running
//! peak temperature) into an OS-agnostic snapshot, and reads a status file
//! describing which GPU devices are available for a mining workload.
//!
//! All quantities are fixed-point integers: a caller that samples sensors as
//! floating-point values scales them (for example to hundredths of a degree)
//! before handing them to this crate, which works on the plain integers.
//! Gathering the raw readings (sensor enumeration, GPU driver queries, file
//! reads) is the caller's job; everything that decides or computes on those
//! readings lives here, with its contract.

pub mod gpu;
pub mod monitor;
pub mod params;
pub mod sensors;
pub mod status_file;
pub mod text;

pub use monitor::HardwareMonitor;
pub use params::CurrentOperatingSystem;
pub use params::HardwareParameters;
pub use params::HardwareStatus;
pub use params::SensorError;
pub use status_file::GpuStatus;
pub use status_file::GpuStatusFile;
