//! A typed view over a single GPU-resident scalar value.
//!
//! The library models a compute device and a page-aligned buffer holding
//! exactly one value of a caller-chosen plain-data type, together with the
//! buffer's metadata (label and debug markers). Construction rounds the
//! element size up to the platform page size, reads and writes move exactly
//! one value, and duplicating a handle allocates an independent buffer on the
//! same device.

pub mod align;
pub mod device;
pub mod gpu_var;
pub mod laws;

pub use crate::align::checked_page_rounded;
pub use crate::align::PAGE_SIZE;
pub use crate::device::resolve_default_device;
pub use crate::device::Device;
pub use crate::device::GpuVarError;
pub use crate::gpu_var::DebugMarker;
pub use crate::gpu_var::GPUVar;
