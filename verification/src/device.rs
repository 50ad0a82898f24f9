//! Compute devices and the failures a buffer construction can surface.
//!
//! A [`Device`] is a handle to a compute device: an externally owned, shared
//! resource that buffers are allocated on. The model records what the
//! allocation logic reads of a device: an identity and the largest byte
//! capacity the device is willing to grant to a single allocation. The
//! platform layer that talks to the real accelerator turns its device handles
//! into values of this type; many buffer handles may share one device.

use vstd::prelude::*;

verus! {

/// Why constructing a typed buffer can fail. Failures surface synchronously
/// from the construction that triggered them; nothing is retried.
#[derive(Clone, Copy, Debug, PartialEq, Eq, Structural)]
pub enum GpuVarError {
    /// No process-wide default compute device could be resolved.
    NoDeviceAvailable,
    /// The device refused or could not satisfy the buffer allocation request.
    AllocationFailure,
}

/// A handle to a compute device. Copying the handle shares the device; it
/// does not duplicate the underlying resource.
#[derive(Clone, Copy, Debug, PartialEq, Eq, Structural)]
pub struct Device {
    id: u64,
    max_allocation: usize,
}

impl Device {
    /// The device's identity: equal ids mean the same underlying device.
    pub closed spec fn spec_id(self) -> u64 {
        self.id
    }

    /// The largest byte capacity this device grants to a single allocation.
    pub closed spec fn spec_max_allocation(self) -> usize {
        self.max_allocation
    }

    /// Whether the device grants an allocation of `len` bytes.
    pub open spec fn spec_grants(self, len: nat) -> bool {
        len <= self.spec_max_allocation()
    }

    /// A device that grants every allocation request that fits in memory.
    pub fn new(id: u64) -> (d: Device)
        ensures
            d.spec_id() == id,
            d.spec_max_allocation() == usize::MAX,
    {
        Device { id, max_allocation: usize::MAX }
    }

    /// A device that refuses allocations larger than `max_allocation` bytes,
    /// modelling capacity or resource exhaustion.
    pub fn with_max_allocation(id: u64, max_allocation: usize) -> (d: Device)
        ensures
            d.spec_id() == id,
            d.spec_max_allocation() == max_allocation,
    {
        Device { id, max_allocation }
    }

    /// The device's identity.
    pub fn id(&self) -> (r: u64)
        ensures
            r == self.spec_id(),
    {
        self.id
    }

    /// The largest byte capacity this device grants to a single allocation.
    pub fn max_allocation(&self) -> (r: usize)
        ensures
            r == self.spec_max_allocation(),
    {
        self.max_allocation
    }
}

/// Resolve the process-wide default compute device from the platform layer's
/// probe: the probe hands over the default device it found, or `None` on an
/// environment with no available compute device, which surfaces as
/// [`GpuVarError::NoDeviceAvailable`].
pub fn resolve_default_device(probe: Option<Device>) -> (r: Result<Device, GpuVarError>)
    ensures
        match r {
            Ok(d) => probe == Some(d),
            Err(e) => probe is None && e == GpuVarError::NoDeviceAvailable,
        },
{
    match probe {
        Some(d) => Ok(d),
        None => Err(GpuVarError::NoDeviceAvailable),
    }
}

} // verus!
