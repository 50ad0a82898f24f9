//! The typed GPU scalar buffer.
//!
//! A [`GPUVar<T>`] owns one page-aligned buffer allocation on a compute
//! device, sized for a single value of the plain-data type `T`. The model
//! holds what the logic reads of the allocation: the owning device, the byte
//! capacity that was granted, the one live value the CPU-visible region holds
//! (or nothing, before the first write), and the buffer's metadata — a label
//! and a list of debug markers.
//!
//! Two handles never share a buffer: duplicating a handle allocates a fresh
//! buffer on the same device and copies the current value into it, so a later
//! write through either handle relates only that handle's own state (every
//! write takes `&mut self` and its contract mentions no other instance).
//!
//! Reads and writes are unsynchronized; a caller that shares one instance
//! across threads must serialize them itself.

use crate::align::checked_page_rounded;
use crate::align::page_rounded;
use crate::device::Device;
use crate::device::GpuVarError;
use vstd::layout::size_of;
use vstd::prelude::*;
use vstd::string::StringExecFns;

verus! {

/// A debug-marker annotation over the byte range
/// `[location, location + length)` of a buffer.
#[derive(Debug)]
pub struct DebugMarker {
    /// The human-readable annotation.
    pub label: String,
    /// First byte of the annotated range.
    pub location: u64,
    /// Number of bytes in the annotated range.
    pub length: u64,
}

/// A typed view over a single GPU-resident value of `T`.
#[derive(Debug)]
pub struct GPUVar<T: Copy> {
    device: Device,
    value: Option<T>,
    capacity: usize,
    label: String,
    markers: Vec<DebugMarker>,
}

impl<T: Copy> GPUVar<T> {
    /// The device the buffer was allocated on.
    pub closed spec fn spec_device(self) -> Device {
        self.device
    }

    /// The value the buffer's CPU-visible region holds: `None` before the
    /// first write, otherwise the value of the most recent write.
    pub closed spec fn spec_value(self) -> Option<T> {
        self.value
    }

    /// The byte capacity of the allocation.
    pub closed spec fn spec_capacity(self) -> usize {
        self.capacity
    }

    /// The buffer's label.
    pub closed spec fn spec_label(self) -> Seq<char> {
        self.label@
    }

    /// The buffer's debug markers, in the order they were added.
    pub closed spec fn spec_markers(self) -> Seq<DebugMarker> {
        self.markers@
    }

    /// Whether the buffer has held a defined value since construction.
    pub open spec fn is_written(self) -> bool {
        self.spec_value() is Some
    }

    /// Well-formedness: the capacity is exactly the page-aligned rounding of
    /// the element size, and the owning device granted it. Constructors
    /// establish this and every method preserves it.
    pub open spec fn inv(self) -> bool {
        &&& self.spec_capacity() as nat == page_rounded(size_of::<T>())
        &&& self.spec_device().spec_grants(self.spec_capacity() as nat)
    }

    /// Allocate the page-aligned buffer on `device`, holding `value` (or no
    /// defined value yet). Fails exactly when the device does not grant the
    /// rounded capacity.
    fn allocate(device: &Device, value: Option<T>) -> (r: Result<GPUVar<T>, GpuVarError>)
        ensures
            match r {
                Ok(v) => {
                    &&& device.spec_grants(page_rounded(size_of::<T>()))
                    &&& v.inv()
                    &&& v.spec_device() == *device
                    &&& v.spec_value() == value
                    &&& v.spec_label() == Seq::<char>::empty()
                    &&& v.spec_markers() == Seq::<DebugMarker>::empty()
                },
                Err(e) => {
                    &&& !device.spec_grants(page_rounded(size_of::<T>()))
                    &&& e == GpuVarError::AllocationFailure
                },
            },
    {
        let size: usize = core::mem::size_of::<T>();
        match checked_page_rounded(size) {
            Some(cap) => {
                if cap <= device.max_allocation() {
                    Ok(
                        GPUVar {
                            device: *device,
                            value,
                            capacity: cap,
                            label: String::new(),
                            markers: Vec::new(),
                        },
                    )
                } else {
                    Err(GpuVarError::AllocationFailure)
                }
            },
            None => Err(GpuVarError::AllocationFailure),
        }
    }

    /// Construct on an explicitly supplied device with an initial value.
    ///
    /// Succeeds if and only if `device` grants the page-aligned capacity;
    /// on success the new buffer holds `value` and carries no label and no
    /// markers.
    pub fn with_value(device: &Device, value: T) -> (r: Result<GPUVar<T>, GpuVarError>)
        ensures
            match r {
                Ok(v) => {
                    &&& device.spec_grants(page_rounded(size_of::<T>()))
                    &&& v.inv()
                    &&& v.spec_device() == *device
                    &&& v.spec_value() == Some(value)
                    &&& v.spec_label() == Seq::<char>::empty()
                    &&& v.spec_markers() == Seq::<DebugMarker>::empty()
                },
                Err(e) => {
                    &&& !device.spec_grants(page_rounded(size_of::<T>()))
                    &&& e == GpuVarError::AllocationFailure
                },
            },
    {
        Self::allocate(device, Some(value))
    }

    /// Construct on the process-wide default device with an initial value.
    ///
    /// `default_device` is the default compute device as resolved by the
    /// platform layer, or `None` on an environment with no available device.
    /// Fails with `NoDeviceAvailable` exactly when there is no device, and
    /// with `AllocationFailure` exactly when the device refuses the
    /// page-aligned capacity.
    pub fn with_value1(default_device: Option<Device>, value: T) -> (r: Result<
        GPUVar<T>,
        GpuVarError,
    >)
        ensures
            match r {
                Ok(v) => {
                    &&& default_device == Some(v.spec_device())
                    &&& v.spec_device().spec_grants(page_rounded(size_of::<T>()))
                    &&& v.inv()
                    &&& v.spec_value() == Some(value)
                    &&& v.spec_label() == Seq::<char>::empty()
                    &&& v.spec_markers() == Seq::<DebugMarker>::empty()
                },
                Err(e) => {
                    ||| (default_device is None && e == GpuVarError::NoDeviceAvailable)
                    ||| (default_device matches Some(d) && !d.spec_grants(
                        page_rounded(size_of::<T>()),
                    ) && e == GpuVarError::AllocationFailure)
                },
            },
    {
        match crate::device::resolve_default_device(default_device) {
            Ok(d) => Self::allocate(&d, Some(value)),
            Err(e) => Err(e),
        }
    }

    /// Construct on the process-wide default device without writing a defined
    /// value: reading before the first write is not offered.
    ///
    /// `default_device` is the default compute device as resolved by the
    /// platform layer, or `None` on an environment with no available device.
    /// Failure conditions are those of [`GPUVar::with_value1`].
    pub fn new(default_device: Option<Device>) -> (r: Result<GPUVar<T>, GpuVarError>)
        ensures
            match r {
                Ok(v) => {
                    &&& default_device == Some(v.spec_device())
                    &&& v.spec_device().spec_grants(page_rounded(size_of::<T>()))
                    &&& v.inv()
                    &&& v.spec_value() is None
                    &&& v.spec_label() == Seq::<char>::empty()
                    &&& v.spec_markers() == Seq::<DebugMarker>::empty()
                },
                Err(e) => {
                    ||| (default_device is None && e == GpuVarError::NoDeviceAvailable)
                    ||| (default_device matches Some(d) && !d.spec_grants(
                        page_rounded(size_of::<T>()),
                    ) && e == GpuVarError::AllocationFailure)
                },
            },
    {
        match crate::device::resolve_default_device(default_device) {
            Ok(d) => Self::allocate(&d, None),
            Err(e) => Err(e),
        }
    }

    /// The size in bytes of one element of `T`: the number of bytes a read
    /// or write moves, independent of the padded capacity.
    pub fn element_size() -> (r: usize)
        ensures
            r as nat == size_of::<T>(),
    {
        core::mem::size_of::<T>()
    }

    /// Whether the buffer has held a defined value since construction.
    pub fn has_value(&self) -> (r: bool)
        ensures
            r == self.is_written(),
    {
        self.value.is_some()
    }

    /// Read the current value: a copy of the one value the buffer holds.
    /// No side effects. The buffer must have been written at least once.
    pub fn value(&self) -> (v: T)
        requires
            self.is_written(),
        ensures
            Some(v) == self.spec_value(),
    {
        self.value.unwrap()
    }

    /// Overwrite the buffer's value with `value`, whatever it held before.
    /// Device, capacity, label and markers are untouched.
    pub fn set_value(&mut self, value: T)
        ensures
            final(self).spec_value() == Some(value),
            final(self).spec_device() == old(self).spec_device(),
            final(self).spec_capacity() == old(self).spec_capacity(),
            final(self).spec_label() == old(self).spec_label(),
            final(self).spec_markers() == old(self).spec_markers(),
            old(self).inv() ==> final(self).inv(),
    {
        self.value = Some(value);
    }

    /// The byte capacity of the allocation: the element size rounded up to
    /// the page size, of which only the first `element_size()` bytes ever
    /// carry the value.
    pub fn byte_capacity(&self) -> (r: usize)
        ensures
            r == self.spec_capacity(),
    {
        self.capacity
    }

    /// The device the buffer was allocated on.
    pub fn device(&self) -> (d: Device)
        ensures
            d == self.spec_device(),
    {
        self.device
    }

    /// The buffer's label.
    pub fn label(&self) -> (r: &str)
        ensures
            r@ == self.spec_label(),
    {
        self.label.as_str()
    }

    /// Set the buffer's label. Everything else is untouched.
    pub fn set_label(&mut self, label: &str)
        ensures
            final(self).spec_label() == label@,
            final(self).spec_device() == old(self).spec_device(),
            final(self).spec_value() == old(self).spec_value(),
            final(self).spec_capacity() == old(self).spec_capacity(),
            final(self).spec_markers() == old(self).spec_markers(),
            old(self).inv() ==> final(self).inv(),
    {
        self.label = String::from_str(label);
    }

    /// Append a debug marker annotating the byte range `[start, end)` of the
    /// buffer; existing markers and everything else are untouched. The range
    /// must lie within the buffer's capacity.
    pub fn add_debug_marker(&mut self, label: &str, start: u64, end: u64)
        requires
            start <= end,
            end <= old(self).spec_capacity(),
        ensures
            final(self).spec_markers().len() == old(self).spec_markers().len() + 1,
            forall|i: int|
                0 <= i < old(self).spec_markers().len() ==> final(self).spec_markers()[i] == old(
                    self,
                ).spec_markers()[i],
            final(self).spec_markers().last().label@ == label@,
            final(self).spec_markers().last().location == start,
            final(self).spec_markers().last().length == end - start,
            final(self).spec_device() == old(self).spec_device(),
            final(self).spec_value() == old(self).spec_value(),
            final(self).spec_capacity() == old(self).spec_capacity(),
            final(self).spec_label() == old(self).spec_label(),
            old(self).inv() ==> final(self).inv(),
    {
        let marker = DebugMarker {
            label: String::from_str(label),
            location: start,
            length: end - start,
        };
        self.markers.push(marker);
    }

    /// Remove every debug marker; everything else is untouched. Afterwards
    /// no marker is left, whatever had been added before.
    pub fn remove_all_debug_markers(&mut self)
        ensures
            final(self).spec_markers() == Seq::<DebugMarker>::empty(),
            final(self).spec_device() == old(self).spec_device(),
            final(self).spec_value() == old(self).spec_value(),
            final(self).spec_capacity() == old(self).spec_capacity(),
            final(self).spec_label() == old(self).spec_label(),
            old(self).inv() ==> final(self).inv(),
    {
        self.markers = Vec::new();
    }

    /// The buffer's debug markers, in the order they were added.
    pub fn debug_markers(&self) -> (r: &Vec<DebugMarker>)
        ensures
            r@ == self.spec_markers(),
    {
        &self.markers
    }

    /// Duplicate the handle: allocates a brand-new buffer of the same
    /// capacity on the same device and copies the current value into it. The
    /// copy is not a reference to the same memory — it starts with a fresh
    /// buffer, so with no label and no markers — and a later write through
    /// either handle leaves the other's value unchanged.
    pub fn to_owned(&self) -> (r: GPUVar<T>)
        ensures
            r.spec_device() == self.spec_device(),
            r.spec_value() == self.spec_value(),
            r.spec_capacity() == self.spec_capacity(),
            r.spec_label() == Seq::<char>::empty(),
            r.spec_markers() == Seq::<DebugMarker>::empty(),
            self.inv() ==> r.inv(),
    {
        GPUVar {
            device: self.device,
            value: self.value,
            capacity: self.capacity,
            label: String::new(),
            markers: Vec::new(),
        }
    }
}

impl<T: Copy> Clone for GPUVar<T> {
    /// Duplicate the handle, as [`GPUVar::to_owned`] does: a brand-new,
    /// independent buffer on the same device holding the same value.
    fn clone(&self) -> (r: Self)
        ensures
            r.spec_device() == self.spec_device(),
            r.spec_value() == self.spec_value(),
            r.spec_capacity() == self.spec_capacity(),
            r.spec_label() == Seq::<char>::empty(),
            r.spec_markers() == Seq::<DebugMarker>::empty(),
            self.inv() ==> r.inv(),
    {
        self.to_owned()
    }
}

} // verus!
