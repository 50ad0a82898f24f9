//! The library's laws: properties that hold of every buffer and relate
//! several operations, stated over the spec-level model that the operations'
//! own contracts use and proved once for all inputs.

use crate::align::lemma_page_rounded_properties;
use crate::align::PAGE_SIZE;
use crate::gpu_var::DebugMarker;
use crate::gpu_var::GPUVar;
use vstd::layout::size_of;
use vstd::prelude::*;

verus! {

/// The stored value after applying `writes` in order to a buffer whose
/// region holds `initial`: each step is exactly the effect `set_value`
/// ensures — the region afterwards holds that write's value.
pub open spec fn value_after_writes<T>(initial: Option<T>, writes: Seq<T>) -> Option<T>
    decreases writes.len(),
{
    if writes.len() == 0 {
        initial
    } else {
        value_after_writes(Some(writes[0]), writes.skip(1))
    }
}

/// Overwrite law: after any non-empty sequence of writes, a read sees
/// exactly the last write, regardless of the number or content of prior
/// writes and of whatever the buffer held before them.
pub proof fn lemma_overwrite<T>(initial: Option<T>, writes: Seq<T>)
    requires
        writes.len() > 0,
    ensures
        value_after_writes(initial, writes) == Some(writes.last()),
    decreases writes.len(),
{
    if writes.len() == 1 {
        assert(writes.skip(1).len() == 0);
    } else {
        lemma_overwrite(Some(writes[0]), writes.skip(1));
        assert(writes.skip(1).last() == writes.last());
    }
}

/// Round-trip law: constructing a buffer with value `v` leaves its region
/// holding `Some(v)` (as `with_value` ensures), and reading a region that
/// holds `Some(v)` (`value` ensures `Some(read) == spec_value()`) yields
/// `v` itself — the value read back is the value stored.
pub proof fn lemma_round_trip<T>(stored: Option<T>, written: T, read: T)
    requires
        stored == Some(written),
        Some(read) == stored,
    ensures
        read == written,
{
}

/// Clone law, the read half: a copy whose region equals the source's at
/// clone time (as `to_owned` and `clone` ensure) reads the source's
/// clone-time value. The independence half is ownership: each handle owns
/// its buffer, and `set_value` takes `&mut self` with a contract that
/// mentions no other instance, so a later write through either handle
/// leaves the other's model untouched.
pub proof fn lemma_clone_reads_source_value<T: Copy>(source: GPUVar<T>, duplicate: GPUVar<T>, v: T)
    requires
        duplicate.spec_value() == source.spec_value(),
        source.spec_value() == Some(v),
    ensures
        duplicate.spec_value() == Some(v),
{
}

/// Alignment law: every well-formed buffer's byte capacity is a multiple of
/// the platform page size and is at least the element size.
pub proof fn lemma_alignment_invariant<T: Copy>(v: GPUVar<T>)
    requires
        v.inv(),
    ensures
        v.spec_capacity() as nat % (PAGE_SIZE as nat) == 0,
        v.spec_capacity() as nat >= size_of::<T>(),
{
    lemma_page_rounded_properties(size_of::<T>());
}

/// Metadata pass-through law: a buffer whose label was set to `label` (as
/// `set_label` ensures) reads that same string back, and after
/// `remove_all_debug_markers` (which ensures an empty marker sequence) not
/// one marker is left, however many had been added before.
pub proof fn lemma_metadata_pass_through<T: Copy>(
    labelled: GPUVar<T>,
    label: Seq<char>,
    cleared: GPUVar<T>,
)
    requires
        labelled.spec_label() == label,
        cleared.spec_markers() == Seq::<DebugMarker>::empty(),
    ensures
        labelled.spec_label() == label,
        cleared.spec_markers().len() == 0,
{
}

} // verus!
