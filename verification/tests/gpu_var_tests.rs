use gpu_var::checked_page_rounded;
use gpu_var::resolve_default_device;
use gpu_var::Device;
use gpu_var::GPUVar;
use gpu_var::GpuVarError;
use gpu_var::PAGE_SIZE;

#[test]
fn construct_and_read_back() {
    let d = Device::new(0);
    let v = GPUVar::<i32>::with_value(&d, 10).unwrap();
    assert_eq!(v.value(), 10);
    assert_eq!(v.device().id(), 0);
    assert!(v.has_value());
}

#[test]
fn overwrite_reads_last_write() {
    let d = Device::new(0);
    let mut v = GPUVar::<i32>::with_value(&d, 10).unwrap();
    v.set_value(20);
    assert_eq!(v.value(), 20);
}

#[test]
fn overwrite_many_times() {
    let d = Device::new(3);
    let mut v = GPUVar::<u64>::with_value(&d, 1).unwrap();
    for i in 2..50u64 {
        v.set_value(i);
    }
    assert_eq!(v.value(), 49);
}

#[test]
fn clone_is_independent() {
    let d = Device::new(0);
    let mut v = GPUVar::<i32>::with_value(&d, 10).unwrap();
    v.set_value(20);
    let c = v.clone();
    assert_eq!(c.value(), 20);
    v.set_value(30);
    assert_eq!(c.value(), 20);
    assert_eq!(v.value(), 30);
}

#[test]
fn to_owned_is_independent() {
    let d = Device::new(9);
    let mut v = GPUVar::<u8>::with_value(&d, 20).unwrap();
    let mut c = v.to_owned();
    assert_eq!(c.value(), 20);
    c.set_value(99);
    assert_eq!(v.value(), 20);
    assert_eq!(c.value(), 99);
    assert_eq!(c.device().id(), 9);
}

#[test]
fn clone_starts_with_fresh_metadata() {
    let d = Device::new(0);
    let mut v = GPUVar::<i32>::with_value(&d, 1).unwrap();
    v.set_label("source buffer");
    v.add_debug_marker("mark", 0, 4);
    let c = v.clone();
    assert_eq!(c.label(), "");
    assert_eq!(c.debug_markers().len(), 0);
}

#[test]
fn three_byte_type_gets_a_full_page() {
    let d = Device::new(0);
    let v = GPUVar::<[u8; 3]>::with_value(&d, [1, 2, 3]).unwrap();
    assert_eq!(GPUVar::<[u8; 3]>::element_size(), 3);
    assert_eq!(v.byte_capacity(), 4096);
    assert_eq!(v.value(), [1, 2, 3]);
}

#[test]
fn capacity_is_page_aligned_and_large_enough() {
    let d = Device::new(0);
    let v = GPUVar::<[u8; 5000]>::with_value(&d, [7; 5000]).unwrap();
    assert_eq!(v.byte_capacity(), 2 * PAGE_SIZE);
    assert_eq!(v.byte_capacity() % PAGE_SIZE, 0);
    assert!(v.byte_capacity() >= GPUVar::<[u8; 5000]>::element_size());
}

#[test]
fn no_default_device_fails_construction() {
    let r = GPUVar::<i32>::new(None);
    assert_eq!(r.unwrap_err(), GpuVarError::NoDeviceAvailable);
    let r = GPUVar::<i32>::with_value1(None, 10);
    assert_eq!(r.unwrap_err(), GpuVarError::NoDeviceAvailable);
}

#[test]
fn default_device_is_passed_through() {
    let d = Device::new(4);
    assert_eq!(resolve_default_device(Some(d)), Ok(d));
    assert_eq!(
        resolve_default_device(None),
        Err(GpuVarError::NoDeviceAvailable)
    );
    let v = GPUVar::<i32>::with_value1(Some(d), 10).unwrap();
    assert_eq!(v.value(), 10);
    assert_eq!(v.device().id(), 4);
}

#[test]
fn exhausted_device_refuses_allocation() {
    let small = Device::with_max_allocation(1, 100);
    let r = GPUVar::<i32>::with_value(&small, 5);
    assert_eq!(r.unwrap_err(), GpuVarError::AllocationFailure);
    let r = GPUVar::<i32>::with_value1(Some(small), 5);
    assert_eq!(r.unwrap_err(), GpuVarError::AllocationFailure);
    let r = GPUVar::<i32>::new(Some(small));
    assert_eq!(r.unwrap_err(), GpuVarError::AllocationFailure);
}

#[test]
fn device_granting_exactly_one_page_suffices() {
    let exact = Device::with_max_allocation(2, 4096);
    let v = GPUVar::<i32>::with_value(&exact, 5).unwrap();
    assert_eq!(v.byte_capacity(), 4096);
}

#[test]
fn new_buffer_has_no_defined_value() {
    let d = Device::new(0);
    let mut v = GPUVar::<i32>::new(Some(d)).unwrap();
    assert!(!v.has_value());
    v.set_value(42);
    assert!(v.has_value());
    assert_eq!(v.value(), 42);
}

#[test]
fn label_round_trip() {
    let d = Device::new(0);
    let mut v = GPUVar::<i32>::with_value(&d, 1).unwrap();
    assert_eq!(v.label(), "");
    v.set_label("staging buffer");
    assert_eq!(v.label(), "staging buffer");
    v.set_label("renamed");
    assert_eq!(v.label(), "renamed");
}

#[test]
fn debug_markers_are_recorded_and_cleared() {
    let d = Device::new(0);
    let mut v = GPUVar::<u64>::with_value(&d, 1).unwrap();
    assert_eq!(v.debug_markers().len(), 0);
    v.add_debug_marker("first", 0, 8);
    v.add_debug_marker("second", 8, 4096);
    assert_eq!(v.debug_markers().len(), 2);
    assert_eq!(v.debug_markers()[0].label, "first");
    assert_eq!(v.debug_markers()[0].location, 0);
    assert_eq!(v.debug_markers()[0].length, 8);
    assert_eq!(v.debug_markers()[1].label, "second");
    assert_eq!(v.debug_markers()[1].location, 8);
    assert_eq!(v.debug_markers()[1].length, 4088);
    v.remove_all_debug_markers();
    assert_eq!(v.debug_markers().len(), 0);
}

#[test]
fn element_sizes_match_the_types() {
    assert_eq!(GPUVar::<u8>::element_size(), 1);
    assert_eq!(GPUVar::<i32>::element_size(), 4);
    assert_eq!(GPUVar::<u64>::element_size(), 8);
    assert_eq!(GPUVar::<[u64; 4]>::element_size(), 32);
}

#[test]
fn page_rounding_exact_values() {
    assert_eq!(checked_page_rounded(0), Some(0));
    assert_eq!(checked_page_rounded(1), Some(4096));
    assert_eq!(checked_page_rounded(3), Some(4096));
    assert_eq!(checked_page_rounded(4096), Some(4096));
    assert_eq!(checked_page_rounded(4097), Some(8192));
    assert_eq!(checked_page_rounded(usize::MAX), None);
    assert_eq!(checked_page_rounded(usize::MAX - 4095), Some(usize::MAX - 4095));
}
