use cura_filter::config::FailSafe;
use cura_filter::memory::{is_valid_pointer, BufferDescriptor, ProbeResult, MAX_REGION_BYTES};

#[test]
fn test_null_pointer_detection() {
    let null_ptr = std::ptr::null::<u32>();
    assert!(null_ptr.is_null());
    assert!(!is_valid_pointer::<u32>(null_ptr.addr()));

    let value: u32 = 42;
    let valid_ptr = std::ptr::from_ref(&value);
    assert!(!valid_ptr.is_null());
    assert!(is_valid_pointer::<u32>(valid_ptr.addr()));
}

#[test]
fn test_valid_pointer() {
    let value = 42u32;
    let ptr = std::ptr::from_ref(&value).addr();
    assert!(is_valid_pointer::<u32>(ptr));
}

#[test]
fn test_null_pointer() {
    let ptr = std::ptr::null::<u32>();
    assert!(!is_valid_pointer::<u32>(ptr.addr()));
}

#[test]
fn test_buffer_descriptor_valid() {
    let data = vec![1u8, 2, 3, 4];
    let buf = BufferDescriptor::new(data.as_ptr().addr(), data.len());
    assert!(buf.is_valid());
}

#[test]
fn test_buffer_descriptor_null() {
    let buf = BufferDescriptor::new(std::ptr::null::<u8>().addr(), 10);
    assert!(!buf.is_valid());
}

#[test]
fn test_buffer_descriptor_too_large() {
    let data = vec![1u8];
    let buf = BufferDescriptor::new(data.as_ptr().addr(), 10 * 1024 * 1024);
    assert!(!buf.is_valid());
}

#[test]
fn misaligned_pointer_is_invalid() {
    let value = 1000u32;
    let aligned = std::ptr::from_ref(&value).addr();
    assert!(is_valid_pointer::<u32>(aligned));
    assert!(!is_valid_pointer::<u32>(aligned + 1));
    assert!(!is_valid_pointer::<u32>(aligned + 2));
    assert!(!is_valid_pointer::<u64>(0x1004));
    assert!(is_valid_pointer::<u64>(0x1008));
    assert!(!is_valid_pointer::<u16>(0x1001));
    // A byte may stand anywhere.
    assert!(is_valid_pointer::<u8>(aligned + 1));
    assert!(is_valid_pointer::<u8>(1));
    assert!(!is_valid_pointer::<u8>(0));
}

#[test]
fn length_must_be_above_zero_and_within_the_ceiling() {
    assert_eq!(MAX_REGION_BYTES, 1024 * 1024);
    assert!(!BufferDescriptor::new(0x1000, 0).is_valid());
    assert!(BufferDescriptor::new(0x1000, 1).is_valid());
    assert!(BufferDescriptor::new(0x1000, MAX_REGION_BYTES).is_valid());
    assert!(!BufferDescriptor::new(0x1000, MAX_REGION_BYTES + 1).is_valid());
    assert!(!BufferDescriptor::new(0x1000, usize::MAX).is_valid());
    assert!(!BufferDescriptor::new(0, 0).is_valid());
    assert!(BufferDescriptor::new(0x1001, 16).is_valid());
}

#[test]
fn descriptor_keeps_what_it_was_given() {
    let buf = BufferDescriptor::new(0x2000, 33);
    assert_eq!(buf.ptr, 0x2000);
    assert_eq!(buf.len, 33);
}

#[test]
fn only_a_valid_descriptor_yields_a_region() {
    let region = BufferDescriptor::new(0x3000, 128).validate();
    assert!(region.is_some());
    let region = region.unwrap();
    assert_eq!(region.address(), 0x3000);
    assert_eq!(region.length(), 128);
    assert!(BufferDescriptor::new(0, 128).validate().is_none());
    assert!(BufferDescriptor::new(0x3000, 0).validate().is_none());
    assert!(BufferDescriptor::new(0x3000, MAX_REGION_BYTES + 1).validate().is_none());
}

#[test]
fn probe_decides_where_it_answers() {
    let good = BufferDescriptor::new(0x4000, 64);
    assert!(good.is_readable(ProbeResult::Accessible, FailSafe::FailClosed));
    assert!(good.is_readable(ProbeResult::Accessible, FailSafe::FailOpen));
    assert!(!good.is_readable(ProbeResult::Inaccessible, FailSafe::FailClosed));
    assert!(!good.is_readable(ProbeResult::Inaccessible, FailSafe::FailOpen));
}

#[test]
fn missing_probe_follows_the_fail_safe_choice() {
    let good = BufferDescriptor::new(0x4000, 64);
    assert!(good.is_readable(ProbeResult::Unavailable, FailSafe::FailOpen));
    assert!(!good.is_readable(ProbeResult::Unavailable, FailSafe::FailClosed));
}

#[test]
fn no_probe_rescues_an_invalid_region() {
    let null = BufferDescriptor::new(0, 64);
    assert!(!null.is_readable(ProbeResult::Accessible, FailSafe::FailOpen));
    assert!(!null.is_readable(ProbeResult::Unavailable, FailSafe::FailOpen));
    let empty = BufferDescriptor::new(0x4000, 0);
    assert!(!empty.is_readable(ProbeResult::Accessible, FailSafe::FailOpen));
    let huge = BufferDescriptor::new(0x4000, 10 * 1024 * 1024);
    assert!(!huge.is_readable(ProbeResult::Accessible, FailSafe::FailOpen));
}
