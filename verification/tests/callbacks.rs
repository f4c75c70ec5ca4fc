use cura_filter::callbacks::{
    admit_path, decide, decide_path, dispatch, dispatch_path, pre_create_callback,
    pre_setinfo_callback, pre_write_callback, CallbackStatus, FileContext, FileOperation,
    PathAdmission,
};
use cura_filter::config::FailSafe;
use cura_filter::hooks::{my_pre_create_callback, FilterCallbacks};
use cura_filter::memory::{BufferDescriptor, ProbeResult, MAX_REGION_BYTES};
use cura_filter::policy::FileFilter;
use cura_filter::telemetry::{EventKind, TelemetrySink};

#[test]
fn test_pre_create_blocks_rahasia() {
    let policy = FileFilter::new();
    let context = FileContext::new(
        FileOperation::Create,
        "C:\\Users\\test\\file_rahasia.txt",
        1234,
    );

    match pre_create_callback(&policy, &context) {
        CallbackStatus::Block => {}, // Expected
        _ => panic!("Should have blocked rahasia file"),
    }
}

#[test]
fn test_pre_create_allows_normal() {
    let policy = FileFilter::new();
    let context = FileContext::new(
        FileOperation::Create,
        "C:\\Users\\test\\normal.txt",
        1234,
    );

    match pre_create_callback(&policy, &context) {
        CallbackStatus::Allow => {}, // Expected
        _ => panic!("Should have allowed normal file"),
    }
}

#[test]
fn test_block_rahasia() {
    assert!(!my_pre_create_callback("file_rahasia.txt"));
    assert!(!my_pre_create_callback("FILE_RAHASIA.TXT"));
}

#[test]
fn ex10_callbacks_test_allow_normal() {
    assert!(my_pre_create_callback("normal.txt"));
    assert!(my_pre_create_callback("document.doc"));
}

#[test]
fn context_keeps_what_it_was_given() {
    let context = FileContext::new(FileOperation::Write, "C:\\a.txt", 77);
    assert_eq!(context.operation, FileOperation::Write);
    assert_eq!(context.path, "C:\\a.txt");
    assert_eq!(context.process_id, 77);
}

#[test]
fn status_codes_are_those_of_the_host() {
    assert_eq!(CallbackStatus::Allow.code(), 0);
    assert_eq!(CallbackStatus::Block.code(), 1);
    assert_eq!(CallbackStatus::Pending.code(), 2);
}

#[test]
fn write_and_setinfo_pass_through() {
    let paths = ["C:\\file_rahasia.txt", "C:\\SECRET.doc", "C:\\normal.txt", ""];
    let kinds = [
        FileOperation::Create,
        FileOperation::Read,
        FileOperation::Write,
        FileOperation::Delete,
        FileOperation::SetInfo,
        FileOperation::Close,
    ];
    for path in paths {
        for kind in kinds {
            let context = FileContext::new(kind, path, 1);
            assert_eq!(pre_write_callback(&context), CallbackStatus::Allow);
            assert_eq!(pre_setinfo_callback(&context), CallbackStatus::Allow);
        }
    }
}

#[test]
fn create_follows_the_policy_store() {
    let mut policy = FileFilter::new();
    let context = FileContext::new(FileOperation::Create, "C:\\FILE_RaHaSiA.TXT", 5);
    assert_eq!(pre_create_callback(&policy, &context), CallbackStatus::Block);
    let context = FileContext::new(FileOperation::Create, "C:\\secret.txt", 5);
    assert_eq!(pre_create_callback(&policy, &context), CallbackStatus::Block);
    let context = FileContext::new(FileOperation::Create, "C:\\Confidential.txt", 5);
    assert_eq!(pre_create_callback(&policy, &context), CallbackStatus::Block);
    let context = FileContext::new(FileOperation::Create, "", 5);
    assert_eq!(pre_create_callback(&policy, &context), CallbackStatus::Allow);
    let context = FileContext::new(FileOperation::Create, "C:\\classified.pdf", 5);
    assert_eq!(pre_create_callback(&policy, &context), CallbackStatus::Allow);
    policy.add_pattern("classified".to_string());
    assert_eq!(pre_create_callback(&policy, &context), CallbackStatus::Block);
}

#[test]
fn close_is_allowed_whatever_the_path_and_the_entry_point() {
    let policy = FileFilter::new();
    let close = FileContext::new(FileOperation::Close, "C:\\Users\\test\\file_rahasia.txt", 1234);
    assert_eq!(pre_create_callback(&policy, &close), CallbackStatus::Allow);
    assert_eq!(pre_write_callback(&close), CallbackStatus::Allow);
    assert_eq!(pre_setinfo_callback(&close), CallbackStatus::Allow);
    assert_eq!(decide(&policy, &close), CallbackStatus::Allow);
    let close = FileContext::new(FileOperation::Close, "C:\\SECRET.doc", 1);
    assert_eq!(pre_create_callback(&policy, &close), CallbackStatus::Allow);
    let close = FileContext::new(FileOperation::Close, "", 1);
    assert_eq!(pre_create_callback(&policy, &close), CallbackStatus::Allow);
}

#[test]
fn create_entry_point_decides_as_the_dispatcher_does() {
    let policy = FileFilter::new();
    let kinds = [
        FileOperation::Create,
        FileOperation::Read,
        FileOperation::Write,
        FileOperation::Delete,
        FileOperation::SetInfo,
        FileOperation::Close,
    ];
    for path in ["C:\\file_rahasia.txt", "C:\\normal.txt", "C:\\Secret\\x", ""] {
        for kind in kinds {
            let context = FileContext::new(kind, path, 42);
            let expected = decide(&policy, &context);
            assert_eq!(pre_create_callback(&policy, &context), expected);
            assert_eq!(decide_path(&policy, kind, path.as_bytes()), expected);
            if kind != FileOperation::Create {
                assert_eq!(expected, CallbackStatus::Allow);
            }
        }
    }
    let create = FileContext::new(FileOperation::Create, "C:\\file_rahasia.txt", 42);
    assert_eq!(pre_create_callback(&policy, &create), CallbackStatus::Block);
}

#[test]
fn path_that_is_no_text_is_decided_on_its_bytes() {
    let policy = FileFilter::new();
    let mut sink = TelemetrySink::<2>::new();
    let path: [u8; 11] = [0xff, 0xfe, b'R', b'a', b'h', b'a', b's', b'i', b'a', 0x80, 0x00];
    assert!(std::str::from_utf8(&path).is_err());
    assert_eq!(decide_path(&policy, FileOperation::Create, &path), CallbackStatus::Block);
    assert_eq!(decide_path(&policy, FileOperation::Close, &path), CallbackStatus::Allow);
    assert_eq!(
        dispatch_path(&policy, &mut sink, FileOperation::Create, &path, 9, 500),
        CallbackStatus::Block
    );
    let other: [u8; 3] = [0xff, 0xfe, 0xfd];
    assert_eq!(
        dispatch_path(&policy, &mut sink, FileOperation::Create, &other, 10, 501),
        CallbackStatus::Allow
    );
    let records = sink.drain(5);
    assert_eq!(records.len(), 2);
    assert_eq!(records[0].timestamp, 500);
    assert_eq!(records[0].event, EventKind::File(FileOperation::Create));
    assert_eq!(records[0].decision, CallbackStatus::Block);
    assert_eq!(records[0].process_id, 9);
    assert_eq!(records[0].snippet.as_slice(), &path[..]);
    assert_eq!(records[1].decision, CallbackStatus::Allow);
    assert_eq!(records[1].snippet.as_slice(), &other[..]);
}

#[test]
fn valid_region_is_admitted_for_reading() {
    let good = BufferDescriptor::new(0x5000, 40);
    match admit_path(&good, ProbeResult::Accessible, FailSafe::FailClosed) {
        PathAdmission::Read(region) => {
            assert_eq!(region.address(), 0x5000);
            assert_eq!(region.length(), 40);
        }
        PathAdmission::Decided(_) => panic!("a valid region was refused"),
    }
    match admit_path(&good, ProbeResult::Unavailable, FailSafe::FailOpen) {
        PathAdmission::Read(region) => {
            assert_eq!(region.address(), 0x5000);
            assert_eq!(region.length(), 40);
        }
        PathAdmission::Decided(_) => panic!("a valid region was refused"),
    }
}

#[test]
fn region_that_may_not_be_read_is_decided_by_the_fail_safe_choice() {
    let cases = [
        (BufferDescriptor::new(0, 40), ProbeResult::Accessible),
        (BufferDescriptor::new(0x5000, 0), ProbeResult::Accessible),
        (BufferDescriptor::new(0x5000, MAX_REGION_BYTES + 1), ProbeResult::Accessible),
        (BufferDescriptor::new(0x5000, 40), ProbeResult::Inaccessible),
    ];
    for (descriptor, probe) in cases {
        match admit_path(&descriptor, probe, FailSafe::FailClosed) {
            PathAdmission::Decided(status) => assert_eq!(status, CallbackStatus::Block),
            PathAdmission::Read(_) => panic!("a region that may not be read was admitted"),
        }
        match admit_path(&descriptor, probe, FailSafe::FailOpen) {
            PathAdmission::Decided(status) => assert_eq!(status, CallbackStatus::Allow),
            PathAdmission::Read(_) => panic!("a region that may not be read was admitted"),
        }
    }
    let good = BufferDescriptor::new(0x5000, 40);
    match admit_path(&good, ProbeResult::Unavailable, FailSafe::FailClosed) {
        PathAdmission::Decided(status) => assert_eq!(status, CallbackStatus::Block),
        PathAdmission::Read(_) => panic!("a region was admitted without a probe"),
    }
}

#[test]
fn dispatcher_blocks_create_by_policy_and_allows_the_rest() {
    let policy = FileFilter::new();
    let create = FileContext::new(FileOperation::Create, "C:\\Users\\test\\file_rahasia.txt", 1234);
    assert_eq!(decide(&policy, &create), CallbackStatus::Block);
    let create = FileContext::new(FileOperation::Create, "C:\\Users\\test\\normal.txt", 1234);
    assert_eq!(decide(&policy, &create), CallbackStatus::Allow);
    let create = FileContext::new(FileOperation::Create, "C:\\Users\\test\\SECRET.doc", 1234);
    assert_eq!(decide(&policy, &create), CallbackStatus::Block);
    let close = FileContext::new(FileOperation::Close, "C:\\Users\\test\\file_rahasia.txt", 1234);
    assert_eq!(decide(&policy, &close), CallbackStatus::Allow);
    let close = FileContext::new(FileOperation::Close, "anything", 1);
    assert_eq!(decide(&policy, &close), CallbackStatus::Allow);
    let write = FileContext::new(FileOperation::Write, "C:\\file_rahasia.txt", 1234);
    assert_eq!(decide(&policy, &write), CallbackStatus::Allow);
    let read = FileContext::new(FileOperation::Read, "C:\\file_rahasia.txt", 1234);
    assert_eq!(decide(&policy, &read), CallbackStatus::Allow);
    let delete = FileContext::new(FileOperation::Delete, "C:\\file_rahasia.txt", 1234);
    assert_eq!(decide(&policy, &delete), CallbackStatus::Allow);
    let setinfo = FileContext::new(FileOperation::SetInfo, "C:\\file_rahasia.txt", 1234);
    assert_eq!(decide(&policy, &setinfo), CallbackStatus::Allow);
}

#[test]
fn dispatcher_follows_a_pattern_added_later() {
    let mut policy = FileFilter::new();
    let create = FileContext::new(FileOperation::Create, "C:\\classified.pdf", 9);
    assert_eq!(decide(&policy, &create), CallbackStatus::Allow);
    policy.add_pattern("classified".to_string());
    assert_eq!(decide(&policy, &create), CallbackStatus::Block);
}

#[test]
fn dispatch_records_each_decision() {
    let policy = FileFilter::new();
    let mut sink = TelemetrySink::<4>::new();
    let blocked = FileContext::new(FileOperation::Create, "C:\\Users\\test\\file_rahasia.txt", 1234);
    let allowed = FileContext::new(FileOperation::Close, "C:\\x.txt", 77);
    assert_eq!(dispatch(&policy, &mut sink, &blocked, 100), CallbackStatus::Block);
    assert_eq!(dispatch(&policy, &mut sink, &allowed, 101), CallbackStatus::Allow);
    assert_eq!(sink.len(), 2);
    let records = sink.drain(10);
    assert_eq!(records.len(), 2);
    assert_eq!(records[0].timestamp, 100);
    assert_eq!(records[0].event, EventKind::File(FileOperation::Create));
    assert_eq!(records[0].decision, CallbackStatus::Block);
    assert_eq!(records[0].process_id, 1234);
    assert_eq!(records[0].snippet.as_slice(), "C:\\Users\\test\\file_rahasia.txt".as_bytes());
    assert_eq!(records[1].timestamp, 101);
    assert_eq!(records[1].event, EventKind::File(FileOperation::Close));
    assert_eq!(records[1].decision, CallbackStatus::Allow);
    assert_eq!(records[1].process_id, 77);
    assert_eq!(records[1].snippet.as_slice(), "C:\\x.txt".as_bytes());
}

#[test]
fn full_sink_changes_no_decision() {
    let policy = FileFilter::new();
    let mut sink = TelemetrySink::<1>::new();
    let first = FileContext::new(FileOperation::Create, "C:\\normal.txt", 1);
    let second = FileContext::new(FileOperation::Create, "C:\\file_rahasia.txt", 2);
    let third = FileContext::new(FileOperation::Create, "C:\\other.txt", 3);
    assert_eq!(dispatch(&policy, &mut sink, &first, 1), CallbackStatus::Allow);
    assert!(sink.is_full());
    assert_eq!(dispatch(&policy, &mut sink, &second, 2), CallbackStatus::Block);
    assert_eq!(dispatch(&policy, &mut sink, &third, 3), CallbackStatus::Allow);
    let records = sink.drain(10);
    assert_eq!(records.len(), 1);
    assert_eq!(records[0].process_id, 1);
}

#[test]
fn callback_slot_allows_where_nothing_is_registered() {
    let callbacks: FilterCallbacks<fn(&str) -> bool> = FilterCallbacks::new();
    assert!(callbacks.invoke_pre_create("C:\\file_rahasia.txt"));
    assert!(callbacks.invoke_pre_create("C:\\test.txt"));
}

#[test]
fn callback_slot_asks_the_registered_callback() {
    let mut callbacks: FilterCallbacks<fn(&str) -> bool> = FilterCallbacks::new();
    callbacks.set_pre_create(my_pre_create_callback);
    assert!(callbacks.invoke_pre_create("C:\\test.txt"));
    assert!(!callbacks.invoke_pre_create("C:\\file_rahasia.txt"));
    assert!(!callbacks.invoke_pre_create("C:\\RAHASIA.doc"));
    assert!(callbacks.invoke_pre_create("C:\\normal.doc"));
}
