use cura_filter::driver::{DriverContext, STATUS_SUCCESS};
use cura_filter::stats::FilterStatistics;

#[test]
fn new_context_is_not_running() {
    let context = DriverContext::new();
    assert_eq!(context.filter_handle, 0);
    assert!(!context.is_running);
}

#[test]
fn initialize_starts_and_cleanup_stops() {
    let mut context = DriverContext::new();
    assert_eq!(STATUS_SUCCESS, 0);
    assert_eq!(context.initialize(), 0);
    assert!(context.is_running);
    assert_eq!(context.filter_handle, 0);
    assert_eq!(context.initialize(), 0);
    assert!(context.is_running);
    context.cleanup();
    assert!(!context.is_running);
    context.cleanup();
    assert!(!context.is_running);
}

#[test]
fn handle_is_left_alone() {
    let mut context = DriverContext::new();
    context.filter_handle = 0xdead0;
    context.initialize();
    assert_eq!(context.filter_handle, 0xdead0);
    context.cleanup();
    assert_eq!(context.filter_handle, 0xdead0);
}

#[test]
fn statistics_count_each_decision() {
    let mut stats = FilterStatistics::new();
    assert_eq!(stats.allowed, 0);
    assert_eq!(stats.blocked, 0);
    assert_eq!(stats.total(), Some(0));
    stats.record_allow();
    stats.record_allow();
    stats.record_block();
    assert_eq!(stats.allowed, 2);
    assert_eq!(stats.blocked, 1);
    assert_eq!(stats.total(), Some(3));
}

#[test]
fn total_beyond_the_machine_word_is_none() {
    let stats = FilterStatistics { allowed: usize::MAX, blocked: 1 };
    assert_eq!(stats.total(), None);
    let stats = FilterStatistics { allowed: usize::MAX - 1, blocked: 1 };
    assert_eq!(stats.total(), Some(usize::MAX));
}
