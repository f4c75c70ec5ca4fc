//! The process monitor: it classifies the names of new processes and
//! reports the suspicious ones.  It decides nothing about whether a
//! process may start, and it keeps no table of processes.

use vstd::prelude::*;
use vstd::string::StringSliceAdditionalSpecFns;
use crate::callbacks::CallbackStatus;
use crate::matcher::{matches_any, path_contains_pattern};
use crate::policy::{default_suspicious_patterns, FileFilter};
use crate::telemetry::{offered, snippet_of, EventKind, RecordView, TelemetryRecord, TelemetrySink};

verus! {

/// What is known of a process at its creation.
pub struct ProcessInfo<'a> {
    pub process_id: u32,
    pub parent_process_id: u32,
    pub image_name: &'a str,
}

impl<'a> ProcessInfo<'a> {
    /// The record of the process `pid`, created by `parent_pid` from the
    /// image `name`.
    pub fn new(pid: u32, parent_pid: u32, name: &'a str) -> (process: Self)
        ensures
            process.process_id == pid,
            process.parent_process_id == parent_pid,
            process.image_name == name,
    {
        ProcessInfo { process_id: pid, parent_process_id: parent_pid, image_name: name }
    }
}

/// Takes note of a new process.  Its name is classified under the
/// patterns of `policy`; where it is suspicious, an alert is offered to
/// `sink`, and where it is not, the sink is left alone.  The result is
/// the classification.  The process is allowed to start either way.
pub fn process_create_callback<const CAP: usize>(
    process: &ProcessInfo,
    policy: &FileFilter,
    sink: &mut TelemetrySink<CAP>,
    timestamp: u64,
) -> (suspicious: bool)
    ensures
        suspicious == matches_any(policy.suspicious(), process.image_name.spec_bytes()),
        suspicious ==> offered(
            old(sink)@,
            final(sink)@,
            CAP as nat,
            RecordView {
                timestamp,
                event: EventKind::ProcessCreate,
                decision: CallbackStatus::Allow,
                process_id: process.process_id,
                snippet: snippet_of(process.image_name.spec_bytes()),
            },
        ),
        !suspicious ==> final(sink)@ == old(sink)@,
{
    let suspicious = policy.is_suspicious(process.image_name);
    if suspicious {
        let record = TelemetryRecord::new(
            timestamp,
            EventKind::ProcessCreate,
            CallbackStatus::Allow,
            process.process_id,
            process.image_name.as_bytes(),
        );
        let _ = sink.try_enqueue(record);
        proof {
            if old(sink)@.len() < CAP {
                assert(sink@.drop_last() =~= old(sink)@);
            }
        }
    }
    suspicious
}

/// Takes note of the end of a process.  No table of processes is kept,
/// so there is nothing to release.
pub fn process_terminate_callback(process_id: u32) {
}

/// Tells whether a process name is suspicious under the default
/// patterns: whether one of them occurs in the name, ignoring ASCII case.
pub fn is_suspicious_process(name: &str) -> (suspicious: bool)
    ensures
        suspicious == matches_any(default_suspicious_patterns(), name.spec_bytes()),
{
    proof {
        let patterns = default_suspicious_patterns();
        assert(patterns[0] == "cryptolocker".spec_bytes());
        assert(patterns[1] == "ransomware".spec_bytes());
        assert(patterns[2] == "malware".spec_bytes());
    }
    if path_contains_pattern(name, "cryptolocker") {
        return true;
    }
    if path_contains_pattern(name, "ransomware") {
        return true;
    }
    path_contains_pattern(name, "malware")
}

} // verus!
