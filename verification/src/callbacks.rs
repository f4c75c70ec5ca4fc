//! The decisions on intercepted file operations.
//!
//! The creation or opening of a file is decided by the policy that the
//! caller passes in: it is blocked where a pattern occurs in the path.
//! Every other kind of operation passes through.  The entry points for
//! writes and for renaming and deleting allow whatever they are handed.
//! No decision allocates, waits or loops beyond the length of the path
//! times the length of the patterns.

use vstd::prelude::*;
use vstd::string::StringSliceAdditionalSpecFns;
use crate::config::FailSafe;
use crate::matcher::matches_any;
use crate::memory::{probe_admits, region_ok, BufferDescriptor, ProbeResult, ValidatedRegion};
use crate::policy::FileFilter;
use crate::telemetry::{offered, snippet_of, EventKind, RecordView, TelemetryRecord, TelemetrySink};

verus! {

/// What becomes of an intercepted operation.
#[derive(Clone, Copy, Debug, PartialEq, Eq, Structural)]
pub enum CallbackStatus {
    /// The operation goes on.
    Allow,
    /// The operation is failed.
    Block,
    /// The operation is held until a verdict arrives from elsewhere.
    Pending,
}

impl CallbackStatus {
    /// The number by which the host knows this status.
    pub open spec fn spec_code(self) -> i32 {
        match self {
            CallbackStatus::Allow => 0,
            CallbackStatus::Block => 1,
            CallbackStatus::Pending => 2,
        }
    }

    /// The number by which the host knows this status: 0 to allow, 1 to
    /// block, 2 for pending.
    #[verifier::when_used_as_spec(spec_code)]
    pub fn code(self) -> (code: i32)
        ensures
            code == self.spec_code(),
    {
        match self {
            CallbackStatus::Allow => 0,
            CallbackStatus::Block => 1,
            CallbackStatus::Pending => 2,
        }
    }
}

/// The kinds of file operation that can be intercepted.
#[derive(Clone, Copy, Debug, PartialEq, Eq, Structural)]
pub enum FileOperation {
    Create,
    Read,
    Write,
    Delete,
    SetInfo,
    Close,
}

/// One intercepted operation.  The path is borrowed from the caller,
/// and the context is lent for the length of one call and never kept.
pub struct FileContext<'a> {
    pub operation: FileOperation,
    pub path: &'a str,
    pub process_id: u32,
}

impl<'a> FileContext<'a> {
    /// The record of an operation of kind `operation` on `path`, issued
    /// by the process `process_id`.
    pub fn new(operation: FileOperation, path: &'a str, process_id: u32) -> (context: Self)
        ensures
            context.operation == operation,
            context.path == path,
            context.process_id == process_id,
    {
        FileContext { operation, path, process_id }
    }
}

/// The decision on creating or opening `path` under `patterns`: block
/// where a pattern occurs in the path, allow otherwise.
pub open spec fn create_decision(patterns: Seq<Seq<u8>>, path: Seq<u8>) -> CallbackStatus {
    if matches_any(patterns, path) {
        CallbackStatus::Block
    } else {
        CallbackStatus::Allow
    }
}

/// The decision on an operation of the given kind on `path` under
/// `patterns`.  Only creating or opening consults the patterns; every
/// other kind passes through.
pub open spec fn decision(
    patterns: Seq<Seq<u8>>,
    operation: FileOperation,
    path: Seq<u8>,
) -> CallbackStatus {
    match operation {
        FileOperation::Create => create_decision(patterns, path),
        FileOperation::Read => CallbackStatus::Allow,
        FileOperation::Write => CallbackStatus::Allow,
        FileOperation::Delete => CallbackStatus::Allow,
        FileOperation::SetInfo => CallbackStatus::Allow,
        FileOperation::Close => CallbackStatus::Allow,
    }
}

/// No decision is left pending: each is final when it is returned.
pub proof fn decision_is_final(patterns: Seq<Seq<u8>>, operation: FileOperation, path: Seq<u8>)
    ensures
        decision(patterns, operation, path) != CallbackStatus::Pending,
        operation != FileOperation::Create ==> decision(patterns, operation, path)
            == CallbackStatus::Allow,
{
}

/// Decides on an operation of the given kind on the path whose bytes
/// are `path`, under the patterns of `policy`.
pub fn decide_path(
    policy: &FileFilter,
    operation: FileOperation,
    path: &[u8],
) -> (status: CallbackStatus)
    ensures
        status == decision(policy.blocked(), operation, path@),
{
    match operation {
        FileOperation::Create => {
            if policy.should_block_bytes(path) {
                CallbackStatus::Block
            } else {
                CallbackStatus::Allow
            }
        },
        FileOperation::Read => CallbackStatus::Allow,
        FileOperation::Write => CallbackStatus::Allow,
        FileOperation::Delete => CallbackStatus::Allow,
        FileOperation::SetInfo => CallbackStatus::Allow,
        FileOperation::Close => CallbackStatus::Allow,
    }
}

/// Decides on an operation of any kind under the patterns of `policy`.
pub fn decide(policy: &FileFilter, context: &FileContext) -> (status: CallbackStatus)
    ensures
        status == decision(policy.blocked(), context.operation, context.path.spec_bytes()),
{
    decide_path(policy, context.operation, context.path.as_bytes())
}

/// The entry point for the creation or opening of a file: blocks where
/// a pattern of `policy` occurs in the path, and allows otherwise.  A
/// context of another kind is decided as its own kind asks.
pub fn pre_create_callback(
    policy: &FileFilter,
    context: &FileContext,
) -> (status: CallbackStatus)
    ensures
        status == decision(policy.blocked(), context.operation, context.path.spec_bytes()),
{
    decide(policy, context)
}

/// The entry point for writes.  Writes pass through: the result is to
/// allow, whatever the context holds.
pub fn pre_write_callback(context: &FileContext) -> (status: CallbackStatus)
    ensures
        status == CallbackStatus::Allow,
{
    CallbackStatus::Allow
}

/// The entry point for renaming and deleting.  Both pass through: the
/// result is to allow, whatever the context holds.
pub fn pre_setinfo_callback(context: &FileContext) -> (status: CallbackStatus)
    ensures
        status == CallbackStatus::Allow,
{
    CallbackStatus::Allow
}

/// Decides on an operation of the given kind on the path whose bytes
/// are `path`, and offers a record of the decision to `sink`.
///
/// The decision is that of [`decide_path`]; whether the sink had room
/// for the record has no part in it.
pub fn dispatch_path<const CAP: usize>(
    policy: &FileFilter,
    sink: &mut TelemetrySink<CAP>,
    operation: FileOperation,
    path: &[u8],
    process_id: u32,
    timestamp: u64,
) -> (status: CallbackStatus)
    ensures
        status == decision(policy.blocked(), operation, path@),
        offered(
            old(sink)@,
            final(sink)@,
            CAP as nat,
            RecordView {
                timestamp,
                event: EventKind::File(operation),
                decision: status,
                process_id,
                snippet: snippet_of(path@),
            },
        ),
{
    let status = decide_path(policy, operation, path);
    let record = TelemetryRecord::new(
        timestamp,
        EventKind::File(operation),
        status,
        process_id,
        path,
    );
    let _ = sink.try_enqueue(record);
    proof {
        if old(sink)@.len() < CAP {
            assert(sink@.drop_last() =~= old(sink)@);
        }
    }
    status
}

/// Decides on an operation under the patterns of `policy` and offers a
/// record of the decision to `sink`.
///
/// The decision is that of [`decide`]; whether the sink had room for
/// the record has no part in it.
pub fn dispatch<const CAP: usize>(
    policy: &FileFilter,
    sink: &mut TelemetrySink<CAP>,
    context: &FileContext,
    timestamp: u64,
) -> (status: CallbackStatus)
    ensures
        status == decision(policy.blocked(), context.operation, context.path.spec_bytes()),
        offered(
            old(sink)@,
            final(sink)@,
            CAP as nat,
            RecordView {
                timestamp,
                event: EventKind::File(context.operation),
                decision: status,
                process_id: context.process_id,
                snippet: snippet_of(context.path.spec_bytes()),
            },
        ),
{
    dispatch_path(
        policy,
        sink,
        context.operation,
        context.path.as_bytes(),
        context.process_id,
        timestamp,
    )
}

/// What becomes of a path that arrives as an address and a length.
pub enum PathAdmission {
    /// The region may be read, and the operation is decided on the
    /// bytes found there.
    Read(ValidatedRegion),
    /// The region may not be read, and the operation is decided without
    /// its path.
    Decided(CallbackStatus),
}

/// Says whether the path of an operation may be read from the region
/// that `descriptor` names.
///
/// It may where the region passes validation and the report of the
/// host's probe, read under `fail_safe`, admits it.  Otherwise nothing
/// is read, and the operation is decided by `fail_safe`.
pub fn admit_path(
    descriptor: &BufferDescriptor,
    probe: ProbeResult,
    fail_safe: FailSafe,
) -> (admission: PathAdmission)
    ensures
        region_ok(descriptor.ptr, descriptor.len) && probe_admits(probe, fail_safe) ==> (
            admission matches PathAdmission::Read(region) && region.addr() == descriptor.ptr
                && region.len() == descriptor.len),
        !(region_ok(descriptor.ptr, descriptor.len) && probe_admits(probe, fail_safe))
            ==> admission == PathAdmission::Decided(fail_safe.spec_decision()),
{
    if !descriptor.is_readable(probe, fail_safe) {
        return PathAdmission::Decided(fail_safe.decision());
    }
    match descriptor.validate() {
        Some(region) => PathAdmission::Read(region),
        None => PathAdmission::Decided(fail_safe.decision()),
    }
}

} // verus!
