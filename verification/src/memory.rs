//! Checks on memory regions handed in from outside.
//!
//! A region is known here only by its address and its length.  Nothing in
//! this module reads the memory: validation looks at the two numbers, and
//! reading is a separate step of the host, to be taken only on a
//! [`ValidatedRegion`].  A verdict holds at the time of the check; the
//! memory belongs to someone else, who may withdraw it afterwards.

use vstd::prelude::*;
use vstd::layout::{align_nonzero, align_of, align_properties, layout_of_primitives, size_of};
use crate::config::FailSafe;

verus! {

/// The largest region, in bytes, that is taken for plausible: 1 MiB.
pub const MAX_REGION_BYTES: usize = 0x10_0000;

/// What the host's page-presence probe reported of a region.
#[derive(Clone, Copy, Debug, PartialEq, Eq, Structural)]
pub enum ProbeResult {
    /// The pages are present and may be read.
    Accessible,
    /// The pages are missing or may not be read.
    Inaccessible,
    /// The host offers no probe, so nothing is known.
    Unavailable,
}

/// `addr` is not null and is a multiple of `align`.
pub open spec fn pointer_ok(addr: usize, align: nat) -> bool {
    addr != 0 && align != 0 && addr as nat % align == 0
}

/// `len` is neither zero nor above the ceiling.
pub open spec fn length_ok(len: usize) -> bool {
    0 < len && len <= MAX_REGION_BYTES
}

/// A region passes the checks on its address, for elements aligned to
/// `align`, and on its length.
pub open spec fn region_ok_for(addr: usize, len: usize, align: nat) -> bool {
    pointer_ok(addr, align) && length_ok(len)
}

/// A region of bytes passes the checks on its address and on its length.
pub open spec fn region_ok(addr: usize, len: usize) -> bool {
    region_ok_for(addr, len, align_of::<u8>())
}

/// The probe's report, read under the given fail-safe choice, lets a
/// region be read: an answer decides, and a missing answer counts as
/// favourable only under `FailOpen`.
pub open spec fn probe_admits(probe: ProbeResult, fail_safe: FailSafe) -> bool {
    match probe {
        ProbeResult::Accessible => true,
        ProbeResult::Inaccessible => false,
        ProbeResult::Unavailable => fail_safe == FailSafe::FailOpen,
    }
}

/// Bytes are aligned wherever they stand.
pub proof fn bytes_need_no_alignment()
    ensures
        align_of::<u8>() == 1,
        forall|addr: usize, len: usize|
            region_ok(addr, len) <==> addr != 0 && 0 < len && len <= MAX_REGION_BYTES,
{
    broadcast use layout_of_primitives, align_properties, align_nonzero;

    assert(size_of::<u8>() == 1);
    assert(size_of::<u8>() % align_of::<u8>() == 0);
    let a = align_of::<u8>();
    if a > 1 {
        assert(1nat % a == 1) by (nonlinear_arith)
            requires
                a > 1,
        ;
    }
}

/// A null address never passes, whatever the alignment asked for and
/// whatever the length.
pub proof fn null_is_never_valid(align: nat, len: usize)
    ensures
        !pointer_ok(0, align),
        !region_ok_for(0, len, align),
        !region_ok(0, len),
{
}

/// An address that is no multiple of the alignment asked for never
/// passes, whatever the length.
pub proof fn misaligned_is_never_valid(addr: usize, len: usize, align: nat)
    requires
        align > 1,
        addr as nat % align != 0,
    ensures
        !pointer_ok(addr, align),
        !region_ok_for(addr, len, align),
{
}

/// A region of no bytes, or of more than the ceiling, never passes,
/// whatever its address.
pub proof fn implausible_length_is_never_valid(addr: usize, len: usize, align: nat)
    requires
        len == 0 || len > MAX_REGION_BYTES,
    ensures
        !region_ok_for(addr, len, align),
        !region_ok(addr, len),
{
}

/// A probe that answered decides, whatever the fail-safe choice; only
/// where the probe is missing does the choice decide.
pub proof fn fail_safe_decides_only_without_a_probe(fail_safe: FailSafe)
    ensures
        probe_admits(ProbeResult::Accessible, fail_safe),
        !probe_admits(ProbeResult::Inaccessible, fail_safe),
        probe_admits(ProbeResult::Unavailable, fail_safe) <==> fail_safe == FailSafe::FailOpen,
{
}

/// Tells whether `addr` may be the address of a `T`: it is not null and
/// it is aligned as `T` requires.
pub fn is_valid_pointer<T>(addr: usize) -> (valid: bool)
    ensures
        valid == pointer_ok(addr, align_of::<T>()),
{
    if addr == 0 {
        return false;
    }
    let align: usize = core::mem::align_of::<T>();
    proof {
        broadcast use align_nonzero;

        assert(align_of::<T>() > 0);
    }
    if addr % align != 0 {
        return false;
    }
    true
}

/// An address and a length as they came from outside, not yet checked.
#[derive(Clone, Copy, Debug, PartialEq, Eq, Structural)]
pub struct BufferDescriptor {
    /// The address of the first byte; zero is the null pointer.
    pub ptr: usize,
    /// The number of bytes.
    pub len: usize,
}

impl BufferDescriptor {
    /// Describes the region of `len` bytes at address `ptr`.
    pub fn new(ptr: usize, len: usize) -> (descriptor: Self)
        ensures
            descriptor.ptr == ptr,
            descriptor.len == len,
    {
        BufferDescriptor { ptr, len }
    }

    /// Checks, in this order, that the address is not null, that it is
    /// aligned, and that the length is above zero and within the ceiling.
    pub fn is_valid(&self) -> (valid: bool)
        ensures
            valid == region_ok(self.ptr, self.len),
    {
        if !is_valid_pointer::<u8>(self.ptr) {
            return false;
        }
        if self.len == 0 || self.len > MAX_REGION_BYTES {
            return false;
        }
        true
    }

    /// The checks of [`BufferDescriptor::is_valid`] for a region that
    /// is to be read as elements of type `T`: the address has to be
    /// aligned as `T` requires.  The length is still counted in bytes.
    pub fn is_valid_for<T>(&self) -> (valid: bool)
        ensures
            valid == region_ok_for(self.ptr, self.len, align_of::<T>()),
    {
        if !is_valid_pointer::<T>(self.ptr) {
            return false;
        }
        if self.len == 0 || self.len > MAX_REGION_BYTES {
            return false;
        }
        true
    }

    /// The checks of [`BufferDescriptor::is_valid`], followed by what the
    /// host's probe said.  Where the host has no probe, `fail_safe`
    /// decides; `FailOpen` then admits a region on the strength of its
    /// address and length alone, which is weaker protection and has to be
    /// chosen by name.
    pub fn is_readable(&self, probe: ProbeResult, fail_safe: FailSafe) -> (readable: bool)
        ensures
            readable == (region_ok(self.ptr, self.len) && probe_admits(probe, fail_safe)),
    {
        if !self.is_valid() {
            return false;
        }
        match probe {
            ProbeResult::Accessible => true,
            ProbeResult::Inaccessible => false,
            ProbeResult::Unavailable => match fail_safe {
                FailSafe::FailOpen => true,
                FailSafe::FailClosed => false,
            },
        }
    }

    /// Turns the descriptor into a region that may be read, if and only
    /// if it passes [`BufferDescriptor::is_valid`].
    pub fn validate(&self) -> (region: Option<ValidatedRegion>)
        ensures
            region is Some <==> region_ok(self.ptr, self.len),
            region matches Some(r) ==> r.addr() == self.ptr && r.len() == self.len,
    {
        if self.is_valid() {
            Some(ValidatedRegion { addr: self.ptr, len: self.len })
        } else {
            None
        }
    }
}

/// A region that has passed validation.  There is no other way to make
/// one, so code that asks for this type cannot be handed an unchecked
/// address.
#[derive(Clone, Copy, Debug)]
pub struct ValidatedRegion {
    addr: usize,
    len: usize,
}

impl ValidatedRegion {
    #[verifier::type_invariant]
    spec fn passed_validation(self) -> bool {
        region_ok(self.addr, self.len)
    }

    /// The address of the first byte.
    pub closed spec fn addr(&self) -> usize {
        self.addr
    }

    /// The number of bytes.
    pub closed spec fn len(&self) -> usize {
        self.len
    }

    /// The address of the first byte; never null.
    pub fn address(&self) -> (addr: usize)
        ensures
            addr == self.addr(),
            region_ok(addr, self.len()),
    {
        proof {
            use_type_invariant(self);
        }
        self.addr
    }

    /// The number of bytes; above zero and within the ceiling.
    pub fn length(&self) -> (len: usize)
        ensures
            len == self.len(),
            region_ok(self.addr(), len),
    {
        proof {
            use_type_invariant(self);
        }
        self.len
    }
}

} // verus!
