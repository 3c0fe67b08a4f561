//! Access requests for raw input devices.
//!
//! The input subsystem asks for a device with a word of `open(2)` flags. The
//! functions here read the access mode out of that word, so that the device
//! is opened with exactly the access it was asked for, and with every other
//! flag untouched. Opening and closing the device is left to the caller.
use vstd::prelude::*;

verus! {

/// The two low bits of an `open(2)` flag word, which hold the access mode:
/// 0 for read-only, 1 for write-only, 2 for read-write.
pub open spec fn access_mode(flags: i32) -> i32 {
    flags & 3i32
}

/// Whether `flags` ask for a readable descriptor: every access mode but
/// write-only.
pub open spec fn wants_read(flags: i32) -> bool {
    access_mode(flags) != 1i32
}

/// Whether `flags` ask for a writable descriptor: every access mode but
/// read-only.
pub open spec fn wants_write(flags: i32) -> bool {
    access_mode(flags) != 0i32
}

/// The value of `libc::O_RDONLY`.
///
/// Taken on trust: libc gives the constant the value 0 on Linux and the
/// systems like it, and the contract says so.
#[verifier::external_body]
fn o_rdonly() -> (r: i32)
    ensures
        r == 0,
{
    libc::O_RDONLY
}

/// The value of `libc::O_WRONLY`.
///
/// Taken on trust: libc gives the constant the value 1 on Linux and the
/// systems like it, and the contract says so.
#[verifier::external_body]
fn o_wronly() -> (r: i32)
    ensures
        r == 1,
{
    libc::O_WRONLY
}

/// The value of `libc::O_RDWR`.
///
/// Taken on trust: libc gives the constant the value 2 on Linux and the
/// systems like it, and the contract says so.
#[verifier::external_body]
fn o_rdwr() -> (r: i32)
    ensures
        r == 2,
{
    libc::O_RDWR
}

/// How a device file is to be opened.
#[derive(Clone, Copy, Debug, PartialEq, Eq)]
pub struct OpenRequest {
    /// Open for reading.
    pub read: bool,
    /// Open for writing.
    pub write: bool,
    /// The caller's flag word, handed to the operating system as it came.
    pub custom_flags: i32,
}

/// The request to make for a device that is asked for with `flags`: read
/// access, write access or both, as the access mode in `flags` says, and
/// the flags themselves, unchanged.
pub fn open_request(flags: i32) -> (req: OpenRequest)
    ensures
        req.read == wants_read(flags),
        req.write == wants_write(flags),
        req.custom_flags == flags,
{
    let rdonly: i32 = o_rdonly();
    let wronly: i32 = o_wronly();
    let rdwr: i32 = o_rdwr();
    let mode: i32 = flags & (wronly | rdwr);
    proof {
        assert((1i32 | 2i32) == 3i32) by (bit_vector);
        assert(((flags & 3i32) == 0i32 || (flags & 2i32) != 0i32) <==> (flags & 3i32) != 1i32)
            by (bit_vector);
        assert(((flags & 1i32) != 0i32 || (flags & 2i32) != 0i32) <==> (flags & 3i32) != 0i32)
            by (bit_vector);
    }
    OpenRequest {
        read: mode == rdonly || (flags & rdwr) != 0,
        write: (flags & wronly) != 0 || (flags & rdwr) != 0,
        custom_flags: flags,
    }
}

/// What each access mode asks for: read-only opens for reading alone,
/// write-only for writing alone, read-write for both. The fourth pattern of
/// the two bits, which names no mode, is opened for both.
pub proof fn lemma_access_by_mode(flags: i32)
    ensures
        0 <= access_mode(flags) <= 3,
        access_mode(flags) == 0 ==> wants_read(flags) && !wants_write(flags),
        access_mode(flags) == 1 ==> !wants_read(flags) && wants_write(flags),
        access_mode(flags) >= 2 ==> wants_read(flags) && wants_write(flags),
{
    assert(0i32 <= (flags & 3i32) <= 3i32) by (bit_vector);
}

/// Every flag word asks for some access, so no open is refused for asking
/// for none.
pub proof fn lemma_access_never_empty(flags: i32)
    ensures
        wants_read(flags) || wants_write(flags),
{
}

/// Flags outside the two access bits change nothing in the access asked
/// for.
pub proof fn lemma_access_ignores_other_flags(flags: i32, other: i32)
    requires
        access_mode(other) == 0,
    ensures
        access_mode(flags | other) == access_mode(flags),
        wants_read(flags | other) == wants_read(flags),
        wants_write(flags | other) == wants_write(flags),
{
    assert((other & 3i32) == 0i32 ==> ((flags | other) & 3i32) == (flags & 3i32)) by (bit_vector);
}

} // verus!
