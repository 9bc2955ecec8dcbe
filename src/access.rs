use vstd::prelude::*;

verus! {

/// The access that a device node is opened with.
#[derive(Clone, Copy, Debug, PartialEq, Eq, Structural)]
pub struct AccessMode {
    pub read: bool,
    pub write: bool,
}

/// Relies on libc::O_RDONLY, the read-only access flag, which Linux defines as 0.
#[verifier::external_body]
fn read_only_flag() -> (r: i32)
    ensures
        r == 0,
{
    libc::O_RDONLY
}

/// Relies on libc::O_WRONLY, the write-only access flag, which Linux defines as 1.
#[verifier::external_body]
fn write_only_flag() -> (r: i32)
    ensures
        r == 1,
{
    libc::O_WRONLY
}

/// Relies on libc::O_RDWR, the read-write access flag, which Linux defines as 2.
#[verifier::external_body]
fn read_write_flag() -> (r: i32)
    ensures
        r == 2,
{
    libc::O_RDWR
}

/// The access bits of an open flag word: the two low bits on Linux.
pub open spec fn access_bits(flags: i32) -> i32 {
    flags & 3
}

/// The access that the flags ask for: reading for read-only or read-write,
/// writing for write-only or read-write, neither for any other access value.
pub open spec fn requested_access(flags: i32) -> AccessMode {
    AccessMode {
        read: access_bits(flags) == 0 || access_bits(flags) == 2,
        write: access_bits(flags) == 1 || access_bits(flags) == 2,
    }
}

/// Decides the read and write permissions that the open flags request.
pub fn access_mode(flags: i32) -> (r: AccessMode)
    ensures
        r == requested_access(flags),
{
    let rdonly = read_only_flag();
    let wronly = write_only_flag();
    let rdwr = read_write_flag();
    let bits = flags & (wronly | rdwr);
    assert(wronly | rdwr == 3) by (bit_vector)
        requires
            wronly == 1,
            rdwr == 2,
    ;
    AccessMode {
        read: bits == rdonly || bits == rdwr,
        write: bits == wronly || bits == rdwr,
    }
}

} // verus!
