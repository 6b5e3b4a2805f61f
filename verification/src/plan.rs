//! How many bytes of a chunk go to the flash target, and in which writes.

use vstd::prelude::*;

verus! {

/// The largest number of bytes asked for in one chunk request.
pub const CHUNK_SIZE: u64 = 1024;

/// The flash target wants the length of a write to be a multiple of this.
pub const ALIGNMENT: usize = 4;

/// The two writes that put one chunk into flash.
#[derive(Clone, Copy, Debug, PartialEq, Eq, Structural)]
pub struct WritePlan {
    /// Length of the first write; it starts at offset 0 of the payload.
    pub aligned_len: usize,
    /// Length of the second write, which follows the first; 0 if there is none.
    pub tail_len: usize,
}

impl WritePlan {
    /// All the bytes that the plan writes.
    pub open spec fn total(self) -> nat {
        (self.aligned_len + self.tail_len) as nat
    }
}

/// The bytes of the image that are still missing.
pub open spec fn remaining_of(expected: nat, received: nat) -> nat {
    if expected >= received {
        (expected - received) as nat
    } else {
        0
    }
}

/// The bytes of a payload that are written: no more than are missing.
pub open spec fn writable_len(payload_len: nat, remaining: nat) -> nat {
    if payload_len <= remaining {
        payload_len
    } else {
        remaining
    }
}

/// The length of the first write: the largest multiple of the alignment that
/// fits, or everything where fewer bytes than one unit are to be written.
pub open spec fn aligned_part(writable: nat) -> nat {
    if writable < 4 {
        writable
    } else {
        (writable - writable % 4) as nat
    }
}

/// The plan for `writable` bytes.
pub open spec fn plan_for(writable: nat) -> WritePlan {
    WritePlan {
        aligned_len: aligned_part(writable) as usize,
        tail_len: (writable - aligned_part(writable)) as usize,
    }
}

/// The number of bytes to ask for next.
pub open spec fn request_size(remaining: nat) -> nat {
    if remaining <= 1024 {
        remaining
    } else {
        1024
    }
}

/// Computes [`remaining_of`].
pub fn remaining(expected: u64, received: u64) -> (r: u64)
    ensures
        r == remaining_of(expected as nat, received as nat),
{
    if expected >= received {
        expected - received
    } else {
        0
    }
}

/// Computes [`writable_len`].
pub fn writable(payload_len: usize, remaining: u64) -> (w: usize)
    ensures
        w == writable_len(payload_len as nat, remaining as nat),
{
    if payload_len as u64 <= remaining {
        payload_len
    } else {
        remaining as usize
    }
}

/// Splits `writable` bytes into the aligned write and the tail.
pub fn plan_write(writable: usize) -> (p: WritePlan)
    ensures
        p == plan_for(writable as nat),
        p.total() == writable,
        writable >= 4 ==> p.aligned_len % 4 == 0 && p.aligned_len > 0 && p.tail_len < 4,
        writable < 4 ==> p.aligned_len == writable && p.tail_len == 0,
{
    let rest: usize = writable % ALIGNMENT;
    if rest != 0 && writable > rest {
        WritePlan { aligned_len: writable - rest, tail_len: rest }
    } else {
        WritePlan { aligned_len: writable, tail_len: 0 }
    }
}

/// Computes [`request_size`].
pub fn next_request_size(remaining: u64) -> (n: u64)
    ensures
        n == request_size(remaining as nat),
        n <= remaining,
        n <= CHUNK_SIZE,
{
    if remaining <= CHUNK_SIZE {
        remaining
    } else {
        CHUNK_SIZE
    }
}

} // verus!
