//! The vocabulary shared by the driver and the program around it: what the
//! driver asks for, what the flash target answers, and what can go wrong.

use vstd::prelude::*;

verus! {

/// Ownership token for an open flash-write transaction.
///
/// The flash target hands one out when `begin` succeeds; every later call for
/// the same transaction names it.
#[derive(Clone, Copy, Debug, PartialEq, Eq, Structural)]
pub struct FlashHandle {
    raw: u32,
}

impl FlashHandle {
    /// The number that a handle wraps.
    pub closed spec fn spec_raw(self) -> u32 {
        self.raw
    }

    /// Wraps the number that the flash target returned.
    pub fn new(raw: u32) -> (h: FlashHandle)
        ensures
            h.spec_raw() == raw,
    {
        FlashHandle { raw }
    }

    /// The number to pass back to the flash target.
    #[verifier::when_used_as_spec(spec_raw)]
    pub fn raw(self) -> (r: u32)
        ensures
            r == self.spec_raw(),
    {
        self.raw
    }
}

/// The value of `fw_state` in a state report.
#[derive(Clone, Copy, Debug, PartialEq, Eq, Structural)]
pub enum ReportLabel {
    Downloading,
    Updating,
    Updated,
    Failed,
}

/// A message for the channel, before it is put into text.
#[derive(Clone, Copy, Debug, PartialEq, Eq, Structural)]
pub enum Outgoing {
    /// Asks for the shared firmware attributes.
    MetadataRequest,
    /// Asks for `size` bytes of the image, as chunk number `index`.
    ChunkRequest { request_id: u32, index: u64, size: u64 },
    /// Reports the update's state on the telemetry topic.
    StateReport(ReportLabel),
}

/// One thing that the program around the driver has to do.
///
/// The actions of one answer are performed in order.  `FlashBegin`,
/// `FlashWrite` and `FlashEnd` are each answered with a [`FlashResult`]; they
/// only ever stand last in an answer.
#[derive(Clone, Copy, Debug, PartialEq, Eq, Structural)]
pub enum Action {
    /// Publish a message.
    Publish(Outgoing),
    /// Find the next update partition and open a write transaction for an
    /// image of `size` bytes.
    FlashBegin { size: u64 },
    /// Write `len` bytes of the chunk that is being handled, starting at
    /// `offset` in its payload.
    FlashWrite { handle: FlashHandle, offset: usize, len: usize },
    /// Finish the transaction and let the flash target validate the image.
    FlashEnd { handle: FlashHandle },
    /// Mark the written partition as the one to boot next.
    SetActive { handle: FlashHandle },
    /// Restart the device.
    Restart,
}

/// The flash target's answer to the last flash action.
#[derive(Clone, Copy, Debug, PartialEq, Eq, Structural)]
pub enum FlashResult {
    /// `begin` succeeded and opened this transaction.
    BeginOk(FlashHandle),
    /// There is no partition to write to.
    BeginNoPartition,
    /// The flash target refused `begin`.
    BeginFailed,
    WriteOk,
    WriteFailed,
    EndOk,
    EndFailed,
}

/// Why an event did not have its usual effect.
#[derive(Clone, Copy, Debug, PartialEq, Eq, Structural)]
pub enum OtaError {
    /// No writable target partition exists.
    MissingPartition,
    FlashBeginError,
    FlashWriteError,
    /// The flash target could not finish or validate the image.
    FlashEndError,
    /// A metadata response that cannot be read or lacks what a session needs.
    /// Such a message is dropped without a report.
    MalformedMessage,
    /// An event that the session is in no position to take: a session start
    /// while one is under way, or a flash answer that nothing asked for.
    ProtocolMisuse,
}

/// What the driver answers to an event.
pub struct Outcome {
    /// What to do now, in this order.
    pub actions: Vec<Action>,
    /// Set when the event was dropped or ended the session in failure.
    pub error: Option<OtaError>,
}

} // verus!
