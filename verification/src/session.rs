//! The update session: the single owner of the state of an update in flight.

use vstd::prelude::*;
use crate::metadata::{view_of, Metadata, MetadataView};
use crate::plan::{remaining, remaining_of, WritePlan};
use crate::protocol::FlashHandle;

verus! {

/// Where a session stands.  The flash handle lives inside the two states in
/// which a write transaction is open, and nowhere else.
#[derive(Clone, Copy, Debug, PartialEq, Eq, Structural)]
pub enum SessionState {
    /// No update was ever started.
    Idle,
    /// Metadata was asked for and no session was started yet.  The driver
    /// itself never moves a session here: asking for metadata leaves the
    /// session as it is.
    AwaitingMetadata,
    /// Chunks are being requested and written.
    Downloading { handle: FlashHandle },
    /// All bytes are written; the flash target is finishing the image.
    Finalizing { handle: FlashHandle },
    /// The image is complete and marked for the next boot.
    Succeeded,
    /// The update was given up.
    Failed,
}

impl SessionState {
    /// A write transaction is open.
    pub open spec fn is_active(self) -> bool {
        self is Downloading || self is Finalizing
    }

    /// The handle of the open write transaction.
    pub open spec fn handle(self) -> Option<FlashHandle> {
        match self {
            SessionState::Downloading { handle } => Some(handle),
            SessionState::Finalizing { handle } => Some(handle),
            _ => None,
        }
    }
}

/// The flash write that the session waits for while it handles a chunk.
#[derive(Clone, Copy, Debug, PartialEq, Eq, Structural)]
pub enum WriteStage {
    /// No write is under way.
    Idle,
    /// The first, aligned write of the plan is under way.
    Aligned(WritePlan),
    /// The second write of the plan, the tail, is under way.
    Tail(WritePlan),
}

/// The state of an update.
pub struct UpdateSession {
    state: SessionState,
    firmware: Option<Metadata>,
    received_bytes: u64,
    chunk_request_id: u32,
    candidate: Option<Metadata>,
    write: WriteStage,
}

/// An [`UpdateSession`] as a mathematical value.
pub ghost struct SessionView {
    pub state: SessionState,
    /// Identity and expected size of the image; unset until a session starts.
    pub firmware: Option<MetadataView>,
    /// Bytes committed to the flash target in the current session.
    pub received_bytes: nat,
    /// The request id under which chunks are asked for.
    pub chunk_request_id: u32,
    /// Metadata of a session whose flash transaction is being opened.
    pub candidate: Option<MetadataView>,
    /// The write under way for the chunk that is being handled.
    pub write: WriteStage,
}

impl SessionView {
    /// The session before anything happened.
    pub open spec fn initial() -> SessionView {
        SessionView {
            state: SessionState::Idle,
            firmware: None,
            received_bytes: 0,
            chunk_request_id: 1,
            candidate: None,
            write: WriteStage::Idle,
        }
    }

    /// The total size of the image, once metadata was accepted.
    pub open spec fn expected_size(self) -> Option<nat> {
        match self.firmware {
            Some(f) => Some(f.size),
            None => None,
        }
    }

    /// The bytes still missing; 0 while no size is known.
    pub open spec fn remaining(self) -> nat {
        match self.firmware {
            Some(f) => remaining_of(f.size, self.received_bytes),
            None => 0,
        }
    }

    /// The handle of the open write transaction.
    pub open spec fn flash_handle(self) -> Option<FlashHandle> {
        self.state.handle()
    }

    /// A session is under way or about to start, so that no other may start.
    pub open spec fn busy(self) -> bool {
        self.state.is_active() || self.candidate is Some
    }

    /// The invariant of a session.
    ///
    /// * The received bytes never exceed the expected size, and there are
    ///   none while no size is known.
    /// * No size is known while the session is idle or awaits metadata; one
    ///   is known while a write transaction is open.
    /// * Finalizing and success mean that every byte is received; while an
    ///   image that has bytes is downloaded, some are missing.
    /// * A session is only proposed while none is under way.
    /// * A write is only under way while downloading; its plan starts with a
    ///   write that is not empty and covers no more than is missing.
    pub open spec fn valid(self) -> bool {
        &&& match self.firmware {
            Some(f) => f.valid() && self.received_bytes <= f.size,
            None => self.received_bytes == 0,
        }
        &&& (self.state is Idle || self.state is AwaitingMetadata) ==> self.firmware is None
        &&& self.state.is_active() ==> self.firmware is Some
        &&& (self.state is Finalizing || self.state is Succeeded) ==> self.firmware is Some
            && self.remaining() == 0
        &&& self.state is Downloading && self.firmware is Some && self.firmware.unwrap().size > 0
            ==> self.remaining() > 0
        &&& match self.candidate {
            Some(c) => c.valid() && !self.state.is_active(),
            None => true,
        }
        &&& match self.write {
            WriteStage::Idle => true,
            WriteStage::Aligned(p) | WriteStage::Tail(p) => {
                &&& self.state is Downloading
                &&& 0 < p.aligned_len
                &&& p.total() <= self.remaining()
            },
        }
    }
}

impl View for UpdateSession {
    type V = SessionView;

    closed spec fn view(&self) -> SessionView {
        SessionView {
            state: self.state,
            firmware: view_of(self.firmware),
            received_bytes: self.received_bytes as nat,
            chunk_request_id: self.chunk_request_id,
            candidate: view_of(self.candidate),
            write: self.write,
        }
    }
}

impl UpdateSession {
    /// The invariant of a session: see [`SessionView::valid`].
    pub open spec fn wf(&self) -> bool {
        self@.valid()
    }

    /// A session in which nothing happened yet.
    pub fn new() -> (s: UpdateSession)
        ensures
            s@ == SessionView::initial(),
            s.wf(),
    {
        UpdateSession {
            state: SessionState::Idle,
            firmware: None,
            received_bytes: 0,
            chunk_request_id: 1,
            candidate: None,
            write: WriteStage::Idle,
        }
    }

    /// Where the session stands.
    pub fn state(&self) -> (r: SessionState)
        ensures
            r == self@.state,
    {
        self.state
    }

    /// The total size of the image; `None` until a session has started.
    pub fn expected_size(&self) -> (r: Option<u64>)
        ensures
            match r {
                Some(n) => self@.expected_size() == Some(n as nat),
                None => self@.expected_size() is None,
            },
    {
        match &self.firmware {
            Some(f) => Some(f.size()),
            None => None,
        }
    }

    /// The bytes committed to the flash target in the current session.
    pub fn received_bytes(&self) -> (r: u64)
        ensures
            r == self@.received_bytes,
    {
        self.received_bytes
    }

    /// The bytes of the image that are still missing.
    pub fn remaining(&self) -> (r: u64)
        ensures
            r == self@.remaining(),
    {
        match &self.firmware {
            Some(f) => remaining(f.size(), self.received_bytes),
            None => 0,
        }
    }

    /// The title of the firmware of the current session.
    pub fn firmware_title(&self) -> (r: Option<&str>)
        ensures
            match r {
                Some(t) => self@.firmware is Some && t@ == self@.firmware.unwrap().title,
                None => self@.firmware is None,
            },
    {
        match &self.firmware {
            Some(f) => Some(f.title()),
            None => None,
        }
    }

    /// The version of the firmware of the current session.
    pub fn firmware_version(&self) -> (r: Option<&str>)
        ensures
            match r {
                Some(v) => self@.firmware is Some && v@ == self@.firmware.unwrap().version,
                None => self@.firmware is None,
            },
    {
        match &self.firmware {
            Some(f) => Some(f.version()),
            None => None,
        }
    }

    /// The handle of the open write transaction.  There is one exactly while
    /// the session is downloading or finalizing.
    pub fn flash_handle(&self) -> (r: Option<FlashHandle>)
        ensures
            r == self@.flash_handle(),
            r is Some <==> self@.state.is_active(),
    {
        match self.state {
            SessionState::Downloading { handle } => Some(handle),
            SessionState::Finalizing { handle } => Some(handle),
            _ => None,
        }
    }

    /// The request id under which the session asks for chunks.
    pub fn chunk_request_id(&self) -> (r: u32)
        ensures
            r == self@.chunk_request_id,
    {
        self.chunk_request_id
    }

    /// Checks the invariant at run time.  It holds of every session that
    /// [`UpdateSession::new`] made and the driver has worked on.
    pub fn is_well_formed(&self) -> (r: bool)
        ensures
            r == self.wf(),
    {
        let missing: u64 = self.remaining();
        let active: bool = match self.state {
            SessionState::Downloading { .. } => true,
            SessionState::Finalizing { .. } => true,
            _ => false,
        };
        let progress: bool = match &self.firmware {
            Some(f) => f.is_valid() && self.received_bytes <= f.size(),
            None => self.received_bytes == 0,
        };
        let state: bool = match self.state {
            SessionState::Idle => self.firmware.is_none(),
            SessionState::AwaitingMetadata => self.firmware.is_none(),
            SessionState::Downloading { .. } => match &self.firmware {
                Some(f) => f.size() == 0 || missing > 0,
                None => false,
            },
            SessionState::Finalizing { .. } => self.firmware.is_some() && missing == 0,
            SessionState::Succeeded => self.firmware.is_some() && missing == 0,
            SessionState::Failed => true,
        };
        let candidate: bool = match &self.candidate {
            Some(c) => c.is_valid() && !active,
            None => true,
        };
        let write: bool = match self.write {
            WriteStage::Idle => true,
            WriteStage::Aligned(p) | WriteStage::Tail(p) => {
                let downloading: bool = match self.state {
                    SessionState::Downloading { .. } => true,
                    _ => false,
                };
                downloading && 0 < p.aligned_len && p.aligned_len as u64 <= missing
                    && p.tail_len as u64 <= missing - p.aligned_len as u64
            },
        };
        progress && state && candidate && write
    }

    /// Keeps the metadata of a session whose flash transaction is about to
    /// be opened.
    pub(crate) fn propose(&mut self, metadata: Metadata)
        ensures
            final(self)@ == (SessionView { candidate: Some(metadata@), ..old(self)@ }),
    {
        self.candidate = Some(metadata);
    }

    /// Starts the session that was proposed, on the transaction `handle`.
    pub(crate) fn open(&mut self, handle: FlashHandle)
        ensures
            final(self)@ == (SessionView {
                state: SessionState::Downloading { handle },
                firmware: old(self)@.candidate,
                received_bytes: 0,
                candidate: None,
                write: WriteStage::Idle,
                ..old(self)@
            }),
    {
        self.firmware = self.candidate.take();
        self.state = SessionState::Downloading { handle };
        self.received_bytes = 0;
        self.write = WriteStage::Idle;
    }

    /// Gives the update up.
    pub(crate) fn abandon(&mut self)
        ensures
            final(self)@ == (SessionView {
                state: SessionState::Failed,
                candidate: None,
                write: WriteStage::Idle,
                ..old(self)@
            }),
    {
        self.state = SessionState::Failed;
        self.candidate = None;
        self.write = WriteStage::Idle;
    }

    /// Records which write the session waits for.
    pub(crate) fn stage(&mut self, write: WriteStage)
        ensures
            final(self)@ == (SessionView { write, ..old(self)@ }),
    {
        self.write = write;
    }

    /// Counts `written` bytes as received; no write is under way afterwards.
    pub(crate) fn commit(&mut self, written: u64)
        requires
            old(self)@.received_bytes + written <= u64::MAX,
        ensures
            final(self)@ == (SessionView {
                received_bytes: old(self)@.received_bytes + written as nat,
                write: WriteStage::Idle,
                ..old(self)@
            }),
    {
        self.received_bytes = self.received_bytes + written;
        self.write = WriteStage::Idle;
    }

    /// Moves the session to `state`.
    pub(crate) fn enter(&mut self, state: SessionState)
        ensures
            final(self)@ == (SessionView { state, ..old(self)@ }),
    {
        self.state = state;
    }

    /// Metadata is kept for a session that is about to start.
    pub(crate) fn has_candidate(&self) -> (r: bool)
        ensures
            r == (self@.candidate is Some),
    {
        self.candidate.is_some()
    }

    /// The write that the session waits for.
    pub(crate) fn write_stage(&self) -> (r: WriteStage)
        ensures
            r == self@.write,
    {
        self.write
    }

    /// A session is under way or about to start.
    pub fn is_busy(&self) -> (r: bool)
        ensures
            r == self@.busy(),
    {
        let active: bool = match self.state {
            SessionState::Downloading { .. } => true,
            SessionState::Finalizing { .. } => true,
            _ => false,
        };
        active || self.candidate.is_some()
    }
}

} // verus!
