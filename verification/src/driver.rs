//! The protocol driver: reads metadata and chunk responses, moves the session
//! along, and says what to request, write and report next.
//!
//! Every handler is a step of one state machine.  The `on_*` functions give
//! the step as a mathematical function of the session and the event; each
//! handler is proved to compute exactly that step.

use vstd::prelude::*;
use crate::metadata::{metadata_of, parse_metadata, view_of, Metadata, MetadataView};
use crate::plan::{
    next_request_size, plan_for, plan_write, request_size, writable, writable_len, WritePlan,
    CHUNK_SIZE,
};
use crate::protocol::{Action, FlashHandle, FlashResult, OtaError, Outcome, Outgoing, ReportLabel};
use crate::session::{SessionState, SessionView, UpdateSession, WriteStage};
use crate::wire::{classify_topic, kind_of, payload_str, text_of, MessageKind};

verus! {

/// The answer to an event as a mathematical value, together with the session
/// that the event leaves behind.
pub ghost struct Step {
    pub next: SessionView,
    pub actions: Seq<Action>,
    pub error: Option<OtaError>,
}

/// The step of an event that changes nothing and asks for nothing.
pub open spec fn ignored(s: SessionView) -> Step {
    Step { next: s, actions: Seq::empty(), error: None }
}

/// The step of an event that is turned down: nothing changes, nothing is
/// asked for, and the answer says why.
pub open spec fn refused(s: SessionView, error: OtaError) -> Step {
    Step { next: s, actions: Seq::empty(), error: Some(error) }
}

/// The step that gives the update up: the session is `Failed`, and one
/// "FAILED" report is all that is sent.
pub open spec fn failed(s: SessionView, error: OtaError) -> Step {
    Step {
        next: SessionView {
            state: SessionState::Failed,
            candidate: None,
            write: WriteStage::Idle,
            ..s
        },
        actions: seq![Action::Publish(Outgoing::StateReport(ReportLabel::Failed))],
        error: Some(error),
    }
}

/// An outcome holds the actions and the error of a step.
pub open spec fn answers(out: Outcome, step: Step) -> bool {
    out.actions@ == step.actions && out.error == step.error
}

/// The request for chunk `index`: for as many bytes as are missing, at most
/// [`CHUNK_SIZE`]; `None` where none are missing.
pub open spec fn chunk_request(s: SessionView, index: nat) -> Option<Action> {
    if s.remaining() == 0 {
        None
    } else {
        Some(
            Action::Publish(
                Outgoing::ChunkRequest {
                    request_id: s.chunk_request_id,
                    index: index as u64,
                    size: request_size(s.remaining()) as u64,
                },
            ),
        )
    }
}

/// [`chunk_request`] as a list of at most one action.
pub open spec fn chunk_request_actions(s: SessionView, index: nat) -> Seq<Action> {
    match chunk_request(s, index) {
        Some(a) => seq![a],
        None => Seq::empty(),
    }
}

/// The number of the chunk that starts where the received bytes end.
pub open spec fn next_chunk_index(s: SessionView) -> nat {
    s.received_bytes / 1024
}

/// The step of a metadata response whose payload held `metadata`.
///
/// A payload without usable metadata is dropped.  While a session is under
/// way or about to start, the response is turned down and the session stays
/// as it is.  Otherwise the metadata is kept and the flash target is asked to
/// open a transaction; the session starts when it has done so.
pub open spec fn on_metadata(s: SessionView, metadata: Option<MetadataView>) -> Step {
    match metadata {
        None => refused(s, OtaError::MalformedMessage),
        Some(m) => if s.busy() {
            refused(s, OtaError::ProtocolMisuse)
        } else {
            Step {
                next: SessionView { candidate: Some(m), ..s },
                actions: seq![Action::FlashBegin { size: m.size as u64 }],
                error: None,
            }
        },
    }
}

/// The step of the flash target's answer to `begin`.
pub open spec fn on_begin_result(s: SessionView, result: Result<FlashHandle, OtaError>) -> Step {
    if s.candidate is None {
        refused(s, OtaError::ProtocolMisuse)
    } else {
        match result {
            Ok(handle) => {
                let next = SessionView {
                    state: SessionState::Downloading { handle },
                    firmware: s.candidate,
                    received_bytes: 0,
                    candidate: None,
                    write: WriteStage::Idle,
                    ..s
                };
                Step {
                    next,
                    actions: seq![Action::Publish(Outgoing::StateReport(ReportLabel::Downloading))]
                        + chunk_request_actions(next, 0),
                    error: None,
                }
            },
            Err(e) => failed(s, e),
        }
    }
}

/// The step of a chunk response with a payload of `payload_len` bytes.
///
/// Outside `Downloading`, and when no byte is missing, the chunk is ignored.
/// Otherwise as many bytes as are missing, at most the whole payload, are to
/// be written, the aligned part first.  An empty payload writes nothing and
/// has the same chunk asked for again.
pub open spec fn on_chunk(s: SessionView, payload_len: nat) -> Step {
    match s.state {
        SessionState::Downloading { handle } => {
            if s.write != WriteStage::Idle {
                refused(s, OtaError::ProtocolMisuse)
            } else if s.remaining() == 0 {
                ignored(s)
            } else {
                let plan = plan_for(writable_len(payload_len, s.remaining()));
                if plan.aligned_len == 0 {
                    Step {
                        next: s,
                        actions: chunk_request_actions(s, next_chunk_index(s)),
                        error: None,
                    }
                } else {
                    Step {
                        next: SessionView { write: WriteStage::Aligned(plan), ..s },
                        actions: seq![
                            Action::FlashWrite { handle, offset: 0, len: plan.aligned_len },
                        ],
                        error: None,
                    }
                }
            }
        },
        _ => ignored(s),
    }
}

/// The step that follows the last write of a plan: its bytes count as
/// received; if none is missing any more the flash target is asked to finish
/// the image, else the next chunk is asked for.
pub open spec fn on_chunk_written(s: SessionView, handle: FlashHandle, plan: WritePlan) -> Step {
    let counted = SessionView {
        received_bytes: s.received_bytes + plan.total(),
        write: WriteStage::Idle,
        ..s
    };
    if counted.remaining() == 0 {
        Step {
            next: SessionView { state: SessionState::Finalizing { handle }, ..counted },
            actions: seq![Action::FlashEnd { handle }],
            error: None,
        }
    } else {
        Step {
            next: counted,
            actions: chunk_request_actions(counted, next_chunk_index(counted)),
            error: None,
        }
    }
}

/// The step of the flash target's answer to a write.
pub open spec fn on_write_result(s: SessionView, ok: bool) -> Step {
    match s.state {
        SessionState::Downloading { handle } => match s.write {
            WriteStage::Idle => refused(s, OtaError::ProtocolMisuse),
            WriteStage::Aligned(plan) => if !ok {
                failed(s, OtaError::FlashWriteError)
            } else if plan.tail_len > 0 {
                Step {
                    next: SessionView { write: WriteStage::Tail(plan), ..s },
                    actions: seq![
                        Action::FlashWrite {
                            handle,
                            offset: plan.aligned_len,
                            len: plan.tail_len,
                        },
                    ],
                    error: None,
                }
            } else {
                on_chunk_written(s, handle, plan)
            },
            WriteStage::Tail(plan) => if !ok {
                failed(s, OtaError::FlashWriteError)
            } else {
                on_chunk_written(s, handle, plan)
            },
        },
        _ => refused(s, OtaError::ProtocolMisuse),
    }
}

/// The step of the flash target's answer to `end`.
pub open spec fn on_end_result(s: SessionView, ok: bool) -> Step {
    match s.state {
        SessionState::Finalizing { handle } => if ok {
            Step {
                next: SessionView { state: SessionState::Succeeded, ..s },
                actions: seq![
                    Action::SetActive { handle },
                    Action::Publish(Outgoing::StateReport(ReportLabel::Updated)),
                    Action::Restart,
                ],
                error: None,
            }
        } else {
            failed(s, OtaError::FlashEndError)
        },
        _ => refused(s, OtaError::ProtocolMisuse),
    }
}

/// The step of an answer of the flash target.
pub open spec fn on_flash_result(s: SessionView, result: FlashResult) -> Step {
    match result {
        FlashResult::BeginOk(handle) => on_begin_result(s, Ok(handle)),
        FlashResult::BeginNoPartition => on_begin_result(s, Err(OtaError::MissingPartition)),
        FlashResult::BeginFailed => on_begin_result(s, Err(OtaError::FlashBeginError)),
        FlashResult::WriteOk => on_write_result(s, true),
        FlashResult::WriteFailed => on_write_result(s, false),
        FlashResult::EndOk => on_end_result(s, true),
        FlashResult::EndFailed => on_end_result(s, false),
    }
}

/// An event, as the state machine sees it.
pub ghost enum Input {
    /// A metadata response; the field is the metadata that its payload held.
    Metadata(Option<MetadataView>),
    /// A chunk response; the field is the length of its payload.
    Chunk(usize),
    /// An answer of the flash target.
    Flash(FlashResult),
}

/// The step of any event.
pub open spec fn step(s: SessionView, input: Input) -> Step {
    match input {
        Input::Metadata(metadata) => on_metadata(s, metadata),
        Input::Chunk(payload_len) => on_chunk(s, payload_len as nat),
        Input::Flash(result) => on_flash_result(s, result),
    }
}

/// Where a list of events ends, and all that was asked for on the way.
pub ghost struct Trace {
    pub last: SessionView,
    pub actions: Seq<Action>,
}

/// The trace of handling `inputs` one after the other.
pub open spec fn run(s: SessionView, inputs: Seq<Input>) -> Trace
    decreases inputs.len(),
{
    if inputs.len() == 0 {
        Trace { last: s, actions: Seq::empty() }
    } else {
        let first = step(s, inputs[0]);
        let rest = run(first.next, inputs.drop_first());
        Trace { last: rest.last, actions: first.actions + rest.actions }
    }
}

/// The request for the shared firmware attributes.  It does not touch the
/// session and may be sent any number of times.
pub fn request_firmware_attributes() -> (a: Action)
    ensures
        a == Action::Publish(Outgoing::MetadataRequest),
{
    Action::Publish(Outgoing::MetadataRequest)
}

/// The state report with the given label.
pub fn send_fw_state(label: ReportLabel) -> (a: Action)
    ensures
        a == Action::Publish(Outgoing::StateReport(label)),
{
    Action::Publish(Outgoing::StateReport(label))
}

/// The request for chunk number `chunk`.  None is sent where no byte is
/// missing; else it asks for the missing bytes, at most [`CHUNK_SIZE`].
pub fn request_chunk(session: &UpdateSession, chunk: u64) -> (r: Option<Action>)
    ensures
        r == chunk_request(session@, chunk as nat),
        r is Some <==> session@.remaining() > 0,
        r matches Some(a) ==> a matches Action::Publish(Outgoing::ChunkRequest { request_id, index, size })
            && request_id == session@.chunk_request_id && index == chunk
            && 0 < size && size <= session@.remaining() && size <= 1024
            && (size == session@.remaining() || size == 1024),
{
    let missing: u64 = session.remaining();
    if missing == 0 {
        None
    } else {
        Some(
            Action::Publish(
                Outgoing::ChunkRequest {
                    request_id: session.chunk_request_id(),
                    index: chunk,
                    size: next_request_size(missing),
                },
            ),
        )
    }
}

/// The actions of [`request_chunk`] as a list.
fn chunk_request_list(session: &UpdateSession, chunk: u64) -> (v: Vec<Action>)
    ensures
        v@ == chunk_request_actions(session@, chunk as nat),
{
    let mut v: Vec<Action> = Vec::new();
    match request_chunk(session, chunk) {
        Some(a) => {
            v.push(a);
        },
        None => {},
    }
    v
}

/// An outcome without actions.
fn silent(error: Option<OtaError>) -> (out: Outcome)
    ensures
        out.actions@ == Seq::<Action>::empty(),
        out.error == error,
{
    Outcome { actions: Vec::new(), error }
}

/// An outcome with one action.
fn single(action: Action, error: Option<OtaError>) -> (out: Outcome)
    ensures
        out.actions@ == seq![action],
        out.error == error,
{
    let mut actions: Vec<Action> = Vec::new();
    actions.push(action);
    Outcome { actions, error }
}

/// Gives the update up and reports it.
fn fail(session: &mut UpdateSession, error: OtaError) -> (out: Outcome)
    requires
        old(session).wf(),
    ensures
        final(session).wf(),
        final(session)@ == failed(old(session)@, error).next,
        answers(out, failed(old(session)@, error)),
{
    session.abandon();
    single(send_fw_state(ReportLabel::Failed), Some(error))
}

/// Handles a chunk response.
///
/// The chunk is ignored unless the session is downloading and bytes are
/// missing.  Of the payload, no more than the missing bytes are written.  The
/// answer asks for the first write, or, for an empty payload, for the same
/// chunk again; the bytes count as received once the flash target has
/// confirmed the last write of the chunk.
pub fn handle_firmware_chunk(session: &mut UpdateSession, payload: &[u8]) -> (out: Outcome)
    requires
        old(session).wf(),
    ensures
        final(session).wf(),
        final(session)@ == on_chunk(old(session)@, payload@.len()).next,
        answers(out, on_chunk(old(session)@, payload@.len())),
        !(old(session)@.state is Downloading) ==> final(session)@ == old(session)@
            && out.actions@.len() == 0 && out.error is None,
        final(session)@.state == old(session)@.state,
        final(session)@.received_bytes == old(session)@.received_bytes,
        forall|i: int| 0 <= i < out.actions@.len() ==> match #[trigger] out.actions@[i] {
            Action::FlashWrite { handle, offset, len } => {
                &&& Some(handle) == old(session)@.flash_handle()
                &&& offset == 0
                &&& 0 < len <= payload@.len()
                &&& len <= old(session)@.remaining()
                &&& writable_len(payload@.len(), old(session)@.remaining()) >= 4 ==> len % 4 == 0
            },
            Action::Publish(Outgoing::ChunkRequest { request_id, index, size }) => {
                &&& 0 < size <= 1024
                &&& size <= final(session)@.remaining()
            },
            _ => false,
        },
{
    match session.state() {
        SessionState::Downloading { handle } => {
            let missing: u64 = session.remaining();
            match session.write_stage() {
                WriteStage::Idle => {
                    if missing == 0 {
                        silent(None)
                    } else {
                        let plan: WritePlan = plan_write(writable(payload.len(), missing));
                        if plan.aligned_len == 0 {
                            let index: u64 = session.received_bytes() / CHUNK_SIZE;
                            let actions: Vec<Action> = chunk_request_list(session, index);
                            Outcome { actions, error: None }
                        } else {
                            session.stage(WriteStage::Aligned(plan));
                            single(
                                Action::FlashWrite { handle, offset: 0, len: plan.aligned_len },
                                None,
                            )
                        }
                    }
                },
                _ => silent(Some(OtaError::ProtocolMisuse)),
            }
        },
        _ => silent(None),
    }
}

/// Counts the bytes of a chunk whose last write is confirmed, and asks for
/// what comes next: the end of the transaction or another chunk.
fn chunk_written(session: &mut UpdateSession, handle: FlashHandle, plan: WritePlan) -> (out: Outcome)
    requires
        old(session).wf(),
        old(session)@.state == (SessionState::Downloading { handle }),
        old(session)@.write == WriteStage::Aligned(plan) || old(session)@.write
            == WriteStage::Tail(plan),
    ensures
        final(session).wf(),
        final(session)@ == on_chunk_written(old(session)@, handle, plan).next,
        answers(out, on_chunk_written(old(session)@, handle, plan)),
{
    let written: u64 = plan.aligned_len as u64 + plan.tail_len as u64;
    session.commit(written);
    if session.remaining() == 0 {
        session.enter(SessionState::Finalizing { handle });
        single(Action::FlashEnd { handle }, None)
    } else {
        let index: u64 = session.received_bytes() / CHUNK_SIZE;
        let actions: Vec<Action> = chunk_request_list(session, index);
        Outcome { actions, error: None }
    }
}

/// Handles the flash target's answer to `begin`: on success the proposed
/// session starts, reports "DOWNLOADING" and asks for chunk 0; on failure the
/// update is given up.
fn begin_answered(session: &mut UpdateSession, result: Result<FlashHandle, OtaError>) -> (out: Outcome)
    requires
        old(session).wf(),
    ensures
        final(session).wf(),
        final(session)@ == on_begin_result(old(session)@, result).next,
        answers(out, on_begin_result(old(session)@, result)),
{
    if !session.has_candidate() {
        silent(Some(OtaError::ProtocolMisuse))
    } else {
        match result {
            Ok(handle) => {
                session.open(handle);
                let mut actions: Vec<Action> = Vec::new();
                actions.push(send_fw_state(ReportLabel::Downloading));
                match request_chunk(session, 0) {
                    Some(a) => {
                        actions.push(a);
                    },
                    None => {},
                }
                assert(actions@ =~= seq![
                    Action::Publish(Outgoing::StateReport(ReportLabel::Downloading)),
                ] + chunk_request_actions(session@, 0));
                Outcome { actions, error: None }
            },
            Err(e) => fail(session, e),
        }
    }
}

/// Handles the flash target's answer to a write: after the aligned write the
/// tail is written, if there is one; after the last write the chunk counts as
/// received.  A failed write gives the update up.
fn write_answered(session: &mut UpdateSession, ok: bool) -> (out: Outcome)
    requires
        old(session).wf(),
    ensures
        final(session).wf(),
        final(session)@ == on_write_result(old(session)@, ok).next,
        answers(out, on_write_result(old(session)@, ok)),
{
    match session.state() {
        SessionState::Downloading { handle } => match session.write_stage() {
            WriteStage::Idle => silent(Some(OtaError::ProtocolMisuse)),
            WriteStage::Aligned(plan) => {
                if !ok {
                    fail(session, OtaError::FlashWriteError)
                } else if plan.tail_len > 0 {
                    session.stage(WriteStage::Tail(plan));
                    single(
                        Action::FlashWrite { handle, offset: plan.aligned_len, len: plan.tail_len },
                        None,
                    )
                } else {
                    chunk_written(session, handle, plan)
                }
            },
            WriteStage::Tail(plan) => {
                if !ok {
                    fail(session, OtaError::FlashWriteError)
                } else {
                    chunk_written(session, handle, plan)
                }
            },
        },
        _ => silent(Some(OtaError::ProtocolMisuse)),
    }
}

/// Completes the update once the flash target has answered `end`.
///
/// If the image was finished and validated, the written partition is marked
/// for the next boot, "UPDATED" is reported, the session has succeeded and
/// the device is restarted.  If not, the update is given up and "FAILED" is
/// reported.  Outside `Finalizing` the answer is turned down.
pub fn finalize(session: &mut UpdateSession, ended: bool) -> (out: Outcome)
    requires
        old(session).wf(),
    ensures
        final(session).wf(),
        final(session)@ == on_end_result(old(session)@, ended).next,
        answers(out, on_end_result(old(session)@, ended)),
{
    match session.state() {
        SessionState::Finalizing { handle } => {
            if ended {
                session.enter(SessionState::Succeeded);
                let mut actions: Vec<Action> = Vec::new();
                actions.push(Action::SetActive { handle });
                actions.push(send_fw_state(ReportLabel::Updated));
                actions.push(Action::Restart);
                assert(actions@ =~= seq![
                    Action::SetActive { handle },
                    Action::Publish(Outgoing::StateReport(ReportLabel::Updated)),
                    Action::Restart,
                ]);
                Outcome { actions, error: None }
            } else {
                fail(session, OtaError::FlashEndError)
            }
        },
        _ => silent(Some(OtaError::ProtocolMisuse)),
    }
}

/// Handles an answer of the flash target to the last flash action.
///
/// An answer that the session did not wait for is turned down with
/// `ProtocolMisuse` and changes nothing.  Any failure gives the update up:
/// the session is `Failed` and exactly one "FAILED" report is sent.
pub fn handle_flash_result(session: &mut UpdateSession, result: FlashResult) -> (out: Outcome)
    requires
        old(session).wf(),
    ensures
        final(session).wf(),
        final(session)@ == on_flash_result(old(session)@, result).next,
        answers(out, on_flash_result(old(session)@, result)),
        result is WriteFailed && old(session)@.state is Downloading && old(session)@.write
            != WriteStage::Idle ==> final(session)@.state is Failed && out.actions@ == seq![
            Action::Publish(Outgoing::StateReport(ReportLabel::Failed)),
        ] && out.error == Some(OtaError::FlashWriteError),
{
    match result {
        FlashResult::BeginOk(handle) => begin_answered(session, Ok(handle)),
        FlashResult::BeginNoPartition => begin_answered(session, Err(OtaError::MissingPartition)),
        FlashResult::BeginFailed => begin_answered(session, Err(OtaError::FlashBeginError)),
        FlashResult::WriteOk => write_answered(session, true),
        FlashResult::WriteFailed => write_answered(session, false),
        FlashResult::EndOk => finalize(session, true),
        FlashResult::EndFailed => finalize(session, false),
    }
}

/// Takes the metadata that a response held.
///
/// Without metadata the response is dropped as malformed.  While a session
/// is under way or about to start, the response is turned down with
/// `ProtocolMisuse` and the session stays as it is.  Otherwise the metadata is
/// kept, and the answer asks the flash target to open a transaction for an
/// image of the given size.
pub fn accept_metadata(session: &mut UpdateSession, metadata: Option<Metadata>) -> (out: Outcome)
    requires
        old(session).wf(),
        metadata matches Some(m) ==> m@.valid(),
    ensures
        final(session).wf(),
        final(session)@ == on_metadata(old(session)@, view_of(metadata)).next,
        answers(out, on_metadata(old(session)@, view_of(metadata))),
{
    match metadata {
        None => silent(Some(OtaError::MalformedMessage)),
        Some(m) => {
            if session.is_busy() {
                silent(Some(OtaError::ProtocolMisuse))
            } else {
                let size: u64 = m.size();
                session.propose(m);
                single(Action::FlashBegin { size }, None)
            }
        },
    }
}

/// Handles a metadata response.
///
/// The payload is parsed as JSON; title, version and size are read from its
/// member `shared`.  What happens then is what [`accept_metadata`] does with
/// the result.
pub fn handle_ota_response(session: &mut UpdateSession, payload: &str) -> (out: Outcome)
    requires
        old(session).wf(),
    ensures
        final(session).wf(),
        final(session)@ == on_metadata(old(session)@, metadata_of(payload@)).next,
        answers(out, on_metadata(old(session)@, metadata_of(payload@))),
{
    let metadata: Option<Metadata> = parse_metadata(payload);
    accept_metadata(session, metadata)
}

/// The event that a message is: by its topic a metadata response, whose
/// payload is read as text, or a chunk response, of which the length counts;
/// `None` for a message on any other topic.
pub open spec fn message_input(topic: Seq<char>, data: Seq<u8>) -> Option<Input> {
    match kind_of(topic) {
        MessageKind::MetadataResponse => Some(Input::Metadata(metadata_of(text_of(data)))),
        MessageKind::ChunkResponse => Some(Input::Chunk(data.len() as usize)),
        MessageKind::Other => None,
    }
}

/// Handles a message from the channel: a metadata response goes to
/// [`handle_ota_response`], a chunk response to [`handle_firmware_chunk`],
/// and a message on any other topic is ignored.
pub fn handle_message(session: &mut UpdateSession, topic: &str, data: &[u8]) -> (out: Outcome)
    requires
        old(session).wf(),
    ensures
        final(session).wf(),
        match message_input(topic@, data@) {
            Some(input) => final(session)@ == step(old(session)@, input).next && answers(
                out,
                step(old(session)@, input),
            ),
            None => final(session)@ == old(session)@ && answers(out, ignored(old(session)@)),
        },
{
    match classify_topic(topic) {
        MessageKind::MetadataResponse => handle_ota_response(session, payload_str(data)),
        MessageKind::ChunkResponse => {
            assert(data.len() == data@.len());
            handle_firmware_chunk(session, data)
        },
        MessageKind::Other => silent(None),
    }
}

} // verus!
