//! What holds of the driver as a whole: statements about every session and
//! every course of events, proved from the steps in [`crate::driver`].

use vstd::prelude::*;
use crate::driver::{
    chunk_request, chunk_request_actions, failed, next_chunk_index, on_chunk, run, step, Input,
    Trace,
};
use crate::metadata::MetadataView;
use crate::plan::{aligned_part, plan_for, request_size, writable_len, WritePlan};
use crate::protocol::{Action, FlashHandle, FlashResult, OtaError, Outgoing, ReportLabel};
use crate::session::{SessionState, SessionView, WriteStage};

verus! {

/// The event is one that a caller can hand in: metadata that comes with a
/// response has passed its checks.
pub open spec fn admissible(input: Input) -> bool {
    match input {
        Input::Metadata(Some(m)) => m.valid(),
        _ => true,
    }
}

/// The event is the flash target's word that a transaction is open, with
/// which a session starts.
pub open spec fn opens_session(input: Input) -> bool {
    input matches Input::Flash(FlashResult::BeginOk(_))
}

/// The action is a chunk request.
pub open spec fn is_chunk_request(a: Action) -> bool {
    a matches Action::Publish(Outgoing::ChunkRequest { .. })
}

/// Every step keeps the session's invariant: the received bytes never exceed
/// the expected size, and whatever is in flight fits what is missing.
pub proof fn law_step_keeps_invariant(s: SessionView, input: Input)
    requires
        s.valid(),
        admissible(input),
    ensures
        step(s, input).next.valid(),
{
}

/// A flash handle exists exactly while the session is downloading or
/// finalizing.
pub proof fn law_handle_window(s: SessionView)
    ensures
        s.flash_handle() is Some <==> (s.state is Downloading || s.state is Finalizing),
{
}

/// No step changes the request id under which chunks are asked for.
pub proof fn law_request_id_is_fixed(s: SessionView, input: Input)
    ensures
        step(s, input).next.chunk_request_id == s.chunk_request_id,
{
}

/// Within a session the received bytes never decrease; the start of a new
/// session sets them back to 0.
pub proof fn law_received_bytes_monotonic(s: SessionView, input: Input)
    ensures
        !opens_session(input) ==> step(s, input).next.received_bytes >= s.received_bytes,
        opens_session(input) && s.candidate is Some ==> step(s, input).next.received_bytes == 0,
        opens_session(input) && s.candidate is None ==> step(s, input).next == s,
{
}

/// While a session is under way or about to start, no other is started: a
/// metadata response is turned down, and the session stays as it is.
pub proof fn law_one_session_at_a_time(s: SessionView, metadata: Option<MetadataView>)
    requires
        s.busy(),
    ensures
        step(s, Input::Metadata(metadata)).next == s,
        step(s, Input::Metadata(metadata)).actions == Seq::<Action>::empty(),
        step(s, Input::Metadata(metadata)).error == Some(
            if metadata is Some {
                OtaError::ProtocolMisuse
            } else {
                OtaError::MalformedMessage
            },
        ),
{
}

/// A chunk request is only ever sent while bytes are missing, and asks for
/// exactly the smaller of the missing bytes and 1024.
pub proof fn law_chunk_requests_bounded(s: SessionView, input: Input, i: int)
    requires
        s.valid(),
        admissible(input),
        0 <= i < step(s, input).actions.len(),
        is_chunk_request(step(s, input).actions[i]),
    ensures
        step(s, input).next.remaining() > 0,
        step(s, input).actions[i] matches Action::Publish(
            Outgoing::ChunkRequest { request_id, index, size },
        ) && size == request_size(step(s, input).next.remaining()) && size <= 1024 && size
            <= step(s, input).next.remaining() && index == step(s, input).next.received_bytes
            / 1024,
{
}

/// The first write of a chunk has a length that is a multiple of 4 whenever
/// at least 4 bytes of the payload are written.
pub proof fn law_first_write_aligned(s: SessionView, payload_len: usize, i: int)
    requires
        s.valid(),
        0 <= i < on_chunk(s, payload_len as nat).actions.len(),
        on_chunk(s, payload_len as nat).actions[i] is FlashWrite,
        writable_len(payload_len as nat, s.remaining()) >= 4,
    ensures
        on_chunk(s, payload_len as nat).actions[i] matches Action::FlashWrite {
            handle,
            offset,
            len,
        } && offset == 0 && len % 4 == 0 && len == aligned_part(
            writable_len(payload_len as nat, s.remaining()),
        ),
{
}

/// A chunk response outside `Downloading` changes nothing and asks for
/// nothing.
pub proof fn law_chunk_outside_download_is_ignored(s: SessionView, payload_len: usize)
    requires
        !(s.state is Downloading),
    ensures
        step(s, Input::Chunk(payload_len)).next == s,
        step(s, Input::Chunk(payload_len)).actions.len() == 0,
        step(s, Input::Chunk(payload_len)).error is None,
{
}

/// None of the events is a metadata response with usable metadata, the only
/// event that can start a new session.
pub open spec fn starts_no_session(inputs: Seq<Input>) -> bool {
    forall|i: int| 0 <= i < inputs.len() ==> !(#[trigger] inputs[i] matches Input::Metadata(Some(_)))
}

/// Once a session has failed, nothing is asked for and nothing changes until
/// a metadata response starts a new session.
pub proof fn law_failed_session_is_silent(s: SessionView, inputs: Seq<Input>)
    requires
        s.state is Failed,
        s.candidate is None,
        starts_no_session(inputs),
    ensures
        run(s, inputs).last == s,
        run(s, inputs).actions == Seq::<Action>::empty(),
    decreases inputs.len(),
{
    if inputs.len() > 0 {
        law_failed_session_is_silent(s, inputs.drop_first());
    }
}

/// A failed write ends the session: it is `Failed`, exactly one "FAILED"
/// report is sent, and whatever comes later, short of a new session, has
/// nothing sent at all, so no chunk is requested for that session again.
pub proof fn law_write_failure_ends_session(s: SessionView, later: Seq<Input>)
    requires
        s.state is Downloading,
        s.write != WriteStage::Idle,
        starts_no_session(later),
    ensures
        step(s, Input::Flash(FlashResult::WriteFailed)) == failed(s, OtaError::FlashWriteError),
        run(s, seq![Input::Flash(FlashResult::WriteFailed)] + later).last.state is Failed,
        run(s, seq![Input::Flash(FlashResult::WriteFailed)] + later).actions == seq![
            Action::Publish(Outgoing::StateReport(ReportLabel::Failed)),
        ],
{
    let inputs = seq![Input::Flash(FlashResult::WriteFailed)] + later;
    let first = step(s, inputs[0]);
    assert(inputs.drop_first() =~= later);
    law_failed_session_is_silent(first.next, later);
}

/// What a flash target on which every operation succeeds answers to an
/// action; `None` for an action that gets no answer.
pub open spec fn success_answer(a: Action, handle: FlashHandle) -> Option<FlashResult> {
    match a {
        Action::FlashBegin { .. } => Some(FlashResult::BeginOk(handle)),
        Action::FlashWrite { .. } => Some(FlashResult::WriteOk),
        Action::FlashEnd { .. } => Some(FlashResult::EndOk),
        _ => None,
    }
}

/// If the trace ends with a call of the flash target, the trace that has
/// the call succeed and the answer handled; else the trace itself.
pub open spec fn answered(t: Trace, handle: FlashHandle) -> Trace {
    if t.actions.len() > 0 && success_answer(t.actions.last(), handle) is Some {
        let st = step(t.last, Input::Flash(success_answer(t.actions.last(), handle).unwrap()));
        Trace { last: st.next, actions: t.actions + st.actions }
    } else {
        t
    }
}

/// The trace of one message with a flash target on which every operation
/// succeeds: the message is handled, then the answer to each call of the
/// flash target in turn.  No message has more than three calls made.
pub open spec fn round(s: SessionView, input: Input, handle: FlashHandle) -> Trace {
    let st = step(s, input);
    answered(answered(answered(Trace { last: st.next, actions: st.actions }, handle), handle), handle)
}

/// The sum of the payload lengths.
pub open spec fn total_len(lens: Seq<usize>) -> nat
    decreases lens.len(),
{
    if lens.len() == 0 {
        0
    } else {
        lens[0] as nat + total_len(lens.drop_first())
    }
}

/// The trace of chunk responses with payloads of the given lengths, one
/// [`round`] each.
pub open spec fn download(s: SessionView, lens: Seq<usize>, handle: FlashHandle) -> Trace
    decreases lens.len(),
{
    if lens.len() == 0 {
        Trace { last: s, actions: Seq::empty() }
    } else {
        let first = round(s, Input::Chunk(lens[0]), handle);
        let rest = download(first.last, lens.drop_first(), handle);
        Trace { last: rest.last, actions: first.actions + rest.actions }
    }
}

/// How often `a` occurs among the actions.
pub open spec fn count_of(actions: Seq<Action>, a: Action) -> nat
    decreases actions.len(),
{
    if actions.len() == 0 {
        0
    } else {
        count_of(actions.drop_last(), a) + if actions.last() == a {
            1nat
        } else {
            0nat
        }
    }
}

/// The "UPDATED" report.
pub open spec fn updated_report() -> Action {
    Action::Publish(Outgoing::StateReport(ReportLabel::Updated))
}

/// No chunk is requested after an "UPDATED" report.
pub open spec fn quiet_after_update(actions: Seq<Action>) -> bool {
    forall|i: int, j: int|
        0 <= i < j < actions.len() && #[trigger] actions[i] == updated_report()
            ==> !is_chunk_request(#[trigger] actions[j])
}

proof fn lemma_count_of_concat(x: Seq<Action>, y: Seq<Action>, a: Action)
    ensures
        count_of(x + y, a) == count_of(x, a) + count_of(y, a),
    decreases y.len(),
{
    if y.len() > 0 {
        assert((x + y).drop_last() =~= x + y.drop_last());
        lemma_count_of_concat(x, y.drop_last(), a);
    }
}

proof fn lemma_download_of_finished(s: SessionView, lens: Seq<usize>, handle: FlashHandle)
    requires
        !(s.state is Downloading),
    ensures
        download(s, lens, handle) == (Trace { last: s, actions: Seq::empty() }),
    decreases lens.len(),
{
    if lens.len() > 0 {
        lemma_download_of_finished(s, lens.drop_first(), handle);
    }
}

/// The writes that put the bytes of `plan` into flash: the aligned part from
/// the start of the payload, then the tail right behind it.
pub open spec fn chunk_writes(handle: FlashHandle, plan: WritePlan) -> Seq<Action> {
    if plan.aligned_len == 0 {
        Seq::empty()
    } else if plan.tail_len == 0 {
        seq![Action::FlashWrite { handle, offset: 0, len: plan.aligned_len }]
    } else {
        seq![
            Action::FlashWrite { handle, offset: 0, len: plan.aligned_len },
            Action::FlashWrite { handle, offset: plan.aligned_len, len: plan.tail_len },
        ]
    }
}

/// What follows the writes of a chunk after which `s` is the session: the
/// end of the update if no byte is missing, else the next request.
pub open spec fn chunk_follow_up(s: SessionView, handle: FlashHandle) -> Seq<Action> {
    if s.remaining() == 0 {
        seq![
            Action::FlashEnd { handle },
            Action::SetActive { handle },
            updated_report(),
            Action::Restart,
        ]
    } else {
        chunk_request_actions(s, next_chunk_index(s))
    }
}

/// A chunk is handled as one unit.  While bytes are missing, a chunk
/// response on a flash target on which every operation succeeds has the
/// writable bytes of its payload, and no others, written in order, counts
/// exactly these as received, and then either completes the update or asks
/// for the chunk that comes next.
pub proof fn law_chunk_round(s: SessionView, payload_len: usize, handle: FlashHandle)
    requires
        s.valid(),
        s.state == (SessionState::Downloading { handle }),
        s.write == WriteStage::Idle,
        s.remaining() > 0,
    ensures
        ({
            let written = writable_len(payload_len as nat, s.remaining());
            let plan = plan_for(written);
            let counted = SessionView { received_bytes: s.received_bytes + written, ..s };
            let t = round(s, Input::Chunk(payload_len), handle);
            &&& plan.total() == written
            &&& written <= payload_len
            &&& written <= s.remaining()
            &&& written >= 4 ==> plan.aligned_len % 4 == 0
            &&& t.actions == chunk_writes(handle, plan) + chunk_follow_up(counted, handle)
            &&& t.last == if counted.remaining() == 0 {
                SessionView { state: SessionState::Succeeded, ..counted }
            } else {
                counted
            }
            &&& t.last.valid()
        }),
{
    let st = step(s, Input::Chunk(payload_len));
    let t0 = Trace { last: st.next, actions: st.actions };
    let t1 = answered(t0, handle);
    let t2 = answered(t1, handle);
    let t3 = answered(t2, handle);
    let written = writable_len(payload_len as nat, s.remaining());
    let plan = plan_for(written);
    let counted = SessionView { received_bytes: s.received_bytes + written, ..s };
    let closing = SessionView { state: SessionState::Finalizing { handle }, ..counted };
    let done = SessionView { state: SessionState::Succeeded, ..counted };
    let first = Action::FlashWrite { handle, offset: 0, len: plan.aligned_len };
    let tail = Action::FlashWrite { handle, offset: plan.aligned_len, len: plan.tail_len };
    let end = Action::FlashEnd { handle };
    let activate = Action::SetActive { handle };
    let follow_up = chunk_follow_up(counted, handle);
    if written == 0 {
        assert(counted == s);
        assert(t0.actions.len() == 1);
        assert(t3 == t0);
        assert(t0.actions =~= chunk_writes(handle, plan) + follow_up);
    } else if plan.tail_len > 0 {
        assert(st.actions == seq![first]);
        assert(t1.last == SessionView { write: WriteStage::Tail(plan), ..s });
        assert(t1.actions =~= seq![first, tail]);
        if counted.remaining() == 0 {
            assert(t2.last == closing);
            assert(t2.actions =~= seq![first, tail, end]);
            assert(t3.last == done);
            assert(t3.actions =~= seq![first, tail] + follow_up);
        } else {
            assert(t2.last == counted);
            assert(t2.actions =~= seq![first, tail] + follow_up);
            assert(t3 == t2);
        }
    } else {
        assert(st.actions == seq![first]);
        if counted.remaining() == 0 {
            assert(t1.last == closing);
            assert(t1.actions =~= seq![first, end]);
            assert(t2.last == done);
            assert(t2.actions =~= seq![first] + follow_up);
            assert(t3 == t2);
        } else {
            assert(t1.last == counted);
            assert(t1.actions =~= seq![first] + follow_up);
            assert(t2 == t1);
            assert(t3 == t2);
        }
    }
}

/// What the induction over a download needs of one round.
proof fn lemma_round_reports(s: SessionView, len: usize, handle: FlashHandle)
    requires
        s.valid(),
        s.state == (SessionState::Downloading { handle }),
        s.write == WriteStage::Idle,
        0 < s.remaining(),
        len <= s.remaining(),
    ensures
        ({
            let t = round(s, Input::Chunk(len), handle);
            let counted = SessionView { received_bytes: s.received_bytes + len as nat, ..s };
            &&& t.last.valid()
            &&& len < s.remaining() ==> {
                &&& t.last == counted
                &&& forall|i: int| 0 <= i < t.actions.len() ==> t.actions[i] != updated_report()
                &&& count_of(t.actions, updated_report()) == 0
            }
            &&& len == s.remaining() ==> {
                &&& t.last == SessionView { state: SessionState::Succeeded, ..counted }
                &&& count_of(t.actions, updated_report()) == 1
                &&& quiet_after_update(t.actions)
            }
        }),
{
    law_chunk_round(s, len, handle);
    let counted = SessionView { received_bytes: s.received_bytes + len as nat, ..s };
    let writes = chunk_writes(handle, plan_for(len as nat));
    let follow_up = chunk_follow_up(counted, handle);
    assert(count_of(writes, updated_report()) == 0) by {
        reveal_with_fuel(count_of, 3);
    }
    lemma_count_of_concat(writes, follow_up, updated_report());
    if len < s.remaining() {
        assert(count_of(follow_up, updated_report()) == 0) by {
            reveal_with_fuel(count_of, 2);
        }
    } else {
        assert(count_of(follow_up, updated_report()) == 1) by {
            reveal_with_fuel(count_of, 5);
        }
    }
}

proof fn lemma_download_completes(s: SessionView, lens: Seq<usize>, handle: FlashHandle)
    requires
        s.valid(),
        s.state == (SessionState::Downloading { handle }),
        s.write == WriteStage::Idle,
        s.remaining() > 0,
        total_len(lens) == s.remaining(),
    ensures
        ({
            let t = download(s, lens, handle);
            &&& t.last.state is Succeeded
            &&& t.last.received_bytes == s.firmware.unwrap().size
            &&& count_of(t.actions, updated_report()) == 1
            &&& quiet_after_update(t.actions)
        }),
    decreases lens.len(),
{
    assert(lens.len() > 0);
    let len = lens[0];
    let rest = lens.drop_first();
    let first = round(s, Input::Chunk(len), handle);
    let tail = download(first.last, rest, handle);
    let all = first.actions + tail.actions;
    lemma_round_reports(s, len, handle);
    lemma_count_of_concat(first.actions, tail.actions, updated_report());
    if len < s.remaining() {
        lemma_download_completes(first.last, rest, handle);
        assert forall|i: int, j: int|
            0 <= i < j < all.len() && #[trigger] all[i] == updated_report() implies !is_chunk_request(
            #[trigger] all[j],
        ) by {
            assert(i >= first.actions.len());
            assert(all[i] == tail.actions[i - first.actions.len()]);
            assert(all[j] == tail.actions[j - first.actions.len()]);
        }
    } else {
        lemma_download_of_finished(first.last, rest, handle);
        assert(all =~= first.actions);
    }
}

/// A download runs to completion.  From any session in which none is under
/// way, a metadata response for an image of `metadata.size > 0` bytes,
/// followed by chunk responses whose payload lengths sum to exactly that
/// size, on a flash target on which every operation succeeds, ends with the
/// session `Succeeded` and all bytes received; "UPDATED" is reported exactly
/// once, and no chunk is requested after it.
pub proof fn law_download_completes(
    s: SessionView,
    metadata: MetadataView,
    handle: FlashHandle,
    lens: Seq<usize>,
)
    requires
        s.valid(),
        !s.busy(),
        metadata.valid(),
        metadata.size > 0,
        total_len(lens) == metadata.size,
    ensures
        ({
            let started = round(s, Input::Metadata(Some(metadata)), handle);
            let done = download(started.last, lens, handle);
            &&& started.last.state == SessionState::Downloading { handle }
            &&& started.last.received_bytes == 0
            &&& done.last.state is Succeeded
            &&& done.last.received_bytes == metadata.size
            &&& count_of(done.actions, updated_report()) == 1
            &&& quiet_after_update(done.actions)
        }),
{
    let st = step(s, Input::Metadata(Some(metadata)));
    let t0 = Trace { last: st.next, actions: st.actions };
    let t1 = answered(t0, handle);
    let begun = SessionView {
        state: SessionState::Downloading { handle },
        firmware: Some(metadata),
        received_bytes: 0,
        candidate: None,
        write: WriteStage::Idle,
        ..s
    };
    assert(st.actions == seq![Action::FlashBegin { size: metadata.size as u64 }]);
    assert(t1.last == begun);
    let report = Action::Publish(Outgoing::StateReport(ReportLabel::Downloading));
    let request = chunk_request(begun, 0).unwrap();
    assert(t1.actions =~= seq![st.actions[0], report, request]);
    assert(answered(t1, handle) == t1);
    lemma_download_completes(begun, lens, handle);
}

} // verus!
