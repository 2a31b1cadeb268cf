//! The host-side frame pump.
//!
//! The pump drives a finite sequence of pre-rendered frame payloads across
//! the transport, one frame at a time: opcode byte, a short guard pause,
//! the payload (continued through partial writes), then a blocking wait for
//! the single acknowledgement byte, treating timeout-class read errors as
//! "not yet" and everything else as fatal. The machine here makes every
//! decision; the surrounding loop performs the writes, reads and sleeps and
//! hands back plain events. Rate pacing is a per-frame wait computed by
//! [`pacing_wait_ms`]; it never skips frames to catch up.

use vstd::prelude::*;

use crate::codec::SignalView;
use crate::codec::spec_encode;
use crate::codec::COMM_ACK_BYTE;
use crate::codec::FULL_DATA_BYTE;

verus! {

/// Which protocol step failed. The pump surfaces the first fatal error and
/// stops; there is no partial-sequence resume.
#[derive(Debug, Clone, Copy, PartialEq, Eq, Structural)]
pub enum SenderFault {
    /// Writing the frame opcode byte failed.
    OpcodeWrite,
    /// Writing the payload failed.
    PayloadWrite,
    /// Reading the acknowledgement failed with other than a timeout.
    AckRead,
    /// The byte read where the acknowledgement was expected was this one,
    /// not the ack opcode: a protocol violation.
    Protocol(u8),
}

/// The pump's control state for the frame in flight, if any.
#[derive(Debug, Clone, Copy, PartialEq, Eq, Structural)]
pub enum SenderPhase {
    /// Between frames: every frame started so far has been acknowledged,
    /// so the next one may begin.
    Ready,
    /// The frame opcode byte is owed to the transport.
    SendOpcode,
    /// The opcode went out; a short fixed pause lets the receiver re-arm
    /// its read state before the bulk payload arrives.
    Guard,
    /// The payload is going out, continued until fully flushed.
    SendPayload,
    /// Waiting for the single acknowledgement byte.
    AwaitAck,
    /// A fatal transport error or protocol violation; the whole transfer
    /// is abandoned.
    Failed(SenderFault),
}

/// Whether a frame has been started and not yet acknowledged or failed.
pub open spec fn in_flight(p: SenderPhase) -> bool {
    ||| p is SendOpcode
    ||| p is Guard
    ||| p is SendPayload
    ||| p is AwaitAck
}

/// One event observed while waiting for the acknowledgement.
pub enum AckWaitEvent {
    /// Nothing to read yet — a timeout-class condition, always transient.
    NoData,
    /// One byte was read.
    Byte(u8),
    /// The read failed with any other error — always fatal.
    Fault,
}

/// How the ack wait answers one event: a timeout leaves it exactly where it
/// was, the ack opcode completes the frame, any other byte is a protocol
/// violation, and a hard read error is fatal — each on first sight.
pub open spec fn spec_ack_wait_step(p: SenderPhase, ev: AckWaitEvent) -> SenderPhase {
    match ev {
        AckWaitEvent::NoData => p,
        AckWaitEvent::Byte(b) => if b == COMM_ACK_BYTE {
            SenderPhase::Ready
        } else {
            SenderPhase::Failed(SenderFault::Protocol(b))
        },
        AckWaitEvent::Fault => SenderPhase::Failed(SenderFault::AckRead),
    }
}

/// The ack wait run over a whole sequence of events, first to last.
pub open spec fn spec_ack_wait_run(p: SenderPhase, evs: Seq<AckWaitEvent>) -> SenderPhase
    decreases evs.len(),
{
    if evs.len() == 0 {
        p
    } else {
        spec_ack_wait_run(spec_ack_wait_step(p, evs[0]), evs.drop_first())
    }
}

/// Mathematical image of a [`Sender`].
pub struct SenderView {
    pub frame_size: nat,
    pub phase: SenderPhase,
    pub frame: Seq<u8>,
    pub written: nat,
    pub started: int,
    pub acked: int,
}

/// The frame pump. `started` and `acked` count, in ghost state, the frames
/// whose opcode write began and the acknowledgements observed; the
/// well-formedness invariant pins their difference to the one frame that may
/// be in flight.
pub struct Sender {
    frame_size: usize,
    phase: SenderPhase,
    frame: Vec<u8>,
    written: usize,
    started: Ghost<int>,
    acked: Ghost<int>,
}

impl View for Sender {
    type V = SenderView;

    closed spec fn view(&self) -> SenderView {
        SenderView {
            frame_size: self.frame_size as nat,
            phase: self.phase,
            frame: self.frame@,
            written: self.written as nat,
            started: self.started@,
            acked: self.acked@,
        }
    }
}

impl Sender {
    /// The pump is well formed: acknowledgements never outrun started frames,
    /// at most one started frame lacks its acknowledgement, the pump is ready
    /// exactly when nothing is outstanding, a frame is outstanding exactly
    /// while one is in flight, and the write offset stays inside the frame.
    pub open spec fn wf(&self) -> bool {
        &&& self@.frame_size >= 1
        &&& 0 <= self@.acked <= self@.started <= self@.acked + 1
        &&& (self@.phase is Ready ==> self@.started == self@.acked)
        &&& (in_flight(self@.phase) ==> self@.started == self@.acked + 1)
        &&& (in_flight(self@.phase) ==> self@.frame.len() == self@.frame_size)
        &&& (self@.phase is SendPayload ==> self@.written < self@.frame_size)
    }

    /// A fresh pump, ready, for frames of `frame_size` bytes.
    pub fn new(frame_size: usize) -> (r: Sender)
        requires
            frame_size >= 1,
        ensures
            r.wf(),
            r@.frame_size == frame_size,
            r@.phase is Ready,
            r@.started == 0,
            r@.acked == 0,
    {
        Sender {
            frame_size,
            phase: SenderPhase::Ready,
            frame: Vec::new(),
            written: 0,
            started: Ghost(0),
            acked: Ghost(0),
        }
    }

    /// The current control state.
    pub fn phase(&self) -> (r: SenderPhase)
        ensures
            r == self@.phase,
    {
        self.phase
    }

    /// Begin the next frame. Only a ready pump — one with no frame in
    /// flight — may begin one; that demand is the at-most-one-in-flight rule.
    pub fn start_frame(&mut self, payload: Vec<u8>)
        requires
            old(self).wf(),
            old(self)@.phase is Ready,
            payload@.len() == old(self)@.frame_size,
        ensures
            final(self).wf(),
            final(self)@.frame_size == old(self)@.frame_size,
            final(self)@.phase is SendOpcode,
            final(self)@.frame == payload@,
            final(self)@.started == old(self)@.started + 1,
            final(self)@.acked == old(self)@.acked,
    {
        self.frame = payload;
        self.written = 0;
        self.phase = SenderPhase::SendOpcode;
        proof {
            self.started@ = self.started@ + 1;
        }
    }

    /// The byte owed to the transport first: the frame opcode, exactly what
    /// encoding the frame signal puts on the wire before the payload.
    pub fn opcode_byte(&self) -> (r: u8)
        requires
            self@.phase is SendOpcode,
        ensures
            r == FULL_DATA_BYTE,
            r == spec_encode(SignalView::FullData(self@.frame)).0,
    {
        FULL_DATA_BYTE
    }

    /// The opcode byte was fully written.
    pub fn on_opcode_sent(&mut self)
        requires
            old(self).wf(),
            old(self)@.phase is SendOpcode,
        ensures
            final(self).wf(),
            final(self)@.frame_size == old(self)@.frame_size,
            final(self)@.phase is Guard,
            final(self)@.frame == old(self)@.frame,
            final(self)@.started == old(self)@.started,
            final(self)@.acked == old(self)@.acked,
    {
        self.phase = SenderPhase::Guard;
    }

    /// The guard pause elapsed; the payload may go out, from offset zero.
    pub fn on_guard_elapsed(&mut self)
        requires
            old(self).wf(),
            old(self)@.phase is Guard,
        ensures
            final(self).wf(),
            final(self)@.frame_size == old(self)@.frame_size,
            final(self)@.phase is SendPayload,
            final(self)@.written == 0,
            final(self)@.frame == old(self)@.frame,
            final(self)@.started == old(self)@.started,
            final(self)@.acked == old(self)@.acked,
    {
        self.written = 0;
        self.phase = SenderPhase::SendPayload;
    }

    /// The frame in flight.
    pub fn frame(&self) -> (r: &Vec<u8>)
        requires
            self.wf(),
            in_flight(self@.phase),
        ensures
            r@ == self@.frame,
            r@.len() == self@.frame_size,
    {
        &self.frame
    }

    /// How many payload bytes have been flushed so far; the loop writes the
    /// frame from this offset on.
    pub fn written(&self) -> (r: usize)
        requires
            self@.phase is SendPayload,
        ensures
            r == self@.written,
    {
        self.written
    }

    /// A write call flushed `k` more payload bytes — a partial write is not
    /// an error, only no progress. The wait for the acknowledgement begins
    /// exactly when the whole payload is out.
    pub fn on_payload_written(&mut self, k: usize)
        requires
            old(self).wf(),
            old(self)@.phase is SendPayload,
            k <= old(self)@.frame_size - old(self)@.written,
        ensures
            final(self).wf(),
            final(self)@.frame_size == old(self)@.frame_size,
            final(self)@.written == old(self)@.written + k,
            final(self)@.frame == old(self)@.frame,
            final(self)@.started == old(self)@.started,
            final(self)@.acked == old(self)@.acked,
            final(self)@.phase == (if old(self)@.written + k == old(self)@.frame_size {
                SenderPhase::AwaitAck
            } else {
                SenderPhase::SendPayload
            }),
    {
        self.written = self.written + k;
        if self.written == self.frame_size {
            self.phase = SenderPhase::AwaitAck;
        }
    }

    /// A write failed: fatal, with the failing step recorded.
    pub fn on_write_fault(&mut self)
        requires
            old(self).wf(),
            old(self)@.phase is SendOpcode || old(self)@.phase is SendPayload,
        ensures
            final(self).wf(),
            final(self)@.frame_size == old(self)@.frame_size,
            final(self)@.started == old(self)@.started,
            final(self)@.acked == old(self)@.acked,
            old(self)@.phase is SendOpcode ==> final(self)@.phase == SenderPhase::Failed(
                SenderFault::OpcodeWrite,
            ),
            old(self)@.phase is SendPayload ==> final(self)@.phase == SenderPhase::Failed(
                SenderFault::PayloadWrite,
            ),
    {
        match self.phase {
            SenderPhase::SendOpcode => {
                self.phase = SenderPhase::Failed(SenderFault::OpcodeWrite);
            },
            _ => {
                self.phase = SenderPhase::Failed(SenderFault::PayloadWrite);
            },
        }
    }

    /// The single byte read while waiting for the acknowledgement: the ack
    /// opcode completes the frame, anything else is a protocol violation
    /// and fails the transfer.
    pub fn on_ack_byte(&mut self, b: u8)
        requires
            old(self).wf(),
            old(self)@.phase is AwaitAck,
        ensures
            final(self).wf(),
            final(self)@.frame_size == old(self)@.frame_size,
            final(self)@.started == old(self)@.started,
            final(self)@.phase == spec_ack_wait_step(old(self)@.phase, AckWaitEvent::Byte(b)),
            b == COMM_ACK_BYTE ==> final(self)@.phase is Ready && final(self)@.acked == old(
                self,
            )@.acked + 1,
            b != COMM_ACK_BYTE ==> final(self)@.phase == SenderPhase::Failed(
                SenderFault::Protocol(b),
            ) && final(self)@.acked == old(self)@.acked,
    {
        if b == COMM_ACK_BYTE {
            self.phase = SenderPhase::Ready;
            proof {
                self.acked@ = self.acked@ + 1;
            }
        } else {
            self.phase = SenderPhase::Failed(SenderFault::Protocol(b));
        }
    }

    /// The acknowledgement read timed out: transient, by design the only
    /// expected form of non-arrival. The pump is left exactly as it was,
    /// to retry — however often this happens.
    pub fn on_ack_timeout(&mut self)
        requires
            old(self).wf(),
            old(self)@.phase is AwaitAck,
        ensures
            final(self).wf(),
            final(self)@ == old(self)@,
            final(self)@.phase == spec_ack_wait_step(old(self)@.phase, AckWaitEvent::NoData),
    {
    }

    /// The acknowledgement read failed with other than a timeout: fatal on
    /// the first occurrence.
    pub fn on_read_fault(&mut self)
        requires
            old(self).wf(),
            old(self)@.phase is AwaitAck,
        ensures
            final(self).wf(),
            final(self)@.frame_size == old(self)@.frame_size,
            final(self)@.started == old(self)@.started,
            final(self)@.acked == old(self)@.acked,
            final(self)@.phase == spec_ack_wait_step(old(self)@.phase, AckWaitEvent::Fault),
            final(self)@.phase == SenderPhase::Failed(SenderFault::AckRead),
    {
        self.phase = SenderPhase::Failed(SenderFault::AckRead);
    }
}

/// How long to keep waiting before the next frame, for a target frame
/// interval: the unspent part of the interval, and zero when the frame
/// overran it — the pump then proceeds immediately and never skips frames
/// to catch up.
pub fn pacing_wait_ms(elapsed_ms: u64, interval_ms: u64) -> (r: u64)
    ensures
        r == if elapsed_ms < interval_ms {
            interval_ms - elapsed_ms
        } else {
            0
        },
{
    if elapsed_ms < interval_ms {
        interval_ms - elapsed_ms
    } else {
        0
    }
}

/// At most one frame in flight: in every reachable pump state,
/// acknowledgements trail started frames by at most one; while a frame is in
/// flight exactly one acknowledgement is outstanding; and the pump is ready
/// to start a frame — the one state [`Sender::start_frame`] admits — only
/// when every frame started so far has been acknowledged.
pub proof fn lemma_at_most_one_in_flight(s: Sender)
    requires
        s.wf(),
    ensures
        s@.acked <= s@.started <= s@.acked + 1,
        s@.phase is Ready ==> s@.started == s@.acked,
        in_flight(s@.phase) ==> s@.started == s@.acked + 1,
{
}

/// A run of nothing-to-read conditions, of any finite length, leaves the
/// ack wait exactly where it was: timeouts are never failure.
pub proof fn lemma_transient_never_fails(p: SenderPhase, evs: Seq<AckWaitEvent>)
    requires
        forall|i: int| 0 <= i < evs.len() ==> evs[i] is NoData,
    ensures
        spec_ack_wait_run(p, evs) == p,
    decreases evs.len(),
{
    if evs.len() > 0 {
        assert(evs[0] is NoData);
        lemma_transient_never_fails(p, evs.drop_first());
    }
}

/// Running one more event after a sequence is stepping on the sequence's
/// outcome.
pub proof fn lemma_ack_wait_run_push(p: SenderPhase, evs: Seq<AckWaitEvent>, ev: AckWaitEvent)
    ensures
        spec_ack_wait_run(p, evs.push(ev)) == spec_ack_wait_step(spec_ack_wait_run(p, evs), ev),
    decreases evs.len(),
{
    if evs.len() == 0 {
        assert(evs.push(ev)[0] == ev);
        assert(evs.push(ev).drop_first() =~= Seq::<AckWaitEvent>::empty());
        assert(spec_ack_wait_run(p, evs.push(ev)) == spec_ack_wait_run(
            spec_ack_wait_step(p, ev),
            evs.push(ev).drop_first(),
        ));
        assert(spec_ack_wait_run(p, evs) == p);
    } else {
        assert(evs.push(ev)[0] == evs[0]);
        assert(evs.push(ev).drop_first() =~= evs.drop_first().push(ev));
        lemma_ack_wait_run_push(spec_ack_wait_step(p, evs[0]), evs.drop_first(), ev);
        assert(spec_ack_wait_run(p, evs.push(ev)) == spec_ack_wait_run(
            spec_ack_wait_step(p, evs[0]),
            evs.drop_first().push(ev),
        ));
        assert(spec_ack_wait_run(p, evs) == spec_ack_wait_run(
            spec_ack_wait_step(p, evs[0]),
            evs.drop_first(),
        ));
    }
}

/// Fatal-versus-transient classification: a transport that has nothing to
/// read any finite number of times and then yields the acknowledgement byte
/// completes the frame; one that yields a hard read error fails the wait on
/// that first occurrence, however many timeouts preceded it.
pub proof fn lemma_ack_wait_classification(timeouts: Seq<AckWaitEvent>)
    requires
        forall|i: int| 0 <= i < timeouts.len() ==> timeouts[i] is NoData,
    ensures
        spec_ack_wait_run(SenderPhase::AwaitAck, timeouts.push(AckWaitEvent::Byte(COMM_ACK_BYTE)))
            == SenderPhase::Ready,
        spec_ack_wait_run(SenderPhase::AwaitAck, timeouts.push(AckWaitEvent::Fault))
            == SenderPhase::Failed(SenderFault::AckRead),
{
    lemma_transient_never_fails(SenderPhase::AwaitAck, timeouts);
    lemma_ack_wait_run_push(
        SenderPhase::AwaitAck,
        timeouts,
        AckWaitEvent::Byte(COMM_ACK_BYTE),
    );
    lemma_ack_wait_run_push(SenderPhase::AwaitAck, timeouts, AckWaitEvent::Fault);
}

} // verus!
