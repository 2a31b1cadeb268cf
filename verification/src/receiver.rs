//! The device-side receiver state machine.
//!
//! The machine assembles an exactly-sized frame payload out of an unreliable,
//! partial-read transport and hands it to the display sink. It is driven with
//! plain events — an opcode byte, a chunk of payload bytes, the outcome of the
//! sink call, the outcome of the acknowledgement write — and the surrounding
//! loop owns all I/O. A no-data transport condition is not an event at all:
//! the loop simply polls again, and the machine's state carries the byte
//! offset so that no chunking the transport chooses can lose alignment.

use vstd::prelude::*;

use crate::codec::Error;
use crate::codec::Signal;
use crate::codec::COMM_ACK_BYTE;
use crate::codec::FULL_DATA_BYTE;

verus! {

/// Why the receiver halted. Every fault here is fatal: the fixed-length
/// framing has no self-describing resync point, so the machine never tries
/// to recover.
#[derive(Debug, Clone, Copy, PartialEq, Eq, Structural)]
pub enum ReceiverFault {
    /// A transport read failed with other than the transient no-data condition.
    Transport,
    /// The display sink rejected a completed frame.
    Sink,
    /// Writing the acknowledgement failed.
    AckWrite,
    /// An opcode byte outside the closed opcode space arrived. Dropping it
    /// silently could desynchronize the frame boundary, so it halts the
    /// machine instead.
    BadOpcode,
}

/// The receiver's control state.
#[derive(Debug, Clone, Copy, PartialEq, Eq, Structural)]
pub enum ReceiverPhase {
    /// Polling for an opcode byte; nothing is in progress.
    Idle,
    /// A frame opcode arrived; payload bytes are being accumulated.
    ReceivingPayload,
    /// The payload is complete and ready for the display sink.
    Applying,
    /// The frame was applied; the acknowledgement is owed.
    Acking,
    /// A fatal fault; the machine stays halted.
    Failed(ReceiverFault),
}

/// Mathematical image of a [`Receiver`].
pub struct ReceiverView {
    pub frame_size: nat,
    pub phase: ReceiverPhase,
    pub buffer: Seq<u8>,
}

/// The receiver state machine. Constructed once with the agreed frame size;
/// mutated only through its event methods, which keep it well formed.
pub struct Receiver {
    frame_size: usize,
    phase: ReceiverPhase,
    buffer: Vec<u8>,
}

impl View for Receiver {
    type V = ReceiverView;

    closed spec fn view(&self) -> ReceiverView {
        ReceiverView {
            frame_size: self.frame_size as nat,
            phase: self.phase,
            buffer: self.buffer@,
        }
    }
}

impl Receiver {
    /// The machine is well formed: the accumulator never exceeds one frame,
    /// holds exactly one frame while applying or acknowledging, and is empty
    /// between frames.
    pub open spec fn wf(&self) -> bool {
        &&& self@.frame_size >= 1
        &&& (self@.phase is Idle ==> self@.buffer.len() == 0)
        &&& (self@.phase is ReceivingPayload ==> self@.buffer.len() < self@.frame_size)
        &&& (self@.phase is Applying ==> self@.buffer.len() == self@.frame_size)
        &&& (self@.phase is Acking ==> self@.buffer.len() == self@.frame_size)
    }

    /// A fresh receiver, idle, for frames of `frame_size` bytes.
    pub fn new(frame_size: usize) -> (r: Receiver)
        requires
            frame_size >= 1,
        ensures
            r.wf(),
            r@.frame_size == frame_size,
            r@.phase is Idle,
            r@.buffer.len() == 0,
    {
        Receiver { frame_size, phase: ReceiverPhase::Idle, buffer: Vec::new() }
    }

    /// The current control state.
    pub fn phase(&self) -> (r: ReceiverPhase)
        ensures
            r == self@.phase,
    {
        self.phase
    }

    /// How many payload bytes have been accumulated so far.
    pub fn bytes_so_far(&self) -> (r: usize)
        ensures
            r == self@.buffer.len(),
    {
        self.buffer.len()
    }

    /// How many payload bytes are still owed; the loop sizes its next read
    /// with this, so a read can never deliver past the frame boundary.
    pub fn remaining(&self) -> (r: usize)
        requires
            self.wf(),
            self@.phase is ReceivingPayload,
        ensures
            r == self@.frame_size - self@.buffer.len(),
            r >= 1,
    {
        self.frame_size - self.buffer.len()
    }

    /// One opcode byte arrived while idle. The frame opcode re-arms the
    /// payload accumulator at offset zero; a stray acknowledgement is
    /// discarded without protocol error (the decoder accepts the whole
    /// closed union); any other byte is a decode fault and halts the
    /// machine — an explicit escalation, never a silent resync.
    pub fn on_opcode(&mut self, op: u8) -> (r: Result<(), Error>)
        requires
            old(self).wf(),
            old(self)@.phase is Idle,
        ensures
            final(self).wf(),
            final(self)@.frame_size == old(self)@.frame_size,
            final(self)@.buffer.len() == 0,
            op == FULL_DATA_BYTE ==> final(self)@.phase is ReceivingPayload && r is Ok,
            op == COMM_ACK_BYTE ==> final(self)@.phase is Idle && r is Ok,
            op != FULL_DATA_BYTE && op != COMM_ACK_BYTE ==> final(self)@.phase
                == ReceiverPhase::Failed(ReceiverFault::BadOpcode) && r == Err::<(), Error>(
                Error::InvalidOpcode,
            ),
    {
        if op == FULL_DATA_BYTE {
            self.phase = ReceiverPhase::ReceivingPayload;
            Ok(())
        } else if op == COMM_ACK_BYTE {
            Ok(())
        } else {
            self.phase = ReceiverPhase::Failed(ReceiverFault::BadOpcode);
            Err(Error::InvalidOpcode)
        }
    }

    /// A read delivered `chunk` payload bytes. They are appended at the
    /// current offset; the machine reaches `Applying` exactly when the
    /// accumulated payload is one whole frame, and otherwise keeps waiting —
    /// so no chunking the transport chooses can misalign the frame.
    pub fn on_chunk(&mut self, chunk: &[u8])
        requires
            old(self).wf(),
            old(self)@.phase is ReceivingPayload,
            old(self)@.buffer.len() + chunk@.len() <= old(self)@.frame_size,
        ensures
            final(self).wf(),
            final(self)@.frame_size == old(self)@.frame_size,
            final(self)@.buffer == old(self)@.buffer + chunk@,
            final(self)@.phase == (if old(self)@.buffer.len() + chunk@.len()
                == old(self)@.frame_size {
                ReceiverPhase::Applying
            } else {
                ReceiverPhase::ReceivingPayload
            }),
    {
        let ghost orig: Seq<u8> = self.buffer@;
        let mut i: usize = 0;
        while i < chunk.len()
            invariant
                i <= chunk@.len(),
                self.buffer@ == orig + chunk@.take(i as int),
                self.buffer@.len() == orig.len() + i,
                self.phase == old(self)@.phase,
                self.frame_size == old(self).frame_size,
                orig.len() + chunk@.len() <= self.frame_size,
            decreases chunk@.len() - i,
        {
            self.buffer.push(chunk[i]);
            proof {
                assert(chunk@.take(i + 1) =~= chunk@.take(i as int).push(chunk@[i as int]));
            }
            i = i + 1;
        }
        proof {
            assert(chunk@.take(chunk@.len() as int) =~= chunk@);
        }
        if self.buffer.len() == self.frame_size {
            self.phase = ReceiverPhase::Applying;
        }
    }

    /// A transport read failed with other than the no-data condition: fatal.
    pub fn on_transport_fault(&mut self)
        requires
            old(self).wf(),
            old(self)@.phase is Idle || old(self)@.phase is ReceivingPayload,
        ensures
            final(self).wf(),
            final(self)@.frame_size == old(self)@.frame_size,
            final(self)@.phase == ReceiverPhase::Failed(ReceiverFault::Transport),
    {
        self.phase = ReceiverPhase::Failed(ReceiverFault::Transport);
    }

    /// The completed frame, to be handed to the display sink.
    pub fn frame(&self) -> (r: &Vec<u8>)
        requires
            self.wf(),
            self@.phase is Applying,
        ensures
            r@ == self@.buffer,
            r@.len() == self@.frame_size,
    {
        &self.buffer
    }

    /// The display sink accepted the frame: the acknowledgement is now owed.
    pub fn on_applied(&mut self)
        requires
            old(self).wf(),
            old(self)@.phase is Applying,
        ensures
            final(self).wf(),
            final(self)@.frame_size == old(self)@.frame_size,
            final(self)@.buffer == old(self)@.buffer,
            final(self)@.phase is Acking,
    {
        self.phase = ReceiverPhase::Acking;
    }

    /// The display sink failed: the device cannot continue in an unknown
    /// display state, so the machine halts.
    pub fn on_apply_failed(&mut self)
        requires
            old(self).wf(),
            old(self)@.phase is Applying,
        ensures
            final(self).wf(),
            final(self)@.frame_size == old(self)@.frame_size,
            final(self)@.phase == ReceiverPhase::Failed(ReceiverFault::Sink),
    {
        self.phase = ReceiverPhase::Failed(ReceiverFault::Sink);
    }

    /// The single byte to write while acknowledging: the encoded
    /// acknowledgement signal, which carries no payload.
    pub fn ack_opcode(&self) -> (r: u8)
        requires
            self@.phase is Acking,
        ensures
            r == COMM_ACK_BYTE,
    {
        let ack = Signal::CommACK;
        let (op, _data) = ack.to_bytes();
        op
    }

    /// The acknowledgement went out: the frame exchange is complete and the
    /// machine is idle again, its accumulator cleared for the next frame.
    pub fn on_ack_sent(&mut self)
        requires
            old(self).wf(),
            old(self)@.phase is Acking,
        ensures
            final(self).wf(),
            final(self)@.frame_size == old(self)@.frame_size,
            final(self)@.phase is Idle,
            final(self)@.buffer.len() == 0,
    {
        self.buffer = Vec::new();
        self.phase = ReceiverPhase::Idle;
    }

    /// Writing the acknowledgement failed: fatal.
    pub fn on_ack_write_failed(&mut self)
        requires
            old(self).wf(),
            old(self)@.phase is Acking,
        ensures
            final(self).wf(),
            final(self)@.frame_size == old(self)@.frame_size,
            final(self)@.phase == ReceiverPhase::Failed(ReceiverFault::AckWrite),
    {
        self.phase = ReceiverPhase::Failed(ReceiverFault::AckWrite);
    }
}

/// Concatenation of a list of chunks, in order.
pub open spec fn concat_chunks(chunks: Seq<Seq<u8>>) -> Seq<u8>
    decreases chunks.len(),
{
    if chunks.len() == 0 {
        Seq::empty()
    } else {
        concat_chunks(chunks.drop_last()) + chunks.last()
    }
}

/// Splitting off the next chunk: the concatenation of one more chunk is the
/// concatenation so far followed by that chunk.
pub proof fn lemma_concat_take_step(chunks: Seq<Seq<u8>>, k: int)
    requires
        0 <= k < chunks.len(),
    ensures
        concat_chunks(chunks.take(k + 1)) == concat_chunks(chunks.take(k)) + chunks[k],
{
    assert(chunks.take(k + 1).drop_last() =~= chunks.take(k));
    assert(chunks.take(k + 1).last() == chunks[k]);
}

proof fn lemma_concat_prefix_len(chunks: Seq<Seq<u8>>, k: int)
    requires
        0 <= k <= chunks.len(),
    ensures
        concat_chunks(chunks.take(k)).len() <= concat_chunks(chunks).len(),
    decreases chunks.len() - k,
{
    if k == chunks.len() {
        assert(chunks.take(k) =~= chunks);
    } else {
        lemma_concat_take_step(chunks, k);
        lemma_concat_prefix_len(chunks, k + 1);
    }
}

/// Fragmentation robustness: split a whole frame payload into any list of
/// nonempty chunks and feed them in order. After the first `k` chunks the
/// accumulator holds `concat_chunks(chunks.take(k))` — that is what
/// [`Receiver::on_chunk`] ensures, chunk by chunk — and this lemma shows the
/// completion threshold `frame_size`, the machine's one trigger into
/// `Applying`, is reached on the last chunk and on no earlier one: exactly
/// one `Applying` transition, with exactly the original payload.
pub proof fn lemma_fragmentation_robustness(chunks: Seq<Seq<u8>>, frame_size: nat)
    requires
        concat_chunks(chunks).len() == frame_size,
        forall|i: int| 0 <= i < chunks.len() ==> #[trigger] chunks[i].len() > 0,
    ensures
        forall|k: int|
            0 <= k < chunks.len() ==> #[trigger] concat_chunks(chunks.take(k)).len() < frame_size,
        concat_chunks(chunks.take(chunks.len() as int)) == concat_chunks(chunks),
{
    assert forall|k: int| 0 <= k < chunks.len() implies #[trigger] concat_chunks(
        chunks.take(k),
    ).len() < frame_size by {
        lemma_concat_take_step(chunks, k);
        lemma_concat_prefix_len(chunks, k + 1);
        assert(chunks[k].len() > 0);
    }
    assert(chunks.take(chunks.len() as int) =~= chunks);
}

} // verus!
