//! The two-opcode wire format.
//!
//! A wire message is one opcode byte, optionally followed by a payload:
//! the frame opcode announces exactly `frame_size` raw pixel bytes, the
//! acknowledgement opcode stands alone. There is no length field on the
//! wire, so both endpoints must agree on `frame_size` out of band.

use vstd::prelude::*;

verus! {

/// Opcode byte announcing one complete display frame payload.
pub const FULL_DATA_BYTE: u8 = 0x03;

/// Opcode byte acknowledging that the previous frame was applied.
pub const COMM_ACK_BYTE: u8 = 0x04;

/// A protocol-level message: either one complete frame payload or a
/// zero-payload acknowledgement. These are the only two signals the
/// protocol knows; any other opcode byte is invalid on the wire.
#[derive(Debug, PartialEq, Eq)]
pub enum Signal {
    FullData(Vec<u8>),
    CommACK,
}

/// Decode faults, always surfaced to the caller and never corrected.
#[derive(Debug, Clone, Copy, PartialEq, Eq, Structural)]
pub enum Error {
    /// The opcode byte selects neither signal variant.
    InvalidOpcode,
    /// The frame opcode arrived without exactly one frame of payload.
    MissingData,
}

/// Mathematical image of a [`Signal`].
pub enum SignalView {
    FullData(Seq<u8>),
    CommACK,
}

impl View for Signal {
    type V = SignalView;

    open spec fn view(&self) -> SignalView {
        match self {
            Signal::FullData(d) => SignalView::FullData(d@),
            Signal::CommACK => SignalView::CommACK,
        }
    }
}

/// A signal is well formed when a frame payload has exactly one frame of bytes.
pub open spec fn signal_wf(s: SignalView, frame_size: nat) -> bool {
    match s {
        SignalView::FullData(d) => d.len() == frame_size,
        SignalView::CommACK => true,
    }
}

/// What encoding puts on the wire: the opcode byte and the payload, if any.
pub open spec fn spec_encode(s: SignalView) -> (u8, Option<Seq<u8>>) {
    match s {
        SignalView::FullData(d) => (FULL_DATA_BYTE, Some(d)),
        SignalView::CommACK => (COMM_ACK_BYTE, None),
    }
}

/// What decoding makes of an opcode byte and an optional payload.
pub open spec fn spec_decode(op: u8, data: Option<Seq<u8>>, frame_size: nat) -> Result<
    SignalView,
    Error,
> {
    if op == FULL_DATA_BYTE {
        match data {
            Some(d) => if d.len() == frame_size {
                Ok(SignalView::FullData(d))
            } else {
                Err(Error::MissingData)
            },
            None => Err(Error::MissingData),
        }
    } else if op == COMM_ACK_BYTE {
        Ok(SignalView::CommACK)
    } else {
        Err(Error::InvalidOpcode)
    }
}

/// View of an optional borrowed payload.
pub open spec fn opt_payload_view(data: Option<&Vec<u8>>) -> Option<Seq<u8>> {
    match data {
        Some(d) => Some(d@),
        None => None,
    }
}

/// View of an optional owned payload.
pub open spec fn opt_owned_view(data: Option<Vec<u8>>) -> Option<Seq<u8>> {
    match data {
        Some(d) => Some(d@),
        None => None,
    }
}

/// View of a decode result.
pub open spec fn decode_result_view(r: Result<Signal, Error>) -> Result<SignalView, Error> {
    match r {
        Ok(s) => Ok(s@),
        Err(e) => Err(e),
    }
}

impl Signal {
    /// Encode the signal for the wire: the opcode byte first, then the
    /// payload bytes if the variant carries any. Pure and total.
    pub fn to_bytes(&self) -> (r: (u8, Option<&Vec<u8>>))
        ensures
            (r.0, opt_payload_view(r.1)) == spec_encode(self@),
    {
        match self {
            Signal::FullData(data) => (FULL_DATA_BYTE, Some(data)),
            Signal::CommACK => (COMM_ACK_BYTE, None),
        }
    }

    /// Decode one wire message. Fails with [`Error::InvalidOpcode`] on any
    /// opcode byte outside the closed opcode space, and with
    /// [`Error::MissingData`] when the frame opcode arrives without exactly
    /// `frame_size` payload bytes.
    pub fn new(op: u8, data: Option<Vec<u8>>, frame_size: usize) -> (r: Result<Signal, Error>)
        ensures
            decode_result_view(r) == spec_decode(op, opt_owned_view(data), frame_size as nat),
    {
        if op == FULL_DATA_BYTE {
            match data {
                Some(d) => if d.len() == frame_size {
                    Ok(Signal::FullData(d))
                } else {
                    Err(Error::MissingData)
                },
                None => Err(Error::MissingData),
            }
        } else if op == COMM_ACK_BYTE {
            Ok(Signal::CommACK)
        } else {
            Err(Error::InvalidOpcode)
        }
    }

    /// Whether a payload follows this opcode byte on the wire.
    pub fn has_data(opcode: u8) -> (r: bool)
        ensures
            r == (opcode == FULL_DATA_BYTE),
    {
        opcode == FULL_DATA_BYTE
    }
}

/// Round trip: decoding what encoding produced yields the original signal,
/// for every well-formed signal and every frame size.
pub proof fn lemma_round_trip(s: SignalView, frame_size: nat)
    requires
        signal_wf(s, frame_size),
    ensures
        spec_decode(spec_encode(s).0, spec_encode(s).1, frame_size) == Ok::<SignalView, Error>(s),
{
}

/// The acknowledgement encodes to its opcode byte alone, carries no payload
/// bytes, and decodes back to itself at every frame size.
pub proof fn lemma_ack_invariance()
    ensures
        spec_encode(SignalView::CommACK) == (COMM_ACK_BYTE, None::<Seq<u8>>),
        forall|fs: nat| #[trigger]
            spec_decode(COMM_ACK_BYTE, None, fs) == Ok::<SignalView, Error>(SignalView::CommACK),
{
}

/// Rejection: every opcode byte outside the closed opcode space fails with
/// [`Error::InvalidOpcode`], whatever payload came with it; and the frame
/// opcode without a payload fails with [`Error::MissingData`].
pub proof fn lemma_rejection(op: u8, data: Option<Seq<u8>>, frame_size: nat)
    ensures
        op != FULL_DATA_BYTE && op != COMM_ACK_BYTE ==> spec_decode(op, data, frame_size)
            == Err::<SignalView, Error>(Error::InvalidOpcode),
        spec_decode(FULL_DATA_BYTE, None, frame_size) == Err::<SignalView, Error>(
            Error::MissingData,
        ),
{
}

} // verus!
