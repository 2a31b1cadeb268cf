//! A small duplex framing protocol for streaming fixed-size monochrome
//! display frames from a host to a device over a byte-oriented serial
//! transport, together with the pure display arithmetic of the driven
//! hardware (seven-segment digit tables and GPIO register images).
//!
//! The protocol core has three parts:
//! - [`codec`]: the two-opcode wire format (one frame payload, one
//!   acknowledgement) and its encoder/decoder.
//! - [`sender`]: the host-side pump that paces frames across the transport
//!   and enforces at most one frame in flight via acknowledgements.
//! - [`receiver`]: the device-side state machine that assembles an
//!   exactly-sized payload out of arbitrarily fragmented reads.
//!
//! The transport itself (serial port, USB-CDC) is an external collaborator:
//! the pump and the state machine are driven with plain events and hand
//! back plain values, so the surrounding application owns all I/O.
//!
//! Beside the protocol stand the driven displays' pure arithmetic:
//! [`tube`] holds the seven-segment digit tables and GPIO register images
//! of the four-digit tube driver, and [`ssd1306`] names the OLED
//! controller's command bytes.

pub mod codec;
pub mod receiver;
pub mod sender;
pub mod ssd1306;
pub mod tube;
