//! Protocol engine for a feature-indexed USB HID configuration protocol.
//!
//! The crate covers the pure, device-independent part of the protocol:
//! building 7-byte and 20-byte command frames, decoding status responses,
//! the CRC16 checksum that guards the 256-byte configuration record, the
//! layout of that record, and the exact send/read sequences (plans) that a
//! transport must perform for each high-level operation. The transport
//! itself (raw USB control and interrupt transfers) stays outside the
//! library and is driven by interpreting the plans the library produces.

pub mod block;
pub mod checksum;
pub mod config;
pub mod controller;
pub mod frames;
pub mod plan;
pub mod record;
pub mod session;
