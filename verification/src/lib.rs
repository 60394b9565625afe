//! A verified XMODEM-style file-transfer library.
//!
//! The crate has two halves. `io` holds byte-stream traits (`Read`, `Write`,
//! `Seek`, `BufRead`) and small adaptors (`Chain`, `Take`, `Bytes`, `Chars`)
//! over which transfers run; `slice` and `util` round out the supporting
//! vocabulary. The remaining modules form the transfer protocol proper:
//! `packet` frames and validates 128-byte data blocks, `policy` centralises
//! retry and timeout decisions, `sender` and `receiver` are the two session
//! state machines, `progress` reports acknowledged blocks, and `session`
//! drives a whole transfer over a channel — including a verified lossless
//! run of both machines against each other, the protocol's round-trip
//! statement.

pub mod io;
pub mod packet;
pub mod policy;
pub mod progress;
pub mod receiver;
pub mod sender;
pub mod session;
pub mod slice;
pub mod util;
