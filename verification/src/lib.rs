//! Wire protocol of the Akari LED controller: the binary layout of the
//! commands sent to the device and of its replies, and the discipline of one
//! exchange over a datagram channel.
//!
//! Everything here works on plain bytes and values; opening sockets and
//! moving datagrams is left to the caller.

pub mod endian;
pub mod error;
pub mod message;
pub mod response;
pub mod session;
pub mod color;
