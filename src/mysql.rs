//! The MySQL-family protocol: packet framing, the payload catalog, command
//! decoding, the table of known requests and the per-connection session.

pub mod catalog;
pub mod codec;
pub mod command;
pub mod packet;
pub mod session;
