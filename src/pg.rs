//! The PostgreSQL-family protocol: message framing, the reply catalog,
//! request decoding, the table of known requests and the per-connection
//! session.

pub mod catalog;
pub mod codec;
pub mod message;
pub mod request;
pub mod session;
