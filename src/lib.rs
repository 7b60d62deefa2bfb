//! Wire-level engines for two database session protocols: a MySQL-family
//! protocol and a PostgreSQL-family protocol. Each engine frames payloads,
//! runs the connection handshake and answers a fixed catalog of requests
//! with canned replies.

pub mod queries;
pub mod wire;
pub mod mysql;
pub mod pg;
