//! The table of known requests: the query texts this server answers and the
//! packets that answer each of them. Texts match exactly, byte for byte.
use vstd::prelude::*;
use crate::mysql::packet::Packet;
use crate::queries::{products_query, simple_query, PRODUCTS_QUERY, SIMPLE_QUERY};
use crate::wire::bytes_are;

verus! {

/// The only statement handle that a prepare hands out.
pub const STATEMENT_ID: u32 = 1;

/// The packets that answer a text query, in order; `None` for a text that
/// is not in the table.
pub open spec fn query_plan(q: Seq<u8>) -> Option<Seq<Packet>> {
    if q == simple_query() {
        Some(
            seq![
                Packet::ColumnCount(1),
                Packet::SimpleFieldPacket,
                Packet::Eof,
                Packet::SimpleRowPacket,
                Packet::Eof,
            ],
        )
    } else if q == products_query() {
        Some(
            seq![
                Packet::ColumnCount(4),
                Packet::IdFieldPacket,
                Packet::TitleFieldPacket,
                Packet::DescriptionFieldPacket,
                Packet::CategoryIdFieldPacket,
                Packet::ComplexEof,
                Packet::ComplexRow1Packet,
                Packet::ComplexRow2Packet,
                Packet::ComplexEof,
            ],
        )
    } else {
        None
    }
}

/// The packets that answer a prepare; only `SIMPLE_QUERY` can be prepared.
pub open spec fn prepare_plan(q: Seq<u8>) -> Option<Seq<Packet>> {
    if q == simple_query() {
        Some(seq![Packet::PrepareOk, Packet::SimpleFieldPacket, Packet::Eof])
    } else {
        None
    }
}

/// The packets that answer an execute; only `STATEMENT_ID` can be executed.
pub open spec fn execute_plan(stmt_id: u32) -> Option<Seq<Packet>> {
    if stmt_id == STATEMENT_ID {
        Some(
            seq![
                Packet::ColumnCount(1),
                Packet::SimpleFieldPacket,
                Packet::Eof,
                Packet::PreparedRowPacket,
                Packet::Eof,
            ],
        )
    } else {
        None
    }
}

/// Looks up the answer to a text query.
pub fn lookup_query(q: &[u8]) -> (r: Option<Vec<Packet>>)
    ensures
        match r {
            Some(p) => query_plan(q@) == Some(p@),
            None => query_plan(q@) is None,
        },
{
    if bytes_are(q, SIMPLE_QUERY) {
        let p = vec![
            Packet::ColumnCount(1),
            Packet::SimpleFieldPacket,
            Packet::Eof,
            Packet::SimpleRowPacket,
            Packet::Eof,
        ];
        assert(query_plan(q@) == Some(p@));
        Some(p)
    } else if bytes_are(q, PRODUCTS_QUERY) {
        let p = vec![
            Packet::ColumnCount(4),
            Packet::IdFieldPacket,
            Packet::TitleFieldPacket,
            Packet::DescriptionFieldPacket,
            Packet::CategoryIdFieldPacket,
            Packet::ComplexEof,
            Packet::ComplexRow1Packet,
            Packet::ComplexRow2Packet,
            Packet::ComplexEof,
        ];
        assert(query_plan(q@) == Some(p@));
        Some(p)
    } else {
        None
    }
}

/// Looks up the answer to a prepare.
pub fn lookup_prepare(q: &[u8]) -> (r: Option<Vec<Packet>>)
    ensures
        match r {
            Some(p) => prepare_plan(q@) == Some(p@),
            None => prepare_plan(q@) is None,
        },
{
    if bytes_are(q, SIMPLE_QUERY) {
        let p = vec![Packet::PrepareOk, Packet::SimpleFieldPacket, Packet::Eof];
        assert(prepare_plan(q@) == Some(p@));
        Some(p)
    } else {
        None
    }
}

/// Looks up the answer to an execute.
pub fn lookup_execute(stmt_id: u32) -> (r: Option<Vec<Packet>>)
    ensures
        match r {
            Some(p) => execute_plan(stmt_id) == Some(p@),
            None => execute_plan(stmt_id) is None,
        },
{
    if stmt_id == STATEMENT_ID {
        let p = vec![
            Packet::ColumnCount(1),
            Packet::SimpleFieldPacket,
            Packet::Eof,
            Packet::PreparedRowPacket,
            Packet::Eof,
        ];
        assert(execute_plan(stmt_id) == Some(p@));
        Some(p)
    } else {
        None
    }
}

} // verus!
