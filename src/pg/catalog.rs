//! The table of known requests: the messages that answer each query text
//! and each completed extended-query exchange.
use vstd::prelude::*;
use crate::pg::message::ResponseMessage;
use crate::queries::{
    empty_query, products_query, simple_query, EMPTY_QUERY, PRODUCTS_QUERY, SIMPLE_QUERY,
};
use crate::wire::bytes_are;

verus! {

/// The answer to the startup message.
pub open spec fn startup_plan() -> Seq<ResponseMessage> {
    seq![ResponseMessage::AuthRequestOK, ResponseMessage::ReadyForQuery]
}

/// The messages that answer a simple query, in order; `None` for a text
/// that is not in the table.
pub open spec fn query_plan(q: Seq<u8>) -> Option<Seq<ResponseMessage>> {
    if q == empty_query() {
        Some(seq![ResponseMessage::EmptyQuery, ResponseMessage::ReadyForQuery])
    } else if q == simple_query() {
        Some(
            seq![
                ResponseMessage::SimpleRowDescription,
                ResponseMessage::SimpleDataRow,
                ResponseMessage::SimpleCommandCompletion,
                ResponseMessage::ReadyForQuery,
            ],
        )
    } else if q == products_query() {
        Some(
            seq![
                ResponseMessage::ComplexRowDescription,
                ResponseMessage::ComplexDataRow1,
                ResponseMessage::ComplexDataRow2,
                ResponseMessage::ComplexCommandCompletion,
                ResponseMessage::ReadyForQuery,
            ],
        )
    } else {
        None
    }
}

/// The answer to Parse, Describe, Sync.
pub open spec fn describe_plan() -> Seq<ResponseMessage> {
    seq![
        ResponseMessage::ParseCompletion,
        ResponseMessage::ParameterDescription,
        ResponseMessage::SimpleRowDescription,
        ResponseMessage::ReadyForQuery,
    ]
}

/// The answer to Bind, Execute, Sync.
pub open spec fn execute_plan() -> Seq<ResponseMessage> {
    seq![
        ResponseMessage::BindCompletion,
        ResponseMessage::DataRow,
        ResponseMessage::SimpleCommandCompletion,
        ResponseMessage::ReadyForQuery,
    ]
}

/// The answer to Close, Sync.
pub open spec fn close_plan() -> Seq<ResponseMessage> {
    seq![ResponseMessage::CloseCompletion, ResponseMessage::ReadyForQuery]
}

/// Builds the answer to the startup message.
pub fn startup_reply() -> (r: Vec<ResponseMessage>)
    ensures
        r@ == startup_plan(),
{
    let r = vec![ResponseMessage::AuthRequestOK, ResponseMessage::ReadyForQuery];
    assert(r@ =~= startup_plan());
    r
}

/// Looks up the answer to a simple query.
pub fn lookup_query(q: &[u8]) -> (r: Option<Vec<ResponseMessage>>)
    ensures
        match r {
            Some(p) => query_plan(q@) == Some(p@),
            None => query_plan(q@) is None,
        },
{
    if bytes_are(q, EMPTY_QUERY) {
        let p = vec![ResponseMessage::EmptyQuery, ResponseMessage::ReadyForQuery];
        assert(query_plan(q@) == Some(p@));
        Some(p)
    } else if bytes_are(q, SIMPLE_QUERY) {
        let p = vec![
            ResponseMessage::SimpleRowDescription,
            ResponseMessage::SimpleDataRow,
            ResponseMessage::SimpleCommandCompletion,
            ResponseMessage::ReadyForQuery,
        ];
        assert(query_plan(q@) == Some(p@));
        Some(p)
    } else if bytes_are(q, PRODUCTS_QUERY) {
        let p = vec![
            ResponseMessage::ComplexRowDescription,
            ResponseMessage::ComplexDataRow1,
            ResponseMessage::ComplexDataRow2,
            ResponseMessage::ComplexCommandCompletion,
            ResponseMessage::ReadyForQuery,
        ];
        assert(query_plan(q@) == Some(p@));
        Some(p)
    } else {
        None
    }
}

/// Builds the answer to Parse, Describe, Sync.
pub fn describe_reply() -> (r: Vec<ResponseMessage>)
    ensures
        r@ == describe_plan(),
{
    let r = vec![
        ResponseMessage::ParseCompletion,
        ResponseMessage::ParameterDescription,
        ResponseMessage::SimpleRowDescription,
        ResponseMessage::ReadyForQuery,
    ];
    assert(r@ =~= describe_plan());
    r
}

/// Builds the answer to Bind, Execute, Sync.
pub fn execute_reply() -> (r: Vec<ResponseMessage>)
    ensures
        r@ == execute_plan(),
{
    let r = vec![
        ResponseMessage::BindCompletion,
        ResponseMessage::DataRow,
        ResponseMessage::SimpleCommandCompletion,
        ResponseMessage::ReadyForQuery,
    ];
    assert(r@ =~= execute_plan());
    r
}

/// Builds the answer to Close, Sync.
pub fn close_reply() -> (r: Vec<ResponseMessage>)
    ensures
        r@ == close_plan(),
{
    let r = vec![ResponseMessage::CloseCompletion, ResponseMessage::ReadyForQuery];
    assert(r@ =~= close_plan());
    r
}

} // verus!
