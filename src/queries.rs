//! The query texts that both protocols answer. A text matches only when it
//! is exactly one of these, byte for byte.
use vstd::prelude::*;
use vstd::utf8::encode_utf8;

verus! {

/// One integer column, one row.
pub const SIMPLE_QUERY: &'static str = "select 123 as id";

/// Four columns of mixed types, two rows.
pub const PRODUCTS_QUERY: &'static str = "select id, title, description, category_id from products";

/// The empty statement: answered as a no-op (PostgreSQL protocol only).
pub const EMPTY_QUERY: &'static str = ";";

/// The bytes of `SIMPLE_QUERY`.
pub open spec fn simple_query() -> Seq<u8> {
    encode_utf8(SIMPLE_QUERY@)
}

/// The bytes of `PRODUCTS_QUERY`.
pub open spec fn products_query() -> Seq<u8> {
    encode_utf8(PRODUCTS_QUERY@)
}

/// The bytes of `EMPTY_QUERY`.
pub open spec fn empty_query() -> Seq<u8> {
    encode_utf8(EMPTY_QUERY@)
}

} // verus!
