//! The server's messages: every message this server sends, its type tag
//! and its body, byte for byte.
use vstd::prelude::*;
use vstd::utf8::encode_utf8;
use crate::wire::{be_bytes, cstr, push_cstr, push_str, push_u16_be, push_u32_be};

verus! {

/// Type OID of `int4`.
pub const OID_INT4: u32 = 23;

/// Type OID of `varchar`.
pub const OID_VARCHAR: u32 = 1043;

/// Type OID of `text`.
pub const OID_TEXT: u32 = 25;

/// Type OID of `int2`.
pub const OID_INT2: u32 = 21;

/// OID of table `products`.
pub const PRODUCTS_OID: u32 = 0x4001;

/// A type modifier or column length of -1, as an unsigned 32-bit word.
pub const MINUS_ONE: u32 = 0xffff_ffff;

/// A message that the server sends.
#[derive(Debug)]
pub enum ResponseMessage {
    /// Authentication succeeded.
    AuthRequestOK,
    /// A run-time parameter: name and value.
    ParameterStatus(String, String),
    /// Ready for a new query, idle.
    ReadyForQuery,
    /// The answer to an empty query string.
    EmptyQuery,
    /// The one column of `select 123 as id`.
    SimpleRowDescription,
    /// The one row of `select 123 as id`.
    SimpleDataRow,
    /// Completion of a one-row select.
    SimpleCommandCompletion,
    /// The four columns of `products`.
    ComplexRowDescription,
    /// First row of `products`.
    ComplexDataRow1,
    /// Second row of `products`.
    ComplexDataRow2,
    /// Completion of a two-row select.
    ComplexCommandCompletion,
    /// A Parse succeeded.
    ParseCompletion,
    /// A statement without parameters.
    ParameterDescription,
    /// A Bind succeeded.
    BindCompletion,
    /// The one row of the prepared statement, value 123 in binary.
    DataRow,
    /// A Close succeeded.
    CloseCompletion,
}

/// One field of a row description: name, table OID, column number, type
/// OID, type length, type modifier and format code.
pub open spec fn field_description(
    name: Seq<char>,
    table_oid: u32,
    column: u16,
    type_oid: u32,
    type_len: u16,
    type_mod: u32,
    format: u16,
) -> Seq<u8> {
    cstr(name) + be_bytes(table_oid as nat, 4) + be_bytes(column as nat, 2) + be_bytes(
        type_oid as nat,
        4,
    ) + be_bytes(type_len as nat, 2) + be_bytes(type_mod as nat, 4) + be_bytes(format as nat, 2)
}

/// One column value of a data row: a 32-bit length and the text.
pub open spec fn field_value(len: u32, text: Seq<char>) -> Seq<u8> {
    be_bytes(len as nat, 4) + encode_utf8(text)
}

/// The body of each message.
pub open spec fn response_payload(m: ResponseMessage) -> Seq<u8> {
    match m {
        ResponseMessage::AuthRequestOK => be_bytes(0, 4),
        ResponseMessage::ParameterStatus(name, value) => cstr(name@) + cstr(value@),
        ResponseMessage::ReadyForQuery => seq![0x49u8],
        ResponseMessage::EmptyQuery => Seq::empty(),
        ResponseMessage::SimpleRowDescription => be_bytes(1, 2) + field_description(
            "id"@,
            0,
            0,
            OID_INT4,
            4,
            MINUS_ONE,
            0,
        ),
        ResponseMessage::SimpleDataRow => be_bytes(1, 2) + field_value(3, "123"@),
        ResponseMessage::SimpleCommandCompletion => cstr("SELECT 1"@),
        ResponseMessage::ComplexRowDescription => be_bytes(4, 2) + field_description(
            "id"@,
            PRODUCTS_OID,
            1,
            OID_INT4,
            4,
            MINUS_ONE,
            0,
        ) + field_description("title"@, PRODUCTS_OID, 3, OID_VARCHAR, 0xffff, 104, 0)
            + field_description("description"@, PRODUCTS_OID, 4, OID_TEXT, 0xffff, MINUS_ONE, 0)
            + field_description("category_id"@, PRODUCTS_OID, 5, OID_INT2, 2, MINUS_ONE, 0),
        ResponseMessage::ComplexDataRow1 => be_bytes(4, 2) + field_value(1, "1"@) + field_value(
            6,
            "laptop"@,
        ) + be_bytes(MINUS_ONE as nat, 4) + field_value(1, "2"@),
        ResponseMessage::ComplexDataRow2 => be_bytes(4, 2) + field_value(1, "2"@) + field_value(
            5,
            "phone"@,
        ) + field_value(17, "Just a phone desc"@) + field_value(5, "20000"@),
        ResponseMessage::ComplexCommandCompletion => cstr("SELECT 2"@),
        ResponseMessage::ParseCompletion => Seq::empty(),
        ResponseMessage::ParameterDescription => be_bytes(0, 2),
        ResponseMessage::BindCompletion => Seq::empty(),
        ResponseMessage::DataRow => be_bytes(1, 2) + be_bytes(4, 4) + be_bytes(123, 4),
        ResponseMessage::CloseCompletion => Seq::empty(),
    }
}

/// The type tag of each message.
pub open spec fn response_tag(m: ResponseMessage) -> u8 {
    match m {
        ResponseMessage::AuthRequestOK => 0x52,
        ResponseMessage::ParameterStatus(_, _) => 0x53,
        ResponseMessage::ReadyForQuery => 0x5a,
        ResponseMessage::EmptyQuery => 0x49,
        ResponseMessage::SimpleRowDescription => 0x54,
        ResponseMessage::SimpleDataRow => 0x44,
        ResponseMessage::SimpleCommandCompletion => 0x43,
        ResponseMessage::ComplexRowDescription => 0x54,
        ResponseMessage::ComplexDataRow1 => 0x44,
        ResponseMessage::ComplexDataRow2 => 0x44,
        ResponseMessage::ComplexCommandCompletion => 0x43,
        ResponseMessage::ParseCompletion => 0x31,
        ResponseMessage::ParameterDescription => 0x74,
        ResponseMessage::BindCompletion => 0x32,
        ResponseMessage::DataRow => 0x44,
        ResponseMessage::CloseCompletion => 0x33,
    }
}

fn push_field_description(
    out: &mut Vec<u8>,
    name: &str,
    table_oid: u32,
    column: u16,
    type_oid: u32,
    type_len: u16,
    type_mod: u32,
    format: u16,
)
    ensures
        final(out)@ == old(out)@ + field_description(
            name@,
            table_oid,
            column,
            type_oid,
            type_len,
            type_mod,
            format,
        ),
{
    push_cstr(out, name);
    push_u32_be(out, table_oid);
    push_u16_be(out, column);
    push_u32_be(out, type_oid);
    push_u16_be(out, type_len);
    push_u32_be(out, type_mod);
    push_u16_be(out, format);
    assert(final(out)@ =~= old(out)@ + field_description(
        name@,
        table_oid,
        column,
        type_oid,
        type_len,
        type_mod,
        format,
    ));
}

fn push_field_value(out: &mut Vec<u8>, len: u32, text: &str)
    ensures
        final(out)@ == old(out)@ + field_value(len, text@),
{
    push_u32_be(out, len);
    push_str(out, text);
    assert(final(out)@ =~= old(out)@ + field_value(len, text@));
}

impl ResponseMessage {
    /// The body of this message, without tag or length.
    pub fn as_bytes(&self) -> (r: Vec<u8>)
        ensures
            r@ == response_payload(*self),
    {
        let mut r: Vec<u8> = Vec::new();
        match self {
            ResponseMessage::AuthRequestOK => {
                push_u32_be(&mut r, 0);
            },
            ResponseMessage::ParameterStatus(name, value) => {
                push_cstr(&mut r, name.as_str());
                push_cstr(&mut r, value.as_str());
            },
            ResponseMessage::ReadyForQuery => {
                // idle
                r.push(0x49);
            },
            ResponseMessage::EmptyQuery => {},
            ResponseMessage::SimpleRowDescription => {
                // field count
                push_u16_be(&mut r, 1);
                push_field_description(&mut r, "id", 0, 0, OID_INT4, 4, MINUS_ONE, 0);
            },
            ResponseMessage::SimpleDataRow => {
                push_u16_be(&mut r, 1);
                push_field_value(&mut r, 3, "123");
            },
            ResponseMessage::SimpleCommandCompletion => {
                push_cstr(&mut r, "SELECT 1");
            },
            ResponseMessage::ComplexRowDescription => {
                push_u16_be(&mut r, 4);
                push_field_description(&mut r, "id", PRODUCTS_OID, 1, OID_INT4, 4, MINUS_ONE, 0);
                push_field_description(
                    &mut r,
                    "title",
                    PRODUCTS_OID,
                    3,
                    OID_VARCHAR,
                    0xffff,
                    104,
                    0,
                );
                push_field_description(
                    &mut r,
                    "description",
                    PRODUCTS_OID,
                    4,
                    OID_TEXT,
                    0xffff,
                    MINUS_ONE,
                    0,
                );
                push_field_description(
                    &mut r,
                    "category_id",
                    PRODUCTS_OID,
                    5,
                    OID_INT2,
                    2,
                    MINUS_ONE,
                    0,
                );
            },
            ResponseMessage::ComplexDataRow1 => {
                push_u16_be(&mut r, 4);
                push_field_value(&mut r, 1, "1");
                push_field_value(&mut r, 6, "laptop");
                // NULL description
                push_u32_be(&mut r, MINUS_ONE);
                push_field_value(&mut r, 1, "2");
            },
            ResponseMessage::ComplexDataRow2 => {
                push_u16_be(&mut r, 4);
                push_field_value(&mut r, 1, "2");
                push_field_value(&mut r, 5, "phone");
                push_field_value(&mut r, 17, "Just a phone desc");
                push_field_value(&mut r, 5, "20000");
            },
            ResponseMessage::ComplexCommandCompletion => {
                push_cstr(&mut r, "SELECT 2");
            },
            ResponseMessage::ParseCompletion => {},
            ResponseMessage::ParameterDescription => {
                // no parameters
                push_u16_be(&mut r, 0);
            },
            ResponseMessage::BindCompletion => {},
            ResponseMessage::DataRow => {
                push_u16_be(&mut r, 1);
                push_u32_be(&mut r, 4);
                push_u32_be(&mut r, 123);
            },
            ResponseMessage::CloseCompletion => {},
        }
        assert(r@ =~= response_payload(*self));
        r
    }

    /// The type tag that precedes this message on the wire.
    pub fn message_type(&self) -> (r: u8)
        ensures
            r == response_tag(*self),
    {
        match self {
            ResponseMessage::AuthRequestOK => 0x52,  // R
            ResponseMessage::ParameterStatus(_, _) => 0x53,  // S
            ResponseMessage::ReadyForQuery => 0x5a,  // Z
            ResponseMessage::EmptyQuery => 0x49,  // I
            ResponseMessage::SimpleRowDescription => 0x54,  // T
            ResponseMessage::SimpleDataRow => 0x44,  // D
            ResponseMessage::SimpleCommandCompletion => 0x43,  // C
            ResponseMessage::ComplexRowDescription => 0x54,  // T
            ResponseMessage::ComplexDataRow1 => 0x44,  // D
            ResponseMessage::ComplexDataRow2 => 0x44,  // D
            ResponseMessage::ComplexCommandCompletion => 0x43,  // C
            ResponseMessage::ParseCompletion => 0x31,  // 1
            ResponseMessage::ParameterDescription => 0x74,  // t
            ResponseMessage::BindCompletion => 0x32,  // 2
            ResponseMessage::DataRow => 0x44,  // D
            ResponseMessage::CloseCompletion => 0x33,  // 3
        }
    }
}

} // verus!
