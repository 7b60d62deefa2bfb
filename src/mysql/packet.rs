//! The server's payloads: every packet this server sends, byte for byte.
use vstd::prelude::*;
use crate::mysql::codec::MAX_PACKET_SIZE;
use crate::wire::{
    cstr, le_bytes, lemma_le_bytes_len, lemma_utf8_len_bound, lenenc, push_cstr, push_lenenc,
    push_u16_le, push_u32_le, push_u64_le,
};

verus! {

/// Column type code of an 8-byte integer.
pub const FIELD_TYPE_LONGLONG: u8 = 0x08;

/// Column type code of a 4-byte integer.
pub const FIELD_TYPE_LONG: u8 = 0x03;

/// Column type code of a 2-byte integer.
pub const FIELD_TYPE_SHORT: u8 = 0x02;

/// Column type code of variable-length text.
pub const FIELD_TYPE_VAR_STRING: u8 = 0xfd;

/// Column type code of a blob or long text.
pub const FIELD_TYPE_BLOB: u8 = 0xfc;

/// Character set number of binary data.
pub const CHARSET_BINARY: u16 = 63;

/// Character set number of utf8mb4 text (utf8mb4_general_ci).
pub const CHARSET_UTF8MB4: u16 = 45;

/// Server status: autocommit on.
pub const STATUS_AUTOCOMMIT: u16 = 0x0002;

/// Server status: autocommit on and no index used.
pub const STATUS_AUTOCOMMIT_NO_INDEX: u16 = 0x0022;

/// A payload that the server sends.
#[derive(Clone, Copy, Debug, PartialEq, Eq, Structural)]
pub enum Packet {
    /// The initial handshake.
    Greeting,
    /// Fast authentication succeeded (caching_sha2_password).
    AuthSuccess,
    /// A generic OK.
    OK,
    /// The number of columns of a result set.
    ColumnCount(u8),
    /// The one column of `select 123 as id`.
    SimpleFieldPacket,
    /// End of fields or rows.
    Eof,
    /// The one text row of `select 123 as id`.
    SimpleRowPacket,
    /// Column `id` of `products`.
    IdFieldPacket,
    /// Column `title` of `products`.
    TitleFieldPacket,
    /// Column `description` of `products`.
    DescriptionFieldPacket,
    /// Column `category_id` of `products`.
    CategoryIdFieldPacket,
    /// End of fields or rows of the `products` query.
    ComplexEof,
    /// First text row of `products`.
    ComplexRow1Packet,
    /// Second text row of `products`.
    ComplexRow2Packet,
    /// Reply to a prepare: statement 1, one column, no parameters.
    PrepareOk,
    /// The one binary row of statement 1.
    PreparedRowPacket,
}

/// The protocol-10 greeting: protocol version, server version, connection
/// id, first salt part, capabilities, charset, status, extended
/// capabilities, plugin-name length, ten reserved bytes, second salt part
/// and the authentication plugin name.
pub open spec fn greeting_payload() -> Seq<u8> {
    seq![0x0au8] + cstr("9.4.0"@) + le_bytes(1, 4) + cstr("abcdabcd"@) + le_bytes(0xffff, 2)
        + seq![0xffu8] + le_bytes(STATUS_AUTOCOMMIT as nat, 2) + le_bytes(0xdfff, 2) + seq![0x15u8]
        + Seq::new(10, |i: int| 0u8) + cstr("abcdabcdabcd"@) + cstr("caching_sha2_password"@)
}

/// An OK packet: no rows affected, no insert id, autocommit, no warnings.
pub open spec fn ok_payload() -> Seq<u8> {
    seq![0x00u8, 0x00u8, 0x00u8] + le_bytes(STATUS_AUTOCOMMIT as nat, 2) + le_bytes(0, 2)
}

/// An EOF packet with no warnings and the given status.
pub open spec fn eof_payload(status: u16) -> Seq<u8> {
    seq![0xfeu8] + le_bytes(0, 2) + le_bytes(status as nat, 2)
}

/// A protocol-41 column definition, catalog `def`.
pub open spec fn column_definition(
    schema: &str,
    table: &str,
    org_table: &str,
    name: &str,
    org_name: &str,
    charset: u16,
    length: u32,
    column_type: u8,
    flags: u16,
) -> Seq<u8> {
    lenenc("def"@) + lenenc(schema@) + lenenc(table@) + lenenc(org_table@) + lenenc(name@)
        + lenenc(org_name@) + seq![0x0cu8] + le_bytes(charset as nat, 2)
        + le_bytes(length as nat, 4) + seq![column_type] + le_bytes(flags as nat, 2) + seq![0x00u8, 0x00u8, 0x00u8]
}

/// A column of table `products` in schema `protocols`.
pub open spec fn product_column(
    name: &str,
    charset: u16,
    length: u32,
    column_type: u8,
    flags: u16,
) -> Seq<u8> {
    column_definition(
        "protocols",
        "products",
        "products",
        name,
        name,
        charset,
        length,
        column_type,
        flags,
    )
}

/// The bytes of each payload.
pub open spec fn packet_payload(p: Packet) -> Seq<u8> {
    match p {
        Packet::Greeting => greeting_payload(),
        Packet::AuthSuccess => seq![0x01u8, 0x03u8],
        Packet::OK => ok_payload(),
        Packet::ColumnCount(c) => seq![c],
        Packet::SimpleFieldPacket => column_definition(
            "",
            "",
            "",
            "id",
            "",
            CHARSET_BINARY,
            4,
            FIELD_TYPE_LONGLONG,
            0x0081,
        ),
        Packet::Eof => eof_payload(STATUS_AUTOCOMMIT),
        Packet::SimpleRowPacket => lenenc("123"@),
        Packet::IdFieldPacket => product_column("id", CHARSET_BINARY, 4, FIELD_TYPE_LONG, 0x5003),
        Packet::TitleFieldPacket => product_column(
            "title",
            CHARSET_UTF8MB4,
            400,
            FIELD_TYPE_VAR_STRING,
            0x5005,
        ),
        Packet::DescriptionFieldPacket => product_column(
            "description",
            CHARSET_UTF8MB4,
            0xffff_ffff,
            FIELD_TYPE_BLOB,
            0x0010,
        ),
        Packet::CategoryIdFieldPacket => product_column(
            "category_id",
            CHARSET_BINARY,
            6,
            FIELD_TYPE_SHORT,
            0x0000,
        ),
        Packet::ComplexEof => eof_payload(STATUS_AUTOCOMMIT_NO_INDEX),
        Packet::ComplexRow1Packet => lenenc("1"@) + lenenc("laptop"@) + seq![0xfbu8] + lenenc("2"@),
        Packet::ComplexRow2Packet => lenenc("2"@) + lenenc("phone"@) + lenenc("Just a phone desc"@)
            + lenenc("20000"@),
        Packet::PrepareOk => seq![0x00u8] + le_bytes(1, 4) + le_bytes(1, 2) + le_bytes(0, 2)
            + seq![0x00u8] + le_bytes(0, 2),
        Packet::PreparedRowPacket => seq![0x00u8, 0x00u8] + le_bytes(123, 8),
    }
}

fn push_column_definition(
    out: &mut Vec<u8>,
    schema: &str,
    table: &str,
    org_table: &str,
    name: &str,
    org_name: &str,
    charset: u16,
    length: u32,
    column_type: u8,
    flags: u16,
)
    ensures
        final(out)@ == old(out)@ + column_definition(
            schema,
            table,
            org_table,
            name,
            org_name,
            charset,
            length,
            column_type,
            flags,
        ),
{
    push_lenenc(out, "def");
    push_lenenc(out, schema);
    push_lenenc(out, table);
    push_lenenc(out, org_table);
    push_lenenc(out, name);
    push_lenenc(out, org_name);
    // length of the fixed-length fields that follow
    out.push(0x0c);
    push_u16_le(out, charset);
    push_u32_le(out, length);
    out.push(column_type);
    push_u16_le(out, flags);
    // decimals
    out.push(0x00);
    // reserved
    out.push(0x00);
    out.push(0x00);
    assert(final(out)@ =~= old(out)@ + column_definition(
        schema,
        table,
        org_table,
        name,
        org_name,
        charset,
        length,
        column_type,
        flags,
    ));
}

fn push_eof(out: &mut Vec<u8>, status: u16)
    ensures
        final(out)@ == old(out)@ + eof_payload(status),
{
    out.push(0xfe);
    // warnings
    push_u16_le(out, 0);
    push_u16_le(out, status);
    assert(final(out)@ =~= old(out)@ + eof_payload(status));
}

fn greeting() -> (r: Vec<u8>)
    ensures
        r@ == greeting_payload(),
{
    let mut r: Vec<u8> = Vec::new();
    // protocol version
    r.push(0x0a);
    push_cstr(&mut r, "9.4.0");
    // connection id
    push_u32_le(&mut r, 1);
    // salt, first part
    push_cstr(&mut r, "abcdabcd");
    // capabilities, lower half
    push_u16_le(&mut r, 0xffff);
    // utf8mb4_0900_ai_ci
    r.push(0xff);
    push_u16_le(&mut r, STATUS_AUTOCOMMIT);
    // capabilities, upper half
    push_u16_le(&mut r, 0xdfff);
    // length of the authentication plugin data
    r.push(0x15);
    let mut i: usize = 0;
    while i < 10
        invariant
            i <= 10,
            r@ == seq![0x0au8] + cstr("9.4.0"@) + le_bytes(1, 4) + cstr("abcdabcd"@) + le_bytes(
                0xffff,
                2,
            ) + seq![0xffu8] + le_bytes(STATUS_AUTOCOMMIT as nat, 2) + le_bytes(0xdfff, 2)
                + seq![0x15u8] + Seq::new(i as nat, |j: int| 0u8),
        decreases 10 - i,
    {
        r.push(0x00);
        i = i + 1;
        assert(r@ =~= seq![0x0au8] + cstr("9.4.0"@) + le_bytes(1, 4) + cstr("abcdabcd"@) + le_bytes(
            0xffff,
            2,
        ) + seq![0xffu8] + le_bytes(STATUS_AUTOCOMMIT as nat, 2) + le_bytes(0xdfff, 2)
            + seq![0x15u8] + Seq::new(i as nat, |j: int| 0u8));
    }
    // salt, second part
    push_cstr(&mut r, "abcdabcdabcd");
    push_cstr(&mut r, "caching_sha2_password");
    assert(r@ =~= greeting_payload());
    r
}

/// Every payload of the catalog fits in one packet.
pub proof fn lemma_payload_fits(p: Packet)
    ensures
        packet_payload(p).len() < MAX_PACKET_SIZE,
{
    reveal_strlit("9.4.0");
    reveal_strlit("abcdabcd");
    reveal_strlit("abcdabcdabcd");
    reveal_strlit("caching_sha2_password");
    reveal_strlit("def");
    reveal_strlit("");
    reveal_strlit("id");
    reveal_strlit("protocols");
    reveal_strlit("products");
    reveal_strlit("title");
    reveal_strlit("description");
    reveal_strlit("category_id");
    reveal_strlit("123");
    reveal_strlit("1");
    reveal_strlit("laptop");
    reveal_strlit("2");
    reveal_strlit("phone");
    reveal_strlit("Just a phone desc");
    reveal_strlit("20000");
    lemma_utf8_len_bound("9.4.0"@);
    lemma_utf8_len_bound("abcdabcd"@);
    lemma_utf8_len_bound("abcdabcdabcd"@);
    lemma_utf8_len_bound("caching_sha2_password"@);
    lemma_utf8_len_bound("def"@);
    lemma_utf8_len_bound(""@);
    lemma_utf8_len_bound("id"@);
    lemma_utf8_len_bound("protocols"@);
    lemma_utf8_len_bound("products"@);
    lemma_utf8_len_bound("title"@);
    lemma_utf8_len_bound("description"@);
    lemma_utf8_len_bound("category_id"@);
    lemma_utf8_len_bound("123"@);
    lemma_utf8_len_bound("1"@);
    lemma_utf8_len_bound("laptop"@);
    lemma_utf8_len_bound("2"@);
    lemma_utf8_len_bound("phone"@);
    lemma_utf8_len_bound("Just a phone desc"@);
    lemma_utf8_len_bound("20000"@);
    reveal_with_fuel(le_bytes, 9);
    lemma_le_bytes_len(0xffff, 2);
}

impl Packet {
    /// The payload of this packet.
    pub fn as_bytes(&self) -> (r: Vec<u8>)
        ensures
            r@ == packet_payload(*self),
    {
        let mut r: Vec<u8> = Vec::new();
        match self {
            Packet::Greeting => {
                r = greeting();
            },
            Packet::AuthSuccess => {
                // fast_auth_success
                r.push(0x01);
                r.push(0x03);
            },
            Packet::OK => {
                // header, affected rows, last insert id
                r.push(0x00);
                r.push(0x00);
                r.push(0x00);
                push_u16_le(&mut r, STATUS_AUTOCOMMIT);
                // warnings
                push_u16_le(&mut r, 0);
            },
            Packet::ColumnCount(c) => {
                r.push(*c);
            },
            Packet::SimpleFieldPacket => {
                push_column_definition(
                    &mut r,
                    "",
                    "",
                    "",
                    "id",
                    "",
                    CHARSET_BINARY,
                    4,
                    FIELD_TYPE_LONGLONG,
                    0x0081,
                );
            },
            Packet::Eof => {
                push_eof(&mut r, STATUS_AUTOCOMMIT);
            },
            Packet::SimpleRowPacket => {
                push_lenenc(&mut r, "123");
            },
            Packet::IdFieldPacket => {
                push_column_definition(
                    &mut r,
                    "protocols",
                    "products",
                    "products",
                    "id",
                    "id",
                    CHARSET_BINARY,
                    4,
                    FIELD_TYPE_LONG,
                    0x5003,
                );
            },
            Packet::TitleFieldPacket => {
                push_column_definition(
                    &mut r,
                    "protocols",
                    "products",
                    "products",
                    "title",
                    "title",
                    CHARSET_UTF8MB4,
                    400,
                    FIELD_TYPE_VAR_STRING,
                    0x5005,
                );
            },
            Packet::DescriptionFieldPacket => {
                push_column_definition(
                    &mut r,
                    "protocols",
                    "products",
                    "products",
                    "description",
                    "description",
                    CHARSET_UTF8MB4,
                    0xffff_ffff,
                    FIELD_TYPE_BLOB,
                    0x0010,
                );
            },
            Packet::CategoryIdFieldPacket => {
                push_column_definition(
                    &mut r,
                    "protocols",
                    "products",
                    "products",
                    "category_id",
                    "category_id",
                    CHARSET_BINARY,
                    6,
                    FIELD_TYPE_SHORT,
                    0x0000,
                );
            },
            Packet::ComplexEof => {
                push_eof(&mut r, STATUS_AUTOCOMMIT_NO_INDEX);
            },
            Packet::ComplexRow1Packet => {
                push_lenenc(&mut r, "1");
                push_lenenc(&mut r, "laptop");
                // NULL description
                r.push(0xfb);
                push_lenenc(&mut r, "2");
            },
            Packet::ComplexRow2Packet => {
                push_lenenc(&mut r, "2");
                push_lenenc(&mut r, "phone");
                push_lenenc(&mut r, "Just a phone desc");
                push_lenenc(&mut r, "20000");
            },
            Packet::PrepareOk => {
                r.push(0x00);
                // statement id
                push_u32_le(&mut r, 1);
                // number of columns
                push_u16_le(&mut r, 1);
                // number of parameters
                push_u16_le(&mut r, 0);
                // reserved
                r.push(0x00);
                // warnings
                push_u16_le(&mut r, 0);
            },
            Packet::PreparedRowPacket => {
                // OK header
                r.push(0x00);
                // NULL bitmap
                r.push(0x00);
                push_u64_le(&mut r, 123);
            },
        }
        assert(r@ =~= packet_payload(*self));
        r
    }
}

} // verus!
