use dbwire::mysql::codec::{payload_length, read_frame, write_frame, FrameError, MAX_PACKET_SIZE};
use dbwire::mysql::command::{Command, CommandError};
use dbwire::mysql::packet::Packet;
use dbwire::mysql::session::{encode_plan, respond_to_payload, Action, Outgoing, Phase, Session};

fn cat(parts: &[&[u8]]) -> Vec<u8> {
    let mut v = Vec::new();
    for p in parts {
        v.extend_from_slice(p);
    }
    v
}

fn frame(payload: &[u8], seq: u8) -> Vec<u8> {
    let n = payload.len();
    cat(&[&[n as u8, (n >> 8) as u8, (n >> 16) as u8, seq], payload])
}

fn greeting_bytes() -> Vec<u8> {
    cat(&[
        &[0x0a],
        b"9.4.0\0",
        &[0x01, 0x00, 0x00, 0x00],
        b"abcdabcd\0",
        &[0xff, 0xff],
        &[0xff],
        &[0x02, 0x00],
        &[0xff, 0xdf],
        &[0x15],
        &[0; 10],
        b"abcdabcdabcd\0",
        b"caching_sha2_password\0",
    ])
}

fn simple_field_bytes() -> Vec<u8> {
    cat(&[
        &[3],
        b"def",
        &[0x00, 0x00, 0x00],
        &[2],
        b"id",
        &[0x00],
        &[0x0c],
        &[0x3f, 0x00],
        &[0x04, 0x00, 0x00, 0x00],
        &[0x08],
        &[0x81, 0x00],
        &[0x00],
        &[0x00, 0x00],
    ])
}

fn product_field_bytes(name: &[u8], charset: [u8; 2], len: [u8; 4], ty: u8, flags: [u8; 2]) -> Vec<u8> {
    cat(&[
        &[3],
        b"def",
        &[9],
        b"protocols",
        &[8],
        b"products",
        &[8],
        b"products",
        &[name.len() as u8],
        name,
        &[name.len() as u8],
        name,
        &[0x0c],
        &charset,
        &len,
        &[ty],
        &flags,
        &[0x00],
        &[0x00, 0x00],
    ])
}

const EOF_BYTES: [u8; 5] = [0xfe, 0x00, 0x00, 0x02, 0x00];
const COMPLEX_EOF_BYTES: [u8; 5] = [0xfe, 0x00, 0x00, 0x22, 0x00];

fn reply_bytes(a: &Action) -> Vec<u8> {
    match a {
        Action::Reply(plan) => encode_plan(plan),
        other => panic!("expected a reply, got {:?}", other),
    }
}

fn ready_session() -> Session {
    let mut s = Session::new();
    s.greet();
    s.on_packet(b"any credentials at all");
    s
}

fn query_payload(text: &[u8]) -> Vec<u8> {
    cat(&[&[3], text])
}

#[test]
fn greeting_payload_is_exact() {
    assert_eq!(Packet::Greeting.as_bytes(), greeting_bytes());
}

#[test]
fn small_payloads_are_exact() {
    assert_eq!(Packet::AuthSuccess.as_bytes(), vec![0x01, 0x03]);
    assert_eq!(Packet::OK.as_bytes(), vec![0x00, 0x00, 0x00, 0x02, 0x00, 0x00, 0x00]);
    assert_eq!(Packet::ColumnCount(4).as_bytes(), vec![4]);
    assert_eq!(Packet::Eof.as_bytes(), EOF_BYTES.to_vec());
    assert_eq!(Packet::ComplexEof.as_bytes(), COMPLEX_EOF_BYTES.to_vec());
    assert_eq!(Packet::SimpleRowPacket.as_bytes(), cat(&[&[3], b"123"]));
    assert_eq!(
        Packet::PrepareOk.as_bytes(),
        vec![0x00, 1, 0, 0, 0, 1, 0, 0, 0, 0x00, 0, 0]
    );
    assert_eq!(
        Packet::PreparedRowPacket.as_bytes(),
        vec![0x00, 0x00, 123, 0, 0, 0, 0, 0, 0, 0]
    );
}

#[test]
fn field_payloads_are_exact() {
    assert_eq!(Packet::SimpleFieldPacket.as_bytes(), simple_field_bytes());
    assert_eq!(
        Packet::IdFieldPacket.as_bytes(),
        product_field_bytes(b"id", [0x3f, 0x00], [0x04, 0, 0, 0], 0x03, [0x03, 0x50])
    );
    assert_eq!(
        Packet::TitleFieldPacket.as_bytes(),
        product_field_bytes(b"title", [0x2d, 0x00], [0x90, 0x01, 0, 0], 0xfd, [0x05, 0x50])
    );
    assert_eq!(
        Packet::DescriptionFieldPacket.as_bytes(),
        product_field_bytes(b"description", [0x2d, 0x00], [0xff; 4], 0xfc, [0x10, 0x00])
    );
    assert_eq!(
        Packet::CategoryIdFieldPacket.as_bytes(),
        product_field_bytes(b"category_id", [0x3f, 0x00], [0x06, 0, 0, 0], 0x02, [0x00, 0x00])
    );
}

#[test]
fn row_payloads_are_exact() {
    assert_eq!(
        Packet::ComplexRow1Packet.as_bytes(),
        cat(&[&[1], b"1", &[6], b"laptop", &[0xfb], &[1], b"2"])
    );
    assert_eq!(
        Packet::ComplexRow2Packet.as_bytes(),
        cat(&[&[1], b"2", &[5], b"phone", &[0x11], b"Just a phone desc", &[5], b"20000"])
    );
}

#[test]
fn frame_header_is_length_then_sequence() {
    let mut out = vec![0xaa];
    assert_eq!(write_frame(&mut out, &[7, 8, 9], 4), Ok(()));
    assert_eq!(out, vec![0xaa, 3, 0, 0, 4, 7, 8, 9]);
}

#[test]
fn frame_length_is_little_endian() {
    let payload = vec![0x5a; 0x01_02_03];
    let mut out = Vec::new();
    write_frame(&mut out, &payload, 9).unwrap();
    assert_eq!(&out[..4], &[0x03, 0x02, 0x01, 9]);
    assert_eq!(payload_length(&out), 0x01_02_03);
}

#[test]
fn frame_round_trip() {
    for len in [0usize, 1, 250, 251, 65_535, 65_536] {
        let payload: Vec<u8> = (0..len).map(|i| (i % 251) as u8).collect();
        let mut out = Vec::new();
        write_frame(&mut out, &payload, 17).unwrap();
        out.extend_from_slice(&[1, 2, 3]);
        let f = read_frame(&out).unwrap();
        assert_eq!(f.seq, 17);
        assert_eq!(f.payload, payload);
    }
}

#[test]
fn largest_frame_round_trips() {
    let payload = vec![1u8; MAX_PACKET_SIZE as usize - 1];
    let mut out = Vec::new();
    write_frame(&mut out, &payload, 0).unwrap();
    assert_eq!(&out[..4], &[0xfe, 0xff, 0xff, 0]);
    let f = read_frame(&out).unwrap();
    assert_eq!(f.payload.len(), payload.len());
}

#[test]
fn oversized_frame_is_refused_and_writes_nothing() {
    let payload = vec![0u8; MAX_PACKET_SIZE as usize];
    let mut out = vec![1, 2];
    assert_eq!(write_frame(&mut out, &payload, 0), Err(FrameError::Unsupported));
    assert_eq!(out, vec![1, 2]);
}

#[test]
fn short_buffer_has_no_frame() {
    assert!(read_frame(&[1, 0, 0]).is_none());
    assert!(read_frame(&[2, 0, 0, 0, 9]).is_none());
    assert!(read_frame(&[0, 0, 0, 3]).is_some());
}

#[test]
fn commands_decode() {
    assert!(matches!(Command::parse(&[14]), Ok(Command::Ping)));
    assert!(matches!(Command::parse(&[1]), Ok(Command::Quit)));
    match Command::parse(b"\x03select 1") {
        Ok(Command::Query(q)) => assert_eq!(q, b"select 1".to_vec()),
        other => panic!("{:?}", other),
    }
    match Command::parse(b"\x16select 123 as id") {
        Ok(Command::PrepareStmt(q)) => assert_eq!(q, b"select 123 as id".to_vec()),
        other => panic!("{:?}", other),
    }
    assert!(matches!(Command::parse(&[25, 0x01, 0x02, 0x00, 0x00]), Ok(Command::CloseStmt(0x0201))));
    assert!(matches!(
        Command::parse(&[23, 1, 0, 0, 0, 0x80, 2, 0, 0, 1]),
        Ok(Command::ExecuteStmt(1, 0x80, 0x0100_0002))
    ));
}

#[test]
fn command_errors() {
    assert!(matches!(Command::parse(&[]), Err(CommandError::Empty)));
    assert!(matches!(Command::parse(&[0x42, 1, 2]), Err(CommandError::Unknown(0x42))));
    assert!(matches!(Command::parse(&[25, 1, 0, 0]), Err(CommandError::Truncated)));
    assert!(matches!(Command::parse(&[23, 1, 0, 0, 0, 0, 1, 0, 0]), Err(CommandError::Truncated)));
}

#[test]
fn handshake_sends_three_packets() {
    let mut s = Session::new();
    assert_eq!(s.phase, Phase::Start);
    let g = s.greet();
    assert_eq!(g, vec![Outgoing { packet: Packet::Greeting, seq: 0 }]);
    assert_eq!(s.phase, Phase::AwaitingAuth);
    for auth in [&b""[..], &b"\x00\x01garbage"[..]] {
        let mut t = Session { phase: Phase::AwaitingAuth };
        match t.on_packet(auth) {
            Action::Reply(p) => assert_eq!(
                p,
                vec![
                    Outgoing { packet: Packet::AuthSuccess, seq: 2 },
                    Outgoing { packet: Packet::OK, seq: 3 },
                ]
            ),
            other => panic!("{:?}", other),
        }
        assert_eq!(t.phase, Phase::Ready);
    }
    let bytes = cat(&[&encode_plan(&g), &reply_bytes(&s.on_packet(b"creds"))]);
    assert_eq!(
        bytes,
        cat(&[&frame(&greeting_bytes(), 0), &frame(&[0x01, 0x03], 2), &frame(&[0, 0, 0, 2, 0, 0, 0], 3)])
    );
}

#[test]
fn mysql_simple_query_exchange_is_golden() {
    let mut s = ready_session();
    let request = frame(&query_payload(b"select 123 as id"), 0);
    let f = read_frame(&request).unwrap();
    let got = reply_bytes(&s.on_packet(&f.payload));
    let want = cat(&[
        &frame(&[1], 1),
        &frame(&simple_field_bytes(), 2),
        &frame(&EOF_BYTES, 3),
        &frame(&cat(&[&[3], b"123"]), 4),
        &frame(&EOF_BYTES, 5),
    ]);
    assert_eq!(got, want);
    assert_eq!(s.phase, Phase::Ready);
}

#[test]
fn mysql_products_query_exchange_is_golden() {
    let mut s = ready_session();
    let got = reply_bytes(&s.on_packet(&query_payload(
        b"select id, title, description, category_id from products",
    )));
    let want = cat(&[
        &frame(&[4], 1),
        &frame(&Packet::IdFieldPacket.as_bytes(), 2),
        &frame(&Packet::TitleFieldPacket.as_bytes(), 3),
        &frame(&Packet::DescriptionFieldPacket.as_bytes(), 4),
        &frame(&Packet::CategoryIdFieldPacket.as_bytes(), 5),
        &frame(&COMPLEX_EOF_BYTES, 6),
        &frame(&Packet::ComplexRow1Packet.as_bytes(), 7),
        &frame(&Packet::ComplexRow2Packet.as_bytes(), 8),
        &frame(&COMPLEX_EOF_BYTES, 9),
    ]);
    assert_eq!(got, want);
}

#[test]
fn ping_gets_ok() {
    let mut s = ready_session();
    assert_eq!(reply_bytes(&s.on_packet(&[14])), frame(&[0, 0, 0, 2, 0, 0, 0], 1));
}

#[test]
fn prepare_and_execute() {
    let mut s = ready_session();
    let got = reply_bytes(&s.on_packet(&cat(&[&[22], b"select 123 as id"])));
    let want = cat(&[
        &frame(&[0x00, 1, 0, 0, 0, 1, 0, 0, 0, 0x00, 0, 0], 1),
        &frame(&simple_field_bytes(), 2),
        &frame(&EOF_BYTES, 3),
    ]);
    assert_eq!(got, want);
    let got = reply_bytes(&s.on_packet(&[23, 1, 0, 0, 0, 0, 1, 0, 0, 0]));
    let want = cat(&[
        &frame(&[1], 1),
        &frame(&simple_field_bytes(), 2),
        &frame(&EOF_BYTES, 3),
        &frame(&[0x00, 0x00, 123, 0, 0, 0, 0, 0, 0, 0], 4),
        &frame(&EOF_BYTES, 5),
    ]);
    assert_eq!(got, want);
    assert!(matches!(s.on_packet(&[25, 1, 0, 0, 0]), Action::Reply(p) if p.is_empty()));
    assert_eq!(s.phase, Phase::Ready);
}

#[test]
fn unknown_statement_is_rejected() {
    let mut s = ready_session();
    assert!(matches!(s.on_packet(&[23, 2, 0, 0, 0, 0, 1, 0, 0, 0]), Action::Reject));
    assert_eq!(s.phase, Phase::Closed);
    assert!(matches!(respond_to_payload(&cat(&[&[22], b"select 1"])), Action::Reject));
}

#[test]
fn mysql_unknown_query_is_rejected() {
    let mut s = ready_session();
    assert!(matches!(s.on_packet(&query_payload(b"select * from nowhere")), Action::Reject));
    assert_eq!(s.phase, Phase::Closed);
    assert!(matches!(respond_to_payload(&query_payload(b"SELECT 123 AS ID")), Action::Reject));
    assert!(matches!(respond_to_payload(&query_payload(b"select 123 as id ")), Action::Reject));
    assert!(matches!(respond_to_payload(&query_payload(b"select 123")), Action::Reject));
}

#[test]
fn unknown_command_is_rejected() {
    let mut s = ready_session();
    assert!(matches!(s.on_packet(&[0x42]), Action::Reject));
    assert_eq!(s.phase, Phase::Closed);
}

#[test]
fn quit_closes() {
    let mut s = ready_session();
    assert!(matches!(s.on_packet(&[1]), Action::Quit));
    assert_eq!(s.phase, Phase::Closed);
}
