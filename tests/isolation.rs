use dbwire::mysql;
use dbwire::pg;

fn mysql_reply(a: &mysql::session::Action) -> Vec<u8> {
    match a {
        mysql::session::Action::Reply(p) => mysql::session::encode_plan(p),
        other => panic!("{:?}", other),
    }
}

fn pg_reply(a: &pg::session::Action) -> Vec<u8> {
    match a {
        pg::session::Action::Reply(p) => pg::session::encode_plan(p).unwrap(),
        other => panic!("{:?}", other),
    }
}

fn mysql_alone(payload: &[u8]) -> Vec<u8> {
    let mut s = mysql::session::Session::new();
    s.greet();
    s.on_packet(b"");
    mysql_reply(&s.on_packet(payload))
}

#[test]
fn interleaved_mysql_connections_stay_apart() {
    let q1 = b"\x03select 123 as id";
    let q2 = b"\x03select id, title, description, category_id from products";
    let mut a = mysql::session::Session::new();
    let mut b = mysql::session::Session::new();
    a.greet();
    b.greet();
    b.on_packet(b"user b");
    a.on_packet(b"user a");
    let rb = mysql_reply(&b.on_packet(q2));
    let ra = mysql_reply(&a.on_packet(q1));
    assert_eq!(ra, mysql_alone(q1));
    assert_eq!(rb, mysql_alone(q2));
    assert_ne!(ra, rb);
}

#[test]
fn interleaved_pg_connections_stay_apart() {
    let mut a = pg::session::Session::new();
    let mut b = pg::session::Session::new();
    a.on_startup(b"");
    b.on_startup(b"");
    assert!(pg_reply(&a.on_message(b'P', b"")).is_empty());
    let rb = pg_reply(&b.on_message(b'Q', b"select id, title, description, category_id from products\0"));
    assert!(pg_reply(&a.on_message(b'D', b"")).is_empty());
    let ra = pg_reply(&a.on_message(b'S', b""));
    let ra2 = pg_reply(&a.on_message(b'Q', b"select 123 as id\0"));
    let mut alone = pg::session::Session::new();
    alone.on_startup(b"");
    let want_b = pg_reply(&alone.on_message(b'Q', b"select id, title, description, category_id from products\0"));
    let want_a2 = pg_reply(&alone.on_message(b'Q', b"select 123 as id\0"));
    assert_eq!(rb, want_b);
    assert_eq!(ra2, want_a2);
    assert_eq!(ra[0], b'1');
    assert_eq!(b.phase, pg::session::Phase::Ready);
}
