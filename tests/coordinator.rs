use mymachi::coordinator::log_entry_text;
use mymachi::render::{decimal_text, server_dump, server_dump_quoted, servers_dump};
use mymachi::{next_event, Action, Address, Coordinator, Datagram, Event, SendType, Server};

fn register(c: &mut Coordinator, port: u16, running: bool, name: &str) -> Action {
    c.step(Event::Command(SendType::AddClientServer(Server::new(
        port,
        running,
        name.to_string(),
    ))))
}

fn notify(c: &mut Coordinator, text: &str) -> Action {
    c.step(Event::Command(SendType::SendServiceServer(text.to_string())))
}

fn receive(c: &mut Coordinator, payload: &[u8], source: Address) -> Action {
    c.step(Event::Datagram(Datagram {
        payload: payload.to_vec(),
        source,
    }))
}

fn service() -> Coordinator {
    Coordinator::new(Address::unspecified(mymachi::SERVICE_PORT))
}

#[test]
fn register_then_notify_sends_once_and_stores_record() {
    let mut c = service();
    assert!(matches!(register(&mut c, 25565, false, "Minecraft"), Action::Idle));
    match notify(&mut c, "Minecraft is true") {
        Action::Send { payload, to } => {
            assert_eq!(payload, b"Minecraft is true".to_vec());
            assert_eq!(to, Address::new([0, 0, 0, 0], 15151));
            assert_eq!(to.to_text(), "0.0.0.0:15151");
        }
        other => panic!("unexpected action {:?}", other),
    }
    assert_eq!(c.servers().len(), 1);
    let s = &c.servers()[0];
    assert_eq!(s.port, 25565);
    assert!(!s.running);
    assert_eq!(s.name, "Minecraft");
    assert_eq!(c.log(), "");
}

#[test]
fn datagram_is_logged_with_sender_and_records() {
    let mut c = service();
    register(&mut c, 22, true, "ssh");
    let before = c.log().to_string();
    let a = receive(&mut c, b"hello", Address::new([203, 0, 113, 5], 4000));
    assert!(matches!(a, Action::Publish));
    let expected = "[203.0.113.5:4000]: hello\nCurrent servers: [Server { port: 22, running: true, name: \"ssh\" }]\n";
    assert_eq!(c.log(), format!("{}{}", before, expected));
    assert!(c.log().ends_with(expected));
}

#[test]
fn malformed_datagram_leaves_log_unchanged() {
    let mut c = service();
    receive(&mut c, b"first", Address::new([10, 0, 0, 1], 1));
    let before = c.log().to_string();
    let a = receive(&mut c, &[0xFF, 0xFE], Address::new([10, 0, 0, 2], 2));
    assert!(matches!(a, Action::Idle));
    assert_eq!(c.log(), before);
}

#[test]
fn truncated_multibyte_payload_is_dropped() {
    let mut c = service();
    let a = receive(&mut c, &[0xD0], Address::new([1, 2, 3, 4], 5));
    assert!(matches!(a, Action::Idle));
    assert_eq!(c.log(), "");
}

#[test]
fn registrations_keep_order_and_duplicates() {
    let mut c = service();
    register(&mut c, 80, false, "web");
    register(&mut c, 22, true, "ssh");
    register(&mut c, 80, false, "web");
    let names: Vec<&str> = c.servers().iter().map(|s| s.name.as_str()).collect();
    assert_eq!(names, vec!["web", "ssh", "web"]);
    let ports: Vec<u16> = c.servers().iter().map(|s| s.port).collect();
    assert_eq!(ports, vec![80, 22, 80]);
}

#[test]
fn notifications_send_exact_bytes_in_order() {
    let mut c = service();
    let texts = ["a is false", "Сервер is true", ""];
    for t in texts {
        match notify(&mut c, t) {
            Action::Send { payload, to } => {
                assert_eq!(payload, t.as_bytes().to_vec());
                assert_eq!(to.port, 15151);
            }
            other => panic!("unexpected action {:?}", other),
        }
    }
    assert!(c.servers().is_empty());
    assert_eq!(c.log(), "");
}

#[test]
fn notifications_go_to_the_configured_remote() {
    let mut c = Coordinator::new(Address::new([192, 168, 1, 7], 9000));
    match notify(&mut c, "x") {
        Action::Send { to, .. } => assert_eq!(to.to_text(), "192.168.1.7:9000"),
        other => panic!("unexpected action {:?}", other),
    }
}

#[test]
fn log_grows_by_appending() {
    let mut c = service();
    receive(&mut c, b"one", Address::new([127, 0, 0, 1], 11));
    let first = c.log().to_string();
    register(&mut c, 1, false, "a");
    receive(&mut c, b"two", Address::new([127, 0, 0, 1], 12));
    assert!(c.log().starts_with(&first));
    assert_eq!(
        c.log(),
        "[127.0.0.1:11]: one\nCurrent servers: []\n[127.0.0.1:12]: two\nCurrent servers: [Server { port: 1, running: false, name: \"a\" }]\n"
    );
}

#[test]
fn command_goes_before_ready_datagram() {
    let d = Datagram {
        payload: b"x".to_vec(),
        source: Address::new([1, 1, 1, 1], 1),
    };
    let cmd = SendType::SendServiceServer("n".to_string());
    match next_event(Some(Some(cmd)), Some(d)) {
        Some(Event::Command(SendType::SendServiceServer(t))) => assert_eq!(t, "n"),
        other => panic!("unexpected event {:?}", other),
    }
    let d = Datagram {
        payload: b"x".to_vec(),
        source: Address::new([1, 1, 1, 1], 1),
    };
    assert!(matches!(next_event(Some(None), Some(d)), Some(Event::Closed)));
    let d = Datagram {
        payload: b"x".to_vec(),
        source: Address::new([1, 1, 1, 1], 1),
    };
    assert!(matches!(next_event(None, Some(d)), Some(Event::Datagram(_))));
    assert!(next_event(None, None).is_none());
}

#[test]
fn closing_stops_and_ignores_later_events() {
    let mut c = service();
    register(&mut c, 22, true, "ssh");
    assert!(!c.is_stopped());
    assert!(matches!(c.step(Event::Closed), Action::Stop));
    assert!(c.is_stopped());
    assert!(matches!(notify(&mut c, "late"), Action::Stop));
    assert!(matches!(register(&mut c, 1, true, "late"), Action::Stop));
    assert!(matches!(receive(&mut c, b"late", Address::new([1, 2, 3, 4], 5)), Action::Stop));
    assert_eq!(c.servers().len(), 1);
    assert_eq!(c.log(), "");
}

#[test]
fn decimal_text_values() {
    assert_eq!(decimal_text(0), "0");
    assert_eq!(decimal_text(9), "9");
    assert_eq!(decimal_text(10), "10");
    assert_eq!(decimal_text(25565), "25565");
    assert_eq!(decimal_text(65535), "65535");
}

#[test]
fn address_text_values() {
    assert_eq!(Address::new([255, 255, 255, 255], 65535).to_text(), "255.255.255.255:65535");
    assert_eq!(Address::unspecified(mymachi::LISTEN_PORT).to_text(), "0.0.0.0:11311");
}

#[test]
fn record_dump_quotes_and_escapes_name() {
    let s = Server::new(8080, false, "a\"b\\c\n".to_string());
    assert_eq!(
        server_dump(&s),
        "Server { port: 8080, running: false, name: \"a\\\"b\\\\c\\n\" }"
    );
    assert_eq!(server_dump(&s), format!("{:?}", s));
    assert_eq!(
        server_dump_quoted(1, true, "'q'"),
        "Server { port: 1, running: true, name: 'q' }"
    );
}

#[test]
fn records_dump_matches_list_layout() {
    assert_eq!(servers_dump(&Vec::new()), "[]");
    let v = vec![
        Server::new(1, true, "x".to_string()),
        Server::new(2, false, "y".to_string()),
    ];
    assert_eq!(
        servers_dump(&v),
        "[Server { port: 1, running: true, name: \"x\" }, Server { port: 2, running: false, name: \"y\" }]"
    );
    assert_eq!(servers_dump(&v), format!("{:?}", v));
}

#[test]
fn log_entry_layout() {
    let v = vec![Server::new(22, true, "ssh".to_string())];
    assert_eq!(
        log_entry_text(&Address::new([10, 1, 2, 3], 80), "hi", &v),
        "[10.1.2.3:80]: hi\nCurrent servers: [Server { port: 22, running: true, name: \"ssh\" }]\n"
    );
}
