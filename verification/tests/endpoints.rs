use zos::client::Client;
use zos::context::{MiddlewareBackend, RuntimeContext};
use zos::error::{MwError, RuntimeError};
use zos::mw::traits::IncomingQuery;
use zos::mw::zenoh::{put_failure, reply_wait_failure, service_error};
use zos::node::{Node, NodeOptions};
use zos::publisher::{publish_failure, Publisher};
use zos::service::{check_request, Service};
use zos::simulation::{drive_axis, join_path, office_floor_path, robot_path, scene_path};
use zos::text::contains_str;

fn message_of(e: &RuntimeError) -> &str {
    match e {
        RuntimeError::Message(m) => m.as_str(),
        other => panic!("expected a message error, got {other:?}"),
    }
}

#[test]
fn services_resolve_names_and_register() {
    let mut ctx: RuntimeContext<&str> = RuntimeContext::new();
    let mut node: Node<String> = Node::new(NodeOptions::new().name("server").namespace("/demo"));
    let before = node.create_service_builder::<u8, u16>("scale").handler(&ctx, 1u8);
    assert_eq!(message_of(&before.err().unwrap()), "call init() before creating endpoints");
    ctx.install(MiddlewareBackend::Zenoh, "session").unwrap();
    let svc = node.create_service_builder::<u8, u16>("scale").handler(&ctx, 1u8).unwrap();
    assert_eq!(svc.topic(), "demo/scale");
    assert_eq!(*svc.session(), "session");
    assert_eq!(*svc.handler(), 1);
    node.create_service_builder::<u8, u16>("/global/scale")
        .register(&ctx, 2u8, |s: Service<u8, u16, &str, u8>| s.topic().clone())
        .unwrap();
    assert_eq!(node.runnables, vec!["global/scale".to_owned()]);
    let direct: Service<u8, u16, &str, u8> = Service::new(&ctx, "x".to_owned(), 3).unwrap();
    assert_eq!(direct.topic(), "x");
}

#[test]
fn empty_requests_are_refused() {
    let e = check_request(&Vec::new()).unwrap_err();
    assert_eq!(message_of(&e), "service request payload is empty");
    assert!(check_request(&vec![8, 1]).is_ok());
}

#[test]
fn incoming_query_keeps_payload_and_reply() {
    let q = IncomingQuery::new(vec![1, 2, 3], "reply-handle");
    assert_eq!(q.payload, vec![1, 2, 3]);
    assert_eq!(*q.payload(), vec![1, 2, 3]);
    assert_eq!(*q.reply(), "reply-handle");
}

#[test]
fn publishers_and_clients_keep_their_topic() {
    let p: Publisher<u64, u8> = Publisher::from_handle("cmd_vel".to_owned(), 4);
    assert_eq!(p.topic(), "cmd_vel");
    assert_eq!(*p.handle(), 4);
    let c: Client<u8, u16, &str> = Client::from_querier("demo/scale".to_owned(), "q");
    assert_eq!(c.topic(), "demo/scale");
    assert_eq!(*c.querier(), "q");
}

#[test]
fn failure_messages() {
    assert_eq!(
        message_of(&publish_failure("cmd_vel", "closed")),
        "Zenoh put failed on topic cmd_vel: closed"
    );
    assert_eq!(put_failure("t", "d"), MwError::Message("put failed on t: d".to_owned()));
    assert_eq!(
        reply_wait_failure("demo/scale", "receiving on a closed channel"),
        MwError::Message(
            "no response from service `demo/scale` (server not running or topic mismatch): receiving on a closed channel"
                .to_owned()
        )
    );
    assert_eq!(reply_wait_failure("demo/scale", "timeout"), MwError::Message("timeout".to_owned()));
    assert_eq!(service_error(&Vec::new(), "[]"), MwError::Message("service returned an error".to_owned()));
    assert_eq!(
        service_error(&vec![1], "[1]"),
        MwError::Message("service error: [1]".to_owned())
    );
}

#[test]
fn substring_search() {
    assert!(contains_str("a closed channel", "closed channel"));
    assert!(contains_str("closed channel", "closed channel"));
    assert!(!contains_str("closed chan", "closed channel"));
    assert!(contains_str("anything", ""));
    assert!(!contains_str("", "x"));
    assert!(contains_str("ab\u{e9}cd", "\u{e9}c"));
}

#[test]
fn simulation_paths() {
    assert_eq!(robot_path("/pkg"), "/pkg/robots/diff_drive/robot.xml");
    assert_eq!(scene_path("/pkg/"), "/pkg/robots/diff_drive/scene.xml");
    assert_eq!(
        office_floor_path(""),
        "robots/diff_drive/environments/office_floor.xml"
    );
    assert_eq!(join_path("a", "b"), "a/b");
    for base in ["/pkg", "/pkg/", "", "rel/dir"] {
        let expected = std::path::Path::new(base).join("robots/diff_drive/robot.xml");
        assert_eq!(std::path::PathBuf::from(robot_path(base)), expected);
    }
}

#[test]
fn teleop_axis() {
    assert_eq!(drive_axis(true, false), 1);
    assert_eq!(drive_axis(false, true), -1);
    assert_eq!(drive_axis(true, true), 0);
    assert_eq!(drive_axis(false, false), 0);
}
