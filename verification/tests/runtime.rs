use std::path::PathBuf;
use std::time::Duration;

use zos::context::{
    backend, check_not_initialized, is_initialized, open_plan, session, InitOptions,
    MiddlewareBackend, OpenPlan, RuntimeContext,
};
use zos::error::{MwError, RuntimeError};
use zos::executor::{join_failure, join_verdict, Executor, ExecutorOptions, SpinPlan, TaskOutcome};
use zos::node::{Node, NodeOptions};
use zos::qos::{
    MessagePriority, PublishQos, Qos, Reliability, SubscribeQos, SubscriptionOrigin,
};
use zos::subscriber::{receive_step, ReceiveStep, Subscriber};
use zos::timer::{Timer, TimerStep};

fn message_of(e: &RuntimeError) -> &str {
    match e {
        RuntimeError::Message(m) => m.as_str(),
        other => panic!("expected a message error, got {other:?}"),
    }
}

#[test]
fn qos_defaults_match_transport_defaults() {
    let qos = Qos::default();
    assert_eq!(qos.publish.priority, MessagePriority::Normal);
    assert_eq!(qos.publish.reliability, Reliability::BestEffort);
    assert!(!qos.publish.express);
    assert_eq!(qos.subscribe.origin, SubscriptionOrigin::Any);
    assert_eq!(qos.publish, PublishQos::default());
    assert_eq!(qos.subscribe, SubscribeQos::default());
    assert_eq!(MessagePriority::default(), MessagePriority::Normal);
    assert_eq!(Reliability::default(), Reliability::BestEffort);
    assert_eq!(SubscriptionOrigin::default(), SubscriptionOrigin::Any);
}

#[test]
fn context_before_init_refuses_queries() {
    let ctx: RuntimeContext<u32> = RuntimeContext::new();
    assert!(!is_initialized(&ctx));
    assert!(check_not_initialized(&ctx).is_ok());
    let e = backend(&ctx).unwrap_err();
    assert_eq!(message_of(&e), "call init() before querying backend");
    let e = session(&ctx).unwrap_err();
    assert_eq!(message_of(&e), "call init() before creating endpoints");
}

#[test]
fn context_initializes_once() {
    let mut ctx: RuntimeContext<u32> = RuntimeContext::default();
    assert!(ctx.install(MiddlewareBackend::Zenoh, 7).is_ok());
    assert!(is_initialized(&ctx));
    assert_eq!(backend(&ctx).unwrap(), MiddlewareBackend::Zenoh);
    assert_eq!(*session(&ctx).unwrap(), 7);
    let e = ctx.install(MiddlewareBackend::Zenoh, 8).unwrap_err();
    assert_eq!(message_of(&e), "runtime already initialized");
    assert_eq!(*session(&ctx).unwrap(), 7);
    let e = check_not_initialized(&ctx).unwrap_err();
    assert_eq!(message_of(&e), "runtime already initialized");
}

#[test]
fn open_plan_follows_config_file() {
    assert_eq!(MiddlewareBackend::default(), MiddlewareBackend::Zenoh);
    match open_plan(MiddlewareBackend::Zenoh, InitOptions::default()) {
        OpenPlan::ZenohDefault => {}
        other => panic!("unexpected plan {other:?}"),
    }
    let options = InitOptions { config_file: Some(PathBuf::from("zenoh.json5")) };
    match open_plan(MiddlewareBackend::Zenoh, options) {
        OpenPlan::ZenohConfigFile(path) => assert_eq!(path, PathBuf::from("zenoh.json5")),
        other => panic!("unexpected plan {other:?}"),
    }
}

#[test]
fn executor_options_and_spin_plan() {
    assert_eq!(ExecutorOptions::new().worker_threads, None);
    assert_eq!(ExecutorOptions::new().spin_plan(), SpinPlan::CurrentRuntime);
    let opts = ExecutorOptions::default().worker_threads(2);
    assert_eq!(opts.worker_threads, Some(2));
    assert_eq!(opts.spin_plan(), SpinPlan::Dedicated(2));
    assert_eq!(ExecutorOptions::new().worker_threads(0).spin_plan(), SpinPlan::Dedicated(1));
}

#[test]
fn executor_add_node_moves_runnables_in_order() {
    let mut node: Node<u32> = Node::new(NodeOptions::new().name("n").namespace("/ns"));
    node.add_runnable(1);
    node.add_runnable(2);
    let mut exec: Executor<u32> = Executor::new(ExecutorOptions::new());
    assert!(exec.is_empty());
    exec.add(0);
    exec.add_node(&mut node);
    assert!(node.runnables.is_empty());
    assert_eq!(node.name, "n");
    assert_eq!(node.namespace, "ns");
    assert_eq!(exec.len(), 3);
    assert!(!exec.is_empty());
    let (runnables, options) = exec.into_parts();
    assert_eq!(runnables, vec![0, 1, 2]);
    assert_eq!(options.worker_threads, None);
    let exec: Executor<u32> = Executor::default();
    assert_eq!(exec.len(), 0);
}

#[test]
fn join_verdict_passes_results_and_reports_panics() {
    assert!(join_verdict(TaskOutcome::Finished(Ok(()))).is_ok());
    let e = join_verdict(TaskOutcome::Finished(Err(RuntimeError::Message("boom".to_owned()))))
        .unwrap_err();
    assert_eq!(message_of(&e), "boom");
    let e = join_verdict(TaskOutcome::Panicked("task 3 panicked".to_owned())).unwrap_err();
    assert_eq!(message_of(&e), "executor task panicked: task 3 panicked");
    let e = join_failure("cancelled");
    assert_eq!(message_of(&e), "executor task join failed: cancelled");
}

#[test]
fn timers_periodic_and_one_shot() {
    let t = Timer::periodic(Duration::from_millis(500), "tick");
    assert_eq!(t.period(), Duration::from_millis(500));
    assert!(!t.is_one_shot());
    assert_eq!(*t.callback(), "tick");
    assert_eq!(t.step(0), TimerStep::TickThenFire);
    assert_eq!(t.step(1_000), TimerStep::TickThenFire);
    let t = Timer::one_shot(Duration::from_secs(2), ());
    assert!(t.is_one_shot());
    assert_eq!(t.step(0), TimerStep::SleepThenFire(Duration::from_secs(2)));
    assert_eq!(t.step(1), TimerStep::Stop);
}

#[test]
fn timer_builder_registers_on_node() {
    let mut node: Node<String> = Node::new(NodeOptions::new());
    node.create_timer_builder(Duration::from_millis(10))
        .one_shot()
        .register(5u32, |t: Timer<u32>| format!("{}:{}:{:?}", t.callback(), t.is_one_shot(), t.period()));
    node.create_timer_builder(Duration::from_millis(20))
        .register(6u32, |t: Timer<u32>| format!("{}:{}:{:?}", t.callback(), t.is_one_shot(), t.period()));
    assert_eq!(node.runnables, vec!["5:true:10ms".to_owned(), "6:false:20ms".to_owned()]);
    let t = node.create_timer(Duration::from_millis(30), 'c');
    assert!(!t.is_one_shot());
    assert_eq!(t.period(), Duration::from_millis(30));
    assert_eq!(node.runnables.len(), 2);
}

#[test]
fn subscribers_need_initialization() {
    let ctx: RuntimeContext<u32> = RuntimeContext::new();
    let r: Result<Subscriber<u64, u32, &str>, RuntimeError> =
        Subscriber::new(&ctx, "cmd_vel".to_owned(), "cb");
    assert_eq!(message_of(&r.err().unwrap()), "call init() before creating endpoints");
    let mut node: Node<u8> = Node::new(NodeOptions::new());
    let r = node
        .create_subscriber_builder::<u64>("cmd_vel")
        .register(&ctx, "cb", |_s: Subscriber<u64, u32, &str>| 1u8);
    assert!(r.is_err());
    assert!(node.runnables.is_empty());
}

#[test]
fn subscribers_after_initialization() {
    let mut ctx: RuntimeContext<u32> = RuntimeContext::new();
    ctx.install(MiddlewareBackend::Zenoh, 42).unwrap();
    let mut node: Node<String> = Node::new(NodeOptions::new().namespace("/robot"));
    let mut qos = Qos::default();
    qos.subscribe.origin = SubscriptionOrigin::Remote;
    let sub = node
        .create_subscriber_builder::<u64>("scan")
        .qos(qos)
        .callback(&ctx, 9u8)
        .unwrap();
    assert_eq!(*sub.session(), 42);
    assert_eq!(sub.topic(), "robot/scan");
    assert_eq!(sub.qos().origin, SubscriptionOrigin::Remote);
    assert_eq!(*sub.callback(), 9);
    node.create_subscriber_builder::<u64>("/odom")
        .register(&ctx, 1u8, |s: Subscriber<u64, u32, u8>| format!("{}@{}", s.topic(), s.session()))
        .unwrap();
    assert_eq!(node.runnables, vec!["odom@42".to_owned()]);
    let direct = node.create_subscriber::<u64, u32, u8>(&ctx, "imu", 2).unwrap();
    assert_eq!(direct.topic(), "robot/imu");
    assert_eq!(direct.qos(), SubscribeQos::default());
    let plain: Subscriber<u64, u32, u8> =
        Subscriber::new_with_qos(&ctx, "t".to_owned(), Qos::default(), 3).unwrap();
    assert_eq!(plain.topic(), "t");
}

#[test]
fn receive_step_handles_items_and_ends_loops() {
    match receive_step::<Vec<u8>>(Ok(Some(vec![1, 2]))) {
        ReceiveStep::Handle(p) => assert_eq!(p, vec![1, 2]),
        other => panic!("unexpected {other:?}"),
    }
    match receive_step::<Vec<u8>>(Ok(None)) {
        ReceiveStep::Finish(Ok(())) => {}
        other => panic!("unexpected {other:?}"),
    }
    match receive_step::<Vec<u8>>(Err(MwError::Message("link down".to_owned()))) {
        ReceiveStep::Finish(Err(e)) => assert_eq!(message_of(&e), "link down"),
        other => panic!("unexpected {other:?}"),
    }
}

#[test]
fn errors_convert() {
    let e: MwError = MwError::from("x".to_owned());
    assert_eq!(e, MwError::Message("x".to_owned()));
    assert_eq!(e.text(), "x");
    assert_eq!(MwError::message("y"), MwError::Message("y".to_owned()));
    let r: RuntimeError = RuntimeError::from(MwError::Message("mw".to_owned()));
    assert_eq!(message_of(&r), "mw");
    let r: RuntimeError = RuntimeError::from("plain".to_owned());
    assert_eq!(message_of(&r), "plain");
    assert_eq!(message_of(&RuntimeError::message("m")), "m");
    let decode = <u32 as prost::Message>::decode(&[0xffu8][..]).unwrap_err();
    match RuntimeError::from(decode.clone()) {
        RuntimeError::Decode(d) => assert_eq!(d, decode),
        other => panic!("unexpected {other:?}"),
    }
}

#[test]
fn encode_errors_convert() {
    let mut buf = [0u8; 0];
    let err = prost::Message::encode(&300u32, &mut &mut buf[..]).unwrap_err();
    match RuntimeError::from(err) {
        RuntimeError::Encode(e) => assert_eq!(e, err),
        other => panic!("unexpected {other:?}"),
    }
}
