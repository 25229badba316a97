use shimkit::args::Arguments;
use shimkit::event::{Event, EventPublisher, Payload, TaskEvent, Timestamp};

fn payload() -> Payload {
    Payload {
        type_url: "containerd.events.TaskOOM".into(),
        value: vec![10, 4, 116, 101, 115, 116],
    }
}

#[test]
fn test_publish() {
    let publisher = EventPublisher::remote().with_namespace("ns1");
    let ts = Timestamp { seconds: 12, nanos: 34 };
    let env = publisher.publish(&TaskEvent::Oom, ts, payload()).unwrap();
    assert_eq!(env.topic, "/tasks/oom");
    assert_eq!(env.namespace, "ns1");
    assert_eq!(env.timestamp, ts);
    assert_eq!(env.event.type_url, "containerd.events.TaskOOM");
    assert_eq!(env.event.value, vec![10, 4, 116, 101, 115, 116]);
}

#[test]
fn null_publisher_sends_nothing() {
    let publisher = EventPublisher::null().with_namespace("ns1");
    let ts = Timestamp { seconds: 0, nanos: 0 };
    assert!(publisher.publish(&TaskEvent::Exit, ts, payload()).is_none());
    assert!(EventPublisher::null().publish(&TaskEvent::Create, ts, payload()).is_none());
}

#[test]
fn with_namespace_keeps_forwarding() {
    let p = EventPublisher::remote().with_namespace("a").with_namespace("b");
    assert!(p.forwards);
    assert_eq!(p.namespace, "b");
}

#[test]
fn task_topics() {
    let cases = [
        (TaskEvent::Create, "/tasks/create"),
        (TaskEvent::Start, "/tasks/start"),
        (TaskEvent::ExecAdded, "/tasks/exec-added"),
        (TaskEvent::ExecStarted, "/tasks/exec-started"),
        (TaskEvent::Paused, "/tasks/paused"),
        (TaskEvent::Resumed, "/tasks/resumed"),
        (TaskEvent::Exit, "/tasks/exit"),
        (TaskEvent::Delete, "/tasks/delete"),
        (TaskEvent::Oom, "/tasks/oom"),
        (TaskEvent::Checkpointed, "/tasks/checkpointed"),
    ];
    for (event, topic) in cases {
        assert_eq!(event.topic(), topic);
    }
}

#[test]
fn daemon_gets_forwarding_publisher() {
    let args = Arguments {
        action: "daemon".into(),
        namespace: "k8s.io".into(),
        ..Default::default()
    };
    let p = args.event_publisher();
    assert!(p.forwards);
    assert_eq!(p.namespace, "k8s.io");

    let args = Arguments {
        action: "delete".into(),
        namespace: "default".into(),
        ..Default::default()
    };
    let p = args.event_publisher();
    assert!(!p.forwards);
    assert_eq!(p.namespace, "default");
}
