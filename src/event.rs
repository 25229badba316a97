//! Lifecycle events for the orchestrator: their topics, the envelope that
//! carries one, and the publisher that decides whether it is sent.
use vstd::prelude::*;

use crate::args::Arguments;
use crate::text::same_text;

verus! {

/// An event the shim can publish, filed under a fixed topic.
pub trait Event {
    /// The topic this event is filed under.
    spec fn topic_of(&self) -> Seq<char>;

    fn topic(&self) -> (r: &'static str)
        ensures
            r@ == self.topic_of(),
    ;
}

/// The task lifecycle events.
#[derive(Debug, Clone, Copy, PartialEq, Eq, Structural)]
pub enum TaskEvent {
    Create,
    Start,
    ExecAdded,
    ExecStarted,
    Paused,
    Resumed,
    Exit,
    Delete,
    Oom,
    Checkpointed,
}

/// The topic of each task event.
pub open spec fn task_topic(e: TaskEvent) -> Seq<char> {
    match e {
        TaskEvent::Create => "/tasks/create"@,
        TaskEvent::Start => "/tasks/start"@,
        TaskEvent::ExecAdded => "/tasks/exec-added"@,
        TaskEvent::ExecStarted => "/tasks/exec-started"@,
        TaskEvent::Paused => "/tasks/paused"@,
        TaskEvent::Resumed => "/tasks/resumed"@,
        TaskEvent::Exit => "/tasks/exit"@,
        TaskEvent::Delete => "/tasks/delete"@,
        TaskEvent::Oom => "/tasks/oom"@,
        TaskEvent::Checkpointed => "/tasks/checkpointed"@,
    }
}

impl Event for TaskEvent {
    open spec fn topic_of(&self) -> Seq<char> {
        task_topic(*self)
    }

    fn topic(&self) -> (r: &'static str) {
        match self {
            TaskEvent::Create => "/tasks/create",
            TaskEvent::Start => "/tasks/start",
            TaskEvent::ExecAdded => "/tasks/exec-added",
            TaskEvent::ExecStarted => "/tasks/exec-started",
            TaskEvent::Paused => "/tasks/paused",
            TaskEvent::Resumed => "/tasks/resumed",
            TaskEvent::Exit => "/tasks/exit",
            TaskEvent::Delete => "/tasks/delete",
            TaskEvent::Oom => "/tasks/oom",
            TaskEvent::Checkpointed => "/tasks/checkpointed",
        }
    }
}

/// A point in time: seconds and nanoseconds since the Unix epoch.
#[derive(Debug, Clone, Copy, PartialEq, Eq, Structural)]
pub struct Timestamp {
    pub seconds: i64,
    pub nanos: i32,
}

/// An encoded event, tagged with the URL of its type.
pub struct Payload {
    pub type_url: String,
    pub value: Vec<u8>,
}

/// What is forwarded to the orchestrator for one event.
pub struct Envelope {
    pub topic: String,
    pub timestamp: Timestamp,
    pub namespace: String,
    pub event: Payload,
}

/// What an `Envelope` holds.
pub struct EnvelopeModel {
    pub topic: Seq<char>,
    pub timestamp: Timestamp,
    pub namespace: Seq<char>,
    pub type_url: Seq<char>,
    pub value: Seq<u8>,
}

impl View for Envelope {
    type V = EnvelopeModel;

    open spec fn view(&self) -> EnvelopeModel {
        EnvelopeModel {
            topic: self.topic@,
            timestamp: self.timestamp,
            namespace: self.namespace@,
            type_url: self.event.type_url@,
            value: self.event.value@,
        }
    }
}

/// Publishes events of one namespace. A null publisher, for processes that
/// are not the daemon, sends nothing; one that forwards hands each envelope
/// to the orchestrator's event endpoint.
pub struct EventPublisher {
    pub namespace: String,
    pub forwards: bool,
}

/// What an `EventPublisher` is: its namespace and whether it forwards.
pub struct PublisherModel {
    pub namespace: Seq<char>,
    pub forwards: bool,
}

impl View for EventPublisher {
    type V = PublisherModel;

    open spec fn view(&self) -> PublisherModel {
        PublisherModel { namespace: self.namespace@, forwards: self.forwards }
    }
}

/// The envelope a publisher sends for an event, or none when it sends
/// nothing.
pub open spec fn envelope_for(
    p: PublisherModel,
    topic: Seq<char>,
    timestamp: Timestamp,
    type_url: Seq<char>,
    value: Seq<u8>,
) -> Option<EnvelopeModel> {
    if p.forwards {
        Some(EnvelopeModel { topic, timestamp, namespace: p.namespace, type_url, value })
    } else {
        None
    }
}

impl EventPublisher {
    /// A publisher that sends nothing.
    pub fn null() -> (r: EventPublisher)
        ensures
            r@ == (PublisherModel { namespace: Seq::empty(), forwards: false }),
    {
        EventPublisher { namespace: String::new(), forwards: false }
    }

    /// A publisher that forwards to the orchestrator's event endpoint.
    pub fn remote() -> (r: EventPublisher)
        ensures
            r@ == (PublisherModel { namespace: Seq::empty(), forwards: true }),
    {
        EventPublisher { namespace: String::new(), forwards: true }
    }

    /// The same publisher, bound to `namespace`.
    pub fn with_namespace(&self, namespace: &str) -> (r: EventPublisher)
        ensures
            r@ == (PublisherModel { namespace: namespace@, forwards: self.forwards }),
    {
        EventPublisher { namespace: String::from_str(namespace), forwards: self.forwards }
    }

    /// The envelope to forward for `event`, encoded as `event_payload` at
    /// `timestamp`: its topic, the time, this publisher's namespace and the
    /// payload. A null publisher gives none: publishing through it succeeds
    /// with nothing sent.
    pub fn publish<E: Event>(&self, event: &E, timestamp: Timestamp, event_payload: Payload) -> (r:
        Option<Envelope>)
        ensures
            match r {
                Some(e) => envelope_for(
                    self@,
                    event.topic_of(),
                    timestamp,
                    event_payload.type_url@,
                    event_payload.value@,
                ) == Some(e@),
                None => envelope_for(
                    self@,
                    event.topic_of(),
                    timestamp,
                    event_payload.type_url@,
                    event_payload.value@,
                ).is_none(),
            },
    {
        if !self.forwards {
            return None;
        }
        Some(
            Envelope {
                topic: String::from_str(event.topic()),
                timestamp,
                namespace: self.namespace.clone(),
                event: event_payload,
            },
        )
    }
}

/// A null publisher, bound to any namespace, sends nothing for any event.
pub proof fn lemma_null_publisher_sends_nothing(
    namespace: Seq<char>,
    topic: Seq<char>,
    timestamp: Timestamp,
    type_url: Seq<char>,
    value: Seq<u8>,
)
    ensures
        envelope_for(
            PublisherModel { namespace, forwards: false },
            topic,
            timestamp,
            type_url,
            value,
        ).is_none(),
{
}

impl Arguments {
    /// The publisher for this process, bound to its namespace: the daemon
    /// forwards events, every other action gets a null publisher.
    pub fn event_publisher(&self) -> (r: EventPublisher)
        ensures
            r@ == (PublisherModel {
                namespace: self.namespace@,
                forwards: self.action@ == "daemon"@,
            }),
    {
        let base = if same_text(self.action.as_str(), "daemon") {
            EventPublisher::remote()
        } else {
            EventPublisher::null()
        };
        base.with_namespace(self.namespace.as_str())
    }
}

} // verus!
