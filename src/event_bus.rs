use crate::text::str_eq;
use vstd::prelude::*;
use vstd::string::StringExecFns;

verus! {

/// The topic a subscription to every topic is filed under.
pub const WILDCARD_TOPIC: &'static str = "*";

/// The kinds of event bus the host can run.
#[derive(Debug, Clone, Copy, PartialEq, Eq, Structural)]
pub enum EventBusType {
    /// Plain in-memory publish/subscribe.
    InMemory,
    /// In-memory with a configurable delivery guarantee.
    Enhanced,
}

/// How hard a bus tries to deliver an event.
#[derive(Debug, Clone, Copy, PartialEq, Eq, Structural)]
pub enum DeliveryGuarantee {
    AtMostOnce,
    AtLeastOnce,
    ExactlyOnce,
}

/// How to build an event bus.
#[derive(Debug, Clone, Copy, PartialEq, Eq, Structural)]
pub struct EventBusConfig {
    pub bus_type: EventBusType,
    /// Size of internal buffers.
    pub buffer_size: usize,
    pub delivery_guarantee: DeliveryGuarantee,
}

impl Default for EventBusConfig {
    fn default() -> (r: EventBusConfig)
        ensures
            r.bus_type == EventBusType::InMemory,
            r.buffer_size == 100,
            r.delivery_guarantee == DeliveryGuarantee::AtMostOnce,
    {
        EventBusConfig {
            bus_type: EventBusType::InMemory,
            buffer_size: 100,
            delivery_guarantee: DeliveryGuarantee::AtMostOnce,
        }
    }
}

/// Counters of a bus.
#[derive(Debug, Clone, Copy, PartialEq, Eq, Structural)]
pub struct EventBusStats {
    pub total_events_published: u64,
    /// Deliveries made: one per handler per event.
    pub total_events_delivered: u64,
    /// Subscriptions made.
    pub active_handlers: usize,
    pub queued_events: usize,
}

/// Failures of the event bus.
#[derive(Debug, Clone)]
pub enum EventBusError {
    PublishError(String),
    SubscribeError(String),
    HandlerError(String),
    InvalidTopic(String),
}

impl EventBusError {
    /// The human-readable text of the error.
    pub fn message(&self) -> (r: String)
        ensures
            r@ == match self {
                EventBusError::PublishError(d) => "Publish error: "@ + d@,
                EventBusError::SubscribeError(d) => "Subscribe error: "@ + d@,
                EventBusError::HandlerError(d) => "Handler error: "@ + d@,
                EventBusError::InvalidTopic(d) => "Invalid topic: "@ + d@,
            },
    {
        let (mut r, d) = match self {
            EventBusError::PublishError(d) => (String::from_str("Publish error: "), d),
            EventBusError::SubscribeError(d) => (String::from_str("Subscribe error: "), d),
            EventBusError::HandlerError(d) => (String::from_str("Handler error: "), d),
            EventBusError::InvalidTopic(d) => (String::from_str("Invalid topic: "), d),
        };
        r.append(d.as_str());
        r
    }
}

pub open spec fn sat_add_u64(a: u64, b: int) -> u64 {
    if a + b > u64::MAX {
        u64::MAX
    } else {
        (a + b) as u64
    }
}

pub open spec fn sat_inc_usize(a: usize) -> usize {
    if a == usize::MAX {
        a
    } else {
        (a + 1) as usize
    }
}

/// The handlers subscribed to exactly `topic`, in subscription order.
pub open spec fn subscribers_of(subs: Seq<(Seq<char>, u64)>, topic: Seq<char>) -> Seq<u64>
    decreases subs.len(),
{
    if subs.len() == 0 {
        Seq::empty()
    } else {
        let before = subscribers_of(subs.drop_last(), topic);
        if subs.last().0 == topic {
            before.push(subs.last().1)
        } else {
            before
        }
    }
}

/// The handlers an event on `topic` goes to: those subscribed to the topic,
/// then those subscribed to every topic.
pub open spec fn recipients(subs: Seq<(Seq<char>, u64)>, topic: Seq<char>) -> Seq<u64> {
    subscribers_of(subs, topic) + subscribers_of(subs, WILDCARD_TOPIC@)
}

/// Who listens to which topic on an in-memory bus, and its counters.
/// Handlers are known by the ids their owner gave them.
pub struct EventRouter {
    subscriptions: Vec<(String, u64)>,
    stats: EventBusStats,
    delivery_guarantee: DeliveryGuarantee,
}

pub struct EventRouterView {
    /// `(topic, handler)` pairs in subscription order.
    pub subscriptions: Seq<(Seq<char>, u64)>,
    pub stats: EventBusStats,
    pub delivery_guarantee: DeliveryGuarantee,
}

pub open spec fn subscription_views(v: Seq<(String, u64)>) -> Seq<(Seq<char>, u64)> {
    v.map_values(|p: (String, u64)| (p.0@, p.1))
}

pub open spec fn topic_subscriptions(topics: Seq<String>, handler: u64) -> Seq<(Seq<char>, u64)> {
    topics.map_values(|t: String| (t@, handler))
}

impl View for EventRouter {
    type V = EventRouterView;

    closed spec fn view(&self) -> EventRouterView {
        EventRouterView {
            subscriptions: subscription_views(self.subscriptions@),
            stats: self.stats,
            delivery_guarantee: self.delivery_guarantee,
        }
    }
}

impl EventRouter {
    /// A router with no subscription, counters at zero, delivering at most once.
    pub fn new() -> (r: EventRouter)
        ensures
            r@.subscriptions.len() == 0,
            r@.stats == (EventBusStats {
                total_events_published: 0,
                total_events_delivered: 0,
                active_handlers: 0,
                queued_events: 0,
            }),
            r@.delivery_guarantee == DeliveryGuarantee::AtMostOnce,
    {
        let r = EventRouter {
            subscriptions: Vec::new(),
            stats: EventBusStats {
                total_events_published: 0,
                total_events_delivered: 0,
                active_handlers: 0,
                queued_events: 0,
            },
            delivery_guarantee: DeliveryGuarantee::AtMostOnce,
        };
        assert(subscription_views(r.subscriptions@) =~= Seq::<(Seq<char>, u64)>::empty());
        r
    }

    /// The same router with another delivery guarantee.
    pub fn with_delivery_guarantee(self, guarantee: DeliveryGuarantee) -> (r: EventRouter)
        ensures
            r@ == (EventRouterView { delivery_guarantee: guarantee, ..self@ }),
    {
        EventRouter { delivery_guarantee: guarantee, ..self }
    }

    pub fn delivery_guarantee(&self) -> (r: DeliveryGuarantee)
        ensures
            r == self@.delivery_guarantee,
    {
        self.delivery_guarantee
    }

    pub fn stats(&self) -> (r: EventBusStats)
        ensures
            r == self@.stats,
    {
        self.stats
    }

    /// Subscribes `handler` to each of `topics`; one more active handler.
    pub fn subscribe_to_topics(&mut self, topics: Vec<String>, handler: u64)
        ensures
            final(self)@ == (EventRouterView {
                subscriptions: old(self)@.subscriptions + topic_subscriptions(topics@, handler),
                stats: EventBusStats {
                    active_handlers: sat_inc_usize(old(self)@.stats.active_handlers),
                    ..old(self)@.stats
                },
                ..old(self)@
            }),
    {
        let ghost start = subscription_views(self.subscriptions@);
        let mut i: usize = 0;
        while i < topics.len()
            invariant
                i <= topics@.len(),
                subscription_views(self.subscriptions@) == start + topic_subscriptions(topics@, handler).subrange(0, i as int),
                self.stats == old(self).stats,
                self.delivery_guarantee == old(self).delivery_guarantee,
                start == old(self)@.subscriptions,
            decreases topics@.len() - i,
        {
            let ghost before = self.subscriptions@;
            self.subscriptions.push((topics[i].clone(), handler));
            assert(subscription_views(self.subscriptions@) =~= subscription_views(before).push((topics@[i as int]@, handler)));
            assert(start + topic_subscriptions(topics@, handler).subrange(0, i + 1) =~= (start
                + topic_subscriptions(topics@, handler).subrange(0, i as int)).push((topics@[i as int]@, handler)));
            i = i + 1;
        }
        assert(topic_subscriptions(topics@, handler).subrange(0, i as int) =~= topic_subscriptions(topics@, handler));
        if self.stats.active_handlers < usize::MAX {
            self.stats.active_handlers = self.stats.active_handlers + 1;
        }
    }

    /// Subscribes `handler` to every topic.
    pub fn subscribe(&mut self, handler: u64)
        ensures
            final(self)@ == (EventRouterView {
                subscriptions: old(self)@.subscriptions.push((WILDCARD_TOPIC@, handler)),
                stats: EventBusStats {
                    active_handlers: sat_inc_usize(old(self)@.stats.active_handlers),
                    ..old(self)@.stats
                },
                ..old(self)@
            }),
    {
        let mut topics: Vec<String> = Vec::new();
        topics.push(String::from_str(WILDCARD_TOPIC));
        self.subscribe_to_topics(topics, handler);
        assert(old(self)@.subscriptions + topic_subscriptions(topics@, handler) =~= old(self)@.subscriptions.push((WILDCARD_TOPIC@, handler)));
    }

    fn subscribers(&self, topic: &str) -> (r: Vec<u64>)
        ensures
            r@ == subscribers_of(self@.subscriptions, topic@),
    {
        let ghost subs = self@.subscriptions;
        let mut r: Vec<u64> = Vec::new();
        let mut i: usize = 0;
        while i < self.subscriptions.len()
            invariant
                i <= self.subscriptions@.len(),
                subs == subscription_views(self.subscriptions@),
                r@ == subscribers_of(subs.subrange(0, i as int), topic@),
            decreases self.subscriptions@.len() - i,
        {
            assert(subs.subrange(0, i + 1).drop_last() =~= subs.subrange(0, i as int));
            if str_eq(self.subscriptions[i].0.as_str(), topic) {
                r.push(self.subscriptions[i].1);
            }
            i = i + 1;
        }
        assert(subs.subrange(0, i as int) =~= subs);
        r
    }

    /// Publishes an event on `topic`: returns the handlers to deliver it
    /// to, in order, and counts one event published and one delivery per
    /// handler.
    pub fn publish(&mut self, topic: &str) -> (r: Vec<u64>)
        ensures
            r@ == recipients(old(self)@.subscriptions, topic@),
            final(self)@ == (EventRouterView {
                stats: EventBusStats {
                    total_events_published: sat_add_u64(old(self)@.stats.total_events_published, 1),
                    total_events_delivered: sat_add_u64(old(self)@.stats.total_events_delivered, r@.len() as int),
                    ..old(self)@.stats
                },
                ..old(self)@
            }),
    {
        let mut r = self.subscribers(topic);
        let mut wild = self.subscribers(WILDCARD_TOPIC);
        r.append(&mut wild);
        if self.stats.total_events_published < u64::MAX {
            self.stats.total_events_published = self.stats.total_events_published + 1;
        }
        let n = r.len() as u64;
        if self.stats.total_events_delivered <= u64::MAX - n {
            self.stats.total_events_delivered = self.stats.total_events_delivered + n;
        } else {
            self.stats.total_events_delivered = u64::MAX;
        }
        r
    }
}

/// The router a bus configuration calls for: a plain bus delivers at most
/// once; an enhanced one with the configured guarantee.
pub fn create_event_router(config: &EventBusConfig) -> (r: EventRouter)
    ensures
        r@.subscriptions.len() == 0,
        r@.stats.total_events_published == 0,
        r@.stats.total_events_delivered == 0,
        r@.stats.active_handlers == 0,
        r@.delivery_guarantee == match config.bus_type {
            EventBusType::InMemory => DeliveryGuarantee::AtMostOnce,
            EventBusType::Enhanced => config.delivery_guarantee,
        },
{
    match config.bus_type {
        EventBusType::InMemory => EventRouter::new(),
        EventBusType::Enhanced => EventRouter::new().with_delivery_guarantee(config.delivery_guarantee),
    }
}

/// What a system event is about, by its topic.
#[derive(Debug, Clone, Copy, PartialEq, Eq, Structural)]
pub enum SystemEventKind {
    AgentStart,
    AgentEnd,
    ChannelMessage,
    MemoryStore,
    MemoryRecall,
    Other,
}

/// The kind of event a topic announces.
pub open spec fn system_event_kind(topic: Seq<char>) -> SystemEventKind {
    if topic == "agent.start"@ {
        SystemEventKind::AgentStart
    } else if topic == "agent.end"@ {
        SystemEventKind::AgentEnd
    } else if topic == "channel.message"@ {
        SystemEventKind::ChannelMessage
    } else if topic == "memory.store"@ {
        SystemEventKind::MemoryStore
    } else if topic == "memory.recall"@ {
        SystemEventKind::MemoryRecall
    } else {
        SystemEventKind::Other
    }
}

/// The topic system errors are published on.
pub const SYSTEM_ERROR_TOPIC: &'static str = "system.error";

/// A handler that logs system events, each kind in its own words.
#[derive(Debug, Clone, Copy, PartialEq, Eq, Structural)]
pub struct SystemLoggerHandler;

impl SystemLoggerHandler {
    /// How an event on `topic` is to be logged.
    pub fn classify(&self, topic: &str) -> (r: SystemEventKind)
        ensures
            r == system_event_kind(topic@),
    {
        if str_eq(topic, "agent.start") {
            SystemEventKind::AgentStart
        } else if str_eq(topic, "agent.end") {
            SystemEventKind::AgentEnd
        } else if str_eq(topic, "channel.message") {
            SystemEventKind::ChannelMessage
        } else if str_eq(topic, "memory.store") {
            SystemEventKind::MemoryStore
        } else if str_eq(topic, "memory.recall") {
            SystemEventKind::MemoryRecall
        } else {
            SystemEventKind::Other
        }
    }
}

/// A handler that reports system errors.
#[derive(Debug, Clone, Copy, PartialEq, Eq, Structural)]
pub struct ErrorHandler;

impl ErrorHandler {
    /// Whether an event on `topic` reports a system error.
    pub fn is_system_error(&self, topic: &str) -> (r: bool)
        ensures
            r == (topic@ == SYSTEM_ERROR_TOPIC@),
    {
        str_eq(topic, SYSTEM_ERROR_TOPIC)
    }
}

/// A subscriber to a topic receives every event published on it, and a
/// subscriber to every topic receives every event.
pub proof fn law_subscribers_receive(subs: Seq<(Seq<char>, u64)>, topic: Seq<char>, handler: u64)
    ensures
        recipients(subs.push((topic, handler)), topic).contains(handler),
        recipients(subs.push((WILDCARD_TOPIC@, handler)), topic).contains(handler),
{
    let s1 = subs.push((topic, handler));
    assert(s1.drop_last() =~= subs);
    assert(subscribers_of(s1, topic).last() == handler);
    assert(recipients(s1, topic)[subscribers_of(s1, topic).len() - 1] == handler);
    let s2 = subs.push((WILDCARD_TOPIC@, handler));
    assert(s2.drop_last() =~= subs);
    let a = subscribers_of(s2, topic);
    assert(recipients(s2, topic)[a.len() + subscribers_of(s2, WILDCARD_TOPIC@).len() - 1] == handler);
}

} // verus!
