//! Middleware-neutral QoS profiles for publishers and subscribers.
//!
//! The defaults match the transport's own defaults, so most callers never set QoS.

use vstd::prelude::*;

verus! {

/// Message priority (simplified view of transport priorities).
#[derive(Debug, Clone, Copy, PartialEq, Eq, Structural)]
pub enum MessagePriority {
    Low,
    Normal,
    High,
}

impl Default for MessagePriority {
    fn default() -> (r: Self)
        ensures
            r == MessagePriority::Normal,
    {
        MessagePriority::Normal
    }
}

/// Delivery behaviour under congestion.
#[derive(Debug, Clone, Copy, PartialEq, Eq, Structural)]
pub enum Reliability {
    /// Drop when queues are full.
    BestEffort,
    /// Block until the message can be sent.
    Reliable,
}

impl Default for Reliability {
    fn default() -> (r: Self)
        ensures
            r == Reliability::BestEffort,
    {
        Reliability::BestEffort
    }
}

/// Where matching publications may originate.
#[derive(Debug, Clone, Copy, PartialEq, Eq, Structural)]
pub enum SubscriptionOrigin {
    SessionLocal,
    Remote,
    Any,
}

impl Default for SubscriptionOrigin {
    fn default() -> (r: Self)
        ensures
            r == SubscriptionOrigin::Any,
    {
        SubscriptionOrigin::Any
    }
}

/// Publisher-side QoS.
#[derive(Debug, Clone, Copy, PartialEq, Eq, Structural)]
pub struct PublishQos {
    pub priority: MessagePriority,
    pub reliability: Reliability,
    /// When `true`, messages are not batched (lower latency, more overhead).
    pub express: bool,
}

/// The publisher-side profile used when none is given.
pub open spec fn default_publish_qos() -> PublishQos {
    PublishQos {
        priority: MessagePriority::Normal,
        reliability: Reliability::BestEffort,
        express: false,
    }
}

impl Default for PublishQos {
    fn default() -> (r: Self)
        ensures
            r == default_publish_qos(),
    {
        PublishQos {
            priority: MessagePriority::Normal,
            reliability: Reliability::BestEffort,
            express: false,
        }
    }
}

/// Subscriber-side QoS.
#[derive(Debug, Clone, Copy, PartialEq, Eq, Structural)]
pub struct SubscribeQos {
    /// Which publishers this subscriber accepts (local session, remote, or both).
    pub origin: SubscriptionOrigin,
}

/// The subscriber-side profile used when none is given.
pub open spec fn default_subscribe_qos() -> SubscribeQos {
    SubscribeQos { origin: SubscriptionOrigin::Any }
}

impl Default for SubscribeQos {
    fn default() -> (r: Self)
        ensures
            r == default_subscribe_qos(),
    {
        SubscribeQos { origin: SubscriptionOrigin::Any }
    }
}

/// Combined QoS for publishing and subscribing.
#[derive(Debug, Clone, Copy, PartialEq, Eq, Structural)]
pub struct Qos {
    pub publish: PublishQos,
    pub subscribe: SubscribeQos,
}

/// The combined profile used when none is given.
pub open spec fn default_qos() -> Qos {
    Qos { publish: default_publish_qos(), subscribe: default_subscribe_qos() }
}

impl Default for Qos {
    fn default() -> (r: Self)
        ensures
            r == default_qos(),
    {
        Qos { publish: PublishQos::default(), subscribe: SubscribeQos::default() }
    }
}

} // verus!
