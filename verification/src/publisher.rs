//! Topic publishers: the builder a node hands out, the publisher built from it, and the error
//! a failed publication reports.

use vstd::prelude::*;
use vstd::string::*;

use crate::error::RuntimeError;
use crate::qos::{default_qos, Qos};
use std::marker::PhantomData;

verus! {

/// Builder for a `Publisher` created from a node.
pub struct PublisherBuilder<T> {
    /// The resolved topic.
    pub topic: String,
    /// QoS for the publisher (its publisher side is used).
    pub qos: Qos,
    pub _marker: PhantomData<T>,
}

impl<T> PublisherBuilder<T> {
    pub(crate) fn new(topic: String) -> (r: Self)
        ensures
            r.topic == topic,
            r.qos == default_qos(),
    {
        PublisherBuilder { topic, qos: Qos::default(), _marker: PhantomData }
    }

    /// The same builder with `qos`.
    pub fn qos(self, qos: Qos) -> (r: Self)
        ensures
            r.topic == self.topic,
            r.qos == qos,
    {
        PublisherBuilder { topic: self.topic, qos, _marker: PhantomData }
    }
}

/// Publisher of messages of type `T` through the middleware handle `H`.
pub struct Publisher<T, H> {
    handle: H,
    topic: String,
    _marker: PhantomData<T>,
}

impl<T, H> Publisher<T, H> {
    pub closed spec fn handle_value(&self) -> H {
        self.handle
    }

    pub closed spec fn topic_value(&self) -> Seq<char> {
        self.topic@
    }

    /// A publisher on `topic` that sends through `handle`.
    pub fn from_handle(topic: String, handle: H) -> (r: Self)
        ensures
            r.topic_value() == topic@,
            r.handle_value() == handle,
    {
        Publisher { handle, topic, _marker: PhantomData }
    }

    pub fn topic(&self) -> (r: &str)
        ensures
            r@ == self.topic_value(),
    {
        self.topic.as_str()
    }

    pub fn handle(&self) -> (r: &H)
        ensures
            *r == self.handle_value(),
    {
        &self.handle
    }
}

/// The message of the error reported when publishing on `topic` fails with `detail`.
pub open spec fn publish_failed_message(topic: Seq<char>, detail: Seq<char>) -> Seq<char> {
    "Zenoh put failed on topic "@ + topic + ": "@ + detail
}

/// The error reported when publishing on `topic` fails with `detail`.
pub fn publish_failure(topic: &str, detail: &str) -> (r: RuntimeError)
    ensures
        r.has_message(publish_failed_message(topic@, detail@)),
{
    let head = "Zenoh put failed on topic ";
    let sep = ": ";
    RuntimeError::Message(head.to_owned().concat(topic).concat(sep).concat(detail))
}

} // verus!
