//! Topic subscribers: what a subscriber is made of, and the decisions of its receive loop.
//!
//! A subscriber holds the session (of type `S`) it declares its endpoint on, the topic, its
//! QoS and the callback (of type `C`) that the async host invokes with each decoded message
//! of type `T`.

use vstd::prelude::*;

use crate::context::{session, session_before_init_message, RuntimeContext};
use crate::error::{MwError, RuntimeError};
use crate::node::Node;
use crate::qos::{default_qos, Qos, SubscribeQos};
use std::marker::PhantomData;

verus! {

pub struct Subscriber<T, S, C> {
    session: S,
    topic: String,
    qos: SubscribeQos,
    callback: C,
    _marker: PhantomData<T>,
}

impl<T, S: Clone, C> Subscriber<T, S, C> {
    pub closed spec fn session_value(&self) -> S {
        self.session
    }

    pub closed spec fn topic_value(&self) -> Seq<char> {
        self.topic@
    }

    pub closed spec fn qos_value(&self) -> SubscribeQos {
        self.qos
    }

    pub closed spec fn callback_value(&self) -> C {
        self.callback
    }

    /// A subscriber on `topic` with the default QoS; fails before initialization.
    pub fn new(ctx: &RuntimeContext<S>, topic: String, callback: C) -> (r: Result<Self, RuntimeError>)
        ensures
            match ctx@ {
                Some((s, _)) => r matches Ok(sub) && cloned(s, sub.session_value())
                    && sub.topic_value() == topic@ && sub.qos_value() == default_qos().subscribe
                    && sub.callback_value() == callback,
                None => r matches Err(e) && e.has_message(session_before_init_message()),
            },
    {
        Self::new_with_qos(ctx, topic, Qos::default(), callback)
    }

    /// A subscriber on `topic` with the subscriber side of `qos`; fails before initialization.
    pub fn new_with_qos(ctx: &RuntimeContext<S>, topic: String, qos: Qos, callback: C) -> (r:
        Result<Self, RuntimeError>)
        ensures
            match ctx@ {
                Some((s, _)) => r matches Ok(sub) && cloned(s, sub.session_value())
                    && sub.topic_value() == topic@ && sub.qos_value() == qos.subscribe
                    && sub.callback_value() == callback,
                None => r matches Err(e) && e.has_message(session_before_init_message()),
            },
    {
        let s = session(ctx)?;
        let s = s.clone();
        Ok(Subscriber { session: s, topic, qos: qos.subscribe, callback, _marker: PhantomData })
    }

    pub fn session(&self) -> (r: &S)
        ensures
            *r == self.session_value(),
    {
        &self.session
    }

    pub fn topic(&self) -> (r: &String)
        ensures
            r@ == self.topic_value(),
    {
        &self.topic
    }

    pub fn qos(&self) -> (r: SubscribeQos)
        ensures
            r == self.qos_value(),
    {
        self.qos
    }

    pub fn callback(&self) -> (r: &C)
        ensures
            *r == self.callback_value(),
    {
        &self.callback
    }
}

/// What a receive loop does with the result of one receive.
#[derive(Debug)]
pub enum ReceiveStep<Q> {
    /// Handle this item and receive again.
    Handle(Q),
    /// Leave the loop, returning this.
    Finish(Result<(), RuntimeError>),
}

/// The receive loops of subscribers and services: an item is handled, an exhausted
/// stream ends the loop successfully, and a middleware error ends it with that error.
pub fn receive_step<Q>(received: Result<Option<Q>, MwError>) -> (r: ReceiveStep<Q>)
    ensures
        match received {
            Ok(Some(q)) => r == ReceiveStep::Handle(q),
            Ok(None) => r == ReceiveStep::<Q>::Finish(Ok(())),
            Err(MwError::Message(m)) => r == ReceiveStep::<Q>::Finish(
                Err(RuntimeError::Message(m)),
            ),
        },
{
    match received {
        Ok(Some(q)) => ReceiveStep::Handle(q),
        Ok(None) => ReceiveStep::Finish(Ok(())),
        Err(e) => ReceiveStep::Finish(Err(RuntimeError::from(e))),
    }
}

/// Builder for a `Subscriber` created from a node.
pub struct SubscriberBuilder<'a, R, T> {
    /// The node the subscriber is registered on.
    pub node: &'a mut Node<R>,
    /// The resolved topic.
    pub topic: String,
    /// QoS for the subscriber (its subscriber side is used).
    pub qos: Qos,
    pub _marker: PhantomData<T>,
}

impl<'a, R, T> SubscriberBuilder<'a, R, T> {
    pub(crate) fn new(node: &'a mut Node<R>, topic: String) -> (r: Self)
        ensures
            *r.node == *old(node),
            *final(r.node) == *final(node),
            r.topic == topic,
            r.qos == default_qos(),
    {
        SubscriberBuilder { node, topic, qos: Qos::default(), _marker: PhantomData }
    }

    /// The same builder with `qos`.
    pub fn qos(self, qos: Qos) -> (r: Self)
        ensures
            *r.node == *old(self.node),
            *final(r.node) == *final(self.node),
            r.topic == self.topic,
            r.qos == qos,
    {
        SubscriberBuilder { node: self.node, topic: self.topic, qos, _marker: PhantomData }
    }

    /// Build a subscriber without registering it on the node.
    pub fn callback<S: Clone, C>(self, ctx: &RuntimeContext<S>, callback: C) -> (r: Result<
        Subscriber<T, S, C>,
        RuntimeError,
    >)
        ensures
            *final(self.node) == *old(self.node),
            match ctx@ {
                Some((s, _)) => r matches Ok(sub) && cloned(s, sub.session_value())
                    && sub.topic_value() == self.topic@ && sub.qos_value() == self.qos.subscribe
                    && sub.callback_value() == callback,
                None => r matches Err(e) && e.has_message(session_before_init_message()),
            },
    {
        Subscriber::new_with_qos(ctx, self.topic, self.qos, callback)
    }

    /// Build a subscriber, turn it into a runnable with `wrap`, and append it to the node.
    /// Before initialization nothing is registered and the error is returned.
    pub fn register<S: Clone, C, F: FnOnce(Subscriber<T, S, C>) -> R>(
        self,
        ctx: &RuntimeContext<S>,
        callback: C,
        wrap: F,
    ) -> (r: Result<(), RuntimeError>)
        requires
            forall|sub: Subscriber<T, S, C>| #[trigger] wrap.requires((sub,)),
        ensures
            final(self.node).name == old(self.node).name,
            final(self.node).namespace == old(self.node).namespace,
            match ctx@ {
                Some((s, _)) => r is Ok && final(self.node).runnables@.drop_last() == old(
                    self.node,
                ).runnables@ && final(self.node).runnables@.len() == old(
                    self.node,
                ).runnables@.len() + 1 && exists|sub: Subscriber<T, S, C>|
                    cloned(s, sub.session_value()) && sub.topic_value() == self.topic@
                        && sub.qos_value() == self.qos.subscribe && sub.callback_value()
                        == callback && #[trigger] wrap.ensures(
                        (sub,),
                        final(self.node).runnables@.last(),
                    ),
                None => *final(self.node) == *old(self.node) && (r matches Err(e)
                    && e.has_message(session_before_init_message())),
            },
    {
        let subscriber = Subscriber::new_with_qos(ctx, self.topic, self.qos, callback)?;
        let ghost sub = subscriber;
        let runnable = wrap(subscriber);
        self.node.add_runnable(runnable);
        assert(wrap.ensures((sub,), self.node.runnables@.last()));
        Ok(())
    }
}

} // verus!
