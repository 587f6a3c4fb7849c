//! Request/response services: what a service is made of, and how a request is screened.
//!
//! A service holds the session (of type `S`) it declares its queryable on, its topic and the
//! handler (of type `H`) that the async host invokes with each decoded `Req`.

use vstd::prelude::*;

use crate::context::{session, session_before_init_message, RuntimeContext};
use crate::error::RuntimeError;
use crate::node::Node;
use std::marker::PhantomData;

verus! {

/// Service: handles requests arriving on a topic.
pub struct Service<Req, Resp, S, H> {
    session: S,
    topic: String,
    handler: H,
    _marker: PhantomData<(Req, Resp)>,
}

impl<Req, Resp, S: Clone, H> Service<Req, Resp, S, H> {
    pub closed spec fn session_value(&self) -> S {
        self.session
    }

    pub closed spec fn topic_value(&self) -> Seq<char> {
        self.topic@
    }

    pub closed spec fn handler_value(&self) -> H {
        self.handler
    }

    /// A service on `topic` answered by `handler`; fails before initialization.
    pub fn new(ctx: &RuntimeContext<S>, topic: String, handler: H) -> (r: Result<Self, RuntimeError>)
        ensures
            match ctx@ {
                Some((s, _)) => r matches Ok(svc) && cloned(s, svc.session_value())
                    && svc.topic_value() == topic@ && svc.handler_value() == handler,
                None => r matches Err(e) && e.has_message(session_before_init_message()),
            },
    {
        let s = session(ctx)?;
        let s = s.clone();
        Ok(Service { session: s, topic, handler, _marker: PhantomData })
    }

    pub fn topic(&self) -> (r: &String)
        ensures
            r@ == self.topic_value(),
    {
        &self.topic
    }

    pub fn session(&self) -> (r: &S)
        ensures
            *r == self.session_value(),
    {
        &self.session
    }

    pub fn handler(&self) -> (r: &H)
        ensures
            *r == self.handler_value(),
    {
        &self.handler
    }
}

/// The message of the error for a request that carries no payload.
pub open spec fn empty_request_message() -> Seq<char> {
    "service request payload is empty"@
}

/// Screen an incoming request: an empty payload is refused before decoding.
pub fn check_request(payload: &Vec<u8>) -> (r: Result<(), RuntimeError>)
    ensures
        payload@.len() == 0 ==> (r matches Err(e) && e.has_message(empty_request_message())),
        payload@.len() > 0 ==> r is Ok,
{
    if payload.len() == 0 {
        return Err(RuntimeError::message("service request payload is empty"));
    }
    Ok(())
}

/// Builder for a `Service` created from a node.
pub struct ServiceBuilder<'a, R, Req, Resp> {
    /// The node the service is registered on.
    pub node: &'a mut Node<R>,
    /// The resolved service name.
    pub name: String,
    pub _marker: PhantomData<(Req, Resp)>,
}

impl<'a, R, Req, Resp> ServiceBuilder<'a, R, Req, Resp> {
    pub(crate) fn new(node: &'a mut Node<R>, name: String) -> (r: Self)
        ensures
            *r.node == *old(node),
            *final(r.node) == *final(node),
            r.name == name,
    {
        ServiceBuilder { node, name, _marker: PhantomData }
    }

    /// Build a service without registering it on the node.
    pub fn handler<S: Clone, H>(self, ctx: &RuntimeContext<S>, handler: H) -> (r: Result<
        Service<Req, Resp, S, H>,
        RuntimeError,
    >)
        ensures
            *final(self.node) == *old(self.node),
            match ctx@ {
                Some((s, _)) => r matches Ok(svc) && cloned(s, svc.session_value())
                    && svc.topic_value() == self.name@ && svc.handler_value() == handler,
                None => r matches Err(e) && e.has_message(session_before_init_message()),
            },
    {
        Service::new(ctx, self.name, handler)
    }

    /// Build a service, turn it into a runnable with `wrap`, and append it to the node.
    /// Before initialization nothing is registered and the error is returned.
    pub fn register<S: Clone, H, F: FnOnce(Service<Req, Resp, S, H>) -> R>(
        self,
        ctx: &RuntimeContext<S>,
        handler: H,
        wrap: F,
    ) -> (r: Result<(), RuntimeError>)
        requires
            forall|svc: Service<Req, Resp, S, H>| #[trigger] wrap.requires((svc,)),
        ensures
            final(self.node).name == old(self.node).name,
            final(self.node).namespace == old(self.node).namespace,
            match ctx@ {
                Some((s, _)) => r is Ok && final(self.node).runnables@.drop_last() == old(
                    self.node,
                ).runnables@ && final(self.node).runnables@.len() == old(
                    self.node,
                ).runnables@.len() + 1 && exists|svc: Service<Req, Resp, S, H>|
                    cloned(s, svc.session_value()) && svc.topic_value() == self.name@
                        && svc.handler_value() == handler && #[trigger] wrap.ensures(
                        (svc,),
                        final(self.node).runnables@.last(),
                    ),
                None => *final(self.node) == *old(self.node) && (r matches Err(e)
                    && e.has_message(session_before_init_message())),
            },
    {
        let service = Service::new(ctx, self.name, handler)?;
        let ghost svc = service;
        let runnable = wrap(service);
        self.node.add_runnable(runnable);
        assert(wrap.ensures((svc,), self.node.runnables@.last()));
        Ok(())
    }
}

} // verus!
