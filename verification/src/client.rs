//! Service clients: a topic and the middleware querier (of type `Q`) that requests go through.

use vstd::prelude::*;

use std::marker::PhantomData;

verus! {

/// Client: sends requests of type `Req` and receives responses of type `Resp`.
pub struct Client<Req, Resp, Q> {
    querier: Q,
    topic: String,
    _marker: PhantomData<(Req, Resp)>,
}

impl<Req, Resp, Q> Client<Req, Resp, Q> {
    pub closed spec fn querier_value(&self) -> Q {
        self.querier
    }

    pub closed spec fn topic_value(&self) -> Seq<char> {
        self.topic@
    }

    /// A client of the service on `topic`, calling through `querier`.
    pub fn from_querier(topic: String, querier: Q) -> (r: Self)
        ensures
            r.topic_value() == topic@,
            r.querier_value() == querier,
    {
        Client { querier, topic, _marker: PhantomData }
    }

    pub fn topic(&self) -> (r: &str)
        ensures
            r@ == self.topic_value(),
    {
        self.topic.as_str()
    }

    pub fn querier(&self) -> (r: &Q)
        ensures
            *r == self.querier_value(),
    {
        &self.querier
    }
}

} // verus!
