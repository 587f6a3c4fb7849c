//! Values exchanged with middleware endpoints.

use vstd::prelude::*;

verus! {

/// One incoming service request: its payload and the handle (of type `P`) that sends the
/// response back.
pub struct IncomingQuery<P> {
    pub payload: Vec<u8>,
    reply: P,
}

impl<P> IncomingQuery<P> {
    pub closed spec fn payload_value(&self) -> Seq<u8> {
        self.payload@
    }

    pub closed spec fn reply_value(&self) -> P {
        self.reply
    }

    pub fn new(payload: Vec<u8>, reply: P) -> (r: Self)
        ensures
            r.payload_value() == payload@,
            r.reply_value() == reply,
    {
        IncomingQuery { payload, reply }
    }

    /// The request's payload.
    pub fn payload(&self) -> (r: &Vec<u8>)
        ensures
            r@ == self.payload_value(),
    {
        &self.payload
    }

    /// The handle that sends the response for this request.
    pub fn reply(&self) -> (r: &P)
        ensures
            *r == self.reply_value(),
    {
        &self.reply
    }
}

} // verus!
