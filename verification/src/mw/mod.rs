//! Middleware layer: what endpoints exchange, and how backend failures are reported.
//!
//! The endpoint traits themselves are asynchronous and live with the async host; this module
//! holds the values they exchange and the error decisions of the Zenoh backend.

pub mod traits;
pub mod zenoh;

pub use crate::error::MwError;
pub use crate::qos::{
    MessagePriority, PublishQos, Qos, Reliability, SubscribeQos, SubscriptionOrigin,
};
pub use traits::IncomingQuery;
