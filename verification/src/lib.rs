//! ZeroOS runtime core: ROS 2-style name resolution, QoS profiles, node and executor
//! bookkeeping, endpoint descriptions, and the decisions that the runtime's asynchronous
//! event loops take.
//!
//! Endpoints are generic over the handles that the async host supplies (the middleware
//! session, callbacks, runnable boxes), so that everything here is plain, verified data.

pub mod client;
pub mod context;
pub mod error;
pub mod executor;
pub mod mw;
pub mod node;
pub mod publisher;
pub mod qos;
pub mod service;
pub mod simulation;
pub mod subscriber;
pub mod text;
pub mod timer;

pub use client::Client;
pub use context::{
    backend, check_not_initialized, is_initialized, open_plan, session, InitOptions,
    MiddlewareBackend, OpenPlan, RuntimeContext,
};
pub use error::{MwError, RuntimeError};
pub use executor::{join_failure, join_verdict, Executor, ExecutorOptions, SpinPlan, TaskOutcome};
pub use node::{normalize_namespace, resolve_name, Node, NodeOptions};
pub use publisher::{publish_failure, Publisher, PublisherBuilder};
pub use qos::{MessagePriority, PublishQos, Qos, Reliability, SubscribeQos, SubscriptionOrigin};
pub use service::{check_request, Service, ServiceBuilder};
pub use subscriber::{receive_step, ReceiveStep, Subscriber, SubscriberBuilder};
pub use timer::{Timer, TimerBuilder, TimerStep};
