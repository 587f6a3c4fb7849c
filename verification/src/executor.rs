//! The executor: collects runnable components from nodes and decides how they are run.
//!
//! Running the components concurrently is the job of the async host; this module holds the
//! executor's bookkeeping and the decisions the host takes while spinning.

use vstd::prelude::*;
use vstd::string::*;

use crate::error::RuntimeError;
use crate::node::Node;

verus! {

/// Executor configuration.
#[derive(Debug, Clone)]
pub struct ExecutorOptions {
    /// `None`: run on the current async runtime.
    /// `Some(n)`: create a dedicated runtime with `n` worker threads.
    pub worker_threads: Option<usize>,
}

impl Default for ExecutorOptions {
    fn default() -> (r: Self)
        ensures
            r.worker_threads is None,
    {
        ExecutorOptions { worker_threads: None }
    }
}

/// Where the executor runs its components.
#[derive(Debug, Clone, Copy, PartialEq, Eq, Structural)]
pub enum SpinPlan {
    /// Spawn on the async runtime the caller is running on.
    CurrentRuntime,
    /// Build a dedicated multi-threaded runtime with this many workers (at least one).
    Dedicated(usize),
}

impl ExecutorOptions {
    /// Options that run on the current runtime.
    pub fn new() -> (r: Self)
        ensures
            r.worker_threads is None,
    {
        Self::default()
    }

    /// The same options with a dedicated pool of `n` worker threads.
    pub fn worker_threads(self, n: usize) -> (r: Self)
        ensures
            r.worker_threads == Some(n),
    {
        let mut options = self;
        options.worker_threads = Some(n);
        options
    }

    /// Where spinning runs: the current runtime, or a dedicated pool of at least one worker.
    pub fn spin_plan(&self) -> (r: SpinPlan)
        ensures
            match self.worker_threads {
                None => r == SpinPlan::CurrentRuntime,
                Some(n) => r == SpinPlan::Dedicated(if n == 0 { 1 } else { n }),
            },
    {
        match self.worker_threads {
            None => SpinPlan::CurrentRuntime,
            Some(workers) => SpinPlan::Dedicated(if workers < 1 { 1 } else { workers }),
        }
    }
}

/// Drives registered runnable components (of type `R`) concurrently.
pub struct Executor<R> {
    runnables: Vec<R>,
    options: ExecutorOptions,
}

impl<R> View for Executor<R> {
    type V = Seq<R>;

    closed spec fn view(&self) -> Seq<R> {
        self.runnables@
    }
}

impl<R> Executor<R> {
    /// The options the executor was built with.
    pub closed spec fn configured(&self) -> ExecutorOptions {
        self.options
    }

    /// An executor with no components.
    pub fn new(options: ExecutorOptions) -> (r: Self)
        ensures
            r@ == Seq::<R>::empty(),
            r.configured() == options,
    {
        Executor { runnables: Vec::new(), options }
    }

    /// Append one component.
    pub fn add(&mut self, runnable: R)
        ensures
            final(self)@ == old(self)@.push(runnable),
            final(self).configured() == old(self).configured(),
    {
        self.runnables.push(runnable);
    }

    /// Whether no component is registered.
    pub fn is_empty(&self) -> (r: bool)
        ensures
            r == (self@.len() == 0),
    {
        self.runnables.len() == 0
    }

    /// Number of registered components.
    pub fn len(&self) -> (r: usize)
        ensures
            r == self@.len(),
    {
        self.runnables.len()
    }

    /// Take all runnables registered on `node` and append them to this executor.
    pub fn add_node(&mut self, node: &mut Node<R>)
        ensures
            final(self)@ == old(self)@ + old(node).runnables@,
            final(self).configured() == old(self).configured(),
            final(node).runnables@ == Seq::<R>::empty(),
            final(node).name == old(node).name,
            final(node).namespace == old(node).namespace,
    {
        self.runnables.append(&mut node.runnables);
    }

    /// The components, in registration order, and the options, for the host to run.
    pub fn into_parts(self) -> (r: (Vec<R>, ExecutorOptions))
        ensures
            r.0@ == self@,
            r.1 == self.configured(),
    {
        (self.runnables, self.options)
    }
}

impl<R> Default for Executor<R> {
    fn default() -> (r: Self)
        ensures
            r@ == Seq::<R>::empty(),
            r.configured().worker_threads is None,
    {
        Executor::new(ExecutorOptions::default())
    }
}

/// How one spawned component ended.
#[derive(Debug)]
pub enum TaskOutcome {
    /// The component returned.
    Finished(Result<(), RuntimeError>),
    /// The task panicked or was cancelled; the host's description of why.
    Panicked(String),
}

/// The text that prefixes the description of a panicked component.
pub open spec fn panicked_prefix() -> Seq<char> {
    "executor task panicked: "@
}

/// The text that prefixes the description of a failed join of the dedicated runtime.
pub open spec fn join_failed_prefix() -> Seq<char> {
    "executor task join failed: "@
}

/// Joining components in registration order: `Ok` to go on with the next one, or the
/// error that spinning returns at once.
pub fn join_verdict(outcome: TaskOutcome) -> (r: Result<(), RuntimeError>)
    ensures
        match outcome {
            TaskOutcome::Finished(res) => r == res,
            TaskOutcome::Panicked(detail) => r matches Err(e) && e.has_message(
                panicked_prefix() + detail@,
            ),
        },
{
    match outcome {
        TaskOutcome::Finished(res) => res,
        TaskOutcome::Panicked(detail) => {
            let prefix = "executor task panicked: ";
            proof {
                reveal_strlit("executor task panicked: ");
            }
            Err(RuntimeError::Message(prefix.to_owned().concat(detail.as_str())))
        },
    }
}

/// The error spinning returns when the dedicated runtime's host task cannot be joined.
pub fn join_failure(detail: &str) -> (r: RuntimeError)
    ensures
        r.has_message(join_failed_prefix() + detail@),
{
    let prefix = "executor task join failed: ";
    proof {
        reveal_strlit("executor task join failed: ");
    }
    RuntimeError::Message(prefix.to_owned().concat(detail))
}

} // verus!
