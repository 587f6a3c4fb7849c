//! Process-wide middleware initialization state and session access.
//!
//! The runtime opens one middleware session per process. `RuntimeContext` holds that session
//! together with the backend that opened it; initialization succeeds at most once.

use vstd::prelude::*;

use crate::error::RuntimeError;

verus! {

/// `std::path::PathBuf`, the path of a configuration file. Declared opaque: paths are only
/// carried from the options into the opening plan; nothing is claimed of their contents.
#[verifier::external_type_specification]
#[verifier::external_body]
pub struct ExPathBuf(std::path::PathBuf);

/// Active middleware implementation.
#[derive(Debug, Clone, Copy, PartialEq, Eq, Structural)]
pub enum MiddlewareBackend {
    /// Zenoh (default).
    Zenoh,
}

impl Default for MiddlewareBackend {
    fn default() -> (r: Self)
        ensures
            r == MiddlewareBackend::Zenoh,
    {
        MiddlewareBackend::Zenoh
    }
}

/// Options for initialization.
#[derive(Debug)]
pub struct InitOptions {
    /// Backend-specific config file. For `MiddlewareBackend::Zenoh`, a Zenoh JSON5 file.
    pub config_file: Option<std::path::PathBuf>,
}

impl Default for InitOptions {
    fn default() -> (r: Self)
        ensures
            r.config_file is None,
    {
        InitOptions { config_file: None }
    }
}

/// How the middleware session is to be opened.
#[derive(Debug)]
pub enum OpenPlan {
    /// Open a Zenoh session with its default configuration.
    ZenohDefault,
    /// Open a Zenoh session configured from this JSON5 file.
    ZenohConfigFile(std::path::PathBuf),
}

/// Decide how to open the session for `backend` with `options`.
pub fn open_plan(backend: MiddlewareBackend, options: InitOptions) -> (r: OpenPlan)
    ensures
        match options.config_file {
            Some(path) => r == OpenPlan::ZenohConfigFile(path),
            None => r == OpenPlan::ZenohDefault,
        },
{
    match backend {
        MiddlewareBackend::Zenoh => match options.config_file {
            Some(path) => OpenPlan::ZenohConfigFile(path),
            None => OpenPlan::ZenohDefault,
        },
    }
}

/// The message of the error returned when the runtime is initialized twice.
pub open spec fn already_initialized_message() -> Seq<char> {
    "runtime already initialized"@
}

/// The message of the error returned when the backend is queried before initialization.
pub open spec fn backend_before_init_message() -> Seq<char> {
    "call init() before querying backend"@
}

/// The message of the error returned when endpoints are created before initialization.
pub open spec fn session_before_init_message() -> Seq<char> {
    "call init() before creating endpoints"@
}

/// The initialization state of the runtime: the open session and its backend, once set.
pub struct RuntimeContext<S> {
    installed: Option<(S, MiddlewareBackend)>,
}

impl<S> View for RuntimeContext<S> {
    type V = Option<(S, MiddlewareBackend)>;

    closed spec fn view(&self) -> Option<(S, MiddlewareBackend)> {
        self.installed
    }
}

impl<S> RuntimeContext<S> {
    /// A runtime that has not been initialized.
    pub fn new() -> (r: Self)
        ensures
            r@ is None,
    {
        RuntimeContext { installed: None }
    }

    /// Record the session opened by `backend`; refused once a session is recorded.
    pub fn install(&mut self, backend: MiddlewareBackend, session: S) -> (r: Result<(), RuntimeError>)
        ensures
            old(self)@ is None ==> r is Ok && final(self)@ == Some((session, backend)),
            old(self)@ is Some ==> final(self)@ == old(self)@ && (r matches Err(e)
                && e.has_message(already_initialized_message())),
    {
        if self.installed.is_some() {
            return Err(RuntimeError::message("runtime already initialized"));
        }
        self.installed = Some((session, backend));
        Ok(())
    }
}

impl<S> Default for RuntimeContext<S> {
    fn default() -> (r: Self)
        ensures
            r@ is None,
    {
        RuntimeContext::new()
    }
}

/// Whether initialization has completed successfully.
pub fn is_initialized<S>(ctx: &RuntimeContext<S>) -> (r: bool)
    ensures
        r == ctx@ is Some,
{
    ctx.installed.is_some()
}

/// Refuse a second initialization before any session is opened.
pub fn check_not_initialized<S>(ctx: &RuntimeContext<S>) -> (r: Result<(), RuntimeError>)
    ensures
        ctx@ is None ==> r is Ok,
        ctx@ is Some ==> (r matches Err(e) && e.has_message(already_initialized_message())),
{
    if ctx.installed.is_some() {
        Err(RuntimeError::message("runtime already initialized"))
    } else {
        Ok(())
    }
}

/// Active backend after initialization.
pub fn backend<S>(ctx: &RuntimeContext<S>) -> (r: Result<MiddlewareBackend, RuntimeError>)
    ensures
        match ctx@ {
            Some((_, b)) => r == Ok::<MiddlewareBackend, RuntimeError>(b),
            None => r matches Err(e) && e.has_message(backend_before_init_message()),
        },
{
    match &ctx.installed {
        Some((_, b)) => Ok(*b),
        None => Err(RuntimeError::message("call init() before querying backend")),
    }
}

/// Session opened by initialization.
pub fn session<S>(ctx: &RuntimeContext<S>) -> (r: Result<&S, RuntimeError>)
    ensures
        match ctx@ {
            Some((s, _)) => r matches Ok(x) && *x == s,
            None => r matches Err(e) && e.has_message(session_before_init_message()),
        },
{
    match &ctx.installed {
        Some((s, _)) => Ok(s),
        None => Err(RuntimeError::message("call init() before creating endpoints")),
    }
}

} // verus!
