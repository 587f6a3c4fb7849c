//! Nodes and ROS 2-style name resolution.
//!
//! A node owns a name (identity only), a normalized namespace and the runnable components
//! that an executor drives. Topic and service names are resolved against the namespace:
//! relative names are prefixed with it, names that start with `/` are global.

use vstd::prelude::*;
use vstd::string::*;

use crate::context::{session_before_init_message, RuntimeContext};
use crate::error::RuntimeError;
use crate::publisher::PublisherBuilder;
use crate::qos::default_qos;
use crate::service::ServiceBuilder;
use crate::subscriber::{Subscriber, SubscriberBuilder};
use crate::timer::{Timer, TimerBuilder};
use crate::text::{
    lemma_strip_bounds,
    is_white_space, lemma_leading_cons, lemma_leading_props, lemma_strip_ends,
    lemma_strip_identity, lemma_trailing_prefix, lemma_trailing_props, strip_end, trailing,
    leading, strip, strip_start, strip_start_str, strip_str,
    starts_with_char, trim, CharClass,
};

verus! {

/// Internal form of a namespace: no surrounding white space, then no surrounding `/`.
/// The root namespace (`""`, `"/"`) is the empty sequence.
pub open spec fn normalized_namespace(namespace: Seq<char>) -> Seq<char> {
    strip(trim(namespace), CharClass::Slash)
}

/// The topic or service path that `name` denotes under `namespace`.
pub open spec fn resolved_name(namespace: Seq<char>, name: Seq<char>) -> Seq<char> {
    let n = trim(name);
    if n.len() > 0 && n[0] == '/' {
        strip_start(n, CharClass::Slash)
    } else {
        let ns = normalized_namespace(namespace);
        if ns.len() == 0 {
            n
        } else if n.len() == 0 {
            ns
        } else {
            ns + seq!['/'] + n
        }
    }
}

/// Whether `name` is a global name (it starts with `/` once white space is trimmed).
pub open spec fn is_absolute_name(name: Seq<char>) -> bool {
    trim(name).len() > 0 && trim(name)[0] == '/'
}

/// A global name denotes the same path whatever the namespace it is resolved under.
pub proof fn law_absolute_name_ignores_namespace(
    namespace1: Seq<char>,
    namespace2: Seq<char>,
    name: Seq<char>,
)
    requires
        is_absolute_name(name),
    ensures
        resolved_name(namespace1, name) == resolved_name(namespace2, name),
{
}

/// In the root namespace a relative name denotes itself (without surrounding white space).
pub proof fn law_relative_name_in_root(namespace: Seq<char>, name: Seq<char>)
    requires
        normalized_namespace(namespace).len() == 0,
        !is_absolute_name(name),
    ensures
        resolved_name(namespace, name) == trim(name),
{
}

/// Under a namespace a relative name is prefixed with the namespace and `/`.
pub proof fn law_relative_name_in_namespace(namespace: Seq<char>, name: Seq<char>)
    requires
        normalized_namespace(namespace).len() > 0,
        !is_absolute_name(name),
        trim(name).len() > 0,
    ensures
        resolved_name(namespace, name) == normalized_namespace(namespace) + seq!['/'] + trim(
            name,
        ),
{
}

/// A normalized namespace neither starts nor ends with `/`.
pub proof fn law_normalized_namespace_has_no_outer_separator(namespace: Seq<char>)
    ensures
        normalized_namespace(namespace).len() > 0 ==> normalized_namespace(namespace)[0] != '/'
            && normalized_namespace(namespace).last() != '/',
{
    lemma_strip_ends(trim(namespace), CharClass::Slash);
}

/// A resolved path never starts with `/`: paths are relative to the middleware's root.
pub proof fn law_resolved_name_has_no_leading_separator(namespace: Seq<char>, name: Seq<char>)
    ensures
        resolved_name(namespace, name).len() > 0 ==> resolved_name(namespace, name)[0] != '/',
{
    let n = trim(name);
    let r = resolved_name(namespace, name);
    if n.len() > 0 && n[0] == '/' {
        lemma_leading_props(n, CharClass::Slash);
        if r.len() > 0 {
            assert(r[0] == n[leading(n, CharClass::Slash) as int]);
        }
    } else {
        lemma_strip_ends(trim(namespace), CharClass::Slash);
        let ns = normalized_namespace(namespace);
        if ns.len() > 0 && n.len() > 0 {
            assert(r[0] == ns[0]);
        }
    }
}

/// A global name resolves to itself without its surrounding white space and without its
/// leading separators, and nothing else is removed: the name is white space, then one or more
/// `/`, then the resolved path, then white space; the path neither starts with `/` nor ends
/// with white space.
pub proof fn law_global_name_drops_only_outer_space_and_leading_separators(
    namespace: Seq<char>,
    name: Seq<char>,
) -> (cut: (int, int, int))
    requires
        is_absolute_name(name),
    ensures
        0 <= cut.0 < cut.1 <= cut.2 <= name.len(),
        forall|p: int| 0 <= p < cut.0 ==> is_white_space(#[trigger] name[p]),
        forall|p: int| cut.0 <= p < cut.1 ==> #[trigger] name[p] == '/',
        forall|p: int| cut.2 <= p < name.len() ==> is_white_space(#[trigger] name[p]),
        name.subrange(cut.1, cut.2) == resolved_name(namespace, name),
        cut.1 == cut.2 || (name[cut.1] != '/' && !is_white_space(name[cut.2 - 1])),
{
    let (a, d) = lemma_strip_bounds(name, CharClass::Whitespace);
    let n = trim(name);
    assert(n == name.subrange(a, d));
    lemma_leading_props(n, CharClass::Slash);
    let m = leading(n, CharClass::Slash) as int;
    assert(m >= 1);
    let (i, j, k) = (a, a + m, d);
    assert forall|p: int| i <= p < j implies #[trigger] name[p] == '/' by {
        assert(name[p] == n[p - a]);
    }
    assert(name.subrange(j, k) =~= resolved_name(namespace, name));
    if j < k {
        assert(name[j] == n[m]);
    }
    assert(name.subrange(j, k) == resolved_name(namespace, name));
    (i, j, k)
}

/// Normalizing removes exactly the white space at both ends and then the separators at both
/// ends: the namespace is white space, `/`s, the normalized form, `/`s, white space; the
/// trimmed middle neither starts nor ends with white space, and the normalized form neither
/// starts nor ends with `/`. So a namespace holding anything but white space and `/` never
/// normalizes to the root.
pub proof fn law_normalized_namespace_shape(namespace: Seq<char>) -> (cut: (int, int, int, int))
    ensures
        0 <= cut.0 <= cut.1 <= cut.2 <= cut.3 <= namespace.len(),
        forall|p: int| 0 <= p < cut.0 ==> is_white_space(#[trigger] namespace[p]),
        forall|p: int| cut.0 <= p < cut.1 ==> #[trigger] namespace[p] == '/',
        forall|p: int| cut.2 <= p < cut.3 ==> #[trigger] namespace[p] == '/',
        forall|p: int| cut.3 <= p < namespace.len() ==> is_white_space(#[trigger] namespace[p]),
        namespace.subrange(cut.1, cut.2) == normalized_namespace(namespace),
        cut.0 == cut.3 || (!is_white_space(namespace[cut.0]) && !is_white_space(
            namespace[cut.3 - 1],
        )),
        cut.1 == cut.2 || (namespace[cut.1] != '/' && namespace[cut.2 - 1] != '/'),
{
    let (a, d) = lemma_strip_bounds(namespace, CharClass::Whitespace);
    let t = trim(namespace);
    assert(t == namespace.subrange(a, d));
    let (b0, c0) = lemma_strip_bounds(t, CharClass::Slash);
    let (b, c) = (a + b0, a + c0);
    assert forall|p: int| a <= p < b implies #[trigger] namespace[p] == '/' by {
        assert(namespace[p] == t[p - a]);
    }
    assert forall|p: int| c <= p < d implies #[trigger] namespace[p] == '/' by {
        assert(namespace[p] == t[p - a]);
    }
    assert(namespace.subrange(b, c) =~= t.subrange(b0, c0));
    if b < c {
        assert(namespace[b] == t[b0]);
        assert(namespace[c - 1] == t[c0 - 1]);
    }
    assert(namespace.subrange(b, c) == normalized_namespace(namespace));
    (a, b, c, d)
}

/// The root namespace may be written `""` or `"/"`.
pub proof fn law_root_namespace_spellings()
    ensures
        normalized_namespace(Seq::<char>::empty()) == Seq::<char>::empty(),
        normalized_namespace(seq!['/']) == Seq::<char>::empty(),
{
    let e = Seq::<char>::empty();
    lemma_strip_identity(e, CharClass::Whitespace);
    lemma_strip_identity(e, CharClass::Slash);
    let s = seq!['/'];
    assert(!is_white_space('/'));
    assert(s.last() == '/');
    lemma_strip_identity(s, CharClass::Whitespace);
    assert(s =~= seq!['/'] + e);
    lemma_leading_cons('/', e, CharClass::Slash);
    assert(strip_start(s, CharClass::Slash) == e);
    assert(strip_end(e, CharClass::Slash) =~= e);
}

/// A leading `/` names the same namespace: `/robot` and `robot` are one namespace.
/// (The namespace must not itself start with white space, which the `/` would shield.)
pub proof fn law_leading_separator_same_namespace(namespace: Seq<char>)
    requires
        namespace.len() > 0 ==> !is_white_space(namespace[0]),
    ensures
        normalized_namespace(seq!['/'] + namespace) == normalized_namespace(namespace),
{
    let ws = CharClass::Whitespace;
    let sl = CharClass::Slash;
    let s = seq!['/'] + namespace;
    assert(!is_white_space('/'));
    assert(s[0] == '/');
    if namespace.len() == 0 {
        law_root_namespace_spellings();
        assert(s =~= seq!['/']);
    } else {
        // white space is trimmed from the end only, and the same amount from both
        lemma_strip_identity(seq![namespace[0]], ws);
        assert(leading(namespace, ws) == 0);
        assert(strip_start(namespace, ws) =~= namespace);
        assert(leading(s, ws) == 0);
        assert(strip_start(s, ws) =~= s);
        lemma_trailing_props(namespace, ws);
        if trailing(namespace, ws) == namespace.len() {
            assert(ws.holds(namespace[0]));
        }
        lemma_trailing_prefix(seq!['/'], namespace, ws);
        let u = trim(namespace);
        assert(u =~= namespace.subrange(0, namespace.len() - trailing(namespace, ws)));
        assert(trim(s) =~= seq!['/'] + u);
        // then the separator goes with the other leading separators
        lemma_leading_cons('/', u, sl);
        lemma_trailing_props(u, sl);
        lemma_leading_props(u, sl);
    }
}

/// Normalizing a normalized namespace changes nothing, provided that the normalized form
/// has no white space at its ends (which removing separators can expose).
pub proof fn law_normalize_idempotent(namespace: Seq<char>)
    requires
        normalized_namespace(namespace).len() > 0 ==> !is_white_space(
            normalized_namespace(namespace)[0],
        ) && !is_white_space(normalized_namespace(namespace).last()),
    ensures
        normalized_namespace(normalized_namespace(namespace)) == normalized_namespace(namespace),
{
    let n = normalized_namespace(namespace);
    lemma_strip_ends(trim(namespace), CharClass::Slash);
    lemma_strip_identity(n, CharClass::Whitespace);
    lemma_strip_identity(n, CharClass::Slash);
}

/// Normalize a ROS 2-style namespace (`/`, `/robot`, `robot` → internal form).
pub fn normalize_namespace(namespace: &str) -> (r: String)
    ensures
        r@ == normalized_namespace(namespace@),
{
    let trimmed = strip_str(namespace, CharClass::Whitespace);
    let len = trimmed.unicode_len();
    if len == 0 || (len == 1 && trimmed.get_char(0) == '/') {
        proof {
            let t = trimmed@;
            if t.len() == 1 {
                // a lone separator strips to nothing
                assert(leading(t.subrange(1, 1), CharClass::Slash) == 0);
                assert(leading(t, CharClass::Slash) == 1);
            }
            assert(normalized_namespace(namespace@) =~= Seq::<char>::empty());
        }
        String::new()
    } else {
        strip_str(trimmed, CharClass::Slash).to_owned()
    }
}

/// Resolve a topic/service name under `namespace` (ROS 2 rules).
pub fn resolve_name(namespace: &str, name: &str) -> (r: String)
    ensures
        r@ == resolved_name(namespace@, name@),
{
    let trimmed = strip_str(name, CharClass::Whitespace);
    if starts_with_char(trimmed, '/') {
        return strip_start_str(trimmed, CharClass::Slash).to_owned();
    }
    // a relative name has no leading separator to drop
    let name = strip_start_str(trimmed, CharClass::Slash);
    proof {
        assert(leading(trimmed@, CharClass::Slash) == 0);
        assert(name@ =~= trimmed@);
    }
    let namespace = normalize_namespace(namespace);
    if namespace.as_str().unicode_len() == 0 {
        name.to_owned()
    } else if name.unicode_len() == 0 {
        namespace
    } else {
        let slash = "/";
        proof {
            reveal_strlit("/");
        }
        namespace.concat(slash).concat(name)
    }
}

/// Options for `Node::new` (node name, namespace).
#[derive(Debug, Clone)]
pub struct NodeOptions {
    /// Node name (identity only).
    pub name: String,
    /// ROS 2 namespace (default `/`).
    pub namespace: String,
}

impl Default for NodeOptions {
    fn default() -> (r: Self)
        ensures
            r.name@ == Seq::<char>::empty(),
            r.namespace@ == seq!['/'],
    {
        let root = "/";
        proof {
            reveal_strlit("/");
        }
        NodeOptions { name: String::new(), namespace: root.to_owned() }
    }
}

impl NodeOptions {
    /// Options for a node without a name in the root namespace.
    pub fn new() -> (r: Self)
        ensures
            r.name@ == Seq::<char>::empty(),
            r.namespace@ == seq!['/'],
    {
        Self::default()
    }

    /// The same options with the node name set to `name`.
    pub fn name(self, name: &str) -> (r: Self)
        ensures
            r.name@ == name@,
            r.namespace == self.namespace,
    {
        let mut options = self;
        options.name = name.to_owned();
        options
    }

    /// The same options with the namespace set to `namespace`.
    pub fn namespace(self, namespace: &str) -> (r: Self)
        ensures
            r.namespace@ == namespace@,
            r.name == self.name,
    {
        let mut options = self;
        options.namespace = namespace.to_owned();
        options
    }
}

/// A node: creates endpoints and collects the runnable components (of type `R`) that an
/// executor drives.
pub struct Node<R> {
    /// Node name (identity only; not prepended to topics).
    pub name: String,
    /// Normalized namespace without surrounding `/`; empty means root `/`.
    pub namespace: String,
    /// Runnable components (subscribers, timers, ...) for the executor to drive.
    pub runnables: Vec<R>,
}

impl<R> Node<R> {
    /// Create a node with no runnables, its namespace normalized.
    pub fn new(options: NodeOptions) -> (r: Self)
        ensures
            r.name == options.name,
            r.namespace@ == normalized_namespace(options.namespace@),
            r.runnables@ == Seq::<R>::empty(),
    {
        let namespace = normalize_namespace(options.namespace.as_str());
        Node { name: options.name, namespace, runnables: Vec::new() }
    }

    /// Fully qualified namespace string (`/` when root).
    pub fn fq_namespace(&self) -> (r: String)
        ensures
            r@ == seq!['/'] + self.namespace@,
    {
        let root = "/";
        proof {
            reveal_strlit("/");
        }
        if self.namespace.as_str().unicode_len() == 0 {
            proof {
                assert(seq!['/'] + self.namespace@ =~= seq!['/']);
            }
            root.to_owned()
        } else {
            root.to_owned().concat(self.namespace.as_str())
        }
    }

    /// Register a runnable component to be driven by an executor.
    pub fn add_runnable(&mut self, runnable: R)
        ensures
            final(self).runnables@ == old(self).runnables@.push(runnable),
            final(self).name == old(self).name,
            final(self).namespace == old(self).namespace,
    {
        self.runnables.push(runnable);
    }

    /// Resolve `name` under this node's namespace.
    pub fn resolve_name(&self, name: &str) -> (r: String)
        ensures
            r@ == resolved_name(self.namespace@, name@),
    {
        resolve_name(self.namespace.as_str(), name)
    }

    /// Start building a publisher on `topic` (resolved under the namespace).
    pub fn create_publisher<T>(&self, topic: &str) -> (r: PublisherBuilder<T>)
        ensures
            r.topic@ == resolved_name(self.namespace@, topic@),
            r.qos == default_qos(),
    {
        PublisherBuilder::new(self.resolve_name(topic))
    }

    /// Start building a subscriber on `topic` (default QoS; set the callback on the builder).
    pub fn create_subscriber_builder<T>(&mut self, topic: &str) -> (r: SubscriberBuilder<'_, R, T>)
        ensures
            *r.node == *old(self),
            *final(r.node) == *final(self),
            r.topic@ == resolved_name(old(self).namespace@, topic@),
            r.qos == default_qos(),
    {
        let resolved = self.resolve_name(topic);
        SubscriberBuilder::new(self, resolved)
    }

    /// Create a subscriber with default QoS (does not register it with the node).
    pub fn create_subscriber<T, S: Clone, C>(
        &mut self,
        ctx: &RuntimeContext<S>,
        topic: &str,
        callback: C,
    ) -> (r: Result<Subscriber<T, S, C>, RuntimeError>)
        ensures
            *final(self) == *old(self),
            match ctx@ {
                Some((s, _)) => r matches Ok(sub) && cloned(s, sub.session_value())
                    && sub.topic_value() == resolved_name(old(self).namespace@, topic@)
                    && sub.qos_value() == default_qos().subscribe && sub.callback_value()
                    == callback,
                None => r matches Err(e) && e.has_message(session_before_init_message()),
            },
    {
        self.create_subscriber_builder::<T>(topic).callback(ctx, callback)
    }

    /// Start building a timer (`period` between ticks; periodic unless made one-shot).
    pub fn create_timer_builder(&mut self, period: std::time::Duration) -> (r: TimerBuilder<
        '_,
        R,
    >)
        ensures
            *r.node == *old(self),
            *final(r.node) == *final(self),
            r.period == period,
            !r.one_shot,
    {
        TimerBuilder::new(self, period)
    }

    /// Create a periodic timer (does not register it with the node).
    pub fn create_timer<C>(&mut self, period: std::time::Duration, callback: C) -> (r: Timer<C>)
        ensures
            *final(self) == *old(self),
            r.period_value() == period,
            !r.fires_once(),
            r.callback_value() == callback,
    {
        self.create_timer_builder(period).callback(callback)
    }

    /// Start building a service on `name`, resolved like other endpoints.
    pub fn create_service_builder<Req, Resp>(&mut self, name: &str) -> (r: ServiceBuilder<
        '_,
        R,
        Req,
        Resp,
    >)
        ensures
            *r.node == *old(self),
            *final(r.node) == *final(self),
            r.name@ == resolved_name(old(self).namespace@, name@),
    {
        let resolved = self.resolve_name(name);
        ServiceBuilder::new(self, resolved)
    }
}

/// The node name is identity only: nodes in the same namespace resolve every name alike.
pub proof fn law_node_name_is_identity_only<R>(a: Node<R>, b: Node<R>, name: Seq<char>)
    requires
        a.namespace@ == b.namespace@,
    ensures
        resolved_name(a.namespace@, name) == resolved_name(b.namespace@, name),
{
}

} // verus!
