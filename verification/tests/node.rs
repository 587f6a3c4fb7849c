use zos::node::{normalize_namespace, resolve_name, Node, NodeOptions};
use zos::qos::Qos;
use zos::text::white_space;

#[test]
fn normalize_namespace_root() {
    assert_eq!(normalize_namespace(""), "");
    assert_eq!(normalize_namespace("/"), "");
    assert_eq!(normalize_namespace("  /  "), "");
}

#[test]
fn normalize_namespace_nested() {
    assert_eq!(normalize_namespace("/robot"), "robot");
    assert_eq!(normalize_namespace("robot/arm"), "robot/arm");
}

#[test]
fn resolve_relative_in_root() {
    assert_eq!(resolve_name("/", "cmd_vel"), "cmd_vel");
    assert_eq!(resolve_name("", "scale"), "scale");
}

#[test]
fn resolve_relative_in_namespace() {
    assert_eq!(resolve_name("/demo", "scale"), "demo/scale");
    assert_eq!(resolve_name("demo", "scale"), "demo/scale");
}

#[test]
fn resolve_absolute_ignores_namespace() {
    assert_eq!(resolve_name("/demo", "/scale"), "scale");
    assert_eq!(resolve_name("robot", "/demo/scale"), "demo/scale");
}

#[test]
fn white_space_matches_std() {
    for code in 0u32..=0x10FFFF {
        if let Some(c) = char::from_u32(code) {
            assert_eq!(white_space(c), c.is_whitespace(), "code point {code:#x}");
        }
    }
}

#[test]
fn normalize_namespace_trims_unicode_space_and_separators() {
    assert_eq!(normalize_namespace("\t/robot/\n"), "robot");
    assert_eq!(normalize_namespace("\u{3000}/robot\u{2003}"), "robot");
    assert_eq!(normalize_namespace("///robot//arm//"), "robot//arm");
    assert_eq!(normalize_namespace("///"), "");
}

#[test]
fn normalize_namespace_matches_std_trimming() {
    let samples = ["", "/", " a ", "/ a /", "//x//", "\u{85}/y", "z\u{a0}", "robot/arm", " / / "];
    for s in samples {
        let expected = s.trim().trim_matches('/').to_owned();
        let expected = if s.trim().is_empty() || s.trim() == "/" { String::new() } else { expected };
        assert_eq!(normalize_namespace(s), expected, "namespace {s:?}");
    }
}

#[test]
fn normalize_namespace_not_idempotent_when_spaces_exposed() {
    // removing the separators exposes white space, which a second pass trims
    assert_eq!(normalize_namespace("/ a /"), " a ");
    assert_eq!(normalize_namespace(" a "), "a");
    // without exposed white space a second pass changes nothing
    let once = normalize_namespace("/robot/arm/");
    assert_eq!(normalize_namespace(&once), once);
}

#[test]
fn leading_separator_names_same_namespace() {
    assert_eq!(normalize_namespace("/robot"), normalize_namespace("robot"));
    assert_eq!(normalize_namespace("/"), normalize_namespace(""));
    assert_eq!(normalize_namespace("/a/b/"), normalize_namespace("a/b/"));
}

#[test]
fn resolve_name_edge_cases() {
    // surrounding white space is ignored
    assert_eq!(resolve_name(" /demo ", "  scale  "), "demo/scale");
    // every leading separator of a global name goes, a trailing one stays
    assert_eq!(resolve_name("/x/", "//a/"), "a/");
    // an empty relative name denotes the namespace itself
    assert_eq!(resolve_name("/demo", ""), "demo");
    assert_eq!(resolve_name("/", "   "), "");
    // a lone separator is the global root
    assert_eq!(resolve_name("/demo", "/"), "");
}

#[test]
fn resolved_names_never_start_with_separator() {
    let namespaces = ["", "/", "/demo", "demo/", " / x / "];
    let names = ["a", "/a", "//a", " /a", "", "/", "a/b"];
    for ns in namespaces {
        for name in names {
            let r = resolve_name(ns, name);
            assert!(!r.starts_with('/'), "resolve_name({ns:?}, {name:?}) = {r:?}");
        }
    }
}

#[test]
fn absolute_names_ignore_any_namespace() {
    for ns in ["", "/", "robot", "/robot/arm", "  x  "] {
        assert_eq!(resolve_name(ns, "/demo/scale"), "demo/scale");
    }
}

#[test]
fn node_options_defaults_and_setters() {
    let options = NodeOptions::new();
    assert_eq!(options.name, "");
    assert_eq!(options.namespace, "/");
    let options = NodeOptions::default().name("server").namespace("/demo");
    assert_eq!(options.name, "server");
    assert_eq!(options.namespace, "/demo");
}

#[test]
fn node_normalizes_namespace_and_qualifies_it() {
    let node: Node<u8> = Node::new(NodeOptions::new().name("server").namespace("/demo/"));
    assert_eq!(node.name, "server");
    assert_eq!(node.namespace, "demo");
    assert_eq!(node.fq_namespace(), "/demo");
    assert!(node.runnables.is_empty());
    let root: Node<u8> = Node::new(NodeOptions::new());
    assert_eq!(root.namespace, "");
    assert_eq!(root.fq_namespace(), "/");
}

#[test]
fn node_name_is_not_part_of_paths() {
    let a: Node<u8> = Node::new(NodeOptions::new().name("a").namespace("/demo"));
    let b: Node<u8> = Node::new(NodeOptions::new().name("b").namespace("demo"));
    assert_eq!(a.resolve_name("scale"), "demo/scale");
    assert_eq!(a.resolve_name("scale"), b.resolve_name("scale"));
    assert_eq!(a.resolve_name("/other"), "other");
}

#[test]
fn node_add_runnable_appends_in_order() {
    let mut node: Node<u32> = Node::new(NodeOptions::new());
    node.add_runnable(1);
    node.add_runnable(2);
    assert_eq!(node.runnables, vec![1, 2]);
}

#[test]
fn node_create_publisher_resolves_topic() {
    let node: Node<u8> = Node::new(NodeOptions::new().namespace("/robot"));
    let builder = node.create_publisher::<u64>("cmd_vel");
    assert_eq!(builder.topic, "robot/cmd_vel");
    assert_eq!(builder.qos, Qos::default());
    let mut qos = Qos::default();
    qos.publish.express = true;
    let builder = builder.qos(qos);
    assert!(builder.qos.publish.express);
    assert_eq!(builder.topic, "robot/cmd_vel");
}

fn std_normalize(namespace: &str) -> String {
    let namespace = namespace.trim();
    if namespace.is_empty() || namespace == "/" {
        String::new()
    } else {
        namespace.trim_matches('/').to_owned()
    }
}

fn std_resolve(namespace: &str, name: &str) -> String {
    let name = name.trim();
    if name.starts_with('/') {
        return name.trim_start_matches('/').to_owned();
    }
    let name = name.trim_start_matches('/');
    let namespace = std_normalize(namespace);
    if namespace.is_empty() {
        name.to_owned()
    } else if name.is_empty() {
        namespace
    } else {
        format!("{namespace}/{name}")
    }
}

#[test]
fn naming_agrees_with_std_string_operations() {
    let pieces = ["", "/", " ", "\t", "a", "bc", "\u{a0}", "\u{2009}", "é", "//", "x/y"];
    let mut inputs = Vec::new();
    for p in pieces {
        for q in pieces {
            for r in pieces {
                inputs.push(format!("{p}{q}{r}"));
            }
        }
    }
    for ns in &inputs {
        assert_eq!(normalize_namespace(ns), std_normalize(ns), "namespace {ns:?}");
    }
    for ns in inputs.iter().step_by(7) {
        for name in inputs.iter().step_by(3) {
            assert_eq!(resolve_name(ns, name), std_resolve(ns, name), "{ns:?} {name:?}");
        }
    }
}
