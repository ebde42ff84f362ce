use std::sync::Arc;

use goose_extension::config::{name_to_key, DEFAULT_DISPLAY_NAME, DEFAULT_EXTENSION, DEFAULT_EXTENSION_TIMEOUT};
use goose_extension::{ExtensionConfig, ExtensionInfo, PermissionLevel, ToolInfo};

fn builtin(name: &str) -> ExtensionConfig {
    ExtensionConfig::Builtin {
        name: name.to_string(),
        display_name: Some("Display".to_string()),
        description: None,
        timeout: Some(10),
        bundled: Some(false),
    }
}

fn tool(name: &'static str) -> rmcp::model::Tool {
    rmcp::model::Tool::new(name, "a tool", Arc::new(rmcp::model::JsonObject::new()))
}

#[test]
fn name_of_every_kind() {
    assert_eq!(ExtensionConfig::sse("s", "http://a", "d", 1u64).name(), "s");
    assert_eq!(ExtensionConfig::streamable_http("h", "http://b", "d", 1u64).name(), "h");
    assert_eq!(ExtensionConfig::stdio("p", "cmd", "d", 1u64).name(), "p");
    assert_eq!(ExtensionConfig::inline_python("i", "print(1)", "d", 1u64).name(), "i");
    assert_eq!(builtin("b").name(), "b");
    let frontend = ExtensionConfig::Frontend { name: "f".to_string(), tools: vec![], instructions: None, bundled: None };
    assert_eq!(frontend.name(), "f");
}

#[test]
fn key_removes_whitespace_and_lowers_case() {
    assert_eq!(name_to_key("My Tool"), "mytool");
    assert_eq!(name_to_key("  Ä B\tC\n"), "äbc");
    assert_eq!(name_to_key(""), "");
    assert_eq!(name_to_key("my-tool"), "my-tool");
}

#[test]
fn names_that_normalize_alike_share_a_key() {
    let a = ExtensionConfig::stdio("My Tool", "cmd", "d", 1u64);
    let b = builtin("mytool");
    let c = ExtensionConfig::sse("MY TOOL", "http://a", "d", 1u64);
    assert_eq!(a.key(), "mytool");
    assert_eq!(a.key(), b.key());
    assert_eq!(a.key(), c.key());
    assert_ne!(a.key(), builtin("other").key());
}

#[test]
fn with_args_sets_process_arguments() {
    let cfg = ExtensionConfig::stdio("dev", "goosed", "desc", 30u64).with_args(vec!["mcp".to_string(), "developer".to_string()]);
    match cfg {
        ExtensionConfig::Stdio { name, cmd, args, description, timeout, bundled, env_keys, envs } => {
            assert_eq!(name, "dev");
            assert_eq!(cmd, "goosed");
            assert_eq!(args, vec!["mcp".to_string(), "developer".to_string()]);
            assert_eq!(description.as_deref(), Some("desc"));
            assert_eq!(timeout, Some(30));
            assert_eq!(bundled, None);
            assert!(env_keys.is_empty());
            assert!(envs.get_env().is_empty());
        }
        other => panic!("unexpected {other:?}"),
    }
}

#[test]
fn with_args_leaves_builtin_unchanged() {
    let cfg = builtin("developer").with_args(vec!["x".to_string()]);
    match cfg {
        ExtensionConfig::Builtin { name, display_name, description, timeout, bundled } => {
            assert_eq!(name, "developer");
            assert_eq!(display_name.as_deref(), Some("Display"));
            assert_eq!(description, None);
            assert_eq!(timeout, Some(10));
            assert_eq!(bundled, Some(false));
        }
        other => panic!("unexpected {other:?}"),
    }
    let sse = ExtensionConfig::sse("s", "http://a", "d", 5u64).with_args(vec!["x".to_string()]);
    assert_eq!(sse.to_string(), "SSE(s: http://a)");
}

#[test]
fn builders_fill_their_fields() {
    match ExtensionConfig::sse("s", "http://a", "d", 5u64) {
        ExtensionConfig::Sse { name, uri, envs, env_keys, description, timeout, bundled } => {
            assert_eq!((name.as_str(), uri.as_str()), ("s", "http://a"));
            assert!(envs.get_env().is_empty() && env_keys.is_empty());
            assert_eq!((description.as_deref(), timeout, bundled), (Some("d"), Some(5), None));
        }
        other => panic!("unexpected {other:?}"),
    }
    match ExtensionConfig::streamable_http("h", "http://b", "d", 6u64) {
        ExtensionConfig::StreamableHttp { name, uri, headers, timeout, bundled, .. } => {
            assert_eq!((name.as_str(), uri.as_str()), ("h", "http://b"));
            assert!(headers.is_empty());
            assert_eq!((timeout, bundled), (Some(6), None));
        }
        other => panic!("unexpected {other:?}"),
    }
    match ExtensionConfig::inline_python("i", "print(1)", "d", 7u64) {
        ExtensionConfig::InlinePython { name, code, description, timeout, dependencies } => {
            assert_eq!((name.as_str(), code.as_str()), ("i", "print(1)"));
            assert_eq!((description.as_deref(), timeout), (Some("d"), Some(7)));
            assert!(dependencies.is_none());
        }
        other => panic!("unexpected {other:?}"),
    }
}

#[test]
fn summaries_of_every_kind() {
    assert_eq!(ExtensionConfig::sse("s", "http://a", "d", 1u64).to_string(), "SSE(s: http://a)");
    assert_eq!(ExtensionConfig::streamable_http("h", "http://b", "d", 1u64).to_string(), "StreamableHttp(h: http://b)");
    assert_eq!(ExtensionConfig::stdio("p", "cmd", "d", 1u64).to_string(), "Stdio(p: cmd )");
    assert_eq!(
        ExtensionConfig::stdio("p", "cmd", "d", 1u64).with_args(vec!["a".to_string(), "b c".to_string()]).to_string(),
        "Stdio(p: cmd a b c)"
    );
    assert_eq!(builtin("developer").to_string(), "Builtin(developer)");
    let frontend = ExtensionConfig::Frontend {
        name: "f".to_string(),
        tools: vec![tool("one"), tool("two")],
        instructions: Some("use them".to_string()),
        bundled: None,
    };
    assert_eq!(frontend.to_string(), "Frontend(f: 2 tools)");
    let empty = ExtensionConfig::Frontend { name: "g".to_string(), tools: vec![], instructions: None, bundled: None };
    assert_eq!(empty.to_string(), "Frontend(g: 0 tools)");
    assert_eq!(ExtensionConfig::inline_python("i", "print(1)", "d", 1u64).to_string(), "InlinePython(i: 8 chars)");
    // The count is in bytes.
    assert_eq!(ExtensionConfig::inline_python("i", "é", "d", 1u64).to_string(), "InlinePython(i: 2 chars)");
    let long = "x".repeat(1234);
    assert_eq!(ExtensionConfig::inline_python("i", &long, "d", 1u64).to_string(), "InlinePython(i: 1234 chars)");
}

#[test]
fn default_is_the_bundled_builtin() {
    match ExtensionConfig::default() {
        ExtensionConfig::Builtin { name, display_name, description, timeout, bundled } => {
            assert_eq!(name, DEFAULT_EXTENSION);
            assert_eq!(name, "developer");
            assert_eq!(display_name.as_deref(), Some(DEFAULT_DISPLAY_NAME));
            assert_eq!(description, None);
            assert_eq!(timeout, Some(DEFAULT_EXTENSION_TIMEOUT));
            assert_eq!(bundled, Some(true));
        }
        other => panic!("unexpected {other:?}"),
    }
}

#[test]
fn extension_info_new() {
    let info = ExtensionInfo::new("dev", "do things", true);
    assert_eq!(info.name, "dev");
    assert_eq!(info.instructions, "do things");
    assert!(info.has_resources);
}

#[test]
fn tool_info_new() {
    let info = ToolInfo::new("shell", "runs a command", vec!["command".to_string()], Some(PermissionLevel::AskBefore));
    assert_eq!(info.name, "shell");
    assert_eq!(info.description, "runs a command");
    assert_eq!(info.parameters, vec!["command".to_string()]);
    assert_eq!(info.permission, Some(PermissionLevel::AskBefore));
    assert_eq!(ToolInfo::new("t", "", vec![], None).permission, None);
}
