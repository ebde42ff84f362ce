//! The kinds of extension, their shared identity and their builders.

use vstd::prelude::*;
use vstd::string::*;
use vstd::utf8::encode_utf8;

use crate::envs::Envs;
use crate::text::{decimal, decimal_string, join, join_strings, strings_view, strip_whitespace, without_whitespace};

verus! {

/// The name of the built-in extension used when none is configured.
pub const DEFAULT_EXTENSION: &'static str = "developer";

/// The display name of the default extension.
pub const DEFAULT_DISPLAY_NAME: &'static str = "Developer";

/// The timeout, in seconds, of the default extension.
pub const DEFAULT_EXTENSION_TIMEOUT: u64 = 300;

/// What `str::to_lowercase` returns for a string.
pub uninterp spec fn lower_of(s: Seq<char>) -> Seq<char>;

/// Relies on `str::to_lowercase`: the Unicode lower case of the string,
/// which depends on its characters alone.
#[verifier::external_body]
fn lowercase(s: &str) -> (r: String)
    ensures
        r@ == lower_of(s@),
{
    s.to_lowercase()
}

/// The key of an extension name: the name without whitespace, in lower case.
pub open spec fn key_of(name: Seq<char>) -> Seq<char> {
    lower_of(strip_whitespace(name))
}

/// The lookup key of an extension name: whitespace removed, lower case.
pub fn name_to_key(name: &str) -> (r: String)
    ensures
        r@ == key_of(name@),
{
    let stripped = without_whitespace(name);
    lowercase(stripped.as_str())
}

/// Names that differ only in whitespace give the same key, so the
/// extensions they name are the same extension.
pub proof fn lemma_key_ignores_whitespace(a: Seq<char>, b: Seq<char>)
    requires
        strip_whitespace(a) == strip_whitespace(b),
    ensures
        key_of(a) == key_of(b),
{
}

/// Declares `rmcp::model::Tool`, a tool that a frontend provides; the
/// configuration carries a list of them unread and only counts it.
#[verifier::external_type_specification]
#[verifier::external_body]
pub struct ExTool(rmcp::model::Tool);

/// The kinds of extension that can be added, each with what its transport
/// needs.
#[derive(Debug, Clone)]
pub enum ExtensionConfig {
    /// A server-sent events client of a URI endpoint.
    Sse {
        name: String,
        uri: String,
        envs: Envs,
        env_keys: Vec<String>,
        description: Option<String>,
        /// Absent in older configurations: the default applies.
        timeout: Option<u64>,
        /// Whether the extension ships with the application.
        bundled: Option<bool>,
    },
    /// A process spoken to over standard input and output.
    Stdio {
        name: String,
        cmd: String,
        args: Vec<String>,
        envs: Envs,
        env_keys: Vec<String>,
        timeout: Option<u64>,
        description: Option<String>,
        bundled: Option<bool>,
    },
    /// An extension built into the application.
    Builtin {
        name: String,
        display_name: Option<String>,
        description: Option<String>,
        timeout: Option<u64>,
        bundled: Option<bool>,
    },
    /// A streamable HTTP client of a URI endpoint.
    StreamableHttp {
        name: String,
        uri: String,
        envs: Envs,
        env_keys: Vec<String>,
        headers: std::collections::HashMap<String, String>,
        description: Option<String>,
        timeout: Option<u64>,
        bundled: Option<bool>,
    },
    /// Tools that the frontend provides and calls.
    Frontend {
        name: String,
        tools: Vec<rmcp::model::Tool>,
        /// How to use these tools.
        instructions: Option<String>,
        bundled: Option<bool>,
    },
    /// Inline Python code.
    InlinePython {
        name: String,
        code: String,
        description: Option<String>,
        timeout: Option<u64>,
        /// Python packages that the code needs.
        dependencies: Option<Vec<String>>,
    },
}


impl ExtensionConfig {
    /// The name of the extension, whatever its kind.
    pub open spec fn spec_name(&self) -> Seq<char> {
        match self {
            ExtensionConfig::Sse { name, .. } => name@,
            ExtensionConfig::StreamableHttp { name, .. } => name@,
            ExtensionConfig::Stdio { name, .. } => name@,
            ExtensionConfig::Builtin { name, .. } => name@,
            ExtensionConfig::Frontend { name, .. } => name@,
            ExtensionConfig::InlinePython { name, .. } => name@,
        }
    }

    /// What giving `args` as the arguments of a process extension makes of
    /// this configuration: other kinds are left as they are.
    pub open spec fn spec_with_args(self, new_args: Vec<String>) -> ExtensionConfig {
        match self {
            ExtensionConfig::Stdio { name, cmd, args, envs, env_keys, timeout, description, bundled } =>
                ExtensionConfig::Stdio { name, cmd, args: new_args, envs, env_keys, timeout, description, bundled },
            other => other,
        }
    }

    /// The summary of this configuration that `to_string` gives.
    pub open spec fn spec_summary(&self) -> Seq<char> {
        match self {
            ExtensionConfig::Sse { name, uri, .. } =>
                "SSE("@ + name@ + ": "@ + uri@ + ")"@,
            ExtensionConfig::StreamableHttp { name, uri, .. } =>
                "StreamableHttp("@ + name@ + ": "@ + uri@ + ")"@,
            ExtensionConfig::Stdio { name, cmd, args, .. } =>
                "Stdio("@ + name@ + ": "@ + cmd@ + " "@ + join(strings_view(args@), " "@) + ")"@,
            ExtensionConfig::Builtin { name, .. } =>
                "Builtin("@ + name@ + ")"@,
            ExtensionConfig::Frontend { name, tools, .. } =>
                "Frontend("@ + name@ + ": "@ + decimal(tools@.len()) + " tools)"@,
            ExtensionConfig::InlinePython { name, code, .. } =>
                "InlinePython("@ + name@ + ": "@ + decimal(encode_utf8(code@).len() as usize as nat) + " chars)"@,
        }
    }

    /// A server-sent events extension with no environment variables.
    pub fn sse(name: &str, uri: &str, description: &str, timeout: u64) -> (r: ExtensionConfig)
        ensures
            r matches ExtensionConfig::Sse { name: n, uri: u, envs, env_keys, description: Some(d), timeout: Some(t), bundled: None }
                && n@ == name@ && u@ == uri@ && envs@ == Map::<Seq<char>, Seq<char>>::empty()
                && env_keys@.len() == 0 && d@ == description@ && t == timeout,
    {
        ExtensionConfig::Sse {
            name: name.to_owned(),
            uri: uri.to_owned(),
            envs: Envs::default(),
            env_keys: Vec::new(),
            description: Some(description.to_owned()),
            timeout: Some(timeout),
            bundled: None,
        }
    }

    /// A streamable HTTP extension with no environment variables or headers.
    pub fn streamable_http(name: &str, uri: &str, description: &str, timeout: u64) -> (r: ExtensionConfig)
        ensures
            r matches ExtensionConfig::StreamableHttp { name: n, uri: u, envs, env_keys, headers, description: Some(d), timeout: Some(t), bundled: None }
                && n@ == name@ && u@ == uri@ && envs@ == Map::<Seq<char>, Seq<char>>::empty()
                && env_keys@.len() == 0 && headers@ == Map::<String, String>::empty()
                && d@ == description@ && t == timeout,
    {
        ExtensionConfig::StreamableHttp {
            name: name.to_owned(),
            uri: uri.to_owned(),
            envs: Envs::default(),
            env_keys: Vec::new(),
            headers: std::collections::HashMap::new(),
            description: Some(description.to_owned()),
            timeout: Some(timeout),
            bundled: None,
        }
    }

    /// A process extension with no arguments and no environment variables.
    pub fn stdio(name: &str, cmd: &str, description: &str, timeout: u64) -> (r: ExtensionConfig)
        ensures
            r matches ExtensionConfig::Stdio { name: n, cmd: c, args, envs, env_keys, description: Some(d), timeout: Some(t), bundled: None }
                && n@ == name@ && c@ == cmd@ && args@.len() == 0
                && envs@ == Map::<Seq<char>, Seq<char>>::empty()
                && env_keys@.len() == 0 && d@ == description@ && t == timeout,
    {
        ExtensionConfig::Stdio {
            name: name.to_owned(),
            cmd: cmd.to_owned(),
            args: Vec::new(),
            envs: Envs::default(),
            env_keys: Vec::new(),
            description: Some(description.to_owned()),
            timeout: Some(timeout),
            bundled: None,
        }
    }

    /// An inline Python extension with no declared dependencies.
    pub fn inline_python(name: &str, code: &str, description: &str, timeout: u64) -> (r: ExtensionConfig)
        ensures
            r matches ExtensionConfig::InlinePython { name: n, code: c, description: Some(d), timeout: Some(t), dependencies: None }
                && n@ == name@ && c@ == code@ && d@ == description@ && t == timeout,
    {
        ExtensionConfig::InlinePython {
            name: name.to_owned(),
            code: code.to_owned(),
            description: Some(description.to_owned()),
            timeout: Some(timeout),
            dependencies: None,
        }
    }

    /// Sets the arguments of a process extension; any other kind of
    /// extension comes back unchanged.
    pub fn with_args(self, args: Vec<String>) -> (r: ExtensionConfig)
        ensures
            r == self.spec_with_args(args),
            !(self is Stdio) ==> r == self,
    {
        match self {
            ExtensionConfig::Stdio { name, cmd, envs, env_keys, timeout, description, bundled, .. } =>
                ExtensionConfig::Stdio { name, cmd, args, envs, env_keys, timeout, description, bundled },
            other => other,
        }
    }

    /// The lookup key of the extension, derived from its name.
    pub fn key(&self) -> (r: String)
        ensures
            r@ == key_of(self.spec_name()),
    {
        let name = self.name();
        name_to_key(name.as_str())
    }

    /// The name of the extension, whatever its kind.
    pub fn name(&self) -> (r: String)
        ensures
            r@ == self.spec_name(),
    {
        match self {
            ExtensionConfig::Sse { name, .. } => name.clone(),
            ExtensionConfig::StreamableHttp { name, .. } => name.clone(),
            ExtensionConfig::Stdio { name, .. } => name.clone(),
            ExtensionConfig::Builtin { name, .. } => name.clone(),
            ExtensionConfig::Frontend { name, .. } => name.clone(),
            ExtensionConfig::InlinePython { name, .. } => name.clone(),
        }
    }

    /// A one-line summary naming the kind, the name and a detail of the
    /// transport, for logs.
    pub fn to_string(&self) -> (r: String)
        ensures
            r@ == self.spec_summary(),
    {
        match self {
            ExtensionConfig::Sse { name, uri, .. } => {
                let mut r = String::from_str("SSE(");
                r.append(name.as_str());
                r.append(": ");
                r.append(uri.as_str());
                r.append(")");
                r
            },
            ExtensionConfig::StreamableHttp { name, uri, .. } => {
                let mut r = String::from_str("StreamableHttp(");
                r.append(name.as_str());
                r.append(": ");
                r.append(uri.as_str());
                r.append(")");
                r
            },
            ExtensionConfig::Stdio { name, cmd, args, .. } => {
                let mut r = String::from_str("Stdio(");
                r.append(name.as_str());
                r.append(": ");
                r.append(cmd.as_str());
                r.append(" ");
                let joined = join_strings(args, " ");
                r.append(joined.as_str());
                r.append(")");
                r
            },
            ExtensionConfig::Builtin { name, .. } => {
                let mut r = String::from_str("Builtin(");
                r.append(name.as_str());
                r.append(")");
                r
            },
            ExtensionConfig::Frontend { name, tools, .. } => {
                let mut r = String::from_str("Frontend(");
                r.append(name.as_str());
                r.append(": ");
                let count = decimal_string(tools.len());
                r.append(count.as_str());
                r.append(" tools)");
                r
            },
            ExtensionConfig::InlinePython { name, code, .. } => {
                let mut r = String::from_str("InlinePython(");
                r.append(name.as_str());
                r.append(": ");
                let count = decimal_string(code.as_str().len());
                r.append(count.as_str());
                r.append(" chars)");
                r
            },
        }
    }
}

impl Default for ExtensionConfig {
    /// The built-in extension used when nothing is configured.
    fn default() -> (r: ExtensionConfig)
        ensures
            r matches ExtensionConfig::Builtin { name, display_name: Some(d), description: None, timeout: Some(t), bundled: Some(true) }
                && name@ == DEFAULT_EXTENSION@ && d@ == DEFAULT_DISPLAY_NAME@ && t == DEFAULT_EXTENSION_TIMEOUT,
    {
        ExtensionConfig::Builtin {
            name: DEFAULT_EXTENSION.to_owned(),
            display_name: Some(DEFAULT_DISPLAY_NAME.to_owned()),
            description: None,
            timeout: Some(DEFAULT_EXTENSION_TIMEOUT),
            bundled: Some(true),
        }
    }
}

} // verus!
