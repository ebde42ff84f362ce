//! What prompts are built from: the extensions and tools that are available.

use vstd::prelude::*;
use vstd::string::*;

verus! {

/// How a tool may be run without asking the user.
#[derive(Debug, Clone, Copy, PartialEq, Eq, Structural)]
pub enum PermissionLevel {
    /// Run without asking.
    AlwaysAllow,
    /// Ask the user each time.
    AskBefore,
    /// Never run.
    NeverAllow,
}

/// An extension as a prompt describes it.
#[derive(Clone, Debug)]
pub struct ExtensionInfo {
    pub name: String,
    pub instructions: String,
    pub has_resources: bool,
}

impl ExtensionInfo {
    pub fn new(name: &str, instructions: &str, has_resources: bool) -> (r: ExtensionInfo)
        ensures
            r.name@ == name@,
            r.instructions@ == instructions@,
            r.has_resources == has_resources,
    {
        ExtensionInfo { name: name.to_owned(), instructions: instructions.to_owned(), has_resources }
    }
}

/// A tool as a prompt describes it.
#[derive(Clone, Debug)]
pub struct ToolInfo {
    pub name: String,
    pub description: String,
    pub parameters: Vec<String>,
    pub permission: Option<PermissionLevel>,
}

impl ToolInfo {
    pub fn new(
        name: &str,
        description: &str,
        parameters: Vec<String>,
        permission: Option<PermissionLevel>,
    ) -> (r: ToolInfo)
        ensures
            r.name@ == name@,
            r.description@ == description@,
            r.parameters == parameters,
            r.permission == permission,
    {
        ToolInfo { name: name.to_owned(), description: description.to_owned(), parameters, permission }
    }
}

} // verus!
