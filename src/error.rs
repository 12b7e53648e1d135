//! The error taxonomy of the plugin runtime.
use vstd::prelude::*;

verus! {

/// What went wrong.
#[derive(Debug, Clone, Copy, PartialEq, Eq, Structural)]
pub enum PluginErrorKind {
    /// A missing or malformed `info.json`, or a malformed scripts directory.
    Manifest,
    /// No plugin with the requested id is in the registry.
    NotFound,
    /// The plugin has no function script at the requested path.
    ScriptNotFound,
    /// The plugin has no startup script.
    NoStartupScript,
    /// The script's engine tag cannot be executed.
    UnsupportedEngine,
    /// A remote source lacks an owner, a repository or a branch.
    IncompleteSource,
    /// A remote fetch failed.
    Network,
    /// The interpreter could not be spawned or exited abnormally.
    Execution,
}

/// The name of an error kind.
pub open spec fn kind_label(kind: PluginErrorKind) -> Seq<char> {
    match kind {
        PluginErrorKind::Manifest => "manifest error"@,
        PluginErrorKind::NotFound => "plugin not found"@,
        PluginErrorKind::ScriptNotFound => "script not found"@,
        PluginErrorKind::NoStartupScript => "no startup script"@,
        PluginErrorKind::UnsupportedEngine => "unsupported engine"@,
        PluginErrorKind::IncompleteSource => "incomplete source"@,
        PluginErrorKind::Network => "network error"@,
        PluginErrorKind::Execution => "execution error"@,
    }
}

impl PluginErrorKind {
    pub fn label(&self) -> (r: &'static str)
        ensures
            r@ == kind_label(*self),
    {
        match self {
            PluginErrorKind::Manifest => "manifest error",
            PluginErrorKind::NotFound => "plugin not found",
            PluginErrorKind::ScriptNotFound => "script not found",
            PluginErrorKind::NoStartupScript => "no startup script",
            PluginErrorKind::UnsupportedEngine => "unsupported engine",
            PluginErrorKind::IncompleteSource => "incomplete source",
            PluginErrorKind::Network => "network error",
            PluginErrorKind::Execution => "execution error",
        }
    }
}

/// An error of the plugin runtime: its kind and the value it concerns.
#[derive(Debug)]
pub struct PluginError {
    pub kind: PluginErrorKind,
    pub message: String,
}

impl PluginError {
    pub fn new(kind: PluginErrorKind, message: String) -> (r: PluginError)
        ensures
            r.kind == kind,
            r.message@ == message@,
    {
        PluginError { kind, message }
    }

    /// `PluginError: <kind>: <message>`.
    pub fn to_string(&self) -> (r: String)
        ensures
            r@ == "PluginError: "@ + kind_label(self.kind) + ": "@ + self.message@,
    {
        String::from_str("PluginError: ").concat(self.kind.label()).concat(": ").concat(
            self.message.as_str(),
        )
    }

    /// An error whose message is a fixed text.
    pub fn with_text(kind: PluginErrorKind, message: &str) -> (r: PluginError)
        ensures
            r.kind == kind,
            r.message@ == message@,
    {
        PluginError { kind, message: String::from_str(message) }
    }
}

} // verus!
