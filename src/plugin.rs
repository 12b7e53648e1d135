//! Scripts and plugins, with their mathematical views.
use vstd::prelude::*;

verus! {

/// One script: where its text lives, the text, and the engine tag taken from its extension.
#[derive(Debug, Clone)]
pub struct PluginScript {
    pub path: Option<String>,
    pub script: Option<String>,
    pub engine: Option<String>,
}

/// The view of a script.
pub struct ScriptView {
    pub path: Option<Seq<char>>,
    pub text: Option<Seq<char>>,
    pub engine: Option<Seq<char>>,
}

pub open spec fn opt_view(s: Option<String>) -> Option<Seq<char>> {
    match s {
        Some(v) => Some(v@),
        None => None,
    }
}

impl View for PluginScript {
    type V = ScriptView;

    open spec fn view(&self) -> ScriptView {
        ScriptView {
            path: opt_view(self.path),
            text: opt_view(self.script),
            engine: opt_view(self.engine),
        }
    }
}

/// A script whose three fields are all set.
pub open spec fn script_of(path: Seq<char>, text: Seq<char>, engine: Seq<char>) -> ScriptView {
    ScriptView { path: Some(path), text: Some(text), engine: Some(engine) }
}

pub open spec fn scripts_view(v: Seq<PluginScript>) -> Seq<ScriptView> {
    v.map_values(|s: PluginScript| s@)
}

impl PluginScript {
    pub fn new(path: String, script: String, engine: String) -> (r: PluginScript)
        ensures
            r@ == script_of(path@, script@, engine@),
    {
        PluginScript { path: Some(path), script: Some(script), engine: Some(engine) }
    }
}

/// A plugin: identity, version, provenance and scripts.
#[derive(Debug)]
pub struct Plugin {
    /// The human-readable name; not unique.
    pub name: String,
    /// The registry key.
    pub id: String,
    /// The version, for display only.
    pub version: Option<String>,
    /// The root directory of the plugin once it is stored locally.
    pub local_path: Option<String>,
    /// Where the manifest was fetched from, if anywhere.
    pub remote_url: Option<String>,
    pub startup_script: Option<PluginScript>,
    pub function_scripts: Option<Vec<PluginScript>>,
}

/// The view of a plugin.
pub struct PluginView {
    pub name: Seq<char>,
    pub id: Seq<char>,
    pub version: Option<Seq<char>>,
    pub local_path: Option<Seq<char>>,
    pub remote_url: Option<Seq<char>>,
    pub startup: Option<ScriptView>,
    pub functions: Option<Seq<ScriptView>>,
}

impl View for Plugin {
    type V = PluginView;

    open spec fn view(&self) -> PluginView {
        PluginView {
            name: self.name@,
            id: self.id@,
            version: opt_view(self.version),
            local_path: opt_view(self.local_path),
            remote_url: opt_view(self.remote_url),
            startup: match self.startup_script {
                Some(s) => Some(s@),
                None => None,
            },
            functions: match self.function_scripts {
                Some(v) => Some(scripts_view(v@)),
                None => None,
            },
        }
    }
}

pub open spec fn plugins_view(v: Seq<Plugin>) -> Seq<PluginView> {
    v.map_values(|p: Plugin| p@)
}

/// The fields of a plugin manifest (`info.json`).
#[derive(Debug)]
pub struct Manifest {
    pub name: String,
    pub id: String,
    pub version: Option<String>,
    pub remote_url: Option<String>,
}

/// The view of a manifest.
pub struct ManifestView {
    pub name: Seq<char>,
    pub id: Seq<char>,
    pub version: Option<Seq<char>>,
    pub remote_url: Option<Seq<char>>,
}

impl View for Manifest {
    type V = ManifestView;

    open spec fn view(&self) -> ManifestView {
        ManifestView {
            name: self.name@,
            id: self.id@,
            version: opt_view(self.version),
            remote_url: opt_view(self.remote_url),
        }
    }
}

/// A file of a plugin's `scripts/` directory: its name and its text.
#[derive(Debug)]
pub struct ScriptFile {
    pub name: String,
    pub text: String,
}

pub open spec fn files_view(v: Seq<ScriptFile>) -> Seq<(Seq<char>, Seq<char>)> {
    v.map_values(|f: ScriptFile| (f.name@, f.text@))
}

/// Copies an optional string.
pub fn clone_opt(s: &Option<String>) -> (r: Option<String>)
    ensures
        opt_view(r) == opt_view(*s),
{
    match s {
        Some(v) => Some(v.clone()),
        None => None,
    }
}

} // verus!
