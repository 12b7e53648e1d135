//! The registry of imported plugins and the operations on it.
use vstd::prelude::*;
use crate::dispatch::{plan_execution, planned, Invocation};
use crate::error::{PluginError, PluginErrorKind};
use crate::plugin::{plugins_view, scripts_view, Plugin, PluginScript, PluginView, ScriptView};
use crate::source::PluginSource;
use crate::text::str_equal;

verus! {

/// `i` is the first position of a plugin with id `id`.
pub open spec fn is_first_with_id(ps: Seq<PluginView>, i: int, id: Seq<char>) -> bool {
    &&& 0 <= i < ps.len()
    &&& ps[i].id == id
    &&& forall|j: int| 0 <= j < i ==> ps[j].id != id
}

pub open spec fn has_id(ps: Seq<PluginView>, id: Seq<char>) -> bool {
    exists|j: int| 0 <= j < ps.len() && ps[j].id == id
}

/// `k` is the first position of a script stored at `path`.
pub open spec fn is_first_at_path(ss: Seq<ScriptView>, k: int, path: Seq<char>) -> bool {
    &&& 0 <= k < ss.len()
    &&& ss[k].path == Some(path)
    &&& forall|j: int| 0 <= j < k ==> ss[j].path != Some(path)
}

pub open spec fn has_path(ss: Seq<ScriptView>, path: Seq<char>) -> bool {
    exists|j: int| 0 <= j < ss.len() && ss[j].path == Some(path)
}

pub open spec fn is_error(r: Result<Invocation, PluginError>, kind: PluginErrorKind) -> bool {
    r.is_err() && r->Err_0.kind == kind
}

/// The outcome of running the startup script of plugin `p`.
pub open spec fn startup_outcome(r: Result<Invocation, PluginError>, p: PluginView) -> bool {
    match p.startup {
        None => is_error(r, PluginErrorKind::NoStartupScript),
        Some(s) => match (s.text, s.engine) {
            (Some(text), Some(engine)) => planned(r, text, engine, Seq::empty()),
            (None, _) => is_error(r, PluginErrorKind::NoStartupScript),
            (Some(_), None) => is_error(r, PluginErrorKind::UnsupportedEngine),
        },
    }
}

/// The outcome of running function script `s` with arguments `args`.
pub open spec fn script_outcome(
    r: Result<Invocation, PluginError>,
    s: ScriptView,
    args: Seq<String>,
) -> bool {
    match (s.path, s.text, s.engine) {
        (Some(_), Some(text), Some(engine)) => planned(r, text, engine, args),
        (Some(_), Some(_), None) => is_error(r, PluginErrorKind::UnsupportedEngine),
        _ => is_error(r, PluginErrorKind::ScriptNotFound),
    }
}

/// The outcome of running the function script of plugin `p` stored at `path`.
pub open spec fn function_outcome(
    r: Result<Invocation, PluginError>,
    p: PluginView,
    path: Seq<char>,
    args: Seq<String>,
) -> bool {
    match p.functions {
        None => is_error(r, PluginErrorKind::ScriptNotFound),
        Some(fs) => if has_path(fs, path) {
            forall|k: int| is_first_at_path(fs, k, path) ==> script_outcome(r, fs[k], args)
        } else {
            is_error(r, PluginErrorKind::ScriptNotFound) && r->Err_0.message@ == path
        },
    }
}

/// The plugins of `ps`, each but the first of those sharing an id left out.
pub open spec fn dedup_by_id(ps: Seq<PluginView>) -> Seq<PluginView>
    decreases ps.len(),
{
    if ps.len() == 0 {
        Seq::empty()
    } else {
        let prev = dedup_by_id(ps.drop_last());
        if has_id(prev, ps.last().id) {
            prev
        } else {
            prev.push(ps.last())
        }
    }
}

pub open spec fn ids_unique(ps: Seq<PluginView>) -> bool {
    forall|i: int, j: int| 0 <= i < j < ps.len() ==> ps[i].id != ps[j].id
}

/// The registry of plugins and the remote sources to import from.
#[derive(Debug)]
pub struct PluginManager {
    pub plugins: Vec<Plugin>,
    pub sources: Vec<PluginSource>,
}

impl PluginManager {
    pub open spec fn plugins_seq(&self) -> Seq<PluginView> {
        plugins_view(self.plugins@)
    }

    /// No two plugins of the registry share an id.
    pub open spec fn wf(&self) -> bool {
        ids_unique(self.plugins_seq())
    }

    /// An empty registry with the default plugin source.
    pub fn new() -> (r: PluginManager)
        ensures
            r.plugins@.len() == 0,
            r.wf(),
            r.sources@.len() == 1,
            r.sources@[0].username matches Some(u) && u@ == "ZhichGaming"@,
            r.sources@[0].repository matches Some(u) && u@ == "Project-Raphael-Plugins"@,
            r.sources@[0].branch matches Some(u) && u@ == "debug"@,
    {
        let mut manager = PluginManager { plugins: Vec::new(), sources: Vec::new() };
        let debug_source = PluginSource::new(
            Some(String::from_str("ZhichGaming")),
            Some(String::from_str("Project-Raphael-Plugins")),
            Some(String::from_str("debug")),
        );
        manager.sources.push(debug_source);
        proof {
            assert(manager.plugins_seq() =~= Seq::<PluginView>::empty());
        }
        manager
    }

    /// The position of the first plugin with id `plugin_id`.
    pub fn find_plugin(&self, plugin_id: &str) -> (r: Option<usize>)
        ensures
            r matches Some(i) ==> is_first_with_id(self.plugins_seq(), i as int, plugin_id@),
            r is None ==> !has_id(self.plugins_seq(), plugin_id@),
    {
        let mut i: usize = 0;
        while i < self.plugins.len()
            invariant
                i <= self.plugins@.len(),
                forall|j: int| 0 <= j < i ==> self.plugins_seq()[j].id != plugin_id@,
            decreases self.plugins.len() - i,
        {
            if str_equal(self.plugins[i].id.as_str(), plugin_id) {
                return Some(i);
            }
            i = i + 1;
        }
        None
    }

    /// Replaces the registry's plugins with those of one import pass, in order; a plugin
    /// whose id an earlier one already has is left out.
    pub fn import_plugins(&mut self, found: Vec<Plugin>)
        ensures
            final(self).plugins_seq() == dedup_by_id(plugins_view(found@)),
            final(self).wf(),
            final(self).sources@ == old(self).sources@,
    {
        let ghost all = plugins_view(found@);
        self.plugins = Vec::new();
        let mut rest = found;
        let ghost n = all.len();
        proof {
            assert(self.plugins_seq() =~= dedup_by_id(all.subrange(0, 0)));
        }
        while rest.len() > 0
            invariant
                rest@.len() <= n,
                n == all.len(),
                plugins_view(rest@) == all.subrange(n - rest@.len(), n as int),
                self.plugins_seq() == dedup_by_id(all.subrange(0, n - rest@.len())),
                self.sources@ == old(self).sources@,
            decreases rest.len(),
        {
            let ghost k = n - rest@.len();
            let ghost before = self.plugins@;
            let ghost old_rest = rest@;
            let p = rest.remove(0);
            proof {
                assert(plugins_view(old_rest)[0] == all[k]);
                assert(p == old_rest[0]);
                assert(rest@ =~= old_rest.subrange(1, old_rest.len() as int));
                assert(p@ == all[k]);
                assert forall|j: int| 0 <= j < rest@.len() implies plugins_view(rest@)[j] == all[k
                    + 1 + j] by {
                    assert(rest@[j] == old_rest[j + 1]);
                    assert(plugins_view(old_rest)[j + 1] == all[k + 1 + j]);
                }
                assert(plugins_view(rest@) =~= all.subrange(n - rest@.len(), n as int));
                assert(all.subrange(0, k + 1).drop_last() =~= all.subrange(0, k));
            }
            if self.find_plugin(p.id.as_str()).is_none() {
                self.plugins.push(p);
                proof {
                    assert(self.plugins_seq() =~= plugins_view(before).push(all[k]));
                }
            }
        }
        proof {
            assert(all.subrange(0, n as int) =~= all);
            lemma_dedup_unique(all);
        }
    }

    /// Decides how the startup script of `plugin` is run.
    pub fn execute_startup_script(&self, plugin: &Plugin) -> (r: Result<Invocation, PluginError>)
        ensures
            startup_outcome(r, plugin@),
    {
        let script = match &plugin.startup_script {
            Some(s) => s,
            None => {
                return Err(PluginError::new(PluginErrorKind::NoStartupScript, plugin.name.clone()));
            },
        };
        let code = match &script.script {
            Some(c) => c,
            None => {
                return Err(PluginError::new(PluginErrorKind::NoStartupScript, plugin.name.clone()));
            },
        };
        let engine = match &script.engine {
            Some(e) => e,
            None => {
                return Err(PluginError::new(PluginErrorKind::UnsupportedEngine, String::new()));
            },
        };
        let no_args: Vec<String> = Vec::new();
        plan_execution(code.as_str(), engine.as_str(), &no_args)
    }

    /// Decides how the startup script of the plugin with id `plugin_id` is run. An id that is
    /// not in the registry is an error, and nothing is to be run.
    pub fn execute_startup_script_from_id(&self, plugin_id: &str) -> (r: Result<
        Invocation,
        PluginError,
    >)
        ensures
            !has_id(self.plugins_seq(), plugin_id@) ==> is_error(r, PluginErrorKind::NotFound)
                && r->Err_0.message@ == plugin_id@,
            forall|i: int|
                is_first_with_id(self.plugins_seq(), i, plugin_id@) ==> startup_outcome(
                    r,
                    #[trigger] self.plugins_seq()[i],
                ),
    {
        match self.find_plugin(plugin_id) {
            Some(i) => self.execute_startup_script(&self.plugins[i]),
            None => Err(PluginError::new(PluginErrorKind::NotFound, String::from_str(plugin_id))),
        }
    }

    /// Decides how the function script `plugin_script` of `plugin` is run with `args`.
    pub fn execute_function_script(
        &self,
        plugin: &Plugin,
        plugin_script: &PluginScript,
        args: &Vec<String>,
    ) -> (r: Result<Invocation, PluginError>)
        ensures
            script_outcome(r, plugin_script@, args@),
    {
        let path = match &plugin_script.path {
            Some(p) => p,
            None => {
                return Err(PluginError::new(PluginErrorKind::ScriptNotFound, plugin.name.clone()));
            },
        };
        let code = match &plugin_script.script {
            Some(c) => c,
            None => {
                return Err(PluginError::new(PluginErrorKind::ScriptNotFound, path.clone()));
            },
        };
        let engine = match &plugin_script.engine {
            Some(e) => e,
            None => {
                return Err(PluginError::new(PluginErrorKind::UnsupportedEngine, String::new()));
            },
        };
        plan_execution(code.as_str(), engine.as_str(), args)
    }

    /// Decides how the function script stored at `function_path` of the plugin with id
    /// `plugin_id` is run with `args`.
    pub fn execute_function_script_from_id(
        &self,
        plugin_id: &str,
        function_path: &str,
        args: &Vec<String>,
    ) -> (r: Result<Invocation, PluginError>)
        ensures
            !has_id(self.plugins_seq(), plugin_id@) ==> is_error(r, PluginErrorKind::NotFound)
                && r->Err_0.message@ == plugin_id@,
            forall|i: int|
                is_first_with_id(self.plugins_seq(), i, plugin_id@) ==> function_outcome(
                    r,
                    #[trigger] self.plugins_seq()[i],
                    function_path@,
                    args@,
                ),
    {
        let i = match self.find_plugin(plugin_id) {
            Some(i) => i,
            None => {
                return Err(PluginError::new(PluginErrorKind::NotFound, String::from_str(plugin_id)));
            },
        };
        let plugin = &self.plugins[i];
        let functions = match &plugin.function_scripts {
            Some(f) => f,
            None => {
                return Err(
                    PluginError::new(PluginErrorKind::ScriptNotFound, String::from_str(function_path)),
                );
            },
        };
        proof {
            assert forall|i2: int| is_first_with_id(self.plugins_seq(), i2, plugin_id@) implies i2
                == i by {
                if i2 < i {
                } else if i < i2 {
                }
            }
        }
        let ghost pv = self.plugins_seq()[i as int];
        let mut k: usize = 0;
        while k < functions.len()
            invariant
                k <= functions@.len(),
                pv == plugin@,
                pv.functions == Some(scripts_view(functions@)),
                has_id(self.plugins_seq(), plugin_id@),
                forall|i2: int| is_first_with_id(self.plugins_seq(), i2, plugin_id@) ==> i2 == i,
                pv == self.plugins_seq()[i as int],
                forall|j: int| 0 <= j < k ==> functions@[j]@.path != Some(function_path@),
            decreases functions.len() - k,
        {
            let matched = match &functions[k].path {
                Some(p) => str_equal(p.as_str(), function_path),
                None => false,
            };
            if matched {
                proof {
                    let fs = pv.functions.unwrap();
                    assert(fs[k as int] == functions@[k as int]@);
                    assert(is_first_at_path(fs, k as int, function_path@));
                    assert forall|k2: int| is_first_at_path(fs, k2, function_path@) implies k2
                        == k by {
                        if k2 < k {
                            assert(fs[k2] == functions@[k2]@);
                        }
                    }
                }
                return self.execute_function_script(plugin, &functions[k], args);
            }
            k = k + 1;
        }
        proof {
            let fs = pv.functions.unwrap();
            assert forall|j: int| 0 <= j < fs.len() implies fs[j].path != Some(function_path@) by {
                assert(fs[j] == functions@[j]@);
            }
        }
        Err(PluginError::new(PluginErrorKind::ScriptNotFound, String::from_str(function_path)))
    }
}

proof fn lemma_dedup_unique(ps: Seq<PluginView>)
    ensures
        ids_unique(dedup_by_id(ps)),
    decreases ps.len(),
{
    if ps.len() > 0 {
        lemma_dedup_unique(ps.drop_last());
        let prev = dedup_by_id(ps.drop_last());
        if !has_id(prev, ps.last().id) {
            let d = prev.push(ps.last());
            assert forall|i: int, j: int| 0 <= i < j < d.len() implies d[i].id != d[j].id by {
                if j == d.len() - 1 {
                    assert(d[i] == prev[i]);
                } else {
                    assert(d[i] == prev[i] && d[j] == prev[j]);
                }
            }
        }
    }
}

/// A function script whose engine tag is `sh` is never run: whatever its text and
/// arguments, running it fails with an unsupported-engine error.
pub proof fn lemma_shell_scripts_refused(
    r: Result<Invocation, PluginError>,
    s: ScriptView,
    args: Seq<String>,
)
    requires
        script_outcome(r, s, args),
        s.path is Some,
        s.text is Some,
        s.engine == Some("sh"@),
    ensures
        is_error(r, PluginErrorKind::UnsupportedEngine),
{
    reveal_strlit("sh");
    reveal_strlit("py");
    reveal_strlit("js");
    assert("sh"@[0] != "py"@[0]);
    assert("sh"@[0] != "js"@[0]);
    assert("sh"@ != "py"@);
    assert("sh"@ != "js"@);
}

} // verus!
