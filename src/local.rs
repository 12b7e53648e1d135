//! Building a plugin from a local plugin directory.
use vstd::prelude::*;
use crate::plugin::{
    clone_opt, files_view, script_of, scripts_view, Manifest, ManifestView, Plugin,
    PluginScript, PluginView, ScriptFile, ScriptView,
};
use crate::text::{extension, extension_of, has_prefix, is_hidden, is_hidden_name};

verus! {

/// A script file whose name starts with `start` is a startup script.
pub open spec fn is_startup_name(name: Seq<char>) -> bool {
    "start"@.is_prefix_of(name)
}

/// Where a script named `name` of the plugin at `dir` lives.
pub open spec fn script_path_of(dir: Seq<char>, name: Seq<char>) -> Seq<char> {
    dir + "/scripts/"@ + name
}

/// The name of the startup script made for a plugin that has none.
pub open spec fn default_startup_name() -> Seq<char> {
    "start.js"@
}

/// The index of the first startup script among the files of a scripts directory.
pub open spec fn first_startup(files: Seq<(Seq<char>, Seq<char>)>) -> Option<int>
    decreases files.len(),
{
    if files.len() == 0 {
        None
    } else {
        match first_startup(files.drop_last()) {
            Some(i) => Some(i),
            None => if is_startup_name(files.last().0) {
                Some(files.len() - 1)
            } else {
                None
            },
        }
    }
}

pub(crate) proof fn lemma_first_startup(files: Seq<(Seq<char>, Seq<char>)>)
    ensures
        first_startup(files) matches Some(k) ==> 0 <= k < files.len() && is_startup_name(
            files[k].0,
        ),
        first_startup(files) is None ==> forall|j: int|
            0 <= j < files.len() ==> !is_startup_name(#[trigger] files[j].0),
    decreases files.len(),
{
    if files.len() > 0 {
        lemma_first_startup(files.drop_last());
        if first_startup(files.drop_last()) is None {
            assert forall|j: int| 0 <= j < files.len() - 1 implies !is_startup_name(
                #[trigger] files[j].0,
            ) by {
                assert(files[j] == files.drop_last()[j]);
            }
        }
    }
}

/// The script made of a file of the scripts directory of the plugin at `dir`.
pub open spec fn file_script(dir: Seq<char>, file: (Seq<char>, Seq<char>)) -> ScriptView {
    script_of(script_path_of(dir, file.0), file.1, extension_of(file.0))
}

/// The startup script: the first file whose name starts with `start`, or an empty `start.js`.
pub open spec fn startup_of(dir: Seq<char>, files: Seq<(Seq<char>, Seq<char>)>) -> ScriptView {
    match first_startup(files) {
        Some(i) => file_script(dir, files[i]),
        None => script_of(script_path_of(dir, default_startup_name()), Seq::empty(), "js"@),
    }
}

/// The function scripts: every file that is neither hidden nor a startup script, in order.
pub open spec fn function_scripts_of(dir: Seq<char>, files: Seq<(Seq<char>, Seq<char>)>) -> Seq<
    ScriptView,
>
    decreases files.len(),
{
    if files.len() == 0 {
        Seq::empty()
    } else {
        let prev = function_scripts_of(dir, files.drop_last());
        let f = files.last();
        if is_hidden_name(f.0) || is_startup_name(f.0) {
            prev
        } else {
            prev.push(file_script(dir, f))
        }
    }
}

/// The plugin that a local directory `dir` with manifest `m` and script files `files` gives.
pub open spec fn local_plugin(
    dir: Seq<char>,
    m: ManifestView,
    files: Seq<(Seq<char>, Seq<char>)>,
) -> PluginView {
    PluginView {
        name: m.name,
        id: m.id,
        version: m.version,
        local_path: Some(dir),
        remote_url: m.remote_url,
        startup: Some(startup_of(dir, files)),
        functions: Some(function_scripts_of(dir, files)),
    }
}

/// The result of importing one local plugin directory.
#[derive(Debug)]
pub struct LocalImport {
    pub plugin: Plugin,
    /// The path of an empty startup script to create, for a plugin that has none.
    pub create_startup: Option<String>,
}

/// The path of script `name` under the plugin directory `dir`.
pub fn script_path(dir: &str, name: &str) -> (r: String)
    ensures
        r@ == script_path_of(dir@, name@),
{
    String::from_str(dir).concat("/scripts/").concat(name)
}

/// True for a file name starting with `start`.
pub fn is_startup_file(name: &str) -> (r: bool)
    ensures
        r == is_startup_name(name@),
{
    has_prefix(name, "start")
}

fn script_from_file(dir: &str, file: &ScriptFile) -> (r: PluginScript)
    ensures
        r@ == file_script(dir@, (file.name@, file.text@)),
{
    PluginScript::new(
        script_path(dir, file.name.as_str()),
        file.text.clone(),
        extension(file.name.as_str()),
    )
}

/// Builds the plugin of the local directory `plugin_path` from its manifest and the files of
/// its `scripts/` directory. When no file there starts with `start`, the startup script is an
/// empty `start.js`, and the result names the file to create for it.
pub fn import_plugin_from_local(plugin_path: &str, manifest: &Manifest, files: &Vec<ScriptFile>) -> (r:
    LocalImport)
    ensures
        r.plugin@ == local_plugin(plugin_path@, manifest@, files_view(files@)),
        first_startup(files_view(files@)).is_some() ==> r.create_startup.is_none(),
        first_startup(files_view(files@)).is_none() ==> r.create_startup.is_some()
            && r.create_startup.unwrap()@ == script_path_of(plugin_path@, default_startup_name()),
{
    let ghost dir = plugin_path@;
    let mut startup: Option<PluginScript> = None;
    let mut functions: Vec<PluginScript> = Vec::new();
    let mut i: usize = 0;
    while i < files.len()
        invariant
            i <= files.len(),
            dir == plugin_path@,
            ({
                let fs = files_view(files@).subrange(0, i as int);
                &&& scripts_view(functions@) == function_scripts_of(dir, fs)
                &&& match first_startup(fs) {
                    Some(k) => startup.is_some() && startup.unwrap()@ == file_script(dir, fs[k]),
                    None => startup.is_none(),
                }
            }),
        decreases files.len() - i,
    {
        let ghost prev_fs = files_view(files@).subrange(0, i as int);
        let ghost prev_functions = functions@;
        let ghost next_fs = files_view(files@).subrange(0, i + 1);
        let file = &files[i];
        let ghost entry = (file.name@, file.text@);
        proof {
            assert(next_fs.drop_last() =~= prev_fs);
            assert(files_view(files@)[i as int] == entry);
            assert(next_fs.last() == entry);
            lemma_first_startup(prev_fs);
        }
        if is_startup_file(file.name.as_str()) {
            if startup.is_none() {
                startup = Some(script_from_file(plugin_path, file));
            }
        } else if !is_hidden(file.name.as_str()) {
            let s = script_from_file(plugin_path, file);
            functions.push(s);
            proof {
                assert(functions@ == prev_functions.push(s));
                assert(scripts_view(functions@) =~= scripts_view(prev_functions).push(s@));
                assert(s@ == file_script(plugin_path@, (file.name@, file.text@)));
                assert(dir == plugin_path@);
                assert(entry == (file.name@, file.text@));
                assert(scripts_view(prev_functions) == function_scripts_of(dir, prev_fs));
            }
        }
        proof {
            assert(next_fs.len() == i + 1);
            assert(function_scripts_of(dir, next_fs) == (if is_hidden_name(entry.0)
                || is_startup_name(entry.0) {
                function_scripts_of(dir, prev_fs)
            } else {
                function_scripts_of(dir, prev_fs).push(file_script(dir, entry))
            }));
            assert(scripts_view(functions@) == function_scripts_of(dir, next_fs));
            match first_startup(prev_fs) {
                Some(k) => {
                    assert(next_fs[k] == prev_fs[k]);
                    assert(first_startup(next_fs) == Some(k));
                },
                None => {
                    if is_startup_name(entry.0) {
                        assert(first_startup(next_fs) == Some(i as int));
                        assert(next_fs[i as int] == entry);
                    } else {
                        assert(first_startup(next_fs) is None);
                    }
                },
            }
        }
        i = i + 1;
    }
    proof {
        assert(files_view(files@).subrange(0, files@.len() as int) =~= files_view(files@));
    }
    let (startup, create_startup) = match startup {
        Some(s) => (s, None),
        None => {
            let path = script_path(plugin_path, "start.js");
            (
                PluginScript::new(path.clone(), String::new(), String::from_str("js")),
                Some(path),
            )
        },
    };
    let plugin = Plugin {
        name: manifest.name.clone(),
        id: manifest.id.clone(),
        version: clone_opt(&manifest.version),
        local_path: Some(String::from_str(plugin_path)),
        remote_url: clone_opt(&manifest.remote_url),
        startup_script: Some(startup),
        function_scripts: Some(functions),
    };
    proof {
        assert(plugin@.startup == local_plugin(plugin_path@, manifest@, files_view(files@)).startup);
        assert(plugin@ == local_plugin(plugin_path@, manifest@, files_view(files@)));
    }
    LocalImport { plugin, create_startup }
}

proof fn lemma_default_startup_name()
    ensures
        extension_of(default_startup_name()) == "js"@,
        is_startup_name(default_startup_name()),
        !is_hidden_name(default_startup_name()),
{
    reveal_strlit("start.js");
    reveal_strlit("start");
    reveal_strlit("js");
    let s = default_startup_name();
    assert(s.subrange(0, 5) =~= "start"@);
    assert(s.drop_last().drop_last() =~= s.subrange(0, 6));
    assert(extension_of(s.subrange(0, 6)) == Seq::<char>::empty());
    assert(s.drop_last() =~= s.subrange(0, 7));
    assert(extension_of(s.subrange(0, 7)) =~= seq!['j']);
    assert(extension_of(s) =~= seq!['j', 's']);
}

/// Importing a plugin directory a second time, once the empty `start.js` that the first
/// import asked for exists, gives the same plugin, and asks for nothing more.
pub proof fn lemma_reimport_is_stable(
    dir: Seq<char>,
    m: ManifestView,
    files: Seq<(Seq<char>, Seq<char>)>,
)
    ensures
        ({
            let again = if first_startup(files) is None {
                files.push((default_startup_name(), Seq::empty()))
            } else {
                files
            };
            &&& first_startup(again) is Some
            &&& local_plugin(dir, m, again) == local_plugin(dir, m, files)
        }),
{
    if first_startup(files) is None {
        lemma_default_startup_name();
        let again = files.push((default_startup_name(), Seq::<char>::empty()));
        assert(again.drop_last() =~= files);
        assert(first_startup(again) == Some(files.len() as int));
        assert(function_scripts_of(dir, again) == function_scripts_of(dir, files));
        assert(startup_of(dir, again) == startup_of(dir, files));
    }
}

proof fn lemma_script_path_injective(dir: Seq<char>, a: Seq<char>, b: Seq<char>)
    requires
        script_path_of(dir, a) == script_path_of(dir, b),
    ensures
        a == b,
{
    let p = dir + "/scripts/"@;
    assert(script_path_of(dir, a) == p + a);
    assert(script_path_of(dir, b) == p + b);
    assert((p + a).subrange(p.len() as int, (p + a).len() as int) =~= a);
    assert((p + b).subrange(p.len() as int, (p + b).len() as int) =~= b);
}

proof fn lemma_function_paths_from_names(dir: Seq<char>, files: Seq<(Seq<char>, Seq<char>)>)
    ensures
        forall|k: int|
            0 <= k < function_scripts_of(dir, files).len() ==> exists|j: int|
                0 <= j < files.len() && (#[trigger] function_scripts_of(dir, files)[k]).path
                    == Some(script_path_of(dir, files[j].0)),
    decreases files.len(),
{
    if files.len() > 0 {
        let prev = files.drop_last();
        lemma_function_paths_from_names(dir, prev);
        let fs = function_scripts_of(dir, files);
        let pf = function_scripts_of(dir, prev);
        assert forall|k: int| 0 <= k < fs.len() implies exists|j: int|
            0 <= j < files.len() && (#[trigger] fs[k]).path == Some(script_path_of(dir, files[j].0)) by {
            if k < pf.len() {
                assert(fs[k] == pf[k]);
                let j = choose|j: int| 0 <= j < prev.len() && pf[k].path == Some(script_path_of(dir, prev[j].0));
                assert(files[j] == prev[j]);
            } else {
                assert(fs[k].path == Some(script_path_of(dir, files[files.len() - 1].0)));
            }
        }
    }
}

/// In a scripts directory, where no two files share a name, no two function scripts share a
/// path: looking a function script up by its path finds exactly one.
pub proof fn lemma_function_paths_distinct(dir: Seq<char>, files: Seq<(Seq<char>, Seq<char>)>)
    requires
        forall|i: int, j: int| 0 <= i < j < files.len() ==> files[i].0 != files[j].0,
    ensures
        forall|i: int, j: int|
            0 <= i < j < function_scripts_of(dir, files).len() ==> function_scripts_of(dir, files)[i].path
                != function_scripts_of(dir, files)[j].path,
    decreases files.len(),
{
    if files.len() > 0 {
        let prev = files.drop_last();
        let last = files[files.len() - 1];
        lemma_function_paths_distinct(dir, prev);
        lemma_function_paths_from_names(dir, prev);
        let fs = function_scripts_of(dir, files);
        let pf = function_scripts_of(dir, prev);
        assert forall|i: int, j: int| 0 <= i < j < fs.len() implies fs[i].path != fs[j].path by {
            if j < pf.len() {
                assert(fs[i] == pf[i] && fs[j] == pf[j]);
            } else {
                assert(fs[i] == pf[i]);
                let m = choose|m: int| 0 <= m < prev.len() && (#[trigger] pf[i]).path == Some(script_path_of(dir, prev[m].0));
                assert(prev[m] == files[m]);
                if fs[i].path == fs[j].path {
                    lemma_script_path_injective(dir, prev[m].0, last.0);
                }
            }
        }
    }
}

} // verus!
