//! Reconciling the local plugin directory with a remote source.
use vstd::prelude::*;
use crate::json::{listing_view, ListingEntry};
use crate::local::{
    default_startup_name, first_startup, function_scripts_of, import_plugin_from_local, is_startup_name, lemma_first_startup,
    lemma_reimport_is_stable, local_plugin, script_path, script_path_of, startup_of,
};
use crate::plugin::{files_view, ManifestView, Manifest, Plugin, PluginView, ScriptFile};
use crate::text::{is_hidden, is_hidden_name, is_plain_name, is_plain_name_spec, str_equal};

verus! {

pub open spec fn names_view(v: Seq<String>) -> Seq<Seq<char>> {
    v.map_values(|s: String| s@)
}

/// A listing entry that is a plugin directory not yet installed locally.
pub open spec fn is_new_plugin_dir(entry: (Seq<char>, Seq<char>), installed: Seq<Seq<char>>) -> bool {
    entry.1 == "dir"@ && is_plain_name_spec(entry.0) && !installed.contains(entry.0)
}

/// The names of the plugin directories of a listing that are not installed locally, in order.
pub open spec fn new_plugin_dirs(
    listing: Seq<(Seq<char>, Seq<char>)>,
    installed: Seq<Seq<char>>,
) -> Seq<Seq<char>>
    decreases listing.len(),
{
    if listing.len() == 0 {
        Seq::empty()
    } else {
        let prev = new_plugin_dirs(listing.drop_last(), installed);
        if is_new_plugin_dir(listing.last(), installed) {
            prev.push(listing.last().0)
        } else {
            prev
        }
    }
}

/// The names of the script files of a listing, in order; a name that is not one visible path
/// component is left out.
pub open spec fn script_names_of(listing: Seq<(Seq<char>, Seq<char>)>) -> Seq<Seq<char>>
    decreases listing.len(),
{
    if listing.len() == 0 {
        Seq::empty()
    } else {
        let prev = script_names_of(listing.drop_last());
        let e = listing.last();
        if e.1 == "file"@ && is_plain_name_spec(e.0) {
            prev.push(e.0)
        } else {
            prev
        }
    }
}

/// True when `name` is one of `names`.
pub fn contains_name(names: &Vec<String>, name: &str) -> (r: bool)
    ensures
        r == names_view(names@).contains(name@),
{
    let mut i: usize = 0;
    while i < names.len()
        invariant
            i <= names.len(),
            forall|j: int| 0 <= j < i ==> names@[j]@ != name@,
        decreases names.len() - i,
    {
        if str_equal(names[i].as_str(), name) {
            assert(names_view(names@)[i as int] == name@);
            return true;
        }
        i = i + 1;
    }
    proof {
        if names_view(names@).contains(name@) {
            let j = choose|j: int| 0 <= j < names_view(names@).len() && names_view(names@)[j] == name@;
            assert(names@[j]@ == name@);
        }
    }
    false
}

/// The plugin directories that a source lists and that are not installed locally: a plugin
/// present locally always wins over a remote one of the same name.
pub fn remote_plugin_dirs(listing: &Vec<ListingEntry>, installed: &Vec<String>) -> (r: Vec<String>)
    ensures
        names_view(r@) == new_plugin_dirs(listing_view(listing@), names_view(installed@)),
{
    let ghost inst = names_view(installed@);
    let mut r: Vec<String> = Vec::new();
    let mut i: usize = 0;
    while i < listing.len()
        invariant
            i <= listing.len(),
            inst == names_view(installed@),
            names_view(r@) == new_plugin_dirs(listing_view(listing@).subrange(0, i as int), inst),
        decreases listing.len() - i,
    {
        let ghost prev = r@;
        let ghost sub = listing_view(listing@).subrange(0, i + 1);
        proof {
            assert(sub.drop_last() =~= listing_view(listing@).subrange(0, i as int));
            assert(sub.last() == (listing@[i as int].name@, listing@[i as int].kind@));
        }
        let e = &listing[i];
        if str_equal(e.kind.as_str(), "dir") && is_plain_name(e.name.as_str()) && !contains_name(
            installed,
            e.name.as_str(),
        ) {
            r.push(e.name.clone());
            proof {
                assert(names_view(r@) =~= names_view(prev).push(e.name@));
            }
        }
        i = i + 1;
    }
    proof {
        assert(listing_view(listing@).subrange(0, listing@.len() as int) =~= listing_view(listing@));
    }
    r
}

/// The names of the script files that a `scripts/` listing of a source offers.
pub fn remote_script_names(listing: &Vec<ListingEntry>) -> (r: Vec<String>)
    ensures
        names_view(r@) == script_names_of(listing_view(listing@)),
{
    let mut r: Vec<String> = Vec::new();
    let mut i: usize = 0;
    while i < listing.len()
        invariant
            i <= listing.len(),
            names_view(r@) == script_names_of(listing_view(listing@).subrange(0, i as int)),
        decreases listing.len() - i,
    {
        let ghost prev = r@;
        let ghost sub = listing_view(listing@).subrange(0, i + 1);
        proof {
            assert(sub.drop_last() =~= listing_view(listing@).subrange(0, i as int));
            assert(sub.last() == (listing@[i as int].name@, listing@[i as int].kind@));
        }
        let e = &listing[i];
        if str_equal(e.kind.as_str(), "file") && is_plain_name(e.name.as_str()) {
            r.push(e.name.clone());
            proof {
                assert(names_view(r@) =~= names_view(prev).push(e.name@));
            }
        }
        i = i + 1;
    }
    proof {
        assert(listing_view(listing@).subrange(0, listing@.len() as int) =~= listing_view(listing@));
    }
    r
}

/// Every plugin directory chosen for installation is absent locally.
pub proof fn lemma_local_plugins_win(
    listing: Seq<(Seq<char>, Seq<char>)>,
    installed: Seq<Seq<char>>,
)
    ensures
        forall|k: int|
            0 <= k < new_plugin_dirs(listing, installed).len() ==> !installed.contains(
                #[trigger] new_plugin_dirs(listing, installed)[k],
            ),
    decreases listing.len(),
{
    if listing.len() > 0 {
        let prev = new_plugin_dirs(listing.drop_last(), installed);
        lemma_local_plugins_win(listing.drop_last(), installed);
        assert forall|k: int|
            0 <= k < new_plugin_dirs(listing, installed).len() implies !installed.contains(
                #[trigger] new_plugin_dirs(listing, installed)[k],
            ) by {
            if k < prev.len() {
                assert(new_plugin_dirs(listing, installed)[k] == prev[k]);
            }
        }
    }
}

/// A file to write: its path and its whole content.
#[derive(Debug)]
pub struct FileWrite {
    pub path: String,
    pub contents: String,
}

pub open spec fn writes_view(v: Seq<FileWrite>) -> Seq<(Seq<char>, Seq<char>)> {
    v.map_values(|w: FileWrite| (w.path@, w.contents@))
}

/// The fetched script files that are not hidden, in order.
pub open spec fn kept_files(files: Seq<(Seq<char>, Seq<char>)>) -> Seq<(Seq<char>, Seq<char>)>
    decreases files.len(),
{
    if files.len() == 0 {
        Seq::empty()
    } else {
        let prev = kept_files(files.drop_last());
        if is_hidden_name(files.last().0) {
            prev
        } else {
            prev.push(files.last())
        }
    }
}

/// The script files stored for a remote plugin: the kept ones, and an empty `start.js` when
/// none of them is a startup script.
pub open spec fn stored_files(files: Seq<(Seq<char>, Seq<char>)>) -> Seq<(Seq<char>, Seq<char>)> {
    let kept = kept_files(files);
    if first_startup(kept) is None {
        kept.push((default_startup_name(), Seq::empty()))
    } else {
        kept
    }
}

/// The directory of plugin `folder` under the plugins directory.
pub open spec fn plugin_dir_of(plugins_dir: Seq<char>, folder: Seq<char>) -> Seq<char> {
    plugins_dir + "/"@ + folder
}

pub open spec fn manifest_path_of(dir: Seq<char>) -> Seq<char> {
    dir + "/info.json"@
}

/// The files written to install a remote plugin into `dir`: the manifest text as fetched,
/// then each stored script under `scripts/`.
pub open spec fn install_writes(
    dir: Seq<char>,
    manifest_text: Seq<char>,
    files: Seq<(Seq<char>, Seq<char>)>,
) -> Seq<(Seq<char>, Seq<char>)> {
    seq![(manifest_path_of(dir), manifest_text)] + stored_files(files).map_values(
        |f: (Seq<char>, Seq<char>)| (script_path_of(dir, f.0), f.1),
    )
}

/// The plugin installed from a remote source into `dir`: its scripts are chosen from the
/// fetched files as for a local directory, and it records the URL of its manifest.
pub open spec fn remote_plugin(
    dir: Seq<char>,
    m: ManifestView,
    url: Seq<char>,
    files: Seq<(Seq<char>, Seq<char>)>,
) -> PluginView {
    let p = local_plugin(dir, m, files);
    PluginView {
        name: p.name,
        id: p.id,
        version: p.version,
        local_path: p.local_path,
        remote_url: Some(url),
        startup: p.startup,
        functions: p.functions,
    }
}

/// What installing one remote plugin amounts to.
#[derive(Debug)]
pub struct RemoteInstall {
    pub plugin: Plugin,
    /// The plugin's directory, to create with its `scripts/` directory.
    pub directory: String,
    pub writes: Vec<FileWrite>,
}

proof fn lemma_kept_files(dir: Seq<char>, files: Seq<(Seq<char>, Seq<char>)>)
    ensures
        function_scripts_of(dir, kept_files(files)) == function_scripts_of(dir, files),
        startup_of(dir, kept_files(files)) == startup_of(dir, files),
        (first_startup(kept_files(files)) is None) == (first_startup(files) is None),
    decreases files.len(),
{
    if files.len() > 0 {
        let prev = files.drop_last();
        let x = files.last();
        lemma_kept_files(dir, prev);
        let kp = kept_files(prev);
        lemma_first_startup(kp);
        lemma_first_startup(prev);
        if !is_hidden_name(x.0) {
            let k = kp.push(x);
            assert(k.drop_last() =~= kp);
            match first_startup(kp) {
                Some(j) => {
                    assert(k[j] == kp[j]);
                },
                None => {},
            }
        }
        match first_startup(prev) {
            Some(j) => {
                assert(files[j] == prev[j]);
            },
            None => {},
        }
        reveal_strlit("start");
        if is_hidden_name(x.0) {
            assert("start"@[0] == 's');
            assert(!is_startup_name(x.0));
        }
    }
}

/// Round trip: the files that installing a remote plugin stores in its `scripts/` directory,
/// imported again as a local directory in the order written, give the installed plugin's
/// startup and function scripts, name, id, version and path, with nothing left to create.
pub proof fn lemma_remote_round_trip(
    dir: Seq<char>,
    m: ManifestView,
    url: Seq<char>,
    files: Seq<(Seq<char>, Seq<char>)>,
)
    ensures
        ({
            let again = local_plugin(dir, m, stored_files(files));
            let installed = remote_plugin(dir, m, url, files);
            &&& first_startup(stored_files(files)) is Some
            &&& again.startup == installed.startup
            &&& again.functions == installed.functions
            &&& again.name == installed.name
            &&& again.id == installed.id
            &&& again.version == installed.version
            &&& again.local_path == installed.local_path
        }),
{
    lemma_kept_files(dir, files);
    lemma_reimport_is_stable(dir, m, kept_files(files));
}

/// Plans the installation of the remote plugin `folder` into the plugins directory from its
/// manifest (parsed, and as fetched) and its fetched script files.
pub fn build_remote_plugin(
    plugins_dir: &str,
    folder: &str,
    manifest: &Manifest,
    manifest_text: &str,
    info_url: &str,
    fetched: &Vec<ScriptFile>,
) -> (r: RemoteInstall)
    ensures
        r.directory@ == plugin_dir_of(plugins_dir@, folder@),
        r.plugin@ == remote_plugin(
            plugin_dir_of(plugins_dir@, folder@),
            manifest@,
            info_url@,
            files_view(fetched@),
        ),
        writes_view(r.writes@) == install_writes(
            plugin_dir_of(plugins_dir@, folder@),
            manifest_text@,
            files_view(fetched@),
        ),
{
    let dir = String::from_str(plugins_dir).concat("/").concat(folder);
    let ghost d = dir@;
    let import = import_plugin_from_local(dir.as_str(), manifest, fetched);
    let mut plugin = import.plugin;
    plugin.remote_url = Some(String::from_str(info_url));
    let ghost fs = files_view(fetched@);
    let ghost to_write = |f: (Seq<char>, Seq<char>)| (script_path_of(d, f.0), f.1);
    let mut writes: Vec<FileWrite> = Vec::new();
    writes.push(
        FileWrite { path: dir.clone().concat("/info.json"), contents: String::from_str(manifest_text) },
    );
    let ghost head = writes_view(writes@);
    assert(head =~= seq![(manifest_path_of(d), manifest_text@)]);
    let mut i: usize = 0;
    while i < fetched.len()
        invariant
            i <= fetched.len(),
            d == dir@,
            fs == files_view(fetched@),
            to_write == (|f: (Seq<char>, Seq<char>)| (script_path_of(d, f.0), f.1)),
            head == seq![(manifest_path_of(d), manifest_text@)],
            writes_view(writes@) == head + kept_files(fs.subrange(0, i as int)).map_values(to_write),
        decreases fetched.len() - i,
    {
        let ghost prev = writes@;
        let ghost sub = fs.subrange(0, i + 1);
        proof {
            assert(sub.drop_last() =~= fs.subrange(0, i as int));
            assert(sub.last() == (fetched@[i as int].name@, fetched@[i as int].text@));
        }
        let f = &fetched[i];
        if !is_hidden(f.name.as_str()) {
            writes.push(FileWrite { path: script_path(dir.as_str(), f.name.as_str()), contents: f.text.clone() });
            proof {
                assert(writes_view(writes@) =~= writes_view(prev).push(to_write(sub.last())));
                assert(kept_files(sub).map_values(to_write) =~= kept_files(
                    fs.subrange(0, i as int),
                ).map_values(to_write).push(to_write(sub.last())));
            }
        }
        i = i + 1;
    }
    proof {
        assert(fs.subrange(0, fetched@.len() as int) =~= fs);
        lemma_kept_files(d, fs);
    }
    let ghost before_start = writes@;
    match import.create_startup {
        Some(path) => {
            writes.push(FileWrite { path, contents: String::new() });
            proof {
                reveal_strlit("start.js");
                assert(writes_view(writes@) =~= writes_view(before_start).push(
                    to_write((default_startup_name(), Seq::empty())),
                ));
                assert(stored_files(fs).map_values(to_write) =~= kept_files(fs).map_values(
                    to_write,
                ).push(to_write((default_startup_name(), Seq::empty()))));
            }
        },
        None => {},
    }
    proof {
        assert(writes_view(writes@) =~= install_writes(d, manifest_text@, fs));
    }
    RemoteInstall { plugin, directory: dir, writes }
}

/// `plugins/<folder>/info.json`: where a source keeps a plugin's manifest.
pub open spec fn manifest_source_path(folder: Seq<char>) -> Seq<char> {
    "plugins/"@ + folder + "/info.json"@
}

/// `plugins/<folder>/scripts`: where a source keeps a plugin's scripts.
pub open spec fn scripts_source_path(folder: Seq<char>) -> Seq<char> {
    "plugins/"@ + folder + "/scripts"@
}

pub fn plugin_manifest_path(folder: &str) -> (r: String)
    ensures
        r@ == manifest_source_path(folder@),
{
    String::from_str("plugins/").concat(folder).concat("/info.json")
}

pub fn plugin_scripts_path(folder: &str) -> (r: String)
    ensures
        r@ == scripts_source_path(folder@),
{
    String::from_str("plugins/").concat(folder).concat("/scripts")
}

/// `plugins/<folder>/scripts/<name>`: where a source keeps one script of a plugin.
pub fn plugin_script_path(folder: &str, name: &str) -> (r: String)
    ensures
        r@ == scripts_source_path(folder@) + "/"@ + name@,
{
    plugin_scripts_path(folder).concat("/").concat(name)
}

} // verus!
