//! The remote reconciliation pass as a state machine: the caller performs each fetch it asks
//! for and reports the outcome; the machine decides what comes next. A source that is
//! incomplete or whose listing fails is skipped; any failure for one plugin skips that plugin.
use vstd::prelude::*;
use crate::error::PluginError;
use crate::json::{listing_of_text, listing_view, manifest_of_text, parse_listing, parse_manifest};
use crate::plugin::{files_view, Manifest, ScriptFile};
use crate::remote::{
    build_remote_plugin, contains_name, install_writes, lemma_local_plugins_win, manifest_source_path,
    names_view, new_plugin_dirs, plugin_dir_of, plugin_manifest_path, plugin_script_path,
    plugin_scripts_path, remote_plugin, remote_plugin_dirs, remote_script_names, script_names_of,
    scripts_source_path, RemoteInstall,
};
use crate::source::{file_url_of, folder_url_of, PluginSource};
use crate::text::is_plain_name_spec;

verus! {

/// What the caller is asked to do next.
#[derive(Debug)]
pub enum Action {
    /// Fetch this URL and report the text, or the failure, with `on_fetched`.
    Fetch(String),
    /// Write the plugin named `folder` to disk and register it, then call `resume`.
    Install(String, RemoteInstall),
    /// The pass is over.
    Done,
}

/// What the machine is waiting for.
#[derive(Debug, Clone, Copy, PartialEq, Eq, Structural)]
pub enum Phase {
    SourceListing,
    Manifest,
    ScriptListing,
    Script,
    Installing,
    Finished,
}

/// The listing URL of `path` on a complete source.
pub open spec fn source_folder_url(s: PluginSource, path: Seq<char>) -> Seq<char> {
    folder_url_of(s.username.unwrap()@, s.repository.unwrap()@, s.branch.unwrap()@, path)
}

/// The raw-file URL of `path` on a complete source.
pub open spec fn source_file_url(s: PluginSource, path: Seq<char>) -> Seq<char> {
    file_url_of(s.username.unwrap()@, s.repository.unwrap()@, s.branch.unwrap()@, path)
}

/// The listing that a fetch outcome holds, if it succeeded and parses.
pub open spec fn fetched_listing(outcome: Result<String, PluginError>) -> Option<
    Seq<(Seq<char>, Seq<char>)>,
> {
    match outcome {
        Ok(text) => listing_of_text(text@),
        Err(_) => None,
    }
}

/// The state of one reconciliation pass.
pub struct Reconciler {
    plugins_dir: String,
    sources: Vec<PluginSource>,
    /// The plugin directories present locally, and those installed during this pass.
    installed: Vec<String>,
    source_index: usize,
    /// The plugins of the current source still to consider.
    folders: Vec<String>,
    folder_index: usize,
    phase: Phase,
    info_url: String,
    manifest_text: String,
    manifest: Option<Manifest>,
    script_names: Vec<String>,
    fetched: Vec<ScriptFile>,
    /// The plugin directories present locally when the pass began.
    local: Ghost<Seq<Seq<char>>>,
}

impl Reconciler {
    pub closed spec fn phase(&self) -> Phase {
        self.phase
    }

    /// The position of the source being consulted.
    pub closed spec fn source_position(&self) -> int {
        self.source_index as int
    }

    pub closed spec fn folder_position(&self) -> int {
        self.folder_index as int
    }

    pub closed spec fn sources_seq(&self) -> Seq<PluginSource> {
        self.sources@
    }

    pub closed spec fn local_names(&self) -> Seq<Seq<char>> {
        self.local@
    }

    pub closed spec fn installed_names(&self) -> Seq<Seq<char>> {
        names_view(self.installed@)
    }

    pub closed spec fn folder_names(&self) -> Seq<Seq<char>> {
        names_view(self.folders@)
    }

    pub closed spec fn script_name_seq(&self) -> Seq<Seq<char>> {
        names_view(self.script_names@)
    }

    pub closed spec fn fetched_files(&self) -> Seq<(Seq<char>, Seq<char>)> {
        files_view(self.fetched@)
    }

    pub closed spec fn current_source(&self) -> PluginSource {
        self.sources@[self.source_index as int]
    }

    pub closed spec fn current_folder(&self) -> Seq<char> {
        self.folders@[self.folder_index as int]@
    }

    /// The invariant that holds whatever the phase.
    closed spec fn base_wf(&self) -> bool {
        &&& self.source_index <= self.sources@.len()
        &&& self.folder_index <= self.folders@.len()
        &&& forall|x: Seq<char>| #[trigger]
            self.local@.contains(x) ==> names_view(self.installed@).contains(x)
        &&& forall|k: int|
            0 <= k < self.folders@.len() ==> !self.local@.contains(#[trigger] self.folders@[k]@)
                && is_plain_name_spec(self.folders@[k]@)
    }

    /// Working on one plugin of the current source.
    pub open spec fn on_plugin(p: Phase) -> bool {
        p == Phase::Manifest || p == Phase::ScriptListing || p == Phase::Script || p
            == Phase::Installing
    }

    pub closed spec fn wf(&self) -> bool {
        &&& self.base_wf()
        &&& self.phase != Phase::Finished ==> self.source_index < self.sources@.len()
            && self.current_source().is_complete()
        &&& self.phase == Phase::Finished ==> self.source_index == self.sources@.len()
        &&& Self::on_plugin(self.phase) ==> self.folder_index < self.folders@.len()
            && self.info_url@ == source_file_url(
            self.current_source(),
            manifest_source_path(self.current_folder()),
        )
        &&& (self.phase == Phase::Manifest || self.phase == Phase::ScriptListing || self.phase
            == Phase::Script) ==> !names_view(self.installed@).contains(self.current_folder())
        &&& (self.phase == Phase::ScriptListing || self.phase == Phase::Script || self.phase
            == Phase::Installing) ==> {
            &&& self.manifest.is_some()
            &&& manifest_of_text(self.manifest_text@) == Some(self.manifest.unwrap()@)
            &&& self.fetched@.len() <= self.script_names@.len()
            &&& forall|k: int|
                0 <= k < self.fetched@.len() ==> #[trigger] self.fetched@[k].name@
                    == self.script_names@[k]@
        }
        &&& self.phase == Phase::Manifest ==> self.fetched@.len() == 0
        &&& self.phase == Phase::Script ==> self.fetched@.len() < self.script_names@.len()
        &&& self.phase == Phase::Installing ==> self.fetched@.len() == self.script_names@.len()
    }

    /// What an action hands out, given the state after it.
    pub closed spec fn action_ok(&self, a: Action) -> bool {
        match a {
            Action::Fetch(url) => match self.phase {
                Phase::SourceListing => url@ == source_folder_url(self.current_source(), "plugins"@),
                Phase::Manifest => url@ == source_file_url(
                    self.current_source(),
                    manifest_source_path(self.current_folder()),
                ),
                Phase::ScriptListing => url@ == source_folder_url(
                    self.current_source(),
                    scripts_source_path(self.current_folder()),
                ),
                Phase::Script => url@ == source_file_url(
                    self.current_source(),
                    scripts_source_path(self.current_folder()) + "/"@
                        + self.script_names@[self.fetched@.len() as int]@,
                ),
                _ => false,
            },
            Action::Install(folder, ins) => {
                let dir = plugin_dir_of(self.plugins_dir@, folder@);
                &&& self.phase == Phase::Installing
                &&& folder@ == self.current_folder()
                &&& !self.local@.contains(folder@)
                &&& is_plain_name_spec(folder@)
                &&& ins.directory@ == dir
                &&& ins.plugin@ == remote_plugin(
                    dir,
                    self.manifest.unwrap()@,
                    self.info_url@,
                    files_view(self.fetched@),
                )
                &&& writes_view_of(ins) == install_writes(
                    dir,
                    self.manifest_text@,
                    files_view(self.fetched@),
                )
            },
            Action::Done => self.phase == Phase::Finished,
        }
    }

    /// The pass has moved past the current plugin: to a later plugin of the same source, or
    /// to a later source.
    pub closed spec fn moved_on(old: Reconciler, new: Reconciler) -> bool {
        new.source_index > old.source_index || (new.source_index == old.source_index
            && new.folder_index > old.folder_index)
    }

    /// Facts kept by every step.
    pub closed spec fn kept(old: Reconciler, new: Reconciler) -> bool {
        &&& new.local == old.local
        &&& new.plugins_dir@ == old.plugins_dir@
        &&& new.sources@ == old.sources@
        &&& new.source_index >= old.source_index
    }

    /// Starts a pass over `sources`, in order, for the plugins directory `plugins_dir` whose
    /// entries are `installed`. It asks for the plugin listing of the first complete source,
    /// and ends at once only when no source is complete.
    pub fn new(plugins_dir: String, sources: Vec<PluginSource>, installed: Vec<String>) -> (r: (
        Reconciler,
        Action,
    ))
        ensures
            r.0.wf(),
            r.0.action_ok(r.1),
            r.0.local_names() == names_view(installed@),
            r.0.installed_names() == names_view(installed@),
            r.0.sources_seq() == sources@,
            forall|j: int| 0 <= j < r.0.source_position() ==> !(#[trigger] sources@[j]).is_complete(),
            r.1 is Fetch ==> r.0.phase() == Phase::SourceListing && sources@[r.0.source_position()].is_complete(),
            r.1 is Done ==> forall|j: int| 0 <= j < sources@.len() ==> !(#[trigger] sources@[j]).is_complete(),
            !(r.1 is Install),
    {
        let ghost local = names_view(installed@);
        let mut r = Reconciler {
            plugins_dir,
            sources,
            installed,
            source_index: 0,
            folders: Vec::new(),
            folder_index: 0,
            phase: Phase::SourceListing,
            info_url: String::new(),
            manifest_text: String::new(),
            manifest: None,
            script_names: Vec::new(),
            fetched: Vec::new(),
            local: Ghost(local),
        };
        let a = r.next_source();
        (r, a)
    }

    /// Asks for the plugin listing of the current source, or of the first later one that is
    /// complete; ends the pass after the last source.
    fn next_source(&mut self) -> (a: Action)
        requires
            old(self).base_wf(),
        ensures
            final(self).wf(),
            final(self).action_ok(a),
            Self::kept(*old(self), *final(self)),
            final(self).installed@ == old(self).installed@,
            forall|j: int|
                old(self).source_index <= j < final(self).source_index
                    ==> !(#[trigger] old(self).sources@[j]).is_complete(),
            final(self).phase == Phase::SourceListing || final(self).phase == Phase::Finished,
    {
        self.folders = Vec::new();
        self.folder_index = 0;
        self.phase = Phase::SourceListing;
        while self.source_index < self.sources.len()
            invariant
                self.base_wf(),
                self.folders@.len() == 0,
                self.phase == Phase::SourceListing,
                Self::kept(*old(self), *self),
                self.installed@ == old(self).installed@,
                forall|j: int|
                    old(self).source_index <= j < self.source_index
                        ==> !(#[trigger] old(self).sources@[j]).is_complete(),
            decreases self.sources@.len() - self.source_index,
        {
            match self.sources[self.source_index].get_folder_url("plugins") {
                Ok(url) => {
                    return Action::Fetch(url);
                },
                Err(_) => {
                    self.source_index = self.source_index + 1;
                },
            }
        }
        self.phase = Phase::Finished;
        Action::Done
    }

    /// Asks for the manifest of the next plugin of the current source that nobody installed
    /// yet; moves to the next source when there is none.
    fn next_folder(&mut self) -> (a: Action)
        requires
            old(self).base_wf(),
            old(self).source_index < old(self).sources@.len(),
            old(self).current_source().is_complete(),
        ensures
            final(self).wf(),
            final(self).action_ok(a),
            Self::kept(*old(self), *final(self)),
            final(self).installed@ == old(self).installed@,
            final(self).source_index > old(self).source_index || (final(self).source_index
                == old(self).source_index && final(self).folder_index >= old(self).folder_index
                && final(self).folders@ == old(self).folders@),
            final(self).source_index == old(self).source_index ==> final(self).phase
                == Phase::Manifest,
            old(self).folder_index < old(self).folders@.len() && !names_view(
                old(self).installed@,
            ).contains(old(self).current_folder()) ==> final(self).source_index == old(self).source_index && final(self).folder_index == old(self).folder_index && final(self).phase == Phase::Manifest && final(self).folders@ == old(self).folders@,
            !(a is Install),
    {
        self.manifest = None;
        self.fetched = Vec::new();
        self.phase = Phase::SourceListing;
        while self.folder_index < self.folders.len()
            invariant
                self.base_wf(),
                self.phase == Phase::SourceListing,
                self.source_index == old(self).source_index,
                self.source_index < self.sources@.len(),
                self.folders@ == old(self).folders@,
                self.folder_index >= old(self).folder_index,
                self.current_source().is_complete(),
                Self::kept(*old(self), *self),
                self.installed@ == old(self).installed@,
                self.fetched@.len() == 0,
                old(self).folder_index < old(self).folders@.len() && !names_view(
                    old(self).installed@,
                ).contains(old(self).current_folder()) ==> self.folder_index == old(self).folder_index,
            decreases self.folders@.len() - self.folder_index,
        {
            if !contains_name(&self.installed, self.folders[self.folder_index].as_str()) {
                let path = plugin_manifest_path(self.folders[self.folder_index].as_str());
                match self.sources[self.source_index].get_file_url(path.as_str()) {
                    Ok(url) => {
                        self.info_url = url.clone();
                        self.phase = Phase::Manifest;
                        return Action::Fetch(url);
                    },
                    Err(_) => {},
                }
            }
            self.folder_index = self.folder_index + 1;
        }
        let n_sources = self.sources.len();
        self.source_index = self.source_index + 1;
        self.next_source()
    }

    /// Leaves the current plugin out and goes on with the next one.
    fn skip_folder(&mut self) -> (a: Action)
        requires
            old(self).wf(),
            Self::on_plugin(old(self).phase),
        ensures
            final(self).wf(),
            final(self).action_ok(a),
            Self::kept(*old(self), *final(self)),
            Self::moved_on(*old(self), *final(self)),
            final(self).installed@ == old(self).installed@,
            !(a is Install),
    {
        let n_folders = self.folders.len();
        self.phase = Phase::SourceListing;
        self.folder_index = self.folder_index + 1;
        self.next_folder()
    }

    /// Asks for the next script of the current plugin, or installs the plugin once every
    /// script has been fetched.
    fn next_script(&mut self) -> (a: Action)
        requires
            old(self).wf(),
            old(self).phase == Phase::ScriptListing,
        ensures
            final(self).wf(),
            final(self).action_ok(a),
            Self::kept(*old(self), *final(self)),
            final(self).source_index == old(self).source_index,
            final(self).folder_index == old(self).folder_index,
            final(self).folders@ == old(self).folders@,
            final(self).fetched@ == old(self).fetched@,
            final(self).script_names@ == old(self).script_names@,
            final(self).manifest_text@ == old(self).manifest_text@,
            final(self).phase == Phase::Script || final(self).phase == Phase::Installing,
            a is Install ==> names_view(final(self).installed@) == names_view(
                old(self).installed@,
            ).push(old(self).current_folder()),
            !(a is Install) ==> final(self).installed@ == old(self).installed@,
    {
        let k = self.fetched.len();
        let folder = self.folders[self.folder_index].clone();
        if k < self.script_names.len() {
            let path = plugin_script_path(folder.as_str(), self.script_names[k].as_str());
            self.phase = Phase::Script;
            match self.sources[self.source_index].get_file_url(path.as_str()) {
                Ok(url) => Action::Fetch(url),
                Err(_) => {
                    proof {
                        assert(false);
                    }
                    Action::Done
                },
            }
        } else {
            let manifest = match &self.manifest {
                Some(m) => m,
                None => {
                    proof {
                        assert(false);
                    }
                    return Action::Done;
                },
            };
            let ins = build_remote_plugin(
                self.plugins_dir.as_str(),
                folder.as_str(),
                manifest,
                self.manifest_text.as_str(),
                self.info_url.as_str(),
                &self.fetched,
            );
            self.installed.push(folder.clone());
            self.phase = Phase::Installing;
            proof {
                assert(names_view(self.installed@) =~= names_view(old(self).installed@).push(
                    folder@,
                ));
                assert forall|x: Seq<char>| #[trigger]
                    self.local@.contains(x) implies names_view(self.installed@).contains(x) by {
                    let j = choose|j: int|
                        0 <= j < names_view(old(self).installed@).len() && names_view(
                            old(self).installed@,
                        )[j] == x;
                    assert(names_view(self.installed@)[j] == x);
                }
            }
            Action::Install(folder, ins)
        }
    }

    /// After the caller has written an installed plugin: moves to the next plugin.
    pub fn resume(&mut self) -> (a: Action)
        requires
            old(self).wf(),
        ensures
            final(self).wf(),
            final(self).action_ok(a),
            Self::kept(*old(self), *final(self)),
            old(self).phase() == Phase::Installing ==> Self::moved_on(*old(self), *final(self)),
            old(self).phase() == Phase::Finished ==> a is Done,
            final(self).installed_names() == old(self).installed_names(),
            !(a is Install),
    {
        if self.phase == Phase::Finished {
            return Action::Done;
        }
        if self.phase == Phase::SourceListing {
            return match self.sources[self.source_index].get_folder_url("plugins") {
                Ok(url) => Action::Fetch(url),
                Err(_) => {
                    proof {
                        assert(false);
                    }
                    Action::Done
                },
            };
        }
        self.skip_folder()
    }

    /// Takes the outcome of the fetch last asked for and decides what comes next.
    pub fn on_fetched(&mut self, outcome: Result<String, PluginError>) -> (a: Action)
        requires
            old(self).wf(),
        ensures
            final(self).wf(),
            final(self).action_ok(a),
            Self::kept(*old(self), *final(self)),
            // bookkeeping of the plugins installed during the pass: each one only once
            a matches Action::Install(f, _) ==> !old(self).installed_names().contains(f@)
                && final(self).installed_names() == old(self).installed_names().push(f@),
            !(a is Install) ==> final(self).installed_names() == old(self).installed_names(),
            // a listing of the source's plugins
            old(self).phase() == Phase::SourceListing ==> match fetched_listing(outcome) {
                Some(l) => {
                    let dirs = new_plugin_dirs(l, old(self).installed_names());
                    &&& dirs.len() > 0 ==> final(self).phase() == Phase::Manifest
                        && final(self).source_position() == old(self).source_position()
                        && final(self).folder_position() == 0 && final(self).folder_names()
                        == dirs
                    &&& dirs.len() == 0 ==> final(self).source_position() > old(self).source_position()
                },
                None => final(self).source_position() > old(self).source_position(),
            },
            // a plugin's manifest
            old(self).phase() == Phase::Manifest ==> match outcome {
                Ok(text) => if manifest_of_text(text@) is Some {
                    &&& final(self).phase() == Phase::ScriptListing
                    &&& final(self).source_position() == old(self).source_position()
                    &&& final(self).folder_position() == old(self).folder_position()
                    &&& Self::manifest_is(*final(self), text@)
                } else {
                    Self::moved_on(*old(self), *final(self))
                },
                Err(_) => Self::moved_on(*old(self), *final(self)),
            },
            // the listing of a plugin's scripts
            old(self).phase() == Phase::ScriptListing ==> match fetched_listing(outcome) {
                Some(l) => {
                    &&& final(self).source_position() == old(self).source_position()
                    &&& final(self).folder_position() == old(self).folder_position()
                    &&& final(self).script_name_seq() == script_names_of(l)
                    &&& final(self).fetched_files().len() == 0
                    &&& final(self).phase() == Phase::Script || final(self).phase()
                        == Phase::Installing
                },
                None => Self::moved_on(*old(self), *final(self)),
            },
            // one script of a plugin: the last one leads to its installation
            old(self).phase() == Phase::Script ==> match outcome {
                Ok(text) => {
                    &&& final(self).source_position() == old(self).source_position()
                    &&& final(self).folder_position() == old(self).folder_position()
                    &&& final(self).fetched_files() == old(self).fetched_files().push(
                        (old(self).script_name_seq()[old(self).fetched_files().len() as int], text@),
                    )
                    &&& final(self).script_name_seq() == old(self).script_name_seq()
                    &&& final(self).phase() == Phase::Script || final(self).phase()
                        == Phase::Installing
                },
                Err(_) => Self::moved_on(*old(self), *final(self)),
            },
            old(self).phase() == Phase::Installing ==> Self::moved_on(*old(self), *final(self)),
            old(self).phase() == Phase::Finished ==> a is Done,
    {
        let ghost before = *self;
        match self.phase {
            Phase::SourceListing => {
                let listing = match outcome {
                    Ok(text) => parse_listing(text.as_str()),
                    Err(e) => Err(e),
                };
                match listing {
                    Ok(listing) => {
                        let folders = remote_plugin_dirs(&listing, &self.installed);
                        proof {
                            let inst = names_view(self.installed@);
                            let nd = new_plugin_dirs(listing_view(listing@), inst);
                            lemma_local_plugins_win(listing_view(listing@), inst);
                            lemma_new_dirs_plain(listing_view(listing@), inst);
                            assert forall|k: int| 0 <= k < folders@.len() implies !self.local@.contains(
                                #[trigger] folders@[k]@,
                            ) && is_plain_name_spec(folders@[k]@) by {
                                assert(names_view(folders@)[k] == nd[k]);
                                assert(!inst.contains(nd[k]));
                            }
                            if nd.len() > 0 {
                                assert(names_view(folders@)[0] == nd[0]);
                            }
                        }
                        self.folders = folders;
                        self.folder_index = 0;
                        self.next_folder()
                    },
                    Err(_) => {
                        let n_sources = self.sources.len();
                        self.source_index = self.source_index + 1;
                        self.next_source()
                    },
                }
            },
            Phase::Manifest => {
                let text = match outcome {
                    Ok(text) => text,
                    Err(_) => {
                        return self.skip_folder();
                    },
                };
                let manifest = match parse_manifest(text.as_str()) {
                    Ok(m) => m,
                    Err(_) => {
                        return self.skip_folder();
                    },
                };
                let path = plugin_scripts_path(self.folders[self.folder_index].as_str());
                match self.sources[self.source_index].get_folder_url(path.as_str()) {
                    Ok(url) => {
                        self.manifest_text = text;
                        self.manifest = Some(manifest);
                        self.phase = Phase::ScriptListing;
                        Action::Fetch(url)
                    },
                    Err(_) => {
                        proof {
                            assert(false);
                        }
                        Action::Done
                    },
                }
            },
            Phase::ScriptListing => {
                let listing = match outcome {
                    Ok(text) => parse_listing(text.as_str()),
                    Err(e) => Err(e),
                };
                match listing {
                    Ok(listing) => {
                        self.script_names = remote_script_names(&listing);
                        self.fetched = Vec::new();
                        self.next_script()
                    },
                    Err(_) => self.skip_folder(),
                }
            },
            Phase::Script => {
                match outcome {
                    Ok(text) => {
                        let k = self.fetched.len();
                        let name = self.script_names[k].clone();
                        self.fetched.push(ScriptFile { name, text });
                        self.phase = Phase::ScriptListing;
                        proof {
                            assert forall|j: int| 0 <= j < self.fetched@.len() implies #[trigger] self.fetched@[j].name@
                                == self.script_names@[j]@ by {
                                if j < k {
                                    assert(self.fetched@[j] == before.fetched@[j]);
                                }
                            }
                            assert(files_view(self.fetched@) =~= files_view(before.fetched@).push(
                                (names_view(self.script_names@)[k as int], text@),
                            ));
                        }
                        self.next_script()
                    },
                    Err(_) => self.skip_folder(),
                }
            },
            Phase::Installing => self.skip_folder(),
            Phase::Finished => Action::Done,
        }
    }

    /// The state holds the manifest read out of `text`, and that text.
    pub closed spec fn manifest_is(s: Reconciler, text: Seq<char>) -> bool {
        &&& s.manifest_text@ == text
        &&& s.manifest.is_some()
        &&& manifest_of_text(text) == Some(s.manifest.unwrap()@)
    }
}

/// The files an install writes.
pub open spec fn writes_view_of(ins: RemoteInstall) -> Seq<(Seq<char>, Seq<char>)> {
    crate::remote::writes_view(ins.writes@)
}

proof fn lemma_new_dirs_plain(listing: Seq<(Seq<char>, Seq<char>)>, installed: Seq<Seq<char>>)
    ensures
        forall|k: int|
            0 <= k < new_plugin_dirs(listing, installed).len() ==> is_plain_name_spec(
                #[trigger] new_plugin_dirs(listing, installed)[k],
            ),
    decreases listing.len(),
{
    if listing.len() > 0 {
        let prev = new_plugin_dirs(listing.drop_last(), installed);
        lemma_new_dirs_plain(listing.drop_last(), installed);
        assert forall|k: int|
            0 <= k < new_plugin_dirs(listing, installed).len() implies is_plain_name_spec(
                #[trigger] new_plugin_dirs(listing, installed)[k],
            ) by {
            if k < prev.len() {
                assert(new_plugin_dirs(listing, installed)[k] == prev[k]);
            }
        }
    }
}

} // verus!
