//! Addressing of a remote plugin repository.
use vstd::prelude::*;
use crate::error::{PluginError, PluginErrorKind};
use crate::plugin::{clone_opt, opt_view};

verus! {

/// One remote plugin repository: owner, repository name and branch.
#[derive(Debug)]
pub struct PluginSource {
    pub username: Option<String>,
    pub repository: Option<String>,
    pub branch: Option<String>,
}

/// The repository-contents listing URL of `path` on a source.
pub open spec fn folder_url_of(
    user: Seq<char>,
    repo: Seq<char>,
    branch: Seq<char>,
    path: Seq<char>,
) -> Seq<char> {
    "https://api.github.com/repos/"@ + user + "/"@ + repo + "/contents/"@ + path + "?ref="@
        + branch
}

/// The raw-file URL of `path` on a source.
pub open spec fn file_url_of(
    user: Seq<char>,
    repo: Seq<char>,
    branch: Seq<char>,
    path: Seq<char>,
) -> Seq<char> {
    "https://raw.githubusercontent.com/"@ + user + "/"@ + repo + "/"@ + branch + "/"@ + path
}

impl PluginSource {
    /// A source with all of its addressing fields set.
    pub open spec fn is_complete(&self) -> bool {
        self.username.is_some() && self.repository.is_some() && self.branch.is_some()
    }

    pub fn new(username: Option<String>, repository: Option<String>, branch: Option<String>) -> (r:
        PluginSource)
        ensures
            r.username == username,
            r.repository == repository,
            r.branch == branch,
    {
        PluginSource { username, repository, branch }
    }

    /// A copy of this source.
    pub fn duplicate(&self) -> (r: PluginSource)
        ensures
            opt_view(r.username) == opt_view(self.username),
            opt_view(r.repository) == opt_view(self.repository),
            opt_view(r.branch) == opt_view(self.branch),
            r.is_complete() == self.is_complete(),
    {
        PluginSource {
            username: clone_opt(&self.username),
            repository: clone_opt(&self.repository),
            branch: clone_opt(&self.branch),
        }
    }

    /// The URL that lists the contents of the folder `path` of this source.
    pub fn get_folder_url(&self, path: &str) -> (r: Result<String, PluginError>)
        ensures
            self.is_complete() ==> r.is_ok() && r.unwrap()@ == folder_url_of(
                self.username.unwrap()@,
                self.repository.unwrap()@,
                self.branch.unwrap()@,
                path@,
            ),
            !self.is_complete() ==> r.is_err() && r->Err_0.kind == PluginErrorKind::IncompleteSource,
    {
        match (&self.username, &self.repository, &self.branch) {
            (Some(user), Some(repo), Some(branch)) => {
                let url = String::from_str("https://api.github.com/repos/");
                let url = url.concat(user.as_str());
                let url = url.concat("/");
                let url = url.concat(repo.as_str());
                let url = url.concat("/contents/");
                let url = url.concat(path);
                let url = url.concat("?ref=");
                let url = url.concat(branch.as_str());
                Ok(url)
            },
            _ => Err(self.missing_field()),
        }
    }

    /// The URL of the raw content of the file `path` of this source.
    pub fn get_file_url(&self, path: &str) -> (r: Result<String, PluginError>)
        ensures
            self.is_complete() ==> r.is_ok() && r.unwrap()@ == file_url_of(
                self.username.unwrap()@,
                self.repository.unwrap()@,
                self.branch.unwrap()@,
                path@,
            ),
            !self.is_complete() ==> r.is_err() && r->Err_0.kind == PluginErrorKind::IncompleteSource,
    {
        match (&self.username, &self.repository, &self.branch) {
            (Some(user), Some(repo), Some(branch)) => {
                let url = String::from_str("https://raw.githubusercontent.com/");
                let url = url.concat(user.as_str());
                let url = url.concat("/");
                let url = url.concat(repo.as_str());
                let url = url.concat("/");
                let url = url.concat(branch.as_str());
                let url = url.concat("/");
                let url = url.concat(path);
                Ok(url)
            },
            _ => Err(self.missing_field()),
        }
    }

    /// The error for a source that lacks an addressing field, naming the first one missing.
    fn missing_field(&self) -> (r: PluginError)
        ensures
            r.kind == PluginErrorKind::IncompleteSource,
    {
        if self.username.is_none() {
            PluginError::with_text(PluginErrorKind::IncompleteSource, "username")
        } else if self.repository.is_none() {
            PluginError::with_text(PluginErrorKind::IncompleteSource, "repository")
        } else {
            PluginError::with_text(PluginErrorKind::IncompleteSource, "branch")
        }
    }
}

} // verus!
