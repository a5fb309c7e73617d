//! Installable modules: the record kept in each module's directory, the
//! shape of a repository search result, and how a fresh installation record
//! is built from an owner and a repository name. Creating, scanning and
//! removing the directories is the application's business.

use vstd::prelude::*;

verus! {

/// The record stored with an installed module.
#[derive(Debug, Clone)]
pub struct Module {
    pub name: String,
    pub version: String,
    pub repo: String,
    pub enabled: bool,
    pub installed: bool,
    pub author: String,
    pub description: String,
}

/// A repository as the module search returns it.
#[derive(Debug, Clone)]
pub struct ModuleGitHubResult {
    pub name: String,
    pub full_name: String,
    pub description: Option<String>,
    pub html_url: String,
    pub owner: ModuleOwner,
    pub stars: u32,
    pub language: Option<String>,
}

/// The account a searched repository belongs to.
#[derive(Debug, Clone)]
pub struct ModuleOwner {
    pub login: String,
    pub avatar_url: Option<String>,
}

impl Module {
    /// The record written when `owner`'s repository `repo` is installed:
    /// named after the repository, attributed to the owner, enabled, and at
    /// the initial version.
    pub fn from_repo(owner: &str, repo: &str) -> (r: Module)
        ensures
            r.name@ == repo@,
            r.version@ == "1.0.0"@,
            r.repo@ == owner@ + "/"@ + repo@,
            r.enabled,
            r.installed,
            r.author@ == owner@,
            r.description@ == "Module from "@ + owner@ + "/"@ + repo@,
    {
        let mut full = String::from_str(owner);
        full.append("/");
        full.append(repo);
        let mut description = String::from_str("Module from ");
        description.append(owner);
        description.append("/");
        description.append(repo);
        Module {
            name: repo.to_owned(),
            version: String::from_str("1.0.0"),
            repo: full,
            enabled: true,
            installed: true,
            author: owner.to_owned(),
            description,
        }
    }
}

} // verus!
