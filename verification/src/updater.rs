//! Update checking. The application fetches the latest release record from
//! the remote release listing and hands it to [`UpdateInfo::from_release`],
//! which compares versions, picks the archive to download, and builds the
//! summary the UI shows. Fetching itself is network traffic and stays with
//! the caller.

use vstd::prelude::*;
use crate::text::{count_leading, lex_lt, str_ends_with, str_eq, str_lt, strip_leading};

verus! {

/// Outcome of an update check, as the UI consumes it.
#[derive(Debug, Clone)]
pub struct UpdateInfo {
    pub current_version: String,
    pub latest_version: String,
    pub release_url: String,
    pub download_url: String,
    pub changelog: String,
    pub available: bool,
}

/// A release record from the remote listing, already decoded to plain values.
#[derive(Debug)]
pub struct GithubRelease {
    pub tag_name: String,
    pub body: String,
    pub assets: Vec<GithubAsset>,
    pub html_url: String,
}

/// One downloadable file attached to a release.
#[derive(Debug)]
pub struct GithubAsset {
    pub name: String,
    pub browser_download_url: String,
}

/// Whether an asset with this name is the release archive: either the
/// conventional `release.zip`, or any zip archive.
pub open spec fn is_zip_name(name: Seq<char>) -> bool {
    name == "release.zip"@ || (name.len() >= ".zip"@.len() && name.skip(
        name.len() - ".zip"@.len(),
    ) == ".zip"@)
}

/// Download address of the first release archive among `assets`; empty when
/// none of them is one.
pub open spec fn zip_url(assets: Seq<GithubAsset>) -> Seq<char>
    decreases assets.len(),
{
    if assets.len() == 0 {
        Seq::empty()
    } else if is_zip_name(assets[0].name@) {
        assets[0].browser_download_url@
    } else {
        zip_url(assets.skip(1))
    }
}

/// The version a release tag names: the tag with its leading `v` markers
/// removed.
pub open spec fn tag_version(tag: Seq<char>) -> Seq<char> {
    tag.skip(count_leading(tag, 'v'))
}

proof fn lemma_zip_url_skip(assets: Seq<GithubAsset>, i: int)
    requires
        0 <= i <= assets.len(),
        forall|j: int| 0 <= j < i ==> !is_zip_name(assets[j].name@),
    ensures
        zip_url(assets) == zip_url(assets.skip(i)),
    decreases i,
{
    if i == 0 {
        assert(assets.skip(0) =~= assets);
    } else {
        lemma_zip_url_skip(assets.skip(1), i - 1);
        assert(assets.skip(1).skip(i - 1) =~= assets.skip(i));
    }
}

/// Download address of the first release archive among `assets`, or an empty
/// string when there is none.
pub fn find_zip_url(assets: &Vec<GithubAsset>) -> (r: String)
    ensures
        r@ == zip_url(assets@),
{
    let mut i: usize = 0;
    while i < assets.len()
        invariant
            i <= assets@.len(),
            forall|j: int| 0 <= j < i ==> !is_zip_name(assets@[j].name@),
        decreases assets@.len() - i,
    {
        let name = assets[i].name.as_str();
        if str_eq(name, "release.zip") || str_ends_with(name, ".zip") {
            proof {
                lemma_zip_url_skip(assets@, i as int);
            }
            return assets[i].browser_download_url.clone();
        }
        i = i + 1;
    }
    proof {
        lemma_zip_url_skip(assets@, i as int);
    }
    String::new()
}

impl UpdateInfo {
    /// The check's fallback: the application is on `version`, nothing newer
    /// is known, and no update is offered.
    pub fn current(version: &str) -> (r: UpdateInfo)
        ensures
            r.current_version@ == version@,
            r.latest_version@ == version@,
            r.release_url@ == Seq::<char>::empty(),
            r.download_url@ == Seq::<char>::empty(),
            r.changelog@ == Seq::<char>::empty(),
            !r.available,
    {
        UpdateInfo {
            current_version: version.to_owned(),
            latest_version: version.to_owned(),
            release_url: String::new(),
            download_url: String::new(),
            changelog: String::new(),
            available: false,
        }
    }

    /// Judge a fetched release against the running version: the latest
    /// version is the tag without its leading `v` markers, the download
    /// address is the first zip asset's, and an update is offered exactly
    /// when the latest version orders after the current one.
    pub fn from_release(version: &str, release: &GithubRelease) -> (r: UpdateInfo)
        ensures
            r.current_version@ == version@,
            r.latest_version@ == tag_version(release.tag_name@),
            r.release_url@ == release.html_url@,
            r.download_url@ == zip_url(release.assets@),
            r.changelog@ == release.body@,
            r.available == lex_lt(version@, tag_version(release.tag_name@)),
            version@ == tag_version(release.tag_name@) ==> !r.available,
            !(r.available && lex_lt(tag_version(release.tag_name@), version@)),
    {
        proof {
            crate::text::lemma_lex_lt_irreflexive(version@);
            crate::text::lemma_lex_lt_asymmetric(version@, tag_version(release.tag_name@));
        }
        let latest = strip_leading(release.tag_name.as_str(), 'v');
        let download_url = find_zip_url(&release.assets);
        let available = str_lt(version, latest.as_str());
        UpdateInfo {
            current_version: version.to_owned(),
            latest_version: latest,
            release_url: release.html_url.clone(),
            download_url,
            changelog: release.body.clone(),
            available,
        }
    }

    /// Name under which the release archive for `version` is stored while it
    /// is applied.
    pub fn archive_name(version: &str) -> (r: String)
        ensures
            r@ == "hyprbrowser-"@ + version@ + ".zip"@,
    {
        let mut name = String::from_str("hyprbrowser-");
        name.append(version);
        name.append(".zip");
        name
    }
}

} // verus!
