//! Whether a newer launcher release is out, from the project's latest
//! release as the release service describes it.
use crate::content::store::{lowercase_of, to_lowercase};
use crate::loaders::order::{semver_compare, semver_order};
use crate::text::{from_chars, has_prefix, has_suffix, lit, push_all, slice_chars, str_ends_with, to_chars, trim, trim_exec};
use vstd::prelude::*;

verus! {

#[derive(Debug, Clone)]
pub struct LauncherUpdateInfo {
    pub current_version: String,
    pub latest_version: String,
    pub release_notes: String,
    pub html_url: String,
    pub download_url: Option<String>,
    pub published_at: Option<String>,
    pub has_update: bool,
}

/// A published release.
#[derive(Debug, Clone)]
pub struct GithubRelease {
    pub tag_name: String,
    pub html_url: String,
    pub body: Option<String>,
    pub published_at: Option<String>,
    pub assets: Vec<GithubAsset>,
}

/// A file attached to a release.
#[derive(Debug, Clone)]
pub struct GithubAsset {
    pub name: String,
    pub browser_download_url: String,
}

/// What asking for the latest release gave.
#[derive(Debug, Clone)]
pub enum ReleaseReply {
    /// The request failed; the failure's message.
    Unreachable(String),
    /// A status other than success: its code and its text.
    Status(u16, String),
    /// A success whose body is not a release; the decoder's message.
    Malformed(String),
    /// A success with the release.
    Release(GithubRelease),
}

/// The message `semver::Version::parse` gives for text that is not a
/// version, `None` for a version.
pub uninterp spec fn semver_parse_error(s: Seq<char>) -> Option<Seq<char>>;

/// Trusted: `semver::Version::parse`, its error as text. The contract only
/// names the outcome.
#[verifier::external_body]
fn semver_error(s: &str) -> (r: Option<String>)
    ensures
        r matches Some(e) ==> semver_parse_error(s@) == Some(e@),
        r is None ==> semver_parse_error(s@) is None,
{
    match semver::Version::parse(s) {
        Ok(_) => None,
        Err(e) => Some(e.to_string()),
    }
}

/// An asset that is an installer or an archive: its name, in lower case,
/// ends in `.exe`, `.msi` or `.zip`.
pub open spec fn installer_asset(a: GithubAsset) -> bool {
    let n = lowercase_of(a.name@);
    has_suffix(n, ".exe"@) || has_suffix(n, ".msi"@) || has_suffix(n, ".zip"@)
}

/// The first installer asset at or after `i`.
pub open spec fn first_installer(assets: Seq<GithubAsset>, i: int) -> Option<int>
    decreases assets.len() - i,
{
    if i < 0 || i >= assets.len() {
        None
    } else if installer_asset(assets[i]) {
        Some(i)
    } else {
        first_installer(assets, i + 1)
    }
}

/// Where to download a release: the first installer asset, else the first
/// asset, else the release page.
pub open spec fn download_choice(r: GithubRelease) -> Seq<char> {
    match first_installer(r.assets@, 0) {
        Some(i) => r.assets@[i].browser_download_url@,
        None => if r.assets@.len() > 0 {
            r.assets@[0].browser_download_url@
        } else {
            r.html_url@
        },
    }
}

/// A release tag without surrounding blanks.
pub open spec fn raw_tag(r: GithubRelease) -> Seq<char> {
    trim(r.tag_name@)
}

/// The version a tag names: without a leading `v`.
pub open spec fn clean_tag(t: Seq<char>) -> Seq<char> {
    if has_prefix(t, "v"@) {
        t.skip(1)
    } else {
        t
    }
}

/// The release notes shown when a release has none.
pub open spec fn no_notes() -> Seq<char> {
    "No release notes provided for this update."@
}

fn download_url(release: &GithubRelease) -> (r: String)
    ensures
        r@ == download_choice(*release),
{
    let mut i: usize = 0;
    while i < release.assets.len()
        invariant
            i <= release.assets@.len(),
            first_installer(release.assets@, 0) == first_installer(release.assets@, i as int),
        decreases release.assets.len() - i,
    {
        let n = to_chars(to_lowercase(release.assets[i].name.as_str()).as_str());
        if str_ends_with(&n, ".exe") || str_ends_with(&n, ".msi") || str_ends_with(&n, ".zip") {
            return release.assets[i].browser_download_url.clone();
        }
        i += 1;
    }
    if release.assets.len() > 0 {
        release.assets[0].browser_download_url.clone()
    } else {
        release.html_url.clone()
    }
}

fn message2(a: &str, b: &str) -> (r: String)
    ensures
        r@ == a@ + b@,
{
    let mut m = to_chars(a);
    push_all(&mut m, &to_chars(b));
    from_chars(&m)
}

fn message3(a: &str, b: &str, c: &str) -> (r: String)
    ensures
        r@ == a@ + b@ + c@,
{
    let mut m = to_chars(a);
    push_all(&mut m, &to_chars(b));
    push_all(&mut m, &to_chars(c));
    from_chars(&m)
}

/// The answer when the release service knows no release.
pub open spec fn up_to_date(r: LauncherUpdateInfo, current: Seq<char>) -> bool {
    &&& r.current_version@ == current
    &&& r.latest_version@ == current
    &&& r.release_notes@ == "You are running the latest version of MONORYX."@
    &&& r.html_url@ == "https://github.com/DemonZ-Development/Monoryx"@
    &&& r.download_url is None
    &&& r.published_at is None
    &&& !r.has_update
}

/// The answer for a release whose tag names a version.
pub open spec fn from_release(r: LauncherUpdateInfo, current: Seq<char>, release: GithubRelease) -> bool {
    let latest = clean_tag(raw_tag(release));
    &&& r.current_version@ == current
    &&& r.latest_version@ == latest
    &&& r.release_notes@ == match release.body {
        Some(b) => b@,
        None => no_notes(),
    }
    &&& r.html_url == release.html_url
    &&& r.download_url matches Some(u) && u@ == download_choice(release)
    &&& r.published_at == release.published_at
    &&& r.has_update == (semver_order(latest, current) == Some(1i8))
}

/// Whether a newer release than `current` is out, from the reply to the
/// request for the latest release. The running version must be a semver
/// version; no release known means up to date; a refused or throttled
/// request, another failing status, a failed request, a body that is not a
/// release and a tag that is no version are errors, each with its message.
pub fn check_launcher_update(current: &str, reply: ReleaseReply) -> (r: Result<LauncherUpdateInfo, String>)
    ensures
        semver_parse_error(current@) matches Some(e) ==> r == Err::<LauncherUpdateInfo, String>(
            r->Err_0,
        ) && r->Err_0@ == "Invalid current version '"@ + current@ + "': "@ + e,
        semver_parse_error(current@) is None ==> match reply {
            ReleaseReply::Unreachable(e) => r matches Err(m) && m@ == "Failed to reach update server: "@ + e@,
            ReleaseReply::Status(code, text) => if code == 404 {
                r matches Ok(info) && up_to_date(info, current@)
            } else if code == 403 || code == 429 {
                r matches Err(m) && m@
                    == "GitHub API rate limit reached. Please try checking again in a few minutes."@
            } else {
                r matches Err(m) && m@ == "Update server responded with status: "@ + text@
            },
            ReleaseReply::Malformed(e) => r matches Err(m) && m@ == "Failed to parse release metadata: "@ + e@,
            ReleaseReply::Release(rel) => match semver_parse_error(clean_tag(raw_tag(rel))) {
                Some(e) => r matches Err(m) && m@ == "Invalid remote version tag '"@ + raw_tag(rel) + "': "@ + e,
                None => r matches Ok(info) && from_release(info, current@, rel),
            },
        },
{
    match semver_error(current) {
        Some(e) => {
            return Err(message3("Invalid current version '", current, &message2("': ", e.as_str())));
        },
        None => {},
    }
    match reply {
        ReleaseReply::Unreachable(e) => Err(message2("Failed to reach update server: ", e.as_str())),
        ReleaseReply::Status(code, text) => {
            if code == 404 {
                Ok(
                    LauncherUpdateInfo {
                        current_version: String::from_str(current),
                        latest_version: String::from_str(current),
                        release_notes: String::from_str("You are running the latest version of MONORYX."),
                        html_url: String::from_str("https://github.com/DemonZ-Development/Monoryx"),
                        download_url: None,
                        published_at: None,
                        has_update: false,
                    },
                )
            } else if code == 403 || code == 429 {
                Err(String::from_str("GitHub API rate limit reached. Please try checking again in a few minutes."))
            } else {
                Err(message2("Update server responded with status: ", text.as_str()))
            }
        },
        ReleaseReply::Malformed(e) => Err(message2("Failed to parse release metadata: ", e.as_str())),
        ReleaseReply::Release(release) => {
            let raw = trim_exec(&to_chars(release.tag_name.as_str()));
            let clean = if raw.len() > 0 && raw[0] == 'v' {
                slice_chars(&raw, 1, raw.len())
            } else {
                crate::text::copy_chars(&raw)
            };
            proof {
                reveal_strlit("v");
                if raw@.len() > 0 && raw@[0] == 'v' {
                    assert(raw@.take(1) =~= "v"@);
                    assert(clean@ =~= raw@.skip(1));
                } else if raw@.len() > 0 {
                    assert(raw@.take(1)[0] != "v"@[0]);
                }
            }
            let latest = from_chars(&clean);
            match semver_error(latest.as_str()) {
                Some(e) => {
                    let raw_s = from_chars(&raw);
                    Err(message3("Invalid remote version tag '", raw_s.as_str(), &message2("': ", e.as_str())))
                },
                None => {
                    let has_update = match semver_compare(latest.as_str(), current) {
                        Some(c) => c == 1,
                        None => false,
                    };
                    let url = download_url(&release);
                    Ok(
                        LauncherUpdateInfo {
                            current_version: String::from_str(current),
                            latest_version: latest,
                            release_notes: match release.body {
                                Some(b) => b,
                                None => String::from_str("No release notes provided for this update."),
                            },
                            html_url: release.html_url,
                            download_url: Some(url),
                            published_at: release.published_at,
                            has_update,
                        },
                    )
                },
            }
        },
    }
}

} // verus!
