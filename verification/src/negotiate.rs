//! Which release of the language server to install, and where it is
//! downloaded from.
//!
//! Without a local toolchain the latest release is taken, and its download
//! address is put together from the release's version and the platform. With
//! one, a compatibility endpoint is asked for the release that matches the
//! toolchain's version, and its response names the address.

use vstd::prelude::*;
use crate::error::{ResolveError, ResolveErrorView};
use crate::json::{json_document, parse_document, string_at};
use crate::platform::{target_token, ArchiveKind, Os, PlatformTarget};
use crate::text::{chars_of, has_suffix, text_of, trimmed};
use crate::url::{percent_encoded, push_percent_encoded};

verus! {

/// A release that was settled on.
#[derive(Clone, Debug, PartialEq, Eq)]
pub struct Release {
    /// The release's version, as the remote side names it.
    pub version: String,
    /// Where the archive for this platform is downloaded from.
    pub download_url: String,
}

/// A [`Release`] with its texts as sequences of characters.
pub struct ReleaseView {
    pub version: Seq<char>,
    pub download_url: Seq<char>,
}

impl View for Release {
    type V = ReleaseView;

    open spec fn view(&self) -> ReleaseView {
        ReleaseView { version: self.version@, download_url: self.download_url@ }
    }
}

/// The outcome of a negotiation, with its texts as sequences of characters.
pub open spec fn outcome_view(outcome: Result<Release, ResolveError>) -> Result<
    ReleaseView,
    ResolveErrorView,
> {
    match outcome {
        Ok(release) => Ok(release@),
        Err(error) => Err(error@),
    }
}

/// The file extension of the archives published for an operating system.
pub open spec fn archive_extension(os: Os) -> Seq<char> {
    match os {
        Os::Mac | Os::Linux => "tar.gz"@,
        Os::Windows => "zip"@,
    }
}

/// The kind of archive published for an operating system: the platform
/// decides it, not the response.
pub open spec fn archive_kind(os: Os) -> ArchiveKind {
    match os {
        Os::Mac | Os::Linux => ArchiveKind::GzipTar,
        Os::Windows => ArchiveKind::Zip,
    }
}

/// The name of a release's asset: `zls-<arch>-<os>-<version>.<extension>`.
pub open spec fn asset_name(version: Seq<char>, platform: PlatformTarget) -> Seq<char> {
    "zls-"@ + target_token(platform) + "-"@ + version + "."@ + archive_extension(platform.os)
}

/// Where the asset of the latest release is downloaded from.
pub open spec fn latest_download_url(version: Seq<char>, platform: PlatformTarget) -> Seq<char> {
    "https://builds.zigtools.org/"@ + asset_name(version, platform)
}

/// The address that answers which release matches a toolchain version: the
/// version goes into the query trimmed and percent-encoded, with the
/// compatibility mode fixed.
pub open spec fn compatibility_url(toolchain_version: Seq<char>) -> Seq<char> {
    "https://releases.zigtools.org/v1/zls/select-version?zig_version="@ + percent_encoded(
        vstd::utf8::encode_utf8(trimmed(toolchain_version)),
    ) + "&compatibility=only-runtime"@
}

/// A tarball address as it is used: one that ends in `.tar.xz` ends in
/// `.tar.gz` instead, any other is unchanged.
pub open spec fn normalized_tarball(url: Seq<char>) -> Seq<char> {
    if ".tar.xz"@.is_suffix_of(url) {
        url.take(url.len() - ".tar.xz"@.len()) + ".tar.gz"@
    } else {
        url
    }
}

/// The JSON Pointer to the version in a compatibility response.
pub open spec fn version_pointer() -> Seq<char> {
    "/version"@
}

/// The JSON Pointer to a platform's tarball address in a compatibility
/// response.
pub open spec fn tarball_pointer(platform: PlatformTarget) -> Seq<char> {
    "/"@ + target_token(platform) + "/tarball_url"@
}

/// The release that a response's version and tarball address amount to.
pub open spec fn selected(
    version: Option<Seq<char>>,
    tarball: Option<Seq<char>>,
    platform: PlatformTarget,
) -> Result<ReleaseView, ResolveErrorView> {
    match version {
        None => Err(ResolveErrorView::MissingVersion),
        Some(version) => match tarball {
            None => Err(ResolveErrorView::UnsupportedPlatform(target_token(platform))),
            Some(url) => Ok(ReleaseView { version, download_url: normalized_tarball(url) }),
        },
    }
}

/// What `strings` holds under `key`, if anything.
pub open spec fn lookup(strings: Map<Seq<char>, Seq<char>>, key: Seq<char>) -> Option<Seq<char>> {
    if strings.contains_key(key) {
        Some(strings[key])
    } else {
        None
    }
}

/// The release that a compatibility response amounts to, given the strings
/// of its JSON document.
pub open spec fn negotiated(
    document: Option<Map<Seq<char>, Seq<char>>>,
    platform: PlatformTarget,
) -> Result<ReleaseView, ResolveErrorView> {
    match document {
        None => Err(ResolveErrorView::MalformedResponse),
        Some(strings) => selected(
            lookup(strings, version_pointer()),
            lookup(strings, tarball_pointer(platform)),
            platform,
        ),
    }
}

impl Os {
    /// The file extension of the archives published for this system.
    pub fn archive_extension(self) -> (r: &'static str)
        ensures
            r@ == archive_extension(self),
    {
        match self {
            Os::Mac | Os::Linux => "tar.gz",
            Os::Windows => "zip",
        }
    }

    /// The kind of archive published for this system.
    pub fn archive_kind(self) -> (r: ArchiveKind)
        ensures
            r == archive_kind(self),
    {
        match self {
            Os::Mac | Os::Linux => ArchiveKind::GzipTar,
            Os::Windows => ArchiveKind::Zip,
        }
    }
}

/// The version of the local toolchain, given how a run of its version
/// subcommand ended: what it printed, where it exited with success. The text
/// is kept as printed; it is trimmed where it is used.
pub open spec fn printed_version(status: Option<i32>, stdout: Seq<char>) -> Option<Seq<char>> {
    if status == Some(0i32) {
        Some(stdout)
    } else {
        None
    }
}

/// The version of the local toolchain, see [`printed_version`].
pub fn toolchain_version(status: Option<i32>, stdout: String) -> (r: Option<String>)
    ensures
        r.deep_view() == printed_version(status, stdout@),
{
    match status {
        Some(0) => Some(stdout),
        _ => None,
    }
}

/// The latest release with its download address, given the version that the
/// release lookup reported.
pub fn latest_release(version: String, platform: PlatformTarget) -> (r: Release)
    ensures
        r@ == (ReleaseView {
            version: version@,
            download_url: latest_download_url(version@, platform),
        }),
{
    let mut url = String::from_str("https://builds.zigtools.org/");
    url.append("zls-");
    url.append(platform.token().as_str());
    url.append("-");
    url.append(version.as_str());
    url.append(".");
    url.append(platform.os.archive_extension());
    proof {
        assert(url@ =~= latest_download_url(version@, platform));
    }
    Release { version, download_url: url }
}

/// The address to ask for the release that matches `toolchain_version`.
pub fn compatibility_request(toolchain_version: &str) -> (r: String)
    ensures
        r@ == compatibility_url(toolchain_version@),
{
    let version = crate::text::trim(toolchain_version);
    let mut url = String::from_str(
        "https://releases.zigtools.org/v1/zls/select-version?zig_version=",
    );
    push_percent_encoded(&mut url, version.as_str());
    url.append("&compatibility=only-runtime");
    url
}

/// The tarball address as it is used: `.tar.xz` at its end becomes `.tar.gz`,
/// the only form that is sure to be unpacked.
pub fn normalize_tarball(url: &str) -> (r: String)
    ensures
        r@ == normalized_tarball(url@),
        ".tar.xz"@.is_suffix_of(url@) ==> ".tar.gz"@.is_suffix_of(r@) && r@.len() == url@.len()
            && r@.take(r@.len() - 7) == url@.take(url@.len() - 7),
        !".tar.xz"@.is_suffix_of(url@) ==> r@ == url@,
{
    let chars = chars_of(url);
    let suffix = chars_of(".tar.xz");
    proof {
        reveal_strlit(".tar.xz");
        reveal_strlit(".tar.gz");
    }
    if has_suffix(&chars, &suffix) {
        let mut r = text_of(&chars, 0, chars.len() - suffix.len());
        r.append(".tar.gz");
        proof {
            let n = url@.len() as int;
            assert(r@.len() == n);
            assert(r@.subrange(n - 7, n) =~= ".tar.gz"@);
            assert(r@.take(n - 7) =~= url@.take(n - 7));
        }
        r
    } else {
        text_of(&chars, 0, chars.len())
    }
}

/// The JSON Pointer to a platform's tarball address.
fn tarball_pointer_text(platform: PlatformTarget) -> (r: String)
    ensures
        r@ == tarball_pointer(platform),
{
    let mut r = String::from_str("/");
    r.append(platform.token().as_str());
    r.append("/tarball_url");
    r
}

/// The release that a compatibility response amounts to, given the version
/// and the tarball address for this platform that were found in it.
///
/// A response without a version is refused, one without an asset for this
/// platform is an unsupported platform, and the address is normalized.
pub fn select_release(
    version: Option<String>,
    tarball: Option<String>,
    platform: PlatformTarget,
) -> (r: Result<Release, ResolveError>)
    ensures
        outcome_view(r) == selected(version.deep_view(), tarball.deep_view(), platform),
{
    match version {
        None => Err(ResolveError::MissingVersion),
        Some(version) => match tarball {
            None => Err(ResolveError::UnsupportedPlatform(platform.token())),
            Some(url) => {
                let download_url = normalize_tarball(url.as_str());
                Ok(Release { version, download_url })
            },
        },
    }
}

/// The release that the body of a compatibility response names for this
/// platform.
///
/// A body that is no JSON document is a malformed response; for a document,
/// see [`select_release`].
pub fn negotiate_from_response(body: &[u8], platform: PlatformTarget) -> (r: Result<
    Release,
    ResolveError,
>)
    ensures
        outcome_view(r) == negotiated(json_document(body@), platform),
{
    match parse_document(body) {
        None => Err(ResolveError::MalformedResponse),
        Some(document) => {
            let version = string_at(&document, "/version");
            let pointer = tarball_pointer_text(platform);
            let tarball = string_at(&document, pointer.as_str());
            select_release(version, tarball, platform)
        },
    }
}

} // verus!
