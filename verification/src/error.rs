//! Why a resolution ended without a binary.

use vstd::prelude::*;

verus! {

/// A failure that ends a resolution. Nothing that merely sends the
/// resolution down another path (no toolchain, nothing cached, nothing on the
/// search path) is one.
#[derive(Clone, Debug, PartialEq, Eq)]
pub enum ResolveError {
    /// The latest release could not be looked up; holds the host's reason.
    Release(String),
    /// The request to the compatibility endpoint failed; holds the transport's
    /// reason.
    Fetch(String),
    /// The compatibility endpoint answered with something that is no JSON
    /// document.
    MalformedResponse,
    /// The compatibility response names no version.
    MissingVersion,
    /// The compatibility response has no asset for this platform; holds the
    /// platform's target name.
    UnsupportedPlatform(String),
    /// The archive could not be downloaded or unpacked; holds the cause.
    Download(String),
    /// The binary could not be made executable; holds the cause.
    Permission(String),
    /// The working directory could not be listed; holds the cause.
    ListDir(String),
    /// An entry of the working directory could not be read; holds the cause.
    DirEntry(String),
    /// An event arrived that does not answer the action last asked for.
    UnexpectedEvent,
}

/// A [`ResolveError`] with its texts as sequences of characters.
pub enum ResolveErrorView {
    Release(Seq<char>),
    Fetch(Seq<char>),
    MalformedResponse,
    MissingVersion,
    UnsupportedPlatform(Seq<char>),
    Download(Seq<char>),
    Permission(Seq<char>),
    ListDir(Seq<char>),
    DirEntry(Seq<char>),
    UnexpectedEvent,
}

impl View for ResolveError {
    type V = ResolveErrorView;

    open spec fn view(&self) -> ResolveErrorView {
        match self {
            ResolveError::Release(e) => ResolveErrorView::Release(e@),
            ResolveError::Fetch(e) => ResolveErrorView::Fetch(e@),
            ResolveError::MalformedResponse => ResolveErrorView::MalformedResponse,
            ResolveError::MissingVersion => ResolveErrorView::MissingVersion,
            ResolveError::UnsupportedPlatform(t) => ResolveErrorView::UnsupportedPlatform(t@),
            ResolveError::Download(e) => ResolveErrorView::Download(e@),
            ResolveError::Permission(e) => ResolveErrorView::Permission(e@),
            ResolveError::ListDir(e) => ResolveErrorView::ListDir(e@),
            ResolveError::DirEntry(e) => ResolveErrorView::DirEntry(e@),
            ResolveError::UnexpectedEvent => ResolveErrorView::UnexpectedEvent,
        }
    }
}

/// The text an error is reported with.
pub open spec fn error_message(error: ResolveErrorView) -> Seq<char> {
    match error {
        ResolveErrorView::Release(e) => e,
        ResolveErrorView::Fetch(e) => "failed to fetch the compatible version: "@ + e,
        ResolveErrorView::MalformedResponse => "failed to parse the compatibility response"@,
        ResolveErrorView::MissingVersion => "the compatibility response names no version"@,
        ResolveErrorView::UnsupportedPlatform(t) => "no release is published for platform "@ + t,
        ResolveErrorView::Download(e) => "failed to download file: "@ + e,
        ResolveErrorView::Permission(e) => e,
        ResolveErrorView::ListDir(e) => "failed to list working directory "@ + e,
        ResolveErrorView::DirEntry(e) => "failed to load directory entry "@ + e,
        ResolveErrorView::UnexpectedEvent => "the event does not answer the pending action"@,
    }
}

fn prefixed(prefix: &str, cause: &String) -> (r: String)
    ensures
        r@ == prefix@ + cause@,
{
    let mut r = String::from_str(prefix);
    r.append(cause.as_str());
    r
}

impl ResolveError {
    /// The text this error is reported with.
    pub fn message(&self) -> (r: String)
        ensures
            r@ == error_message(self@),
    {
        match self {
            ResolveError::Release(e) => e.clone(),
            ResolveError::Fetch(e) => prefixed("failed to fetch the compatible version: ", e),
            ResolveError::MalformedResponse => String::from_str(
                "failed to parse the compatibility response",
            ),
            ResolveError::MissingVersion => String::from_str(
                "the compatibility response names no version",
            ),
            ResolveError::UnsupportedPlatform(t) => prefixed(
                "no release is published for platform ",
                t,
            ),
            ResolveError::Download(e) => prefixed("failed to download file: ", e),
            ResolveError::Permission(e) => e.clone(),
            ResolveError::ListDir(e) => prefixed("failed to list working directory ", e),
            ResolveError::DirEntry(e) => prefixed("failed to load directory entry ", e),
            ResolveError::UnexpectedEvent => String::from_str(
                "the event does not answer the pending action",
            ),
        }
    }
}

} // verus!
