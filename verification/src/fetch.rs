//! Where a release is installed, and what is cleared away after a fresh
//! download.
//!
//! A release lives alone in a directory named `zls-<version>`. The stricter
//! variant keeps one such directory: after a fresh download every other entry
//! of the working directory is removed, as far as that succeeds.

use vstd::prelude::*;
use crate::negotiate::{Release, ReleaseView};
use crate::platform::Os;
use crate::text::same_text;

verus! {

/// Where a release comes from and where it goes.
#[derive(Clone, Debug, PartialEq, Eq)]
pub struct Plan {
    /// Where the archive is downloaded from.
    pub download_url: String,
    /// The directory the archive is unpacked into.
    pub version_dir: String,
    /// The path of the binary inside that directory.
    pub binary_path: String,
}

/// A [`Plan`] with its texts as sequences of characters.
pub struct PlanView {
    pub download_url: Seq<char>,
    pub version_dir: Seq<char>,
    pub binary_path: Seq<char>,
}

impl View for Plan {
    type V = PlanView;

    open spec fn view(&self) -> PlanView {
        PlanView {
            download_url: self.download_url@,
            version_dir: self.version_dir@,
            binary_path: self.binary_path@,
        }
    }
}

/// The directory a version is installed in: `zls-<version>`.
pub open spec fn version_dir(version: Seq<char>) -> Seq<char> {
    "zls-"@ + version
}

/// The binary inside a version's directory: `zls`, and `zls.exe` on Windows.
pub open spec fn binary_path(dir: Seq<char>, os: Os) -> Seq<char> {
    match os {
        Os::Mac | Os::Linux => dir + "/zls"@,
        Os::Windows => dir + "/zls.exe"@,
    }
}

/// The plan for installing a release on an operating system.
pub open spec fn plan_of(release: ReleaseView, os: Os) -> PlanView {
    PlanView {
        download_url: release.download_url,
        version_dir: version_dir(release.version),
        binary_path: binary_path(version_dir(release.version), os),
    }
}

/// The plan for installing `release` on `os`.
pub fn plan_for(release: Release, os: Os) -> (r: Plan)
    ensures
        r@ == plan_of(release@, os),
{
    let mut dir = String::from_str("zls-");
    dir.append(release.version.as_str());
    let mut path = dir.clone();
    match os {
        Os::Mac | Os::Linux => path.append("/zls"),
        Os::Windows => path.append("/zls.exe"),
    }
    Plan { download_url: release.download_url, version_dir: dir, binary_path: path }
}

/// One entry of the working directory, as its listing gave it.
#[derive(Clone, Debug, PartialEq, Eq)]
pub enum DirEntry {
    /// An entry with this name.
    Named(String),
    /// An entry whose name is not valid Unicode.
    Unnamed,
    /// The listing failed at this entry, for this reason.
    Failed(String),
}

/// A [`DirEntry`] with its texts as sequences of characters.
pub enum DirEntryView {
    Named(Seq<char>),
    Unnamed,
    Failed(Seq<char>),
}

impl View for DirEntry {
    type V = DirEntryView;

    open spec fn view(&self) -> DirEntryView {
        match self {
            DirEntry::Named(name) => DirEntryView::Named(name@),
            DirEntry::Unnamed => DirEntryView::Unnamed,
            DirEntry::Failed(cause) => DirEntryView::Failed(cause@),
        }
    }
}

/// A listing with its texts as sequences of characters.
pub open spec fn listing_view(entries: Seq<DirEntry>) -> Seq<DirEntryView> {
    Seq::new(entries.len(), |i: int| entries[i]@)
}

/// Whether an entry is to be removed: every entry is, but the one named
/// `keep`. An entry that could not be read is not touched.
pub open spec fn is_stale(entry: DirEntryView, keep: Seq<char>) -> bool {
    match entry {
        DirEntryView::Named(name) => name != keep,
        DirEntryView::Unnamed => true,
        DirEntryView::Failed(_) => false,
    }
}

/// The index of the first entry at which the listing failed, and the length
/// of the listing where it did not fail.
pub open spec fn first_failure(entries: Seq<DirEntryView>) -> int
    decreases entries.len(),
{
    if entries.len() == 0 {
        0
    } else if entries.first() is Failed {
        0
    } else {
        1 + first_failure(entries.drop_first())
    }
}

/// The stale entries among the first `n`, by index, in the listing's order.
pub open spec fn stale_among(entries: Seq<DirEntryView>, keep: Seq<char>, n: int) -> Seq<usize>
    decreases n,
{
    if n <= 0 {
        Seq::empty()
    } else if is_stale(entries[n - 1], keep) {
        stale_among(entries, keep, n - 1).push((n - 1) as usize)
    } else {
        stale_among(entries, keep, n - 1)
    }
}

/// The entries to remove after a fresh download into `keep`: the stale
/// entries up to where the listing failed.
pub open spec fn removals(entries: Seq<DirEntryView>, keep: Seq<char>) -> Seq<usize> {
    stale_among(entries, keep, first_failure(entries))
}

/// Why the listing failed, where it did.
pub open spec fn listing_failure(entries: Seq<DirEntryView>) -> Option<Seq<char>> {
    let at = first_failure(entries);
    if at < entries.len() {
        match entries[at] {
            DirEntryView::Failed(cause) => Some(cause),
            _ => None,
        }
    } else {
        None
    }
}

/// The first failure lies where an entry failed and none before it did.
pub proof fn lemma_first_failure(entries: Seq<DirEntryView>, at: int)
    requires
        0 <= at <= entries.len(),
        forall|k: int| 0 <= k < at ==> !((#[trigger] entries[k]) is Failed),
        at == entries.len() || entries[at] is Failed,
    ensures
        first_failure(entries) == at,
    decreases at,
{
    if at > 0 {
        let rest = entries.drop_first();
        assert(forall|k: int| 0 <= k < at - 1 ==> rest[k] == entries[k + 1]);
        lemma_first_failure(rest, at - 1);
    }
}

/// No entry before the first failure failed, and the entry there did.
pub proof fn lemma_first_failure_bounds(entries: Seq<DirEntryView>)
    ensures
        0 <= first_failure(entries) <= entries.len(),
        forall|k: int| 0 <= k < first_failure(entries) ==> !((#[trigger] entries[k]) is Failed),
        first_failure(entries) < entries.len() ==> entries[first_failure(entries)] is Failed,
    decreases entries.len(),
{
    if entries.len() > 0 && !(entries.first() is Failed) {
        let rest = entries.drop_first();
        lemma_first_failure_bounds(rest);
        assert(forall|k: int| 1 <= k <= rest.len() ==> entries[k] == rest[k - 1]);
    }
}

/// What is removed is exactly what is stale among the first `n` entries, each
/// once and in the listing's order.
pub proof fn lemma_stale_among(entries: Seq<DirEntryView>, keep: Seq<char>, n: int)
    requires
        0 <= n <= entries.len(),
        entries.len() <= usize::MAX,
    ensures
        forall|j: int|
            0 <= j < stale_among(entries, keep, n).len() ==> 0 <= (#[trigger] stale_among(
                entries,
                keep,
                n,
            )[j]) < n && is_stale(entries[stale_among(entries, keep, n)[j] as int], keep),
        forall|i: int|
            0 <= i < n && is_stale(#[trigger] entries[i], keep) ==> stale_among(
                entries,
                keep,
                n,
            ).contains(i as usize),
        forall|j: int, k: int|
            0 <= j < k < stale_among(entries, keep, n).len() ==> stale_among(entries, keep, n)[j]
                < stale_among(entries, keep, n)[k],
    decreases n,
{
    if n > 0 {
        lemma_stale_among(entries, keep, n - 1);
        let before = stale_among(entries, keep, n - 1);
        let now = stale_among(entries, keep, n);
        if is_stale(entries[n - 1], keep) {
            assert(now == before.push((n - 1) as usize));
            assert(now[before.len() as int] == (n - 1) as usize);
            assert forall|i: int|
                0 <= i < n && is_stale(#[trigger] entries[i], keep) implies now.contains(
                i as usize,
            ) by {
                if i < n - 1 {
                    let j = choose|j: int| 0 <= j < before.len() && before[j] == i as usize;
                    assert(now[j] == i as usize);
                } else {
                    assert(now[before.len() as int] == i as usize);
                }
            }
        } else {
            assert(now == before);
        }
    }
}

/// After a cleanup whose listing did not fail, an entry that was not removed
/// is the directory that was kept: no other version's directory survives.
pub proof fn lemma_cleanup_keeps_one(entries: Seq<DirEntryView>, keep: Seq<char>, i: int)
    requires
        entries.len() <= usize::MAX,
        listing_failure(entries) is None,
        0 <= i < entries.len(),
        !removals(entries, keep).contains(i as usize),
    ensures
        entries[i] == DirEntryView::Named(keep),
{
    lemma_first_failure_bounds(entries);
    lemma_stale_among(entries, keep, first_failure(entries));
}

/// What to remove after a fresh download into `keep`, and why the listing
/// failed where it did: the entries are taken in order up to the first that
/// could not be read, and each that is not `keep` is to be removed.
pub fn plan_cleanup(entries: &Vec<DirEntry>, keep: &str) -> (r: (Vec<usize>, Option<String>))
    ensures
        r.0@ == removals(listing_view(entries@), keep@),
        r.1.deep_view() == listing_failure(listing_view(entries@)),
{
    let ghost listing = listing_view(entries@);
    let mut stale: Vec<usize> = Vec::new();
    let mut i: usize = 0;
    while i < entries.len()
        invariant
            i <= entries.len(),
            listing == listing_view(entries@),
            forall|k: int| 0 <= k < i ==> !((#[trigger] listing[k]) is Failed),
            stale@ == stale_among(listing, keep@, i as int),
        decreases entries.len() - i,
    {
        match &entries[i] {
            DirEntry::Named(name) => {
                if !same_text(name.as_str(), keep) {
                    stale.push(i);
                }
            },
            DirEntry::Unnamed => {
                stale.push(i);
            },
            DirEntry::Failed(cause) => {
                proof {
                    lemma_first_failure(listing, i as int);
                }
                return (stale, Some(cause.clone()));
            },
        }
        assert(listing[i as int] == entries@[i as int]@);
        i = i + 1;
    }
    proof {
        lemma_first_failure(listing, i as int);
    }
    (stale, None)
}

} // verus!
