//! The version catalog and the lookup that resolves a requested version in it.

use vstd::prelude::*;

use crate::args::ReleaseType;

verus! {

/// The version string that stands for "the newest of the preferred kind".
pub open spec fn latest_word() -> Seq<char> {
    "latest"@
}

/// The catalog: pointers to the newest release and snapshot, and every entry.
#[derive(Debug, Clone, PartialEq, Eq)]
pub struct Manifest {
    pub latest: Latest,
    pub versions: Vec<Version>,
}

/// The ids of the newest release and the newest snapshot.
#[derive(Debug, Clone, PartialEq, Eq)]
pub struct Latest {
    pub release: String,
    pub snapshot: String,
}

/// One entry of the catalog: a release or a snapshot and where its detail lives.
#[derive(Debug, Clone, PartialEq, Eq)]
pub struct Version {
    pub id: String,
    pub type_field: String,
    pub url: String,
    pub time: String,
    pub release_time: String,
}

/// The detail of one version: above all, where its jars are and their digests.
#[derive(Debug, Clone, PartialEq, Eq)]
pub struct Release {
    pub id: String,
    pub downloads: Downloads,
    pub main_class: String,
    pub minimum_launcher_version: i64,
    pub release_time: String,
    pub time: String,
    pub type_field: String,
}

/// The two downloadable jars of a version.
#[derive(Debug, Clone, PartialEq, Eq)]
pub struct Downloads {
    pub client: Client,
    pub server: Server,
}

/// The client jar: its SHA-1 digest in lowercase hex, its size in bytes, its address.
#[derive(Debug, Clone, PartialEq, Eq)]
pub struct Client {
    pub sha1: String,
    pub size: i64,
    pub url: String,
}

/// The server jar: its SHA-1 digest in lowercase hex, its size in bytes, its address.
#[derive(Debug, Clone, PartialEq, Eq)]
pub struct Server {
    pub sha1: String,
    pub size: i64,
    pub url: String,
}

/// What a `Version` holds, as character sequences.
pub struct VersionView {
    pub id: Seq<char>,
    pub type_field: Seq<char>,
    pub url: Seq<char>,
    pub time: Seq<char>,
    pub release_time: Seq<char>,
}

impl View for Version {
    type V = VersionView;

    open spec fn view(&self) -> VersionView {
        VersionView {
            id: self.id@,
            type_field: self.type_field@,
            url: self.url@,
            time: self.time@,
            release_time: self.release_time@,
        }
    }
}

/// What a `Manifest` holds: the two pointers and the entries in catalog order.
pub struct ManifestView {
    pub release: Seq<char>,
    pub snapshot: Seq<char>,
    pub versions: Seq<VersionView>,
}

impl View for Manifest {
    type V = ManifestView;

    open spec fn view(&self) -> ManifestView {
        ManifestView {
            release: self.latest.release@,
            snapshot: self.latest.snapshot@,
            versions: self.versions@.map_values(|v: Version| v@),
        }
    }
}

/// `k` is the position of the first entry of `vs` whose id is `id`.
pub open spec fn is_first_with_id(vs: Seq<VersionView>, id: Seq<char>, k: int) -> bool {
    &&& 0 <= k < vs.len()
    &&& vs[k].id == id
    &&& forall|j: int| 0 <= j < k ==> #[trigger] vs[j].id != id
}

/// The first entry of `vs` with the given id, if there is one.
pub open spec fn lookup(vs: Seq<VersionView>, id: Seq<char>) -> Option<VersionView> {
    if exists|k: int| is_first_with_id(vs, id, k) {
        Some(vs[choose|k: int| is_first_with_id(vs, id, k)])
    } else {
        None
    }
}

/// The id that a request names: the preferred pointer for `latest`, else the request itself.
pub open spec fn requested_id(m: ManifestView, pref: ReleaseType, version: Seq<char>) -> Seq<char> {
    if version == latest_word() {
        match pref {
            ReleaseType::release => m.release,
            ReleaseType::snapshot => m.snapshot,
        }
    } else {
        version
    }
}

/// The entry that a request resolves to in the catalog.
pub open spec fn resolve(m: ManifestView, pref: ReleaseType, version: Seq<char>) -> Option<VersionView> {
    lookup(m.versions, requested_id(m, pref, version))
}

/// What an optional entry holds.
pub open spec fn summary_of(r: Option<Version>) -> Option<VersionView> {
    match r {
        Some(v) => Some(v@),
        None => None,
    }
}

/// Whether `version` is the word `latest`.
fn is_latest(version: &str) -> (r: bool)
    ensures
        r == (version@ == latest_word()),
{
    let requested = version.to_owned();
    let word = "latest".to_owned();
    requested == word
}

impl Manifest {
    /// The entry whose id is `id`, copied out of the catalog. Entries are searched in
    /// catalog order, so of two entries that share an id the earlier one is found.
    pub fn find_by_id(&mut self, id: &str) -> (r: Option<Version>)
        ensures
            *final(self) == *old(self),
            summary_of(r) == lookup(old(self)@.versions, id@),
    {
        let target = id.to_owned();
        let mut i: usize = 0;
        while i < self.versions.len()
            invariant
                i <= self.versions.len(),
                target@ == id@,
                forall|j: int| 0 <= j < i ==> #[trigger] self.versions@[j].id@ != id@,
            decreases self.versions.len() - i,
        {
            if self.versions[i].id == target {
                let found = self.versions[i].copy();
                proof {
                    let vs = self@.versions;
                    assert(is_first_with_id(vs, id@, i as int));
                    let c = choose|k: int| is_first_with_id(vs, id@, k);
                    assert(c == i) by {
                        if c < i {
                            assert(self.versions@[c].id@ != id@);
                        }
                        if i < c {
                            assert(vs[i as int].id != id@);
                        }
                    }
                }
                return Some(found);
            }
            i = i + 1;
        }
        proof {
            let vs = self@.versions;
            assert forall|k: int| !is_first_with_id(vs, id@, k) by {
                if 0 <= k < vs.len() {
                    assert(self.versions@[k].id@ != id@);
                }
            }
        }
        None
    }

    /// The entry that a request for `version` of kind `release_type` names.
    pub fn get(&mut self, release_type: ReleaseType, version: &str) -> (r: Option<Version>)
        ensures
            *final(self) == *old(self),
            summary_of(r) == resolve(old(self)@, release_type, version@),
    {
        if !is_latest(version) {
            return self.find_by_id(version);
        }
        match release_type {
            ReleaseType::release => {
                let latest = self.latest.release.clone();
                self.find_by_id(latest.as_str())
            },
            ReleaseType::snapshot => {
                let latest = self.latest.snapshot.clone();
                self.find_by_id(latest.as_str())
            },
        }
    }
}

impl Version {
    /// A fresh copy of this entry, sharing nothing with it.
    pub fn copy(&self) -> (r: Self)
        ensures
            r@ == self@,
    {
        Version {
            id: self.id.clone(),
            type_field: self.type_field.clone(),
            url: self.url.clone(),
            time: self.time.clone(),
            release_time: self.release_time.clone(),
        }
    }
}


/// No two entries of `vs` share an id.
pub open spec fn ids_unique(vs: Seq<VersionView>) -> bool {
    forall|a: int, b: int|
        0 <= a < vs.len() && 0 <= b < vs.len() && a != b ==> #[trigger] vs[a].id != #[trigger] vs[b].id
}

/// An entry with id `id` at `k` means some entry is the first with that id.
proof fn lemma_first_exists(vs: Seq<VersionView>, id: Seq<char>, k: int)
    requires
        0 <= k < vs.len(),
        vs[k].id == id,
    ensures
        exists|f: int| is_first_with_id(vs, id, f),
    decreases k,
{
    if forall|j: int| 0 <= j < k ==> #[trigger] vs[j].id != id {
        assert(is_first_with_id(vs, id, k));
    } else {
        let j = choose|j: int| 0 <= j < k && #[trigger] vs[j].id == id;
        lemma_first_exists(vs, id, j);
    }
}

/// The first entry with a given id is the only first entry with it.
proof fn lemma_first_unique(vs: Seq<VersionView>, id: Seq<char>, f: int, g: int)
    requires
        is_first_with_id(vs, id, f),
        is_first_with_id(vs, id, g),
    ensures
        f == g,
{
    if f < g {
        assert(vs[f].id != id);
    }
    if g < f {
        assert(vs[g].id != id);
    }
}

/// An explicit id that is in the catalog resolves to an entry with that id, whatever the
/// preferred kind; when ids are unique it is exactly the entry that holds it.
pub proof fn lemma_explicit_id_resolves(c: Manifest, pref: ReleaseType, id: Seq<char>, k: int)
    requires
        0 <= k < c@.versions.len(),
        c@.versions[k].id == id,
        id != latest_word(),
    ensures
        resolve(c@, pref, id) is Some,
        resolve(c@, pref, id)->0.id == id,
        resolve(c@, pref, id) == resolve(c@, ReleaseType::release, id),
        resolve(c@, pref, id) == resolve(c@, ReleaseType::snapshot, id),
        ids_unique(c@.versions) ==> resolve(c@, pref, id) == Some(c@.versions[k]),
{
    let vs = c@.versions;
    lemma_first_exists(vs, id, k);
    let f = choose|f: int| is_first_with_id(vs, id, f);
    if ids_unique(vs) {
        if f != k {
            assert(vs[f].id != vs[k].id);
        }
    }
}

/// Asking for the latest release is asking for the id that the release pointer holds.
pub proof fn lemma_latest_release(c: Manifest, pref: ReleaseType)
    requires
        c@.release != latest_word(),
    ensures
        resolve(c@, ReleaseType::release, latest_word()) == resolve(c@, pref, c@.release),
{
}

/// Asking for the latest snapshot is asking for the id that the snapshot pointer holds.
pub proof fn lemma_latest_snapshot(c: Manifest, pref: ReleaseType)
    requires
        c@.snapshot != latest_word(),
    ensures
        resolve(c@, ReleaseType::snapshot, latest_word()) == resolve(c@, pref, c@.snapshot),
{
}

/// When both pointers name the same id, the latest snapshot is the latest release.
pub proof fn lemma_same_pointers(c: Manifest)
    requires
        c@.snapshot == c@.release,
    ensures
        resolve(c@, ReleaseType::snapshot, latest_word()) == resolve(c@, ReleaseType::release, latest_word()),
{
}

/// An explicit id that no entry holds resolves to nothing, whatever the preferred kind.
pub proof fn lemma_absent_id(c: Manifest, pref: ReleaseType, id: Seq<char>)
    requires
        id != latest_word(),
        forall|k: int| 0 <= k < c@.versions.len() ==> #[trigger] c@.versions[k].id != id,
    ensures
        resolve(c@, pref, id) == None::<VersionView>,
{
    let vs = c@.versions;
    assert forall|k: int| !is_first_with_id(vs, id, k) by {
        if 0 <= k < vs.len() {
            assert(vs[k].id != id);
        }
    }
}

} // verus!
