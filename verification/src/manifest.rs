//! The registry's documents: token, manifest list and manifest, and the
//! choice of the entries that fit a platform.

use vstd::prelude::*;

verus! {

/// The payload of the token endpoint.
#[derive(Debug)]
pub struct AuthToken {
    pub token: String,
}

impl View for AuthToken {
    type V = Seq<char>;

    open spec fn view(&self) -> Seq<char> {
        self.token@
    }
}

/// An architecture and an operating system.
#[derive(Debug)]
pub struct Platform {
    pub architecture: String,
    pub os: String,
}

/// The mathematical content of a [`Platform`].
pub struct PlatformView {
    pub architecture: Seq<char>,
    pub os: Seq<char>,
}

impl View for Platform {
    type V = PlatformView;

    open spec fn view(&self) -> PlatformView {
        PlatformView { architecture: self.architecture@, os: self.os@ }
    }
}

impl Clone for Platform {
    fn clone(&self) -> (copy: Platform)
        ensures
            copy@ == self@,
    {
        Platform { architecture: self.architecture.clone(), os: self.os.clone() }
    }
}

impl Platform {
    /// Builds a platform from its two names.
    pub fn new(architecture: &str, os: &str) -> (platform: Platform)
        ensures
            platform@ == (PlatformView { architecture: architecture@, os: os@ }),
    {
        Platform { architecture: String::from_str(architecture), os: String::from_str(os) }
    }

    /// Two platforms are the same when both names are equal, character by
    /// character: no alias of a name is known.
    pub fn same_as(&self, other: &Platform) -> (same: bool)
        ensures
            same == (self@ == other@),
    {
        self.architecture == other.architecture && self.os == other.os
    }
}

/// One variant of an image, as a manifest list names it.
#[derive(Debug)]
pub struct ManifestInList {
    pub digest: String,
    pub platform: Platform,
}

/// The mathematical content of a [`ManifestInList`].
pub struct ManifestInListView {
    pub digest: Seq<char>,
    pub platform: PlatformView,
}

impl View for ManifestInList {
    type V = ManifestInListView;

    open spec fn view(&self) -> ManifestInListView {
        ManifestInListView { digest: self.digest@, platform: self.platform@ }
    }
}

impl Clone for ManifestInList {
    fn clone(&self) -> (copy: ManifestInList)
        ensures
            copy@ == self@,
    {
        ManifestInList { digest: self.digest.clone(), platform: self.platform.clone() }
    }
}

/// A manifest list: the variants of one image tag, in the registry's order.
#[derive(Debug)]
pub struct Manifests {
    pub manifests: Vec<ManifestInList>,
}

impl View for Manifests {
    type V = Seq<ManifestInListView>;

    open spec fn view(&self) -> Seq<ManifestInListView> {
        self.manifests@.map_values(|m: ManifestInList| m@)
    }
}

/// One layer of an image: where its blob is found, and how many bytes the
/// blob is declared to hold.
#[derive(Debug)]
pub struct Layer {
    pub digest: String,
    pub size: usize,
}

/// The mathematical content of a [`Layer`].
pub struct LayerView {
    pub digest: Seq<char>,
    pub size: nat,
}

impl View for Layer {
    type V = LayerView;

    open spec fn view(&self) -> LayerView {
        LayerView { digest: self.digest@, size: self.size as nat }
    }
}

/// A manifest: the layers of one image, in the order in which they are
/// applied.
#[derive(Debug)]
pub struct Manifest {
    pub layers: Vec<Layer>,
}

impl View for Manifest {
    type V = Seq<LayerView>;

    open spec fn view(&self) -> Seq<LayerView> {
        self.layers@.map_values(|l: Layer| l@)
    }
}

/// The entries of `entries` that are for `platform`, in their order.
pub open spec fn entries_for(
    entries: Seq<ManifestInListView>,
    platform: PlatformView,
) -> Seq<ManifestInListView> {
    entries.filter(|m: ManifestInListView| m.platform == platform)
}

/// Whether `entries` names `platform` at all.
pub open spec fn offers(entries: Seq<ManifestInListView>, platform: PlatformView) -> bool {
    exists|i: int| 0 <= i < entries.len() && (#[trigger] entries[i]).platform == platform
}

/// The chosen entries are empty exactly when the list does not offer the
/// platform.
pub proof fn lemma_entries_for_empty(entries: Seq<ManifestInListView>, platform: PlatformView)
    ensures
        entries_for(entries, platform).len() == 0 <==> !offers(entries, platform),
    decreases entries.len(),
{
    reveal(Seq::filter);
    let pred = |m: ManifestInListView| m.platform == platform;
    if entries.len() > 0 {
        let front = entries.drop_last();
        lemma_entries_for_empty(front, platform);
        if pred(entries.last()) {
            assert(entries[entries.len() - 1].platform == platform);
        } else if offers(entries, platform) {
            let i = choose|i: int| 0 <= i < entries.len() && (#[trigger] entries[i]).platform
                == platform;
            assert(front[i].platform == platform);
        } else {
            assert forall|i: int| 0 <= i < front.len() implies (#[trigger] front[i]).platform
                != platform by {
                assert(entries[i].platform != platform);
            }
        }
    }
}

impl Manifests {
    /// Keeps the entries whose platform is exactly `platform`, in their
    /// order.
    pub fn retain_platform(self, platform: &Platform) -> (kept: Manifests)
        ensures
            kept@ == entries_for(self@, platform@),
    {
        let ghost pred = |m: ManifestInListView| m.platform == platform@;
        let ghost all = self@;
        let mut kept: Vec<ManifestInList> = Vec::new();
        let n: usize = self.manifests.len();
        let mut i: usize = 0;
        proof {
            reveal(Seq::filter);
            assert(all.take(0) =~= Seq::<ManifestInListView>::empty());
        }
        while i < n
            invariant
                i <= n,
                n == self.manifests.len(),
                all == self@,
                pred == (|m: ManifestInListView| m.platform == platform@),
                kept@.map_values(|m: ManifestInList| m@) == all.take(i as int).filter(pred),
            decreases n - i,
        {
            let entry = &self.manifests[i];
            proof {
                assert(all.take(i as int + 1) =~= all.take(i as int).push(entry@));
                all.take(i as int).lemma_filter_push(entry@, pred);
            }
            if entry.platform.same_as(platform) {
                let copy = entry.clone();
                let ghost before = kept@;
                kept.push(copy);
                assert(kept@.map_values(|m: ManifestInList| m@) =~= before.map_values(
                    |m: ManifestInList| m@,
                ).push(entry@));
            }
            i = i + 1;
        }
        assert(all.take(n as int) =~= all);
        Manifests { manifests: kept }
    }

    /// Tells whether the list holds no entry.
    pub fn is_empty(&self) -> (empty: bool)
        ensures
            empty == (self@.len() == 0),
    {
        self.manifests.len() == 0
    }
}

} // verus!
