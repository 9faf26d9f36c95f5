//! Resolution of a version into its download work list.
//!
//! Given the decoded per-version manifest and asset index, the resolver emits
//! one work item for the main client artifact, one for the client logging
//! configuration if referenced, one for each library artifact whose rules
//! allow the current platform, one for every present native classifier of
//! every library (all platforms are downloaded up front; platform filtering
//! happens only at launch time), and one for each asset object whose
//! destination file does not already exist. The final list is deduplicated by
//! destination path before anything is enqueued.

use vstd::prelude::*;
use crate::manifest::{
    AssetEntry, AssetIndex, ArtifactRef, GameVersion, LibraryEntry, ResolveError, VersionManifest,
    WorkItem, item_view, items_view,
};
use crate::paths::{
    asset_object_path, asset_object_url, build_asset_object_path, build_asset_object_url,
    build_library_path, build_version_file_path, build_version_jar_path, library_path,
    version_file_path, version_jar_path,
};
use crate::platform::{Platform, is_library_applicable, rules_allow};
use crate::text::str_eq;

verus! {

/// The work items of one optional artifact reference, below the library
/// store.
pub open spec fn opt_artifact_items(a: Option<ArtifactRef>) -> Seq<(Seq<char>, Seq<char>)> {
    match a {
        Option::Some(ar) => seq![(library_path(ar.path@), ar.url@)],
        Option::None => Seq::empty(),
    }
}

/// The work items of one library entry on platform `p`: the generic artifact
/// guarded by the entry's rules, then every present native classifier,
/// regardless of `p`.
pub open spec fn entry_items(e: LibraryEntry, p: Platform) -> Seq<(Seq<char>, Seq<char>)> {
    (if rules_allow(e.rules@, p) {
        opt_artifact_items(e.artifact)
    } else {
        Seq::empty()
    }) + opt_artifact_items(e.natives_linux) + opt_artifact_items(e.natives_windows)
        + opt_artifact_items(e.natives_mac)
}

/// The work items of a whole library list, in manifest order.
pub open spec fn library_items(libs: Seq<LibraryEntry>, p: Platform) -> Seq<(Seq<char>, Seq<char>)>
    decreases libs.len(),
{
    if libs.len() == 0 {
        Seq::empty()
    } else {
        entry_items(libs.first(), p) + library_items(libs.drop_first(), p)
    }
}

/// The work items of the main client artifact and, if referenced, the client
/// logging configuration, for a version stored under `name`.
pub open spec fn client_items(m: VersionManifest, name: Seq<char>) -> Seq<(Seq<char>, Seq<char>)> {
    seq![(version_jar_path(name), m.client_url@)] + match m.logging_file {
        Option::Some(f) => seq![(version_file_path(name, f.id@), f.url@)],
        Option::None => Seq::empty(),
    }
}

/// The work items of an asset index: one per object, at its content-addressed
/// destination, skipping objects whose destination is already present.
pub open spec fn asset_items(objects: Seq<AssetEntry>, existing: Seq<Seq<char>>) -> Seq<
    (Seq<char>, Seq<char>),
>
    decreases objects.len(),
{
    if objects.len() == 0 {
        Seq::empty()
    } else {
        let h = objects.first().hash@;
        (if existing.contains(asset_object_path(h)) {
            Seq::empty()
        } else {
            seq![(asset_object_path(h), asset_object_url(h))]
        }) + asset_items(objects.drop_first(), existing)
    }
}

/// Everything a version resolves to before deduplication, in emission order.
pub open spec fn candidate_items(
    m: VersionManifest,
    index: AssetIndex,
    name: Seq<char>,
    p: Platform,
    existing: Seq<Seq<char>>,
) -> Seq<(Seq<char>, Seq<char>)> {
    client_items(m, name) + library_items(m.libraries@, p) + asset_items(index.objects@, existing)
}

/// The set of destination paths of a work list.
pub open spec fn dests_of(s: Seq<(Seq<char>, Seq<char>)>) -> Set<Seq<char>> {
    Set::new(|d: Seq<char>| exists|i: int| 0 <= i < s.len() && (#[trigger] s[i]).0 == d)
}

/// Keeps the first item of each destination path, dropping the rest; `seen`
/// are the destinations already kept.
pub open spec fn dedup_from(s: Seq<(Seq<char>, Seq<char>)>, seen: Set<Seq<char>>) -> Seq<
    (Seq<char>, Seq<char>),
>
    decreases s.len(),
{
    if s.len() == 0 {
        Seq::empty()
    } else if seen.contains(s.first().0) {
        dedup_from(s.drop_first(), seen)
    } else {
        seq![s.first()] + dedup_from(s.drop_first(), seen.insert(s.first().0))
    }
}

/// A work list deduplicated by destination path, keeping first occurrences.
pub open spec fn dedup_by_dest(s: Seq<(Seq<char>, Seq<char>)>) -> Seq<(Seq<char>, Seq<char>)> {
    dedup_from(s, Set::empty())
}

/// The full resolved work list of a version.
pub open spec fn resolved_items(
    m: VersionManifest,
    index: AssetIndex,
    name: Seq<char>,
    p: Platform,
    existing: Seq<Seq<char>>,
) -> Seq<(Seq<char>, Seq<char>)> {
    dedup_by_dest(candidate_items(m, index, name, p, existing))
}

/// Whether some item of `items` has destination path `dest`.
fn contains_dest(items: &Vec<WorkItem>, dest: &str) -> (r: bool)
    ensures
        r == dests_of(items_view(items@)).contains(dest@),
{
    let mut i: usize = 0;
    while i < items.len()
        invariant
            i <= items@.len(),
            forall|k: int| 0 <= k < i ==> (#[trigger] items@[k]).destination_path@ != dest@,
        decreases items@.len() - i,
    {
        if str_eq(items[i].destination_path.as_str(), dest) {
            proof {
                assert(items_view(items@)[i as int].0 == dest@);
            }
            return true;
        }
        i = i + 1;
    }
    proof {
        assert(!dests_of(items_view(items@)).contains(dest@)) by {
            if dests_of(items_view(items@)).contains(dest@) {
                let j = choose|j: int|
                    0 <= j < items_view(items@).len() && items_view(items@)[j].0 == dest@;
                assert(items@[j].destination_path@ == dest@);
            }
        }
    }
    false
}

/// Whether `v` contains a string equal to `x`.
fn contains_string(v: &Vec<String>, x: &str) -> (r: bool)
    ensures
        r == v@.map_values(|s: String| s@).contains(x@),
{
    let mut i: usize = 0;
    while i < v.len()
        invariant
            i <= v@.len(),
            forall|k: int| 0 <= k < i ==> (#[trigger] v@[k])@ != x@,
        decreases v@.len() - i,
    {
        if str_eq(v[i].as_str(), x) {
            proof {
                assert(v@.map_values(|s: String| s@)[i as int] == x@);
            }
            return true;
        }
        i = i + 1;
    }
    proof {
        let mapped = v@.map_values(|s: String| s@);
        assert(!mapped.contains(x@)) by {
            if mapped.contains(x@) {
                let j = choose|j: int| 0 <= j < mapped.len() && mapped[j] == x@;
                assert(v@[j]@ == x@);
            }
        }
    }
    false
}

/// Appends the work items of one optional artifact reference.
fn push_opt_artifact(out: &mut Vec<WorkItem>, a: &Option<ArtifactRef>)
    ensures
        items_view(final(out)@) == items_view(old(out)@) + opt_artifact_items(*a),
{
    match a {
        Option::Some(ar) => {
            let item = WorkItem {
                destination_path: build_library_path(ar.path.as_str()),
                source_url: ar.url.clone(),
            };
            out.push(item);
            proof {
                assert(items_view(out@) =~= items_view(old(out)@) + opt_artifact_items(*a));
            }
        },
        Option::None => {
            proof {
                assert(items_view(out@) =~= items_view(old(out)@) + opt_artifact_items(*a));
            }
        },
    }
}

/// Builds the work items of one library entry.
fn entry_items_exec(e: &LibraryEntry, current: Platform) -> (r: Vec<WorkItem>)
    ensures
        items_view(r@) == entry_items(*e, current),
{
    let mut r: Vec<WorkItem> = Vec::new();
    if is_library_applicable(&e.rules, current) {
        push_opt_artifact(&mut r, &e.artifact);
    }
    push_opt_artifact(&mut r, &e.natives_linux);
    push_opt_artifact(&mut r, &e.natives_windows);
    push_opt_artifact(&mut r, &e.natives_mac);
    proof {
        assert(items_view(r@) =~= entry_items(*e, current));
    }
    r
}

/// The resolver and the fetch coordinator of the library.
pub struct DownloadManager {}

impl DownloadManager {
    pub fn new() -> DownloadManager {
        DownloadManager {  }
    }

    /// Locates the version whose id equals `version_id` exactly, scanning in
    /// list order.
    pub fn find_version<'a>(
        &self,
        versions: &'a Vec<GameVersion>,
        version_id: &str,
    ) -> (r: Result<&'a GameVersion, ResolveError>)
        ensures
            match r {
                Result::Ok(v) => v.version_id@ == version_id@ && versions@.contains(*v),
                Result::Err(e) => e == ResolveError::VersionNotFound && forall|i: int|
                    0 <= i < versions@.len() ==> (#[trigger] versions@[i]).version_id@
                        != version_id@,
            },
    {
        let mut i: usize = 0;
        while i < versions.len()
            invariant
                i <= versions@.len(),
                forall|k: int| 0 <= k < i ==> (#[trigger] versions@[k]).version_id@ != version_id@,
            decreases versions@.len() - i,
        {
            if str_eq(versions[i].version_id.as_str(), version_id) {
                proof {
                    assert(versions@.contains(versions@[i as int]));
                }
                return Result::Ok(&versions[i]);
            }
            i = i + 1;
        }
        Result::Err(ResolveError::VersionNotFound)
    }

    /// Resolves a version into its full, deduplicated download work list.
    ///
    /// `existing` lists the destination paths that are already present on
    /// local storage; asset objects whose destination is among them are
    /// skipped, which is what makes a re-run against an unchanged manifest
    /// idempotent.
    pub fn resolve_work_items(
        &self,
        m: &VersionManifest,
        index: &AssetIndex,
        name: &str,
        current: Platform,
        existing: &Vec<String>,
    ) -> (r: Vec<WorkItem>)
        requires
            index.wf(),
        ensures
            items_view(r@) == resolved_items(
                *m,
                *index,
                name@,
                current,
                existing@.map_values(|s: String| s@),
            ),
    {
        let mut candidates = self.client_items_exec(m, name);
        let mut libs = self.library_items_exec(&m.libraries, current);
        let mut assets = self.asset_items_exec(&index.objects, existing);
        let ghost c0 = candidates@;
        let ghost l0 = libs@;
        let ghost a0 = assets@;
        candidates.append(&mut libs);
        candidates.append(&mut assets);
        proof {
            assert(candidates@ == (c0 + l0) + a0);
            assert(items_view(candidates@) =~= candidate_items(
                *m,
                *index,
                name@,
                current,
                existing@.map_values(|s: String| s@),
            ));
        }
        self.dedup_by_destination(candidates)
    }

    /// Builds the client-jar and logging-configuration work items.
    fn client_items_exec(&self, m: &VersionManifest, name: &str) -> (r: Vec<WorkItem>)
        ensures
            items_view(r@) == client_items(*m, name@),
    {
        let mut r: Vec<WorkItem> = Vec::new();
        r.push(WorkItem {
            destination_path: build_version_jar_path(name),
            source_url: m.client_url.clone(),
        });
        match &m.logging_file {
            Option::Some(f) => {
                r.push(WorkItem {
                    destination_path: build_version_file_path(name, f.id.as_str()),
                    source_url: f.url.clone(),
                });
            },
            Option::None => {},
        }
        proof {
            assert(items_view(r@) =~= client_items(*m, name@));
        }
        r
    }

    /// Builds the work items of the whole library list.
    fn library_items_exec(&self, libs: &Vec<LibraryEntry>, current: Platform) -> (r: Vec<WorkItem>)
        ensures
            items_view(r@) == library_items(libs@, current),
    {
        let mut r: Vec<WorkItem> = Vec::new();
        let mut i: usize = 0;
        proof {
            assert(libs@.skip(0) =~= libs@);
        }
        while i < libs.len()
            invariant
                i <= libs@.len(),
                library_items(libs@, current) == items_view(r@) + library_items(
                    libs@.skip(i as int),
                    current,
                ),
            decreases libs@.len() - i,
        {
            let mut part = entry_items_exec(&libs[i], current);
            let ghost r0 = r@;
            let ghost part0 = part@;
            proof {
                assert(libs@.skip(i as int).drop_first() =~= libs@.skip(i + 1));
            }
            r.append(&mut part);
            proof {
                assert(items_view(r0 + part0) =~= items_view(r0) + items_view(part0));
                assert(items_view(r0) + (items_view(part0) + library_items(
                    libs@.skip(i + 1),
                    current,
                )) =~= (items_view(r0) + items_view(part0)) + library_items(
                    libs@.skip(i + 1),
                    current,
                ));
            }
            i = i + 1;
        }
        proof {
            assert(library_items(libs@.skip(i as int), current) =~= Seq::empty());
            assert(items_view(r@) + Seq::<(Seq<char>, Seq<char>)>::empty() =~= items_view(r@));
        }
        r
    }

    /// Builds the asset-object work items, skipping destinations already
    /// present.
    fn asset_items_exec(&self, objects: &Vec<AssetEntry>, existing: &Vec<String>) -> (r: Vec<
        WorkItem,
    >)
        requires
            forall|i: int| 0 <= i < objects@.len() ==> (#[trigger] objects@[i]).wf(),
        ensures
            items_view(r@) == asset_items(objects@, existing@.map_values(|s: String| s@)),
    {
        let mut r: Vec<WorkItem> = Vec::new();
        let mut i: usize = 0;
        proof {
            assert(objects@.skip(0) =~= objects@);
        }
        while i < objects.len()
            invariant
                i <= objects@.len(),
                forall|k: int| 0 <= k < objects@.len() ==> (#[trigger] objects@[k]).wf(),
                asset_items(objects@, existing@.map_values(|s: String| s@)) == items_view(r@)
                    + asset_items(objects@.skip(i as int), existing@.map_values(|s: String| s@)),
            decreases objects@.len() - i,
        {
            let dest = build_asset_object_path(objects[i].hash.as_str());
            proof {
                assert(objects@.skip(i as int).drop_first() =~= objects@.skip(i + 1));
                assert(objects@.skip(i as int).first() == objects@[i as int]);
            }
            if !contains_string(existing, dest.as_str()) {
                let url = build_asset_object_url(objects[i].hash.as_str());
                r.push(WorkItem { destination_path: dest, source_url: url });
                proof {
                    assert(items_view(r@) =~= items_view(r@.drop_last()) + seq![
                        item_view(r@.last()),
                    ]);
                }
            }
            i = i + 1;
        }
        proof {
            assert(asset_items(objects@.skip(i as int), existing@.map_values(|s: String| s@))
                =~= Seq::empty());
            assert(items_view(r@) + Seq::<(Seq<char>, Seq<char>)>::empty() =~= items_view(r@));
        }
        r
    }

    /// Deduplicates a work list by destination path, keeping the first item
    /// of each destination.
    fn dedup_by_destination(&self, items: Vec<WorkItem>) -> (r: Vec<WorkItem>)
        ensures
            items_view(r@) == dedup_by_dest(items_view(items@)),
    {
        let mut r: Vec<WorkItem> = Vec::new();
        let mut i: usize = 0;
        proof {
            assert(items_view(items@).skip(0) =~= items_view(items@));
            assert(dests_of(items_view(r@)) =~= Set::empty());
        }
        while i < items.len()
            invariant
                i <= items@.len(),
                dedup_by_dest(items_view(items@)) == items_view(r@) + dedup_from(
                    items_view(items@).skip(i as int),
                    dests_of(items_view(r@)),
                ),
            decreases items@.len() - i,
        {
            proof {
                assert(items_view(items@).skip(i as int).first() == item_view(items@[i as int]));
                assert(items_view(items@).skip(i as int).drop_first() =~= items_view(items@).skip(
                    i + 1,
                ));
            }
            if !contains_dest(&r, items[i].destination_path.as_str()) {
                let item = items[i].clone();
                let ghost r0 = r@;
                let ghost x = item_view(items@[i as int]);
                r.push(item);
                proof {
                    assert(item_view(r@.last()) == x);
                    assert(items_view(r@) =~= items_view(r0) + seq![x]);
                    assert forall|d: Seq<char>|
                        dests_of(items_view(r@)).contains(d) == dests_of(
                            items_view(r0),
                        ).insert(x.0).contains(d) by {
                        if dests_of(items_view(r@)).contains(d) {
                            let k = choose|k: int|
                                0 <= k < items_view(r@).len() && (#[trigger] items_view(r@)[k]).0
                                    == d;
                            if k < r0.len() {
                                assert(items_view(r0)[k].0 == d);
                            } else {
                                assert(d == x.0);
                            }
                        }
                        if dests_of(items_view(r0)).insert(x.0).contains(d) {
                            if d == x.0 {
                                assert(items_view(r@)[r0.len() as int].0 == d);
                            } else {
                                let k = choose|k: int|
                                    0 <= k < items_view(r0).len() && (#[trigger] items_view(
                                        r0,
                                    )[k]).0 == d;
                                assert(items_view(r@)[k].0 == d);
                            }
                        }
                    }
                    assert(dests_of(items_view(r@)) =~= dests_of(items_view(r0)).insert(x.0));
                    let rest = dedup_from(
                        items_view(items@).skip(i + 1),
                        dests_of(items_view(r@)),
                    );
                    assert((items_view(r0) + seq![x]) + rest =~= items_view(r0) + (seq![x]
                        + rest));
                }
            }
            i = i + 1;
        }
        proof {
            assert(dedup_from(
                items_view(items@).skip(i as int),
                dests_of(items_view(r@)),
            ) =~= Seq::empty());
            assert(items_view(r@) + Seq::<(Seq<char>, Seq<char>)>::empty() =~= items_view(r@));
        }
        r
    }
}

/// No two items of a deduplicated work list share a destination path.
pub proof fn lemma_dedup_unique(s: Seq<(Seq<char>, Seq<char>)>, seen: Set<Seq<char>>)
    ensures
        forall|i: int, j: int|
            0 <= i < j < dedup_from(s, seen).len() ==> (#[trigger] dedup_from(s, seen)[i]).0 != (
            #[trigger] dedup_from(s, seen)[j]).0,
        forall|i: int|
            0 <= i < dedup_from(s, seen).len() ==> !seen.contains(
                (#[trigger] dedup_from(s, seen)[i]).0,
            ),
    decreases s.len(),
{
    if s.len() == 0 {
    } else if seen.contains(s.first().0) {
        lemma_dedup_unique(s.drop_first(), seen);
        assert(dedup_from(s, seen) == dedup_from(s.drop_first(), seen));
    } else {
        let seen2 = seen.insert(s.first().0);
        let rest = dedup_from(s.drop_first(), seen2);
        lemma_dedup_unique(s.drop_first(), seen2);
        let d = dedup_from(s, seen);
        assert(d == seq![s.first()] + rest);
        assert forall|i: int, j: int| 0 <= i < j < d.len() implies (d[i]).0 != (d[j]).0 by {
            assert(d[j] == rest[j - 1]);
            assert(!seen2.contains(rest[j - 1].0));
            if i > 0 {
                assert(d[i] == rest[i - 1]);
            }
        }
        assert forall|i: int| 0 <= i < d.len() implies !seen.contains((d[i]).0) by {
            if i > 0 {
                assert(d[i] == rest[i - 1]);
                assert(!seen2.contains(rest[i - 1].0));
            }
        }
    }
}

/// The resolver never emits two work items with the same destination path.
pub proof fn lemma_resolved_items_unique(
    m: VersionManifest,
    index: AssetIndex,
    name: Seq<char>,
    p: Platform,
    existing: Seq<Seq<char>>,
)
    ensures
        forall|i: int, j: int|
            0 <= i < j < resolved_items(m, index, name, p, existing).len() ==> (
            #[trigger] resolved_items(m, index, name, p, existing)[i]).0 != (
            #[trigger] resolved_items(m, index, name, p, existing)[j]).0,
{
    lemma_dedup_unique(candidate_items(m, index, name, p, existing), Set::empty());
}

/// An asset object whose destination path is already present is never
/// emitted: the asset part of the work list excludes every existing path.
pub proof fn lemma_assets_skip_existing(objects: Seq<AssetEntry>, existing: Seq<Seq<char>>)
    ensures
        forall|i: int|
            0 <= i < asset_items(objects, existing).len() ==> !existing.contains(
                (#[trigger] asset_items(objects, existing)[i]).0,
            ),
    decreases objects.len(),
{
    if objects.len() == 0 {
    } else {
        lemma_assets_skip_existing(objects.drop_first(), existing);
        let h = objects.first().hash@;
        let rest = asset_items(objects.drop_first(), existing);
        let d = asset_items(objects, existing);
        if existing.contains(asset_object_path(h)) {
            assert(d == rest);
        } else {
            assert(d == seq![(asset_object_path(h), asset_object_url(h))] + rest);
            assert forall|i: int| 0 <= i < d.len() implies !existing.contains((d[i]).0) by {
                if i > 0 {
                    assert(d[i] == rest[i - 1]);
                }
            }
        }
    }
}

/// Resolution is idempotent over assets: after a run that left every object
/// of the index present on local storage, a re-run against the unchanged
/// manifest queues no asset at all — its work list is exactly the one
/// resolved from the version files and libraries alone.
pub proof fn lemma_resolve_idempotent(
    m: VersionManifest,
    index: AssetIndex,
    name: Seq<char>,
    p: Platform,
    existing: Seq<Seq<char>>,
)
    requires
        forall|i: int|
            0 <= i < index.objects@.len() ==> existing.contains(
                asset_object_path((#[trigger] index.objects@[i]).hash@),
            ),
    ensures
        asset_items(index.objects@, existing) == Seq::<(Seq<char>, Seq<char>)>::empty(),
        resolved_items(m, index, name, p, existing) == dedup_by_dest(
            client_items(m, name) + library_items(m.libraries@, p),
        ),
{
    lemma_asset_items_all_existing(index.objects@, existing);
    assert(candidate_items(m, index, name, p, existing) =~= client_items(m, name)
        + library_items(m.libraries@, p));
}

proof fn lemma_asset_items_all_existing(objects: Seq<AssetEntry>, existing: Seq<Seq<char>>)
    requires
        forall|i: int|
            0 <= i < objects.len() ==> existing.contains(
                asset_object_path((#[trigger] objects[i]).hash@),
            ),
    ensures
        asset_items(objects, existing) == Seq::<(Seq<char>, Seq<char>)>::empty(),
    decreases objects.len(),
{
    if objects.len() == 0 {
    } else {
        assert(objects[0] == objects.first());
        lemma_asset_items_all_existing(objects.drop_first(), existing);
        assert(asset_items(objects, existing) =~= Seq::<(Seq<char>, Seq<char>)>::empty());
    }
}

} // verus!
