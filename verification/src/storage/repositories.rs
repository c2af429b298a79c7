//! Which stored version of a champion serves a requested patch.
use std::cmp::Ordering;

use vstd::prelude::*;

use super::models::{
    ChampionPatchPayload, ChampionPatchPayloadView, ChampionRecord, ChampionRecordView,
    ChampionVersionRecord, ChampionVersionRecordView,
};
use super::patch_order::{compare_patch, flipped, lemma_patch_order_is_total, patch_order};

verus! {

/// `false` before `true`.
pub open spec fn flag_order(a: bool, b: bool) -> Ordering {
    if a == b {
        Ordering::Equal
    } else if !a {
        Ordering::Less
    } else {
        Ordering::Greater
    }
}

/// The order of two versions: by the patch they are compatible from, by
/// their own patch, and a latest version after one that is not.
pub open spec fn version_order(a: ChampionVersionRecordView, b: ChampionVersionRecordView) -> Ordering {
    match patch_order(a.compatible_since, b.compatible_since) {
        Ordering::Equal => match patch_order(a.patch, b.patch) {
            Ordering::Equal => flag_order(a.is_latest, b.is_latest),
            other => other,
        },
        other => other,
    }
}

/// A version serves the requested patch when it is compatible from that
/// patch or an earlier one.
pub open spec fn serves(version: ChampionVersionRecordView, requested: Seq<char>) -> bool {
    patch_order(version.compatible_since, requested) != Ordering::Greater
}

/// `a` comes strictly after `b` in the order of versions.
pub open spec fn outranks(a: ChampionVersionRecordView, b: ChampionVersionRecordView) -> bool {
    version_order(a, b) == Ordering::Greater
}

/// The greatest version that serves the requested patch; among equal
/// greatest versions, the last one.
pub open spec fn best_version(versions: Seq<ChampionVersionRecordView>, requested: Seq<char>) -> Option<
    ChampionVersionRecordView,
>
    decreases versions.len(),
{
    if versions.len() == 0 {
        None
    } else {
        let last = versions.last();
        let earlier = best_version(versions.drop_last(), requested);
        if !serves(last, requested) {
            earlier
        } else {
            match earlier {
                None => Some(last),
                Some(best) => if outranks(best, last) {
                    Some(best)
                } else {
                    Some(last)
                },
            }
        }
    }
}

/// Versions are totally preordered: swapping two versions reverses their
/// order, and "not after" is transitive.
pub proof fn lemma_version_order_is_total(
    x: ChampionVersionRecordView,
    y: ChampionVersionRecordView,
    z: ChampionVersionRecordView,
)
    ensures
        version_order(y, x) == flipped(version_order(x, y)),
        version_order(x, y) != Ordering::Greater && version_order(y, z) != Ordering::Greater
            ==> version_order(x, z) != Ordering::Greater,
{
    lemma_patch_order_is_total(x.compatible_since, y.compatible_since, z.compatible_since);
    lemma_patch_order_is_total(z.compatible_since, y.compatible_since, x.compatible_since);
    lemma_patch_order_is_total(y.compatible_since, z.compatible_since, x.compatible_since);
    lemma_patch_order_is_total(x.patch, y.patch, z.patch);
    lemma_patch_order_is_total(z.patch, y.patch, x.patch);
    lemma_patch_order_is_total(y.patch, z.patch, x.patch);
    lemma_patch_order_is_total(x.compatible_since, z.compatible_since, y.compatible_since);
    lemma_patch_order_is_total(x.patch, z.patch, y.patch);
}

/// The version chosen for a patch serves it, and no version that serves the
/// patch comes after it; none is chosen exactly when no version serves the patch.
pub proof fn lemma_best_version_is_greatest(versions: Seq<ChampionVersionRecordView>, requested: Seq<char>)
    ensures
        best_version(versions, requested) is None <==> forall|k: int|
            0 <= k < versions.len() ==> !serves(#[trigger] versions[k], requested),
        best_version(versions, requested) matches Some(best) ==> versions.contains(best) && serves(
            best,
            requested,
        ) && forall|k: int|
            0 <= k < versions.len() && serves(#[trigger] versions[k], requested) ==> !outranks(
                versions[k],
                best,
            ),
    decreases versions.len(),
{
    if versions.len() > 0 {
        let init = versions.drop_last();
        let last = versions.last();
        let n = versions.len() - 1;
        lemma_best_version_is_greatest(init, requested);
        assert forall|k: int| 0 <= k < init.len() implies #[trigger] init[k] == versions[k] by {}
        assert(versions[n] == last);
        lemma_version_order_is_total(last, last, last);
        let result = best_version(versions, requested);
        let earlier = best_version(init, requested);
        if !serves(last, requested) {
            assert(result == earlier);
            if earlier is None {
                assert forall|k: int| 0 <= k < versions.len() implies !serves(
                    #[trigger] versions[k],
                    requested,
                ) by {
                    if k < n {
                        assert(!serves(init[k], requested));
                    }
                }
            } else {
                let b = earlier->0;
                let i = choose|i: int| 0 <= i < init.len() && init[i] == b;
                assert(versions[i] == b);
                assert forall|k: int|
                    0 <= k < versions.len() && serves(#[trigger] versions[k], requested) implies !outranks(
                    versions[k],
                    b,
                ) by {
                    assert(k < n);
                    assert(init[k] == versions[k]);
                }
            }
        } else {
            assert(!(forall|k: int| 0 <= k < versions.len() ==> !serves(#[trigger] versions[k], requested)));
            match earlier {
                None => {
                    assert(result == Some(last));
                    assert forall|k: int|
                        0 <= k < versions.len() && serves(#[trigger] versions[k], requested) implies !outranks(
                        versions[k],
                        last,
                    ) by {
                        if k < n {
                            assert(!serves(init[k], requested));
                        }
                    }
                },
                Some(b) => {
                    let i = choose|i: int| 0 <= i < init.len() && init[i] == b;
                    assert(versions[i] == b);
                    lemma_version_order_is_total(b, last, last);
                    if outranks(b, last) {
                        assert(result == Some(b));
                        assert forall|k: int|
                            0 <= k < versions.len() && serves(#[trigger] versions[k], requested) implies !outranks(
                            versions[k],
                            b,
                        ) by {
                            if k < n {
                                assert(init[k] == versions[k]);
                            }
                        }
                    } else {
                        assert(result == Some(last));
                        assert forall|k: int|
                            0 <= k < versions.len() && serves(#[trigger] versions[k], requested) implies !outranks(
                            versions[k],
                            last,
                        ) by {
                            if k < n {
                                assert(init[k] == versions[k]);
                                assert(!outranks(init[k], b));
                                lemma_version_order_is_total(versions[k], b, last);
                            }
                        }
                    }
                },
            }
        }
    }
}

/// Compares two versions in the order of [`version_order`].
pub fn compare_versions(a: &ChampionVersionRecord, b: &ChampionVersionRecord) -> (r: Ordering)
    ensures
        r == version_order(a@, b@),
{
    match compare_patch(a.compatible_since.as_str(), b.compatible_since.as_str()) {
        Ordering::Equal => match compare_patch(a.patch.as_str(), b.patch.as_str()) {
            Ordering::Equal => {
                if a.is_latest == b.is_latest {
                    Ordering::Equal
                } else if !a.is_latest {
                    Ordering::Less
                } else {
                    Ordering::Greater
                }
            },
            other => other,
        },
        other => other,
    }
}

/// Whether a version serves the requested patch.
pub fn serves_patch(version: &ChampionVersionRecord, requested_patch: &str) -> (r: bool)
    ensures
        r == serves(version@, requested_patch@),
{
    match compare_patch(version.compatible_since.as_str(), requested_patch) {
        Ordering::Greater => false,
        _ => true,
    }
}

/// Whether `best` comes strictly after `next` in the order of versions.
pub fn outranks_version(best: &ChampionVersionRecord, next: &ChampionVersionRecord) -> (r: bool)
    ensures
        r == outranks(best@, next@),
{
    match compare_versions(best, next) {
        Ordering::Greater => true,
        _ => false,
    }
}

pub open spec fn version_option_view(v: Option<ChampionVersionRecord>) -> Option<ChampionVersionRecordView> {
    match v {
        Some(x) => Some(x@),
        None => None,
    }
}

/// The greatest version that serves the requested patch, the last one among
/// equals; none when no version serves it.
pub fn select_version(versions: Vec<ChampionVersionRecord>, requested_patch: &str) -> (r: Option<
    ChampionVersionRecord,
>)
    ensures
        version_option_view(r) == best_version(versions.deep_view(), requested_patch@),
{
    let ghost vs = versions.deep_view();
    let mut versions = versions;
    let mut best: Option<usize> = None;
    for i in 0..versions.len()
        invariant
            vs == versions.deep_view(),
            match best {
                None => best_version(vs.take(i as int), requested_patch@) is None,
                Some(b) => b < i && best_version(vs.take(i as int), requested_patch@) == Some(vs[b as int]),
            },
    {
        assert(vs.take(i + 1).drop_last() =~= vs.take(i as int));
        assert(vs.take(i + 1).last() == vs[i as int]);
        if serves_patch(&versions[i], requested_patch) {
            best = match best {
                None => Some(i),
                Some(b) => if outranks_version(&versions[b], &versions[i]) {
                    Some(b)
                } else {
                    Some(i)
                },
            };
        }
    }
    assert(vs.take(versions.len() as int) =~= vs);
    match best {
        None => None,
        Some(b) => Some(versions.remove(b)),
    }
}

/// The payload of a champion for a version of its data.
pub open spec fn payload_of(champion: ChampionRecordView, version: ChampionVersionRecordView) -> ChampionPatchPayloadView {
    ChampionPatchPayloadView {
        id: champion.id,
        patch: version.patch,
        payload_json: version.payload_json,
        source_path: version.source_path,
        incomplete_profile: champion.incomplete_profile,
    }
}

pub open spec fn payload_option_view(p: Option<ChampionPatchPayload>) -> Option<ChampionPatchPayloadView> {
    match p {
        Some(x) => Some(x@),
        None => None,
    }
}

/// The payload for a requested patch: none for an unknown champion or when no
/// stored version serves the patch; otherwise the champion's data from the
/// greatest version that serves it.
pub open spec fn resolved_payload(
    champion: Option<ChampionRecordView>,
    versions: Seq<ChampionVersionRecordView>,
    requested: Seq<char>,
) -> Option<ChampionPatchPayloadView> {
    match champion {
        None => None,
        Some(c) => match best_version(versions, requested) {
            None => None,
            Some(v) => Some(payload_of(c, v)),
        },
    }
}

pub open spec fn champion_option_view(c: Option<ChampionRecord>) -> Option<ChampionRecordView> {
    match c {
        Some(x) => Some(x@),
        None => None,
    }
}

/// The payload for a requested patch, from the champion found for a slug (if
/// any) and its stored versions.
pub fn payload_for_patch(
    champion: Option<ChampionRecord>,
    versions: Vec<ChampionVersionRecord>,
    requested_patch: &str,
) -> (r: Option<ChampionPatchPayload>)
    ensures
        payload_option_view(r) == resolved_payload(
            champion_option_view(champion),
            versions.deep_view(),
            requested_patch@,
        ),
{
    let champion = match champion {
        Some(c) => c,
        None => return None,
    };
    match select_version(versions, requested_patch) {
        None => None,
        Some(version) => Some(
            ChampionPatchPayload {
                id: champion.id,
                patch: version.patch,
                payload_json: version.payload_json,
                source_path: version.source_path,
                incomplete_profile: champion.incomplete_profile,
            },
        ),
    }
}

} // verus!
