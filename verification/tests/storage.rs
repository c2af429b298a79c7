use std::cmp::Ordering;

use draft_team::storage::import_export::{check_export_version, reset_statements, EXPORT_VERSION};
use draft_team::storage::models::{ChampionRecord, ChampionVersionRecord};
use draft_team::storage::patch_numbers::patch_numbers;
use draft_team::storage::patch_order::compare_patch;
use draft_team::storage::record_ids::{pool_entry_id, preference_record_id};
use draft_team::storage::repositories::{payload_for_patch, select_version};

fn version(patch: &str, compatible_since: &str, is_latest: bool) -> ChampionVersionRecord {
    ChampionVersionRecord {
        id: format!("ahri:{patch}"),
        champion_id: "champ-ahri".into(),
        patch: patch.into(),
        source_path: format!("packages/champion-data/patches/{patch}/champions/ahri.json"),
        payload_json: format!("{{\"patch\":\"{patch}\"}}"),
        compatible_since: compatible_since.into(),
        is_latest,
        created_at: "2026-01-01 00:00:00".into(),
    }
}

fn ahri() -> ChampionRecord {
    ChampionRecord {
        id: "champ-ahri".into(),
        slug: "ahri".into(),
        name: "Ahri".into(),
        canonical_role: "mid".into(),
        archetypes_json: "[\"pick\"]".into(),
        incomplete_profile: false,
        created_at: "2026-01-01 00:00:00".into(),
        updated_at: "2026-01-01 00:00:00".into(),
    }
}

#[test]
fn patches_compare_numerically_part_by_part() {
    assert_eq!(compare_patch("15.10", "15.9"), Ordering::Greater);
    assert_eq!(compare_patch("15.6", "15.6.0"), Ordering::Equal);
    assert_eq!(compare_patch("14.24", "15.1"), Ordering::Less);
    assert_eq!(compare_patch("15.x", "15"), Ordering::Equal);
    assert_eq!(compare_patch("", "0"), Ordering::Equal);
    assert_eq!(patch_numbers("15.7.x"), vec![15, 7, 0]);
    assert_eq!(patch_numbers("4294967296.1"), vec![0, 1]);
}

#[test]
fn resolves_patch_fallback_to_latest_compatible_version() {
    let versions = vec![version("15.5", "15.5", false), version("15.6", "15.6", true)];
    let payload = payload_for_patch(Some(ahri()), versions, "15.7").expect("resolved payload");
    assert_eq!(payload.patch, "15.6");
    assert_eq!(payload.id, "champ-ahri");
    assert_eq!(
        payload.source_path,
        "packages/champion-data/patches/15.6/champions/ahri.json"
    );

    let older = vec![version("15.5", "15.5", false), version("15.6", "15.6", true)];
    assert_eq!(payload_for_patch(Some(ahri()), older, "15.5").unwrap().patch, "15.5");
    let none = vec![version("15.6", "15.6", true)];
    assert!(payload_for_patch(Some(ahri()), none, "15.4").is_none());
    assert!(payload_for_patch(None, vec![version("15.6", "15.6", true)], "15.7").is_none());
}

#[test]
fn equal_versions_keep_the_last_and_latest_wins_ties() {
    let tie = vec![version("15.6", "15.6", false), version("15.6", "15.6", false)];
    let mut tie = tie;
    tie[1].id = "second".into();
    assert_eq!(select_version(tie, "15.8").unwrap().id, "second");

    let mut flagged = vec![version("15.6", "15.6", true), version("15.6", "15.6", false)];
    flagged[0].id = "latest".into();
    assert_eq!(select_version(flagged, "15.8").unwrap().id, "latest");
}

#[test]
fn record_ids_join_their_parts() {
    assert_eq!(preference_record_id("team-solary", "15.6"), "team-solary:15.6");
    assert_eq!(pool_entry_id("player-mid", 1, "champ-ahri"), "player-mid:1:champ-ahri");
}

#[test]
fn imports_accept_only_the_current_version() {
    assert_eq!(EXPORT_VERSION, 1);
    assert_eq!(check_export_version(1), Ok(()));
    assert_eq!(
        check_export_version(2),
        Err("unsupported export version 2".to_string())
    );
    let statements = reset_statements();
    assert_eq!(statements.len(), 11);
    assert_eq!(statements[0], "DELETE FROM draft_final_reviews");
    assert_eq!(statements[10], "DELETE FROM app_settings");
}
