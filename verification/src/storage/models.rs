//! Stored rows: teams, rosters, preferences, champion data, draft sessions
//! and settings, and the payload resolved for a patch.
use vstd::prelude::*;

verus! {

/// A champion of the catalog.
#[derive(Debug, Clone, PartialEq, Eq)]
pub struct ChampionRecord {
    pub id: String,
    pub slug: String,
    pub name: String,
    pub canonical_role: String,
    pub archetypes_json: String,
    pub incomplete_profile: bool,
    pub created_at: String,
    pub updated_at: String,
}

/// Mathematical value of a [`ChampionRecord`].
pub struct ChampionRecordView {
    pub id: Seq<char>,
    pub slug: Seq<char>,
    pub name: Seq<char>,
    pub canonical_role: Seq<char>,
    pub archetypes_json: Seq<char>,
    pub incomplete_profile: bool,
    pub created_at: Seq<char>,
    pub updated_at: Seq<char>,
}

impl View for ChampionRecord {
    type V = ChampionRecordView;

    open spec fn view(&self) -> ChampionRecordView {
        ChampionRecordView {
            id: self.id@,
            slug: self.slug@,
            name: self.name@,
            canonical_role: self.canonical_role@,
            archetypes_json: self.archetypes_json@,
            incomplete_profile: self.incomplete_profile,
            created_at: self.created_at@,
            updated_at: self.updated_at@,
        }
    }
}

/// One stored version of a champion's data, valid from `compatible_since` on.
#[derive(Debug, Clone, PartialEq, Eq)]
pub struct ChampionVersionRecord {
    pub id: String,
    pub champion_id: String,
    pub patch: String,
    pub source_path: String,
    pub payload_json: String,
    pub compatible_since: String,
    pub is_latest: bool,
    pub created_at: String,
}

/// Mathematical value of a [`ChampionVersionRecord`].
pub struct ChampionVersionRecordView {
    pub id: Seq<char>,
    pub champion_id: Seq<char>,
    pub patch: Seq<char>,
    pub source_path: Seq<char>,
    pub payload_json: Seq<char>,
    pub compatible_since: Seq<char>,
    pub is_latest: bool,
    pub created_at: Seq<char>,
}

impl View for ChampionVersionRecord {
    type V = ChampionVersionRecordView;

    open spec fn view(&self) -> ChampionVersionRecordView {
        ChampionVersionRecordView {
            id: self.id@,
            champion_id: self.champion_id@,
            patch: self.patch@,
            source_path: self.source_path@,
            payload_json: self.payload_json@,
            compatible_since: self.compatible_since@,
            is_latest: self.is_latest,
            created_at: self.created_at@,
        }
    }
}

impl DeepView for ChampionVersionRecord {
    type V = ChampionVersionRecordView;

    open spec fn deep_view(&self) -> ChampionVersionRecordView {
        self@
    }
}

/// The data of a champion resolved for a requested patch.
#[derive(Debug, Clone, PartialEq, Eq)]
pub struct ChampionPatchPayload {
    pub id: String,
    pub patch: String,
    pub payload_json: String,
    pub source_path: String,
    pub incomplete_profile: bool,
}

/// Mathematical value of a [`ChampionPatchPayload`].
pub struct ChampionPatchPayloadView {
    pub id: Seq<char>,
    pub patch: Seq<char>,
    pub payload_json: Seq<char>,
    pub source_path: Seq<char>,
    pub incomplete_profile: bool,
}

impl View for ChampionPatchPayload {
    type V = ChampionPatchPayloadView;

    open spec fn view(&self) -> ChampionPatchPayloadView {
        ChampionPatchPayloadView {
            id: self.id@,
            patch: self.patch@,
            payload_json: self.payload_json@,
            source_path: self.source_path@,
            incomplete_profile: self.incomplete_profile,
        }
    }
}

/// A team followed by the application.
#[derive(Debug, Clone, PartialEq, Eq)]
pub struct TeamRecord {
    pub id: String,
    pub name: String,
    pub tag: Option<String>,
    pub created_at: String,
    pub updated_at: String,
}

/// A player of a team's roster.
#[derive(Debug, Clone, PartialEq, Eq)]
pub struct PlayerRecord {
    pub id: String,
    pub team_id: String,
    pub handle: String,
    pub role: String,
    pub status: String,
    pub created_at: String,
    pub updated_at: String,
}

/// A team's preferences for a patch, as JSON.
#[derive(Debug, Clone, PartialEq, Eq)]
pub struct TeamPreferenceRecord {
    pub id: String,
    pub team_id: String,
    pub patch: String,
    pub preferences_json: String,
    pub created_at: String,
    pub updated_at: String,
}

/// A live or sandbox draft session.
#[derive(Debug, Clone, PartialEq, Eq)]
pub struct DraftSessionRecord {
    pub id: String,
    pub team_id: Option<String>,
    pub mode: String,
    pub patch: String,
    pub side: String,
    pub status: String,
    pub metadata_json: String,
    pub started_at: String,
    pub ended_at: Option<String>,
}

/// One event of a draft session's timeline.
#[derive(Debug, Clone, PartialEq, Eq)]
pub struct DraftEventRecord {
    pub id: String,
    pub session_id: String,
    pub sequence: i64,
    pub phase: String,
    pub team: String,
    pub action: String,
    pub champion_id: Option<String>,
    pub payload_json: String,
    pub created_at: String,
}

/// The final review of a draft session.
#[derive(Debug, Clone, PartialEq, Eq)]
pub struct DraftFinalReviewRecord {
    pub id: String,
    pub session_id: String,
    pub summary: String,
    pub review_json: String,
    pub created_at: String,
}

/// An application setting, as JSON.
#[derive(Debug, Clone, PartialEq, Eq)]
pub struct AppSettingRecord {
    pub key: String,
    pub value_json: String,
    pub updated_at: String,
}

/// A team to create or update.
#[derive(Debug, Clone, PartialEq, Eq)]
pub struct UpsertTeamInput {
    pub id: String,
    pub name: String,
    pub tag: Option<String>,
}

/// A player of a roster to store.
#[derive(Debug, Clone, PartialEq, Eq)]
pub struct UpsertPlayerInput {
    pub id: String,
    pub handle: String,
    pub role: String,
    pub status: String,
}

} // verus!
