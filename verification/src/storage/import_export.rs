//! The rules of export bundles: their version, and how an import clears the
//! tables it refills.
use vstd::prelude::*;

use crate::text::{decimal, decimal_string, texts_of, owned_strings};

verus! {

/// The bundle version that exports write and imports accept.
pub const EXPORT_VERSION: u32 = 1;

/// Why a bundle cannot be imported: an unsupported version.
pub open spec fn version_refusal(version: u32) -> Seq<char> {
    "unsupported export version "@ + decimal(version as nat)
}

/// Accepts a bundle of the supported version; any other version is refused
/// with a message that names it.
pub fn check_export_version(version: u32) -> (r: Result<(), String>)
    ensures
        version == EXPORT_VERSION <==> r is Ok,
        r matches Err(message) ==> message@ == version_refusal(version),
{
    if version != EXPORT_VERSION {
        let mut message = String::from_str("unsupported export version ");
        message.append(decimal_string(version as u64).as_str());
        return Err(message);
    }
    Ok(())
}

/// The statements that empty the tables before an import, dependent rows first.
pub open spec fn reset_statements_text() -> Seq<Seq<char>> {
    seq![
        "DELETE FROM draft_final_reviews"@,
        "DELETE FROM draft_recommendations"@,
        "DELETE FROM draft_events"@,
        "DELETE FROM draft_sessions"@,
        "DELETE FROM team_preferences"@,
        "DELETE FROM player_champion_pools"@,
        "DELETE FROM champion_versions"@,
        "DELETE FROM players"@,
        "DELETE FROM champions"@,
        "DELETE FROM teams"@,
        "DELETE FROM app_settings"@,
    ]
}

/// The statements that empty the tables before an import, dependent rows first.
pub fn reset_statements() -> (r: Vec<String>)
    ensures
        r.deep_view() == reset_statements_text(),
{
    let statements: &[&str] = &[
        "DELETE FROM draft_final_reviews",
        "DELETE FROM draft_recommendations",
        "DELETE FROM draft_events",
        "DELETE FROM draft_sessions",
        "DELETE FROM team_preferences",
        "DELETE FROM player_champion_pools",
        "DELETE FROM champion_versions",
        "DELETE FROM players",
        "DELETE FROM champions",
        "DELETE FROM teams",
        "DELETE FROM app_settings",
    ];
    assert(texts_of(statements@) =~= reset_statements_text());
    owned_strings(statements)
}

} // verus!
