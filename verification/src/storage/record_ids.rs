//! Identifiers of stored rows that are derived from their content.
use vstd::prelude::*;

use crate::text::{decimal, decimal_string};

verus! {

/// The identifier of a team's preferences for a patch: `<team>:<patch>`.
pub fn preference_record_id(team_id: &str, patch: &str) -> (r: String)
    ensures
        r@ == team_id@ + ":"@ + patch@,
{
    let mut id = String::from_str(team_id);
    id.append(":");
    id.append(patch);
    id
}

/// The identifier of the entry at `index` of a player's champion pool:
/// `<player>:<index>:<champion>`.
pub fn pool_entry_id(player_id: &str, index: usize, champion_id: &str) -> (r: String)
    ensures
        r@ == player_id@ + ":"@ + decimal(index as nat) + ":"@ + champion_id@,
{
    let mut id = String::from_str(player_id);
    id.append(":");
    id.append(decimal_string(index as u64).as_str());
    id.append(":");
    id.append(champion_id);
    id
}

} // verus!
