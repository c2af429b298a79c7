//! The health report of the running application.
use vstd::prelude::*;

use crate::services::app_state::AppState;

verus! {

/// The health line: the database, the catalog source, the engine and the live
/// service status.
pub open spec fn health_text(database: Seq<char>, catalog: Seq<char>) -> Seq<char> {
    "ok|db="@ + database + "|catalog="@ + catalog + "|engine="@ + "draft_recommendation_engine"@
        + "|live="@ + "not_started"@
}

/// The health line of the running application.
pub fn healthcheck<Storage>(state: &AppState<Storage>) -> (r: String)
    ensures
        r@ == health_text(state.path_of(), state.catalog_of().source()),
{
    let mut line = String::from_str("ok|db=");
    line.append(state.database_path());
    line.append("|catalog=");
    line.append(state.catalog().source_database());
    line.append("|engine=");
    line.append(state.recommendation().engine_name());
    line.append("|live=");
    line.append(state.live().status_label());
    line
}

} // verus!
