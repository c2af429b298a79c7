//! The recommendation and review entry points of the desktop shell.
use vstd::prelude::*;

use crate::application::analysis::profile_totals_fit;
use crate::application::recommendations::{
    recommend_candidates, recommendation_of, RecommendationRequest, RecommendationResponse,
};
use crate::application::review::{review_draft, review_of, DraftReviewRequest, DraftReviewResponse};

verus! {

/// Recommendations for the request's draft among its candidates.
pub fn recommend_draft_candidates(request: RecommendationRequest) -> (r: RecommendationResponse)
    requires
        profile_totals_fit(request.draft_state.ally@),
    ensures
        r@ == recommendation_of(request.draft_state@, request.candidates.deep_view()),
{
    recommend_candidates(request)
}

/// The review of the request's completed draft.
pub fn review_completed_draft(request: DraftReviewRequest) -> (r: DraftReviewResponse)
    requires
        profile_totals_fit(request.draft_state.ally@),
    ensures
        r@ == review_of(request.draft_state@),
{
    review_draft(request)
}

} // verus!
