//! The recommendation engine service.
use vstd::prelude::*;

verus! {

/// The recommendation engine service.
#[derive(Debug, Clone, Copy, Default)]
pub struct RecommendationService;

impl RecommendationService {
    /// The name the engine reports.
    pub fn engine_name(&self) -> (r: &'static str)
        ensures
            r@ == "draft_recommendation_engine"@,
    {
        "draft_recommendation_engine"
    }
}

} // verus!
