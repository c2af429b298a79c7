//! Explainable scoring model. Scores are exact fixed-point numbers: raw
//! sub-scores and contributor values are in hundredths of a point (100.0 is
//! written 10000), weights are in hundredths (0.35 is written 35), and weighted
//! and final scores are in ten-thousandths of a point (their product).
use vstd::prelude::*;

use super::champion::{Champion, ChampionView};
use super::composition::{duplicate_alerts, DraftAlert, DraftAlertView};

verus! {

pub const INTERNAL_COHERENCE_WEIGHT: i64 = 35;

pub const ENEMY_MATCHUP_WEIGHT: i64 = 30;

pub const ROSTER_FIT_WEIGHT: i64 = 20;

pub const EXECUTION_SIMPLICITY_WEIGHT: i64 = 10;

pub const LANE_STABILITY_WEIGHT: i64 = 5;

/// A weight of 1.0 on the weight scale.
pub const WEIGHT_SCALE: i64 = 100;

/// The five weights sum to one.
pub proof fn lemma_weights_sum_to_one()
    ensures
        INTERNAL_COHERENCE_WEIGHT + ENEMY_MATCHUP_WEIGHT + ROSTER_FIT_WEIGHT
            + EXECUTION_SIMPLICITY_WEIGHT + LANE_STABILITY_WEIGHT == WEIGHT_SCALE,
{
}

/// One point on the raw score scale.
pub const POINT: i64 = 100;

/// The highest raw sub-score, 100.0 points.
pub const MAX_RAW_SCORE: i64 = 10000;

/// The largest weight magnitude for which a weighted score fits the machine word.
pub const MAX_WEIGHT_MAGNITUDE: i64 = 1_000_000_000_000;

/// The largest weighted-score magnitude that the final sum accepts.
pub const MAX_WEIGHTED_MAGNITUDE: i64 = 1_000_000_000_000_000;

#[derive(Debug, Clone, Copy, PartialEq, Eq, Structural)]
pub enum ScoreDimension {
    InternalCoherence,
    EnemyMatchup,
    RosterFit,
    ExecutionSimplicity,
    LaneStability,
}

#[derive(Debug, Clone, Copy, PartialEq, Eq, Structural)]
pub enum ContributionPolarity {
    Bonus,
    Malus,
}

/// One bonus or malus that went into a sub-score, in hundredths of a point.
#[derive(Debug, Clone)]
pub struct ScoreContributor {
    pub dimension: ScoreDimension,
    pub polarity: ContributionPolarity,
    pub label: String,
    pub value: i64,
    pub detail: String,
}

pub struct ScoreContributorView {
    pub dimension: ScoreDimension,
    pub polarity: ContributionPolarity,
    pub label: Seq<char>,
    pub value: i64,
    pub detail: Seq<char>,
}

impl View for ScoreContributor {
    type V = ScoreContributorView;

    open spec fn view(&self) -> ScoreContributorView {
        ScoreContributorView {
            dimension: self.dimension,
            polarity: self.polarity,
            label: self.label@,
            value: self.value,
            detail: self.detail@,
        }
    }
}

impl DeepView for ScoreContributor {
    type V = ScoreContributorView;

    open spec fn deep_view(&self) -> ScoreContributorView {
        self@
    }
}

impl ScoreContributor {
    pub fn duplicate(&self) -> (r: ScoreContributor)
        ensures
            r@ == self@,
    {
        ScoreContributor {
            dimension: self.dimension,
            polarity: self.polarity,
            label: self.label.clone(),
            value: self.value,
            detail: self.detail.clone(),
        }
    }
}

/// A sub-score bounded to [0, 100] points, its weight, their product and its contributors.
#[derive(Debug, Clone)]
pub struct ExplainedSubScore {
    pub raw_score: i64,
    pub weight: i64,
    pub weighted_score: i64,
    pub contributors: Vec<ScoreContributor>,
}

pub struct ExplainedSubScoreView {
    pub raw_score: i64,
    pub weight: i64,
    pub weighted_score: i64,
    pub contributors: Seq<ScoreContributorView>,
}

impl View for ExplainedSubScore {
    type V = ExplainedSubScoreView;

    open spec fn view(&self) -> ExplainedSubScoreView {
        ExplainedSubScoreView {
            raw_score: self.raw_score,
            weight: self.weight,
            weighted_score: self.weighted_score,
            contributors: self.contributors.deep_view(),
        }
    }
}

impl ExplainedSubScore {
    pub fn duplicate(&self) -> (r: ExplainedSubScore)
        ensures
            r@ == self@,
    {
        let mut contributors: Vec<ScoreContributor> = Vec::new();
        for i in 0..self.contributors.len()
            invariant
                contributors.len() == i,
                forall|k: int|
                    0 <= k < i ==> (#[trigger] contributors@[k])@ == self.contributors@[k]@,
        {
            contributors.push(self.contributors[i].duplicate());
        }
        assert(contributors.deep_view() =~= self.contributors.deep_view());
        ExplainedSubScore {
            raw_score: self.raw_score,
            weight: self.weight,
            weighted_score: self.weighted_score,
            contributors,
        }
    }
}

/// `score` bounded to the raw score range [0, 100] points.
pub open spec fn bounded_score(score: int) -> int {
    if score < 0 {
        0
    } else if score > MAX_RAW_SCORE {
        MAX_RAW_SCORE as int
    } else {
        score
    }
}

/// Bounds `raw_score` to [0, 100] points and weighs it.
pub fn explained_subscore(raw_score: i128, weight: i64, contributors: Vec<ScoreContributor>) -> (r:
    ExplainedSubScore)
    requires
        -MAX_WEIGHT_MAGNITUDE <= weight <= MAX_WEIGHT_MAGNITUDE,
    ensures
        r.raw_score == bounded_score(raw_score as int),
        r.weight == weight,
        r.weighted_score == bounded_score(raw_score as int) * weight,
        r.contributors == contributors,
{
    let bounded: i64 = if raw_score < 0 {
        0
    } else if raw_score > MAX_RAW_SCORE as i128 {
        MAX_RAW_SCORE
    } else {
        raw_score as i64
    };
    assert(-MAX_WEIGHT_MAGNITUDE * MAX_RAW_SCORE <= bounded * weight
        <= MAX_WEIGHT_MAGNITUDE * MAX_RAW_SCORE) by (nonlinear_arith)
        requires
            0 <= bounded <= MAX_RAW_SCORE,
            -MAX_WEIGHT_MAGNITUDE <= weight <= MAX_WEIGHT_MAGNITUDE,
    ;
    ExplainedSubScore { raw_score: bounded, weight, weighted_score: bounded * weight, contributors }
}

/// The five weighted sub-scores of a candidate and their sum.
#[derive(Debug, Clone)]
pub struct ScoreBreakdown {
    pub internal_coherence: ExplainedSubScore,
    pub enemy_matchup: ExplainedSubScore,
    pub roster_fit: ExplainedSubScore,
    pub execution_simplicity: ExplainedSubScore,
    pub lane_stability: ExplainedSubScore,
    pub final_score: i64,
}

pub struct ScoreBreakdownView {
    pub internal_coherence: ExplainedSubScoreView,
    pub enemy_matchup: ExplainedSubScoreView,
    pub roster_fit: ExplainedSubScoreView,
    pub execution_simplicity: ExplainedSubScoreView,
    pub lane_stability: ExplainedSubScoreView,
    pub final_score: i64,
}

impl View for ScoreBreakdown {
    type V = ScoreBreakdownView;

    open spec fn view(&self) -> ScoreBreakdownView {
        ScoreBreakdownView {
            internal_coherence: self.internal_coherence@,
            enemy_matchup: self.enemy_matchup@,
            roster_fit: self.roster_fit@,
            execution_simplicity: self.execution_simplicity@,
            lane_stability: self.lane_stability@,
            final_score: self.final_score,
        }
    }
}

pub open spec fn weighted_fits(s: ExplainedSubScoreView) -> bool {
    -MAX_WEIGHTED_MAGNITUDE <= s.weighted_score <= MAX_WEIGHTED_MAGNITUDE
}

impl ScoreBreakdown {
    /// Gathers five sub-scores; the final score is the sum of their weighted scores.
    pub fn from_subscores(
        internal_coherence: ExplainedSubScore,
        enemy_matchup: ExplainedSubScore,
        roster_fit: ExplainedSubScore,
        execution_simplicity: ExplainedSubScore,
        lane_stability: ExplainedSubScore,
    ) -> (r: Self)
        requires
            weighted_fits(internal_coherence@),
            weighted_fits(enemy_matchup@),
            weighted_fits(roster_fit@),
            weighted_fits(execution_simplicity@),
            weighted_fits(lane_stability@),
        ensures
            r.internal_coherence == internal_coherence,
            r.enemy_matchup == enemy_matchup,
            r.roster_fit == roster_fit,
            r.execution_simplicity == execution_simplicity,
            r.lane_stability == lane_stability,
            r.final_score == internal_coherence.weighted_score + enemy_matchup.weighted_score
                + roster_fit.weighted_score + execution_simplicity.weighted_score
                + lane_stability.weighted_score,
    {
        let final_score = internal_coherence.weighted_score + enemy_matchup.weighted_score
            + roster_fit.weighted_score + execution_simplicity.weighted_score
            + lane_stability.weighted_score;
        ScoreBreakdown {
            internal_coherence,
            enemy_matchup,
            roster_fit,
            execution_simplicity,
            lane_stability,
            final_score,
        }
    }

    pub fn duplicate(&self) -> (r: ScoreBreakdown)
        ensures
            r@ == self@,
    {
        ScoreBreakdown {
            internal_coherence: self.internal_coherence.duplicate(),
            enemy_matchup: self.enemy_matchup.duplicate(),
            roster_fit: self.roster_fit.duplicate(),
            execution_simplicity: self.execution_simplicity.duplicate(),
            lane_stability: self.lane_stability.duplicate(),
            final_score: self.final_score,
        }
    }
}

/// The full assessment of one candidate pick.
#[derive(Debug, Clone)]
pub struct CandidateEvaluation {
    pub champion: Champion,
    pub score_breakdown: ScoreBreakdown,
    pub alerts: Vec<DraftAlert>,
    pub explanation: Vec<String>,
    pub win_condition_after_pick: String,
    pub draft_call: String,
}

pub struct CandidateEvaluationView {
    pub champion: ChampionView,
    pub score_breakdown: ScoreBreakdownView,
    pub alerts: Seq<DraftAlertView>,
    pub explanation: Seq<Seq<char>>,
    pub win_condition_after_pick: Seq<char>,
    pub draft_call: Seq<char>,
}

impl View for CandidateEvaluation {
    type V = CandidateEvaluationView;

    open spec fn view(&self) -> CandidateEvaluationView {
        CandidateEvaluationView {
            champion: self.champion@,
            score_breakdown: self.score_breakdown@,
            alerts: self.alerts.deep_view(),
            explanation: self.explanation.deep_view(),
            win_condition_after_pick: self.win_condition_after_pick@,
            draft_call: self.draft_call@,
        }
    }
}

impl DeepView for CandidateEvaluation {
    type V = CandidateEvaluationView;

    open spec fn deep_view(&self) -> CandidateEvaluationView {
        self@
    }
}

impl CandidateEvaluation {
    pub fn duplicate(&self) -> (r: CandidateEvaluation)
        ensures
            r@ == self@,
    {
        CandidateEvaluation {
            champion: self.champion.duplicate(),
            score_breakdown: self.score_breakdown.duplicate(),
            alerts: duplicate_alerts(&self.alerts),
            explanation: crate::domain::draft::duplicate_strings(&self.explanation),
            win_condition_after_pick: self.win_condition_after_pick.clone(),
            draft_call: self.draft_call.clone(),
        }
    }
}

} // verus!
