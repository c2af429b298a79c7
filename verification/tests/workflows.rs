use draft_team::commands::config::{default_config, UiRole};
use draft_team::commands::health::healthcheck;
use draft_team::commands::recommendations::{recommend_draft_candidates, review_completed_draft};
use draft_team::commands::workflows::{
    champion, default_draft_state, get_draft_diagnostics, get_live_draft_recommendations,
    load_history_reviews, run_sandbox_simulation, sample_candidates, DraftStatePayload,
};
use draft_team::application::recommendations::RecommendationRequest;
use draft_team::application::review::DraftReviewRequest;
use draft_team::domain::champion::{DamageProfile, ExecutionDemand, LanePattern, Role};
use draft_team::domain::composition::CompositionIdentity;
use draft_team::domain::draft::{DraftPhase, TeamSide};
use draft_team::services::app_state::AppState;

#[test]
fn default_config_describes_five_members() {
    let config = default_config();
    assert_eq!(config.team_name, "Drafting Laboratory");
    assert_eq!(config.patch, "15.6");
    assert_eq!(config.members.len(), 5);
    assert_eq!(config.members[0].id, "top-alto");
    assert_eq!(config.members[3].role, UiRole::Bottom);
    assert_eq!(config.members[4].comfort_picks, vec!["Nautilus", "Renata", "Rell"]);
    assert_eq!(
        config.target_identity,
        vec![
            CompositionIdentity::Engage,
            CompositionIdentity::FrontToBack,
            CompositionIdentity::ProtectCarry
        ]
    );
}

#[test]
fn champion_builder_sets_full_confidence_for_each_role() {
    let flex = champion(
        "sett",
        "Sett",
        vec![Role::Top, Role::Support],
        vec![CompositionIdentity::Engage],
        DamageProfile::Physical,
        ExecutionDemand::Low,
        LanePattern::Bully,
        3,
        4,
        3,
        4,
        2,
    );
    assert_eq!(flex.role_confidence(&Role::Top), 100);
    assert_eq!(flex.role_confidence(&Role::Support), 100);
    assert_eq!(flex.role_confidence(&Role::Mid), 0);
    assert_eq!(flex.primary_role(), Some(Role::Support));
}

#[test]
fn default_draft_and_sample_pool() {
    let draft = default_draft_state();
    assert_eq!(draft.patch, "15.6");
    assert_eq!(draft.side, TeamSide::Blue);
    assert_eq!(draft.phase, DraftPhase::PickPhaseTwo);
    assert_eq!(draft.ally.champions.len(), 4);
    assert_eq!(draft.enemy.champions.len(), 3);
    assert_eq!(draft.ally_bans, vec!["kalista", "corki", "skarner"]);
    assert_eq!(draft.contested_roles, vec![Role::Support]);
    assert_eq!(draft.missing_roles(), vec![Role::Support]);

    let pool = sample_candidates();
    let names = pool.iter().map(|c| c.name.as_str()).collect::<Vec<_>>();
    assert_eq!(names, vec!["Nautilus", "Renata Glasc", "Jax"]);
}

#[test]
fn workflows_use_the_default_draft_without_payload() {
    let live = get_live_draft_recommendations(None);
    assert_eq!(live.evaluated_candidates.len(), 3);
    assert_eq!(live.top_5.len(), 3);

    let same = get_live_draft_recommendations(Some(DraftStatePayload {
        draft_state: default_draft_state(),
    }));
    let direct = recommend_draft_candidates(RecommendationRequest {
        draft_state: default_draft_state(),
        candidates: sample_candidates(),
    });
    for ((a, b), c) in live
        .evaluated_candidates
        .iter()
        .zip(same.evaluated_candidates.iter())
        .zip(direct.evaluated_candidates.iter())
    {
        assert_eq!(a.champion.name, b.champion.name);
        assert_eq!(a.champion.name, c.champion.name);
        assert_eq!(a.score_breakdown.final_score, b.score_breakdown.final_score);
    }

    let diagnostics = get_draft_diagnostics(None);
    let direct_review = review_completed_draft(DraftReviewRequest {
        draft_state: default_draft_state(),
    });
    assert_eq!(diagnostics.review_notes, direct_review.review_notes);
    assert_eq!(diagnostics.draft_call, direct_review.draft_call);
}

#[test]
fn sandbox_simulation_builds_three_labelled_scenarios() {
    let simulation = run_sandbox_simulation(None);
    assert_eq!(simulation.scenarios.len(), 3);
    let ids = simulation.scenarios.iter().map(|s| s.id.as_str()).collect::<Vec<_>>();
    assert_eq!(ids, vec!["scenario-1", "scenario-2", "scenario-3"]);
    let labels = simulation
        .scenarios
        .iter()
        .map(|s| s.label.as_str())
        .collect::<Vec<_>>();
    assert_eq!(labels, vec!["Safe engage", "Protect carry", "Macro split"]);
    for (scenario, evaluation) in simulation.scenarios.iter().zip(simulation.baseline.top_5.iter()) {
        assert_eq!(scenario.pick, evaluation.champion.name);
        assert_eq!(scenario.projected_score, evaluation.score_breakdown.final_score);
        assert_eq!(scenario.summary, evaluation.win_condition_after_pick);
        assert!(scenario.risks.len() <= 2);
        for (risk, alert) in scenario.risks.iter().zip(evaluation.alerts.iter()) {
            assert_eq!(risk, &alert.title);
        }
    }
}

#[test]
fn history_lists_two_reviews() {
    let history = load_history_reviews();
    assert_eq!(history.len(), 2);
    assert_eq!(history[0].id, "review-1");
    assert_eq!(history[0].result, "win");
    assert_eq!(history[1].opponent, "Night Owls");
    assert_eq!(history[1].draft_call, "Le split push n’a jamais trouvé de timings propres.");
}

#[test]
fn health_line_names_database_and_services() {
    let state = AppState::new((), "/tmp/draft.sqlite".to_string());
    assert_eq!(state.database_path(), "/tmp/draft.sqlite");
    assert_eq!(state.catalog().source_database(), "/tmp/draft.sqlite");
    assert_eq!(state.recommendation().engine_name(), "draft_recommendation_engine");
    assert_eq!(state.live().status_label(), "not_started");
    assert_eq!(
        healthcheck(&state),
        "ok|db=/tmp/draft.sqlite|catalog=/tmp/draft.sqlite|engine=draft_recommendation_engine|live=not_started"
    );
}
