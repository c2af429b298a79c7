use draft_team::application::analysis::analyze_composition;
use draft_team::application::recommendations::{
    build_draft_call, build_win_condition_after_pick, evaluate_candidate, identity_label,
    recommend_candidates, RecommendationRequest,
};
use draft_team::application::review::{review_draft, DraftReviewRequest};
use draft_team::domain::champion::{
    Champion, DamageProfile, ExecutionDemand, LanePattern, Role, RoleConfidenceMap,
};
use draft_team::domain::composition::CompositionIdentity;
use draft_team::domain::draft::{DraftPhase, DraftState, TeamDraft, TeamSide};
use draft_team::domain::scoring::{MAX_RAW_SCORE, WEIGHT_SCALE};

fn champion(name: &str, role: Role, confidence: u32, identities: Vec<CompositionIdentity>) -> Champion {
    let mut role_confidence_map = RoleConfidenceMap::new();
    role_confidence_map.insert(role, confidence);

    Champion {
        id: name.to_lowercase(),
        name: name.into(),
        roles: vec![role],
        role_confidence_map,
        identities,
        damage_profile: DamageProfile::Mixed,
        execution_demand: ExecutionDemand::Medium,
        lane_pattern: LanePattern::Stable,
        crowd_control: 3,
        engage: 3,
        scaling: 3,
        durability: 3,
        mobility: 2,
    }
}

fn draft_state() -> DraftState {
    DraftState {
        patch: "15.6".into(),
        side: TeamSide::Blue,
        phase: DraftPhase::PickPhaseOne,
        ally: TeamDraft {
            champions: vec![champion(
                "Sejuani",
                Role::Jungle,
                100,
                vec![CompositionIdentity::Engage],
            )],
        },
        enemy: TeamDraft {
            champions: vec![champion("Ahri", Role::Mid, 100, vec![CompositionIdentity::Pick])],
        },
        ally_bans: vec![],
        enemy_bans: vec![],
        contested_roles: vec![Role::Top],
    }
}

fn candidates() -> Vec<Champion> {
    vec![
        champion(
            "Ornn",
            Role::Top,
            90,
            vec![CompositionIdentity::Engage, CompositionIdentity::FrontToBack],
        ),
        champion(
            "Jayce",
            Role::Top,
            90,
            vec![CompositionIdentity::Poke, CompositionIdentity::Siege],
        ),
        champion("Gnar", Role::Top, 90, vec![CompositionIdentity::Skirmish]),
        champion("Renekton", Role::Top, 90, vec![CompositionIdentity::Skirmish]),
        champion("Kennen", Role::Top, 90, vec![CompositionIdentity::Engage]),
        champion(
            "Camille",
            Role::Top,
            90,
            vec![CompositionIdentity::Pick, CompositionIdentity::SplitPush],
        ),
    ]
}

#[test]
fn recommend_candidates_returns_top_five_sorted() {
    let request = RecommendationRequest {
        draft_state: draft_state(),
        candidates: candidates(),
    };

    let response = recommend_candidates(request);

    assert_eq!(response.top_5.len(), 5);
    assert!(
        response.evaluated_candidates[0].score_breakdown.final_score
            >= response.evaluated_candidates[1].score_breakdown.final_score
    );
}

#[test]
fn ranking_is_sorted_stable_and_complete() {
    let response = recommend_candidates(RecommendationRequest {
        draft_state: draft_state(),
        candidates: candidates(),
    });

    assert_eq!(response.evaluated_candidates.len(), 6);
    for pair in response.evaluated_candidates.windows(2) {
        assert!(pair[0].score_breakdown.final_score >= pair[1].score_breakdown.final_score);
    }
    for (top, all) in response.top_5.iter().zip(response.evaluated_candidates.iter()) {
        assert_eq!(top.champion.name, all.champion.name);
    }
    let mut names = response
        .evaluated_candidates
        .iter()
        .map(|e| e.champion.name.clone())
        .collect::<Vec<_>>();
    names.sort();
    assert_eq!(names, vec!["Camille", "Gnar", "Jayce", "Kennen", "Ornn", "Renekton"]);
    let gnar = response
        .evaluated_candidates
        .iter()
        .position(|e| e.champion.name == "Gnar")
        .unwrap();
    let renekton = response
        .evaluated_candidates
        .iter()
        .position(|e| e.champion.name == "Renekton")
        .unwrap();
    assert!(gnar < renekton);
}

#[test]
fn final_score_is_the_weighted_sum_of_bounded_subscores() {
    let draft = draft_state();
    let composition = analyze_composition(&draft);
    for candidate in candidates() {
        let evaluation = evaluate_candidate(&draft, &composition, candidate);
        let b = &evaluation.score_breakdown;
        let parts = [
            &b.internal_coherence,
            &b.enemy_matchup,
            &b.roster_fit,
            &b.execution_simplicity,
            &b.lane_stability,
        ];
        let mut sum = 0;
        for part in parts {
            assert!(part.raw_score >= 0 && part.raw_score <= MAX_RAW_SCORE);
            assert_eq!(part.weighted_score, part.raw_score * part.weight);
            sum += part.weighted_score;
        }
        assert_eq!(b.final_score, sum);
        assert!(b.final_score >= 0 && b.final_score <= MAX_RAW_SCORE * WEIGHT_SCALE);
    }
}

#[test]
fn analyze_composition_surfaces_structural_alerts() {
    let draft_state = DraftState {
        ally: TeamDraft {
            champions: vec![champion("Ezreal", Role::Bottom, 100, vec![CompositionIdentity::Poke])],
        },
        ..draft_state()
    };

    let snapshot = analyze_composition(&draft_state);

    assert!(snapshot
        .alerts
        .iter()
        .any(|alert| alert.code == "core_roles_open"));
}

#[test]
fn review_draft_generates_notes() {
    let mut role_confidence_map = RoleConfidenceMap::new();
    role_confidence_map.insert(Role::Top, 100);

    let champion = Champion {
        id: "ornn".into(),
        name: "Ornn".into(),
        roles: vec![Role::Top],
        role_confidence_map,
        identities: vec![CompositionIdentity::Engage, CompositionIdentity::FrontToBack],
        damage_profile: DamageProfile::Mixed,
        execution_demand: ExecutionDemand::Low,
        lane_pattern: LanePattern::Stable,
        crowd_control: 4,
        engage: 4,
        scaling: 4,
        durability: 4,
        mobility: 1,
    };

    let response = review_draft(DraftReviewRequest {
        draft_state: DraftState {
            patch: "15.6".into(),
            side: TeamSide::Blue,
            phase: DraftPhase::Complete,
            ally: TeamDraft {
                champions: vec![champion],
            },
            enemy: TeamDraft { champions: vec![] },
            ally_bans: vec![],
            enemy_bans: vec![],
            contested_roles: vec![],
        },
    });

    assert!(!response.review_notes.is_empty());
}

#[test]
fn identity_labels_and_texts() {
    assert_eq!(identity_label(&CompositionIdentity::FrontToBack), "front_to_back");
    let draft = draft_state();
    let composition = analyze_composition(&draft);
    let ornn = candidates().remove(0);
    let win = build_win_condition_after_pick(&composition, &ornn);
    assert!(!win.is_empty());
    let evaluation = evaluate_candidate(&draft, &composition, ornn);
    let call = build_draft_call(&evaluation.score_breakdown, &evaluation.alerts);
    assert_eq!(call, evaluation.draft_call);
}
