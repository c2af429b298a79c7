use draft_team::text::format_one_decimal;
use draft_team::application::analysis::{analyze_composition, fits_profile_totals};
use draft_team::domain::champion::{
    Champion, DamageProfile, ExecutionDemand, LanePattern, Role, RoleConfidenceMap,
};
use draft_team::domain::composition::{CompositionIdentity, CompositionProfile};
use draft_team::domain::draft::{DraftPhase, DraftState, TeamDraft, TeamSide};
use draft_team::domain::scoring::{
    ENEMY_MATCHUP_WEIGHT, EXECUTION_SIMPLICITY_WEIGHT, INTERNAL_COHERENCE_WEIGHT,
    LANE_STABILITY_WEIGHT, ROSTER_FIT_WEIGHT, WEIGHT_SCALE,
};

struct ChampionSpec {
    name: &'static str,
    role: Role,
    identities: Vec<CompositionIdentity>,
    damage_profile: DamageProfile,
    execution_demand: ExecutionDemand,
    lane_pattern: LanePattern,
    crowd_control: u8,
    engage: u8,
    scaling: u8,
    durability: u8,
    mobility: u8,
}

fn champion(spec: ChampionSpec) -> Champion {
    let mut role_confidence_map = RoleConfidenceMap::new();
    role_confidence_map.insert(spec.role, 100);
    Champion {
        id: spec.name.into(),
        name: spec.name.into(),
        roles: vec![spec.role],
        role_confidence_map,
        identities: spec.identities,
        damage_profile: spec.damage_profile,
        execution_demand: spec.execution_demand,
        lane_pattern: spec.lane_pattern,
        crowd_control: spec.crowd_control,
        engage: spec.engage,
        scaling: spec.scaling,
        durability: spec.durability,
        mobility: spec.mobility,
    }
}

#[allow(clippy::too_many_arguments)]
fn top(
    name: &'static str,
    identities: Vec<CompositionIdentity>,
    execution_demand: ExecutionDemand,
    engage: u8,
    scaling: u8,
    durability: u8,
    mobility: u8,
    crowd_control: u8,
    lane_pattern: LanePattern,
) -> Champion {
    champion(ChampionSpec {
        name,
        role: Role::Top,
        identities,
        damage_profile: DamageProfile::Mixed,
        execution_demand,
        lane_pattern,
        crowd_control,
        engage,
        scaling,
        durability,
        mobility,
    })
}

#[allow(clippy::too_many_arguments)]
fn jungle(
    name: &'static str,
    identities: Vec<CompositionIdentity>,
    execution_demand: ExecutionDemand,
    engage: u8,
    scaling: u8,
    durability: u8,
    mobility: u8,
    crowd_control: u8,
) -> Champion {
    champion(ChampionSpec {
        name,
        role: Role::Jungle,
        identities,
        damage_profile: DamageProfile::Mixed,
        execution_demand,
        lane_pattern: LanePattern::Roaming,
        crowd_control,
        engage,
        scaling,
        durability,
        mobility,
    })
}

#[allow(clippy::too_many_arguments)]
fn mid(
    name: &'static str,
    identities: Vec<CompositionIdentity>,
    execution_demand: ExecutionDemand,
    engage: u8,
    scaling: u8,
    durability: u8,
    mobility: u8,
    crowd_control: u8,
    lane_pattern: LanePattern,
) -> Champion {
    champion(ChampionSpec {
        name,
        role: Role::Mid,
        identities,
        damage_profile: DamageProfile::Magical,
        execution_demand,
        lane_pattern,
        crowd_control,
        engage,
        scaling,
        durability,
        mobility,
    })
}

fn bottom(
    name: &'static str,
    identities: Vec<CompositionIdentity>,
    execution_demand: ExecutionDemand,
    scaling: u8,
    mobility: u8,
) -> Champion {
    champion(ChampionSpec {
        name,
        role: Role::Bottom,
        identities,
        damage_profile: DamageProfile::Physical,
        execution_demand,
        lane_pattern: LanePattern::Scaling,
        crowd_control: 1,
        engage: 0,
        scaling,
        durability: 1,
        mobility,
    })
}

fn draft_state(ally: Vec<Champion>, enemy: Vec<Champion>, contested_roles: Vec<Role>) -> DraftState {
    DraftState {
        patch: "15.6".into(),
        side: TeamSide::Blue,
        phase: DraftPhase::PickPhaseTwo,
        ally: TeamDraft { champions: ally },
        enemy: TeamDraft { champions: enemy },
        ally_bans: vec!["skarner".into(), "kalista".into()],
        enemy_bans: vec!["rell".into(), "vi".into()],
        contested_roles,
    }
}

#[test]
fn scoring_weights_sum_to_one() {
    let total = INTERNAL_COHERENCE_WEIGHT
        + ENEMY_MATCHUP_WEIGHT
        + ROSTER_FIT_WEIGHT
        + EXECUTION_SIMPLICITY_WEIGHT
        + LANE_STABILITY_WEIGHT;

    assert!((total as f32 / WEIGHT_SCALE as f32 - 1.0).abs() < f32::EPSILON);
}

#[test]
fn composition_profile_clamps_each_axis_to_five() {
    let profile = CompositionProfile {
        engage: 9,
        disengage: 7,
        pick: 6,
        poke: 8,
        front_to_back: 11,
        split_push: 10,
        scaling: 12,
        wave_clear: 13,
    }
    .clamped();

    assert_eq!(profile.engage, 5);
    assert_eq!(profile.disengage, 5);
    assert_eq!(profile.pick, 5);
    assert_eq!(profile.poke, 5);
    assert_eq!(profile.front_to_back, 5);
    assert_eq!(profile.split_push, 5);
    assert_eq!(profile.scaling, 5);
    assert_eq!(profile.wave_clear, 5);
}

#[test]
fn clamping_keeps_small_axes() {
    let profile = CompositionProfile {
        engage: 0,
        disengage: 4,
        pick: 5,
        poke: 6,
        front_to_back: 1,
        split_push: 2,
        scaling: 3,
        wave_clear: 255,
    }
    .clamped();

    assert_eq!(profile.engage, 0);
    assert_eq!(profile.disengage, 4);
    assert_eq!(profile.pick, 5);
    assert_eq!(profile.poke, 5);
    assert_eq!(profile.front_to_back, 1);
    assert_eq!(profile.split_push, 2);
    assert_eq!(profile.scaling, 3);
    assert_eq!(profile.wave_clear, 5);
}

#[test]
fn analyze_composition_surfaces_missing_engage_on_unclear_plan() {
    let state = DraftState {
        phase: DraftPhase::PickPhaseTwo,
        ..draft_state(
            vec![
                top(
                    "Jayce",
                    vec![CompositionIdentity::Poke, CompositionIdentity::Siege],
                    ExecutionDemand::Medium,
                    1,
                    3,
                    2,
                    2,
                    1,
                    LanePattern::Bully,
                ),
                jungle(
                    "Viego",
                    vec![CompositionIdentity::Skirmish],
                    ExecutionDemand::Medium,
                    1,
                    3,
                    2,
                    3,
                    1,
                ),
                mid(
                    "Ahri",
                    vec![CompositionIdentity::Pick, CompositionIdentity::Skirmish],
                    ExecutionDemand::Medium,
                    2,
                    3,
                    1,
                    4,
                    3,
                    LanePattern::Roaming,
                ),
                bottom(
                    "Ezreal",
                    vec![CompositionIdentity::Poke],
                    ExecutionDemand::Medium,
                    3,
                    3,
                ),
            ],
            vec![],
            vec![Role::Support],
        )
    };
    assert!(fits_profile_totals(&state.ally.champions));
    let snapshot = analyze_composition(&state);

    assert!(snapshot
        .alerts
        .iter()
        .any(|alert| alert.code == "missing_primary_engage"));
}

#[test]
fn missing_roles_lists_uncovered_lanes_in_order() {
    let state = draft_state(
        vec![
            bottom("Ezreal", vec![CompositionIdentity::Poke], ExecutionDemand::Medium, 3, 3),
            jungle("Viego", vec![], ExecutionDemand::Medium, 1, 3, 2, 3, 1),
        ],
        vec![],
        vec![],
    );
    assert_eq!(
        state.missing_roles(),
        vec![Role::Top, Role::Mid, Role::Support]
    );
}

#[test]
fn primary_role_prefers_the_highest_confidence() {
    let mut map = RoleConfidenceMap::new();
    map.insert(Role::Top, 60);
    map.insert(Role::Mid, 90);
    map.insert(Role::Support, 90);
    let mut flex = bottom("Flex", vec![], ExecutionDemand::Low, 1, 1);
    flex.role_confidence_map = map;
    assert_eq!(flex.primary_role(), Some(Role::Support));
    assert_eq!(flex.role_confidence(&Role::Top), 60);
    assert_eq!(flex.role_confidence(&Role::Jungle), 0);

    let mut unmapped = bottom("Plain", vec![], ExecutionDemand::Low, 1, 1);
    unmapped.role_confidence_map = RoleConfidenceMap::new();
    assert_eq!(unmapped.primary_role(), Some(Role::Bottom));
}

#[test]
fn one_decimal_rounds_ties_to_even() {
    assert_eq!(format_one_decimal(725, 10), "7.2");
    assert_eq!(format_one_decimal(735, 10), "7.4");
    assert_eq!(format_one_decimal(726, 10), "7.3");
    assert_eq!(format_one_decimal(-735, 10), "-7.4");
    assert_eq!(format_one_decimal(721_500, 1000), "72.2");
    assert_eq!(format_one_decimal(722_500, 1000), "72.2");
}
