//! The draft workflows of the desktop shell: live recommendations, draft
//! diagnostics, sandbox simulation and review history, over a sample pool and
//! a default draft.
use vstd::prelude::*;

use crate::application::analysis::profile_totals_fit;
use crate::application::recommendations::{
    recommend_candidates, recommendation_of, RecommendationRequest, RecommendationResponse,
    RecommendationResponseView,
};
use crate::application::review::{review_draft, review_of, DraftReviewRequest, DraftReviewResponse};
use crate::domain::champion::{
    Champion, ChampionView, DamageProfile, ExecutionDemand, LanePattern, Role,
    RoleConfidenceMap, CONFIDENCE_ONE,
};
use crate::domain::composition::CompositionIdentity;
use crate::domain::draft::{DraftPhase, DraftState, DraftStateView, TeamDraft, TeamSide};
use crate::domain::scoring::CandidateEvaluationView;
use crate::text::{concat, decimal, decimal_string, owned_strings};

verus! {

/// A draft handed in by the interface.
#[derive(Debug, Clone)]
pub struct DraftStatePayload {
    pub draft_state: DraftState,
}

/// Every role of `roles` at full confidence.
pub open spec fn full_confidence(roles: Seq<Role>) -> RoleConfidenceMap {
    RoleConfidenceMap {
        top: if roles.contains(Role::Top) { Some(100u32) } else { None },
        jungle: if roles.contains(Role::Jungle) { Some(100u32) } else { None },
        mid: if roles.contains(Role::Mid) { Some(100u32) } else { None },
        bottom: if roles.contains(Role::Bottom) { Some(100u32) } else { None },
        support: if roles.contains(Role::Support) { Some(100u32) } else { None },
    }
}

/// A champion whose listed roles are all played at full confidence.
pub open spec fn champion_view(
    id: Seq<char>,
    name: Seq<char>,
    roles: Seq<Role>,
    identities: Seq<CompositionIdentity>,
    damage_profile: DamageProfile,
    execution_demand: ExecutionDemand,
    lane_pattern: LanePattern,
    crowd_control: u8,
    engage: u8,
    scaling: u8,
    durability: u8,
    mobility: u8,
) -> ChampionView {
    ChampionView {
        id,
        name,
        roles,
        role_confidence_map: full_confidence(roles),
        identities,
        damage_profile,
        execution_demand,
        lane_pattern,
        crowd_control,
        engage,
        scaling,
        durability,
        mobility,
    }
}

/// Builds a champion whose listed roles are all played at full confidence.
pub fn champion(
    id: &str,
    name: &str,
    roles: Vec<Role>,
    identities: Vec<CompositionIdentity>,
    damage_profile: DamageProfile,
    execution_demand: ExecutionDemand,
    lane_pattern: LanePattern,
    crowd_control: u8,
    engage: u8,
    scaling: u8,
    durability: u8,
    mobility: u8,
) -> (r: Champion)
    ensures
        r@ == champion_view(
            id@,
            name@,
            roles@,
            identities@,
            damage_profile,
            execution_demand,
            lane_pattern,
            crowd_control,
            engage,
            scaling,
            durability,
            mobility,
        ),
{
    let mut role_confidence_map = RoleConfidenceMap::new();
    for i in 0..roles.len()
        invariant
            forall|r: Role|
                #[trigger] role_confidence_map.entry(r) == if roles@.subrange(0, i as int).contains(r) {
                    Some(100u32)
                } else {
                    None
                },
    {
        let ghost before = role_confidence_map;
        role_confidence_map.insert(roles[i], CONFIDENCE_ONE);
        assert forall|r: Role|
            #[trigger] role_confidence_map.entry(r) == if roles@.subrange(0, i + 1).contains(r) {
                Some(100u32)
            } else {
                None
            } by {
            if r == roles@[i as int] {
                assert(roles@.subrange(0, i + 1)[i as int] == r);
            } else {
                if roles@.subrange(0, i + 1).contains(r) {
                    let k = choose|k: int| 0 <= k < i + 1 && #[trigger] roles@.subrange(0, i + 1)[k] == r;
                    assert(roles@.subrange(0, i as int)[k] == r);
                }
                if roles@.subrange(0, i as int).contains(r) {
                    let k = choose|k: int| 0 <= k < i && #[trigger] roles@.subrange(0, i as int)[k] == r;
                    assert(roles@.subrange(0, i + 1)[k] == r);
                }
            }
        }
    }
    assert(roles@.subrange(0, roles.len() as int) =~= roles@);
    assert(role_confidence_map.entry(Role::Top) == full_confidence(roles@).top);
    assert(role_confidence_map.entry(Role::Jungle) == full_confidence(roles@).jungle);
    assert(role_confidence_map.entry(Role::Mid) == full_confidence(roles@).mid);
    assert(role_confidence_map.entry(Role::Bottom) == full_confidence(roles@).bottom);
    assert(role_confidence_map.entry(Role::Support) == full_confidence(roles@).support);
    Champion {
        id: String::from_str(id),
        name: String::from_str(name),
        roles,
        role_confidence_map,
        identities,
        damage_profile,
        execution_demand,
        lane_pattern,
        crowd_control,
        engage,
        scaling,
        durability,
        mobility,
    }
}

/// The candidate pool that the workflows evaluate.
pub open spec fn sample_candidates_view() -> Seq<ChampionView> {
    seq![
        champion_view("nautilus"@, "Nautilus"@, seq![Role::Support], seq![CompositionIdentity::Engage, CompositionIdentity::Pick], DamageProfile::Magical, ExecutionDemand::Low, LanePattern::Utility, 5, 5, 2, 4, 1),
        champion_view("renata"@, "Renata Glasc"@, seq![Role::Support], seq![CompositionIdentity::ProtectCarry, CompositionIdentity::Pick], DamageProfile::Magical, ExecutionDemand::Medium, LanePattern::Utility, 3, 1, 3, 2, 1),
        champion_view("jax"@, "Jax"@, seq![Role::Top], seq![CompositionIdentity::SplitPush, CompositionIdentity::Skirmish], DamageProfile::Mixed, ExecutionDemand::Medium, LanePattern::Scaling, 2, 2, 4, 3, 3),
    ]
}

/// The candidate pool that the workflows evaluate.
pub fn sample_candidates() -> (r: Vec<Champion>)
    ensures
        r.deep_view() == sample_candidates_view(),
{
    let mut r: Vec<Champion> = Vec::new();
    let c = champion("nautilus", "Nautilus", vec![Role::Support], vec![CompositionIdentity::Engage, CompositionIdentity::Pick], DamageProfile::Magical, ExecutionDemand::Low, LanePattern::Utility, 5, 5, 2, 4, 1);
    assert(c@.roles =~= seq![Role::Support]);
    assert(c@.identities =~= seq![CompositionIdentity::Engage, CompositionIdentity::Pick]);
    r.push(c);
    let c = champion("renata", "Renata Glasc", vec![Role::Support], vec![CompositionIdentity::ProtectCarry, CompositionIdentity::Pick], DamageProfile::Magical, ExecutionDemand::Medium, LanePattern::Utility, 3, 1, 3, 2, 1);
    assert(c@.roles =~= seq![Role::Support]);
    assert(c@.identities =~= seq![CompositionIdentity::ProtectCarry, CompositionIdentity::Pick]);
    r.push(c);
    let c = champion("jax", "Jax", vec![Role::Top], vec![CompositionIdentity::SplitPush, CompositionIdentity::Skirmish], DamageProfile::Mixed, ExecutionDemand::Medium, LanePattern::Scaling, 2, 2, 4, 3, 3);
    assert(c@.roles =~= seq![Role::Top]);
    assert(c@.identities =~= seq![CompositionIdentity::SplitPush, CompositionIdentity::Skirmish]);
    r.push(c);
    assert(r.deep_view() =~= sample_candidates_view());
    r
}

/// The allied picks of the default draft.
pub open spec fn default_ally_view() -> Seq<ChampionView> {
    seq![
        champion_view("ornn"@, "Ornn"@, seq![Role::Top], seq![CompositionIdentity::Engage, CompositionIdentity::FrontToBack], DamageProfile::Mixed, ExecutionDemand::Low, LanePattern::Stable, 4, 5, 4, 5, 1),
        champion_view("sejuani"@, "Sejuani"@, seq![Role::Jungle], seq![CompositionIdentity::Engage, CompositionIdentity::FrontToBack, CompositionIdentity::Pick], DamageProfile::Mixed, ExecutionDemand::Low, LanePattern::Utility, 5, 5, 3, 4, 2),
        champion_view("ahri"@, "Ahri"@, seq![Role::Mid], seq![CompositionIdentity::Pick, CompositionIdentity::Skirmish], DamageProfile::Magical, ExecutionDemand::Medium, LanePattern::Roaming, 3, 2, 3, 1, 4),
        champion_view("smolder"@, "Smolder"@, seq![Role::Bottom], seq![CompositionIdentity::FrontToBack, CompositionIdentity::ProtectCarry], DamageProfile::Physical, ExecutionDemand::Medium, LanePattern::Scaling, 1, 0, 5, 1, 2),
    ]
}

/// The enemy picks of the default draft.
pub open spec fn default_enemy_view() -> Seq<ChampionView> {
    seq![
        champion_view("gnar"@, "Gnar"@, seq![Role::Top], seq![CompositionIdentity::Poke, CompositionIdentity::FrontToBack], DamageProfile::Physical, ExecutionDemand::Medium, LanePattern::Bully, 3, 2, 3, 3, 3),
        champion_view("xin-zhao"@, "Xin Zhao"@, seq![Role::Jungle], seq![CompositionIdentity::Engage, CompositionIdentity::Skirmish], DamageProfile::Physical, ExecutionDemand::Low, LanePattern::Roaming, 2, 4, 2, 3, 3),
        champion_view("azir"@, "Azir"@, seq![Role::Mid], seq![CompositionIdentity::Poke, CompositionIdentity::FrontToBack], DamageProfile::Magical, ExecutionDemand::High, LanePattern::Scaling, 2, 1, 5, 1, 2),
    ]
}

/// The draft shown when the interface hands none in: blue side, second pick
/// phase of patch 15.6, four allied and three enemy picks.
pub open spec fn default_draft_view() -> DraftStateView {
    DraftStateView {
        patch: "15.6"@,
        side: TeamSide::Blue,
        phase: DraftPhase::PickPhaseTwo,
        ally: default_ally_view(),
        enemy: default_enemy_view(),
        ally_bans: seq!["kalista"@, "corki"@, "skarner"@],
        enemy_bans: seq!["rell"@, "vi"@, "orianna"@],
        contested_roles: seq![Role::Support],
    }
}

/// The draft shown when the interface hands none in.
pub fn default_draft_state() -> (r: DraftState)
    ensures
        r@ == default_draft_view(),
{
    let mut ally: Vec<Champion> = Vec::new();
    let c = champion("ornn", "Ornn", vec![Role::Top], vec![CompositionIdentity::Engage, CompositionIdentity::FrontToBack], DamageProfile::Mixed, ExecutionDemand::Low, LanePattern::Stable, 4, 5, 4, 5, 1);
    assert(c@.roles =~= seq![Role::Top]);
    assert(c@.identities =~= seq![CompositionIdentity::Engage, CompositionIdentity::FrontToBack]);
    ally.push(c);
    let c = champion("sejuani", "Sejuani", vec![Role::Jungle], vec![CompositionIdentity::Engage, CompositionIdentity::FrontToBack, CompositionIdentity::Pick], DamageProfile::Mixed, ExecutionDemand::Low, LanePattern::Utility, 5, 5, 3, 4, 2);
    assert(c@.roles =~= seq![Role::Jungle]);
    assert(c@.identities =~= seq![CompositionIdentity::Engage, CompositionIdentity::FrontToBack, CompositionIdentity::Pick]);
    ally.push(c);
    let c = champion("ahri", "Ahri", vec![Role::Mid], vec![CompositionIdentity::Pick, CompositionIdentity::Skirmish], DamageProfile::Magical, ExecutionDemand::Medium, LanePattern::Roaming, 3, 2, 3, 1, 4);
    assert(c@.roles =~= seq![Role::Mid]);
    assert(c@.identities =~= seq![CompositionIdentity::Pick, CompositionIdentity::Skirmish]);
    ally.push(c);
    let c = champion("smolder", "Smolder", vec![Role::Bottom], vec![CompositionIdentity::FrontToBack, CompositionIdentity::ProtectCarry], DamageProfile::Physical, ExecutionDemand::Medium, LanePattern::Scaling, 1, 0, 5, 1, 2);
    assert(c@.roles =~= seq![Role::Bottom]);
    assert(c@.identities =~= seq![CompositionIdentity::FrontToBack, CompositionIdentity::ProtectCarry]);
    ally.push(c);
    assert(ally.deep_view() =~= default_ally_view());
    let mut enemy: Vec<Champion> = Vec::new();
    let c = champion("gnar", "Gnar", vec![Role::Top], vec![CompositionIdentity::Poke, CompositionIdentity::FrontToBack], DamageProfile::Physical, ExecutionDemand::Medium, LanePattern::Bully, 3, 2, 3, 3, 3);
    assert(c@.roles =~= seq![Role::Top]);
    assert(c@.identities =~= seq![CompositionIdentity::Poke, CompositionIdentity::FrontToBack]);
    enemy.push(c);
    let c = champion("xin-zhao", "Xin Zhao", vec![Role::Jungle], vec![CompositionIdentity::Engage, CompositionIdentity::Skirmish], DamageProfile::Physical, ExecutionDemand::Low, LanePattern::Roaming, 2, 4, 2, 3, 3);
    assert(c@.roles =~= seq![Role::Jungle]);
    assert(c@.identities =~= seq![CompositionIdentity::Engage, CompositionIdentity::Skirmish]);
    enemy.push(c);
    let c = champion("azir", "Azir", vec![Role::Mid], vec![CompositionIdentity::Poke, CompositionIdentity::FrontToBack], DamageProfile::Magical, ExecutionDemand::High, LanePattern::Scaling, 2, 1, 5, 1, 2);
    assert(c@.roles =~= seq![Role::Mid]);
    assert(c@.identities =~= seq![CompositionIdentity::Poke, CompositionIdentity::FrontToBack]);
    enemy.push(c);
    assert(enemy.deep_view() =~= default_enemy_view());
    let ally_bans: &[&str] = &["kalista", "corki", "skarner"];
    let enemy_bans: &[&str] = &["rell", "vi", "orianna"];
    let r = DraftState {
        patch: String::from_str("15.6"),
        side: TeamSide::Blue,
        phase: DraftPhase::PickPhaseTwo,
        ally: TeamDraft { champions: ally },
        enemy: TeamDraft { champions: enemy },
        ally_bans: owned_strings(ally_bans),
        enemy_bans: owned_strings(enemy_bans),
        contested_roles: vec![Role::Support],
    };
    assert(r@.ally_bans =~= seq!["kalista"@, "corki"@, "skarner"@]);
    assert(r@.enemy_bans =~= seq!["rell"@, "vi"@, "orianna"@]);
    assert(r@.contested_roles =~= seq![Role::Support]);
    r
}

/// The allied picks of the default draft fit the composition analysis.
proof fn lemma_default_draft_fits()
    ensures
        profile_totals_fit(default_draft_view().ally),
{
    reveal_with_fuel(crate::application::analysis::sum_over, 5);
}

/// The draft of a payload, or the default draft when none is handed in.
pub open spec fn payload_draft(payload: Option<DraftStatePayload>) -> DraftStateView {
    match payload {
        Some(p) => p.draft_state@,
        None => default_draft_view(),
    }
}

/// The draft of a payload satisfies what the analysis requires.
pub open spec fn payload_fits(payload: Option<DraftStatePayload>) -> bool {
    payload matches Some(p) ==> profile_totals_fit(p.draft_state.ally@)
}

fn draft_of(payload: Option<DraftStatePayload>) -> (r: DraftState)
    requires
        payload_fits(payload),
    ensures
        r@ == payload_draft(payload),
        profile_totals_fit(r.ally@),
{
    match payload {
        Some(p) => p.draft_state,
        None => {
            proof { lemma_default_draft_fits(); }
            default_draft_state()
        },
    }
}

/// Recommendations from the sample pool for the draft handed in, or for the
/// default draft.
pub fn get_live_draft_recommendations(payload: Option<DraftStatePayload>) -> (r: RecommendationResponse)
    requires
        payload_fits(payload),
    ensures
        r@ == recommendation_of(payload_draft(payload), sample_candidates_view()),
{
    let draft_state = draft_of(payload);
    recommend_candidates(RecommendationRequest { draft_state, candidates: sample_candidates() })
}

/// The review of the draft handed in, or of the default draft.
pub fn get_draft_diagnostics(payload: Option<DraftStatePayload>) -> (r: DraftReviewResponse)
    requires
        payload_fits(payload),
    ensures
        r@ == review_of(payload_draft(payload)),
{
    let draft_state = draft_of(payload);
    review_draft(DraftReviewRequest { draft_state })
}

/// One alternative pick explored by the sandbox.
#[derive(Debug, Clone, PartialEq, Eq)]
pub struct SandboxScenario {
    pub id: String,
    pub label: String,
    pub pick: String,
    /// The final score of the pick, in ten-thousandths of a point.
    pub projected_score: i64,
    pub summary: String,
    pub risks: Vec<String>,
}

/// Mathematical value of a [`SandboxScenario`].
pub struct SandboxScenarioView {
    pub id: Seq<char>,
    pub label: Seq<char>,
    pub pick: Seq<char>,
    pub projected_score: i64,
    pub summary: Seq<char>,
    pub risks: Seq<Seq<char>>,
}

impl View for SandboxScenario {
    type V = SandboxScenarioView;

    open spec fn view(&self) -> SandboxScenarioView {
        SandboxScenarioView {
            id: self.id@,
            label: self.label@,
            pick: self.pick@,
            projected_score: self.projected_score,
            summary: self.summary@,
            risks: self.risks.deep_view(),
        }
    }
}

impl DeepView for SandboxScenario {
    type V = SandboxScenarioView;

    open spec fn deep_view(&self) -> SandboxScenarioView {
        self@
    }
}

/// The baseline recommendations and the scenarios built on its best picks.
#[derive(Debug, Clone)]
pub struct SandboxSimulationResponse {
    pub baseline: RecommendationResponse,
    pub scenarios: Vec<SandboxScenario>,
}

/// Mathematical value of a [`SandboxSimulationResponse`].
pub struct SandboxSimulationResponseView {
    pub baseline: RecommendationResponseView,
    pub scenarios: Seq<SandboxScenarioView>,
}

impl View for SandboxSimulationResponse {
    type V = SandboxSimulationResponseView;

    open spec fn view(&self) -> SandboxSimulationResponseView {
        SandboxSimulationResponseView { baseline: self.baseline@, scenarios: self.scenarios.deep_view() }
    }
}

/// The label of the scenario at `index`.
pub open spec fn scenario_label(index: int) -> Seq<char> {
    if index == 0 {
        "Safe engage"@
    } else if index == 1 {
        "Protect carry"@
    } else {
        "Macro split"@
    }
}

/// At most the first `n` items.
pub open spec fn first_at_most<T>(items: Seq<T>, n: int) -> Seq<T> {
    if items.len() < n {
        items
    } else {
        items.take(n)
    }
}

/// The scenario for the evaluation at `index`: numbered from one, labelled by
/// position, scored and summarised by the evaluation, with the titles of its
/// first two alerts as risks.
pub open spec fn scenario_of(index: int, evaluation: CandidateEvaluationView) -> SandboxScenarioView {
    SandboxScenarioView {
        id: "scenario-"@ + decimal((index + 1) as nat),
        label: scenario_label(index),
        pick: evaluation.champion.name,
        projected_score: evaluation.score_breakdown.final_score,
        summary: evaluation.win_condition_after_pick,
        risks: first_at_most(evaluation.alerts, 2).map_values(|a: crate::domain::composition::DraftAlertView| a.title),
    }
}

/// The scenarios of the first three of the top evaluations.
pub open spec fn scenarios_of(top: Seq<CandidateEvaluationView>) -> Seq<SandboxScenarioView> {
    first_at_most(top, 3).map(|i: int, e: CandidateEvaluationView| scenario_of(i, e))
}

/// The simulation for a draft: the recommendations from the sample pool, and
/// a scenario for each of the first three of its top picks.
pub open spec fn simulation_of(draft: DraftStateView) -> SandboxSimulationResponseView {
    let baseline = recommendation_of(draft, sample_candidates_view());
    SandboxSimulationResponseView { baseline, scenarios: scenarios_of(baseline.top_5) }
}

fn scenario_label_text(index: usize) -> (r: &'static str)
    ensures
        r@ == scenario_label(index as int),
{
    if index == 0 {
        let s = "Safe engage";
        proof { reveal_strlit("Safe engage"); }
        s
    } else if index == 1 {
        let s = "Protect carry";
        proof { reveal_strlit("Protect carry"); }
        s
    } else {
        let s = "Macro split";
        proof { reveal_strlit("Macro split"); }
        s
    }
}

fn build_scenario(index: usize, evaluation: &crate::domain::scoring::CandidateEvaluation) -> (r: SandboxScenario)
    requires
        index < 3,
    ensures
        r@ == scenario_of(index as int, evaluation@),
{
    let mut risks: Vec<String> = Vec::new();
    let n = if evaluation.alerts.len() < 2 {
        evaluation.alerts.len()
    } else {
        2
    };
    let ghost alerts = evaluation@.alerts;
    for k in 0..n
        invariant
            alerts == evaluation@.alerts,
            n <= evaluation.alerts.len(),
            risks.len() == k,
            forall|j: int| 0 <= j < k ==> (#[trigger] risks@[j])@ == alerts[j].title,
    {
        risks.push(evaluation.alerts[k].title.clone());
    }
    assert(risks.deep_view() =~= first_at_most(alerts, 2).map_values(|a: crate::domain::composition::DraftAlertView| a.title));
    let number = decimal_string((index + 1) as u64);
    SandboxScenario {
        id: concat("scenario-", number.as_str()),
        label: String::from_str(scenario_label_text(index)),
        pick: evaluation.champion.name.clone(),
        projected_score: evaluation.score_breakdown.final_score,
        summary: evaluation.win_condition_after_pick.clone(),
        risks,
    }
}

/// The recommendations for the draft handed in (or the default draft), and a
/// scenario for each of the first three of its top picks.
pub fn run_sandbox_simulation(payload: Option<DraftStatePayload>) -> (r: SandboxSimulationResponse)
    requires
        payload_fits(payload),
    ensures
        r@ == simulation_of(payload_draft(payload)),
{
    let draft_state = draft_of(payload);
    let baseline = recommend_candidates(RecommendationRequest { draft_state, candidates: sample_candidates() });
    let n = if baseline.top_5.len() < 3 {
        baseline.top_5.len()
    } else {
        3
    };
    let ghost top = baseline@.top_5;
    let mut scenarios: Vec<SandboxScenario> = Vec::new();
    for i in 0..n
        invariant
            top == baseline@.top_5,
            n <= baseline.top_5.len(),
            n <= 3,
            scenarios.len() == i,
            forall|j: int| 0 <= j < i ==> (#[trigger] scenarios@[j])@ == scenario_of(j, top[j]),
    {
        scenarios.push(build_scenario(i, &baseline.top_5[i]));
    }
    assert(scenarios.deep_view() =~= scenarios_of(top));
    SandboxSimulationResponse { baseline, scenarios }
}

/// A past draft and what its review concluded.
#[derive(Debug, Clone, PartialEq, Eq)]
pub struct HistoryEntry {
    pub id: String,
    pub patch: String,
    pub opponent: String,
    pub result: String,
    pub review_headline: String,
    pub draft_call: String,
}

/// Mathematical value of a [`HistoryEntry`].
pub struct HistoryEntryView {
    pub id: Seq<char>,
    pub patch: Seq<char>,
    pub opponent: Seq<char>,
    pub result: Seq<char>,
    pub review_headline: Seq<char>,
    pub draft_call: Seq<char>,
}

impl View for HistoryEntry {
    type V = HistoryEntryView;

    open spec fn view(&self) -> HistoryEntryView {
        HistoryEntryView {
            id: self.id@,
            patch: self.patch@,
            opponent: self.opponent@,
            result: self.result@,
            review_headline: self.review_headline@,
            draft_call: self.draft_call@,
        }
    }
}

impl DeepView for HistoryEntry {
    type V = HistoryEntryView;

    open spec fn deep_view(&self) -> HistoryEntryView {
        self@
    }
}

pub open spec fn history_entry_view(
    id: Seq<char>,
    patch: Seq<char>,
    opponent: Seq<char>,
    result: Seq<char>,
    review_headline: Seq<char>,
    draft_call: Seq<char>,
) -> HistoryEntryView {
    HistoryEntryView { id, patch, opponent, result, review_headline, draft_call }
}

fn history_entry(
    id: &str,
    patch: &str,
    opponent: &str,
    result: &str,
    review_headline: &str,
    draft_call: &str,
) -> (r: HistoryEntry)
    ensures
        r@ == history_entry_view(id@, patch@, opponent@, result@, review_headline@, draft_call@),
{
    HistoryEntry {
        id: String::from_str(id),
        patch: String::from_str(patch),
        opponent: String::from_str(opponent),
        result: String::from_str(result),
        review_headline: String::from_str(review_headline),
        draft_call: String::from_str(draft_call),
    }
}

/// The reviewed drafts shown in the history.
pub open spec fn history_view() -> Seq<HistoryEntryView> {
    seq![
        history_entry_view("review-1"@, "15.6"@, "Team Solaris"@, "win"@, "Draft gagnante grâce à une identity engage/peel cohérente."@, "Front-to-back propre, objectif contrôlé au troisième dragon."@),
        history_entry_view("review-2"@, "15.5"@, "Night Owls"@, "loss"@, "Comp trop exigeante mécaniquement pour une exécution sur scène."@, "Le split push n’a jamais trouvé de timings propres."@),
    ]
}

/// The reviewed drafts shown in the history.
pub fn load_history_reviews() -> (r: Vec<HistoryEntry>)
    ensures
        r.deep_view() == history_view(),
{
    let mut r: Vec<HistoryEntry> = Vec::new();
    r.push(history_entry("review-1", "15.6", "Team Solaris", "win", "Draft gagnante grâce à une identity engage/peel cohérente.", "Front-to-back propre, objectif contrôlé au troisième dragon."));
    r.push(history_entry("review-2", "15.5", "Night Owls", "loss", "Comp trop exigeante mécaniquement pour une exécution sur scène.", "Le split push n’a jamais trouvé de timings propres."));
    assert(r.deep_view() =~= history_view());
    r
}

} // verus!
