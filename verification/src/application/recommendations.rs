//! Candidate evaluation: five explainable sub-scores, candidate-specific
//! alerts, explanations, the win condition after the pick and the draft call,
//! and the ranking of a candidate pool.
use vstd::prelude::*;

use crate::application::analysis::contains_identity;
use crate::domain::champion::{Champion, ChampionView, ExecutionDemand, LanePattern, Role};
use crate::domain::composition::{CompositionIdentity, CompositionSnapshot, CompositionSnapshotView};
use crate::domain::draft::{missing_roles_of, DraftState, DraftStateView};
use crate::domain::scoring::{
    bounded_score, explained_subscore, ContributionPolarity, ExplainedSubScore,
    ExplainedSubScoreView, ScoreContributor, ScoreContributorView, ScoreDimension,
    ENEMY_MATCHUP_WEIGHT, EXECUTION_SIMPLICITY_WEIGHT, INTERNAL_COHERENCE_WEIGHT,
    LANE_STABILITY_WEIGHT, MAX_RAW_SCORE, ROSTER_FIT_WEIGHT, WEIGHT_SCALE,
};
use crate::application::analysis::{
    alert_if, analyze_composition, composition_of, profile_totals_fit,
};
use crate::domain::composition::{
    duplicate_alerts, AlertCategory, AlertSeverity, DraftAlert, DraftAlertView,
};
use crate::domain::scoring::{
    CandidateEvaluation, CandidateEvaluationView, ScoreBreakdown, ScoreBreakdownView,
};
use crate::text::{concat, decimal, decimal_string, format_one_decimal, has_prefix, one_decimal};

verus! {

/// Builds one score contributor.
pub fn contributor(
    dimension: ScoreDimension,
    polarity: ContributionPolarity,
    label: String,
    value: i64,
    detail: &str,
) -> (r: ScoreContributor)
    ensures
        r@ == (ScoreContributorView { dimension, polarity, label: label@, value, detail: detail@ }),
{
    ScoreContributor { dimension, polarity, label, value, detail: String::from_str(detail) }
}

/// The snake-case name of an identity.
pub open spec fn identity_label_text(identity: CompositionIdentity) -> Seq<char> {
    match identity {
        CompositionIdentity::Engage => "engage"@,
        CompositionIdentity::Pick => "pick"@,
        CompositionIdentity::Poke => "poke"@,
        CompositionIdentity::Siege => "siege"@,
        CompositionIdentity::FrontToBack => "front_to_back"@,
        CompositionIdentity::SplitPush => "split_push"@,
        CompositionIdentity::Skirmish => "skirmish"@,
        CompositionIdentity::ProtectCarry => "protect_carry"@,
    }
}

pub fn identity_label(identity: &CompositionIdentity) -> (r: &'static str)
    ensures
        r@ == identity_label_text(*identity),
{
    match identity {
        CompositionIdentity::Engage => "engage",
        CompositionIdentity::Pick => "pick",
        CompositionIdentity::Poke => "poke",
        CompositionIdentity::Siege => "siege",
        CompositionIdentity::FrontToBack => "front_to_back",
        CompositionIdentity::SplitPush => "split_push",
        CompositionIdentity::Skirmish => "skirmish",
        CompositionIdentity::ProtectCarry => "protect_carry",
    }
}

/// The sum of the values of a list of contributors.
pub open spec fn contributions_total(cs: Seq<ScoreContributorView>) -> int
    decreases cs.len(),
{
    if cs.len() == 0 {
        0
    } else {
        contributions_total(cs.drop_last()) + cs.last().value
    }
}

proof fn lemma_total_push(cs: Seq<ScoreContributorView>, c: ScoreContributorView)
    ensures
        contributions_total(cs.push(c)) == contributions_total(cs) + c.value,
{
    assert(cs.push(c).drop_last() =~= cs);
}

proof fn lemma_total_concat(a: Seq<ScoreContributorView>, b: Seq<ScoreContributorView>)
    ensures
        contributions_total(a + b) == contributions_total(a) + contributions_total(b),
    decreases b.len(),
{
    if b.len() == 0 {
        assert(a + b =~= a);
    } else {
        lemma_total_concat(a, b.drop_last());
        assert((a + b).drop_last() =~= a + b.drop_last());
    }
}

/// `c` alone when `present` holds, nothing otherwise.
pub open spec fn contributor_if(c: ScoreContributorView, present: bool) -> Seq<ScoreContributorView> {
    if present {
        seq![c]
    } else {
        Seq::empty()
    }
}

/// The sub-score view for a raw score, a weight and its contributors.
pub open spec fn subscore_view(raw: int, weight: i64, cs: Seq<ScoreContributorView>) -> ExplainedSubScoreView {
    ExplainedSubScoreView {
        raw_score: bounded_score(raw) as i64,
        weight,
        weighted_score: (bounded_score(raw) * weight) as i64,
        contributors: cs,
    }
}

// ---------------------------------------------------------------- coherence

pub open spec fn coherence_identity_contributor(
    team_ids: Seq<CompositionIdentity>,
    id: CompositionIdentity,
) -> ScoreContributorView {
    if team_ids.contains(id) {
        ScoreContributorView {
            dimension: ScoreDimension::InternalCoherence,
            polarity: ContributionPolarity::Bonus,
            label: "Identité partagée: "@ + identity_label_text(id),
            value: 900,
            detail: "Renforce un plan de jeu déjà visible dans la draft alliée."@,
        }
    } else {
        ScoreContributorView {
            dimension: ScoreDimension::InternalCoherence,
            polarity: ContributionPolarity::Bonus,
            label: "Nouvelle identité: "@ + identity_label_text(id),
            value: 400,
            detail: "Ajoute une option stratégique sans casser la cohérence globale."@,
        }
    }
}

pub open spec fn missing_engage_contributor() -> ScoreContributorView {
    ScoreContributorView {
        dimension: ScoreDimension::InternalCoherence,
        polarity: ContributionPolarity::Bonus,
        label: "Apporte l’engage manquant"@,
        value: 1400,
        detail: "Corrige le principal trou structurel observé dans la composition alliée."@,
    }
}

pub open spec fn scaling_fix_contributor() -> ScoreContributorView {
    ScoreContributorView {
        dimension: ScoreDimension::InternalCoherence,
        polarity: ContributionPolarity::Bonus,
        label: "Stabilise la courbe de scaling"@,
        value: 800,
        detail: "Ajoute une condition de victoire plus fiable pour les phases tardives."@,
    }
}

/// Contributors of internal coherence: one per candidate identity (shared with
/// the composition: +9, new: +4), +14 for bringing missing engage, +8 for
/// stabilising a weak scaling curve.
pub open spec fn coherence_contributors(
    composition: CompositionSnapshotView,
    candidate: ChampionView,
) -> Seq<ScoreContributorView> {
    candidate.identities.map_values(
        |id: CompositionIdentity| coherence_identity_contributor(composition.identities, id),
    ) + contributor_if(
        missing_engage_contributor(),
        candidate.engage >= 3 && composition.profile.engage <= 1,
    ) + contributor_if(
        scaling_fix_contributor(),
        candidate.scaling >= 4 && composition.profile.scaling <= 2,
    )
}

/// Internal coherence: 50 points plus its contributors, weighted 0.35.
pub open spec fn coherence_score(composition: CompositionSnapshotView, candidate: ChampionView) -> ExplainedSubScoreView {
    let cs = coherence_contributors(composition, candidate);
    subscore_view(5000 + contributions_total(cs), INTERNAL_COHERENCE_WEIGHT, cs)
}

proof fn lemma_total_pointwise(a: Seq<ScoreContributorView>, b: Seq<ScoreContributorView>)
    requires
        a.len() == b.len(),
        forall|i: int| 0 <= i < a.len() ==> #[trigger] a[i].value <= b[i].value,
    ensures
        contributions_total(a) <= contributions_total(b),
    decreases a.len(),
{
    if a.len() > 0 {
        assert forall|i: int| 0 <= i < a.len() - 1 implies #[trigger] a.drop_last()[i].value
            <= b.drop_last()[i].value by {
            assert(a.drop_last()[i] == a[i]);
            assert(b.drop_last()[i] == b[i]);
        }
        lemma_total_pointwise(a.drop_last(), b.drop_last());
    }
}

/// Each identity of the candidate adds to internal coherence: nine points,
/// as a shared identity, when the allied composition already shows it; four
/// points, as a new identity, when it does not. These are the first
/// contributors, one per candidate identity, in order.
pub proof fn lemma_coherence_identity_bonuses(composition: CompositionSnapshotView, candidate: ChampionView)
    ensures
        forall|k: int|
            0 <= k < candidate.identities.len() ==> {
                let c = #[trigger] coherence_score(composition, candidate).contributors[k];
                if composition.identities.contains(candidate.identities[k]) {
                    c.value == 900 && has_prefix(c.label, "Identité partagée: "@)
                } else {
                    c.value == 400 && has_prefix(c.label, "Nouvelle identité: "@)
                }
            },
{
    assert forall|k: int| 0 <= k < candidate.identities.len() implies {
        let c = #[trigger] coherence_score(composition, candidate).contributors[k];
        if composition.identities.contains(candidate.identities[k]) {
            c.value == 900 && has_prefix(c.label, "Identité partagée: "@)
        } else {
            c.value == 400 && has_prefix(c.label, "Nouvelle identité: "@)
        }
    } by {
        let id = candidate.identities[k];
        let shared = "Identité partagée: "@;
        let fresh = "Nouvelle identité: "@;
        assert((shared + identity_label_text(id)).subrange(0, shared.len() as int) =~= shared);
        assert((fresh + identity_label_text(id)).subrange(0, fresh.len() as int) =~= fresh);
    }
}

/// Internal coherence is monotone in the composition's identities: when the
/// allied composition shows one more identity, no candidate's coherence score
/// goes down.
pub proof fn lemma_coherence_monotone_in_shared_identities(
    composition: CompositionSnapshotView,
    candidate: ChampionView,
    id: CompositionIdentity,
)
    ensures
        coherence_score(composition, candidate).raw_score <= coherence_score(
            CompositionSnapshotView {
                identities: composition.identities.push(id),
                profile: composition.profile,
                alerts: composition.alerts,
            },
            candidate,
        ).raw_score,
{
    let wider = CompositionSnapshotView {
        identities: composition.identities.push(id),
        profile: composition.profile,
        alerts: composition.alerts,
    };
    let narrow_ids = candidate.identities.map_values(
        |i: CompositionIdentity| coherence_identity_contributor(composition.identities, i),
    );
    let wide_ids = candidate.identities.map_values(
        |i: CompositionIdentity| coherence_identity_contributor(wider.identities, i),
    );
    assert forall|k: int| 0 <= k < narrow_ids.len() implies #[trigger] narrow_ids[k].value
        <= wide_ids[k].value by {
        let i = candidate.identities[k];
        if composition.identities.contains(i) {
            let j = choose|j: int| 0 <= j < composition.identities.len() && composition.identities[j] == i;
            assert(wider.identities[j] == i);
        }
    }
    lemma_total_pointwise(narrow_ids, wide_ids);
    let rest = contributor_if(
        missing_engage_contributor(),
        candidate.engage >= 3 && composition.profile.engage <= 1,
    ) + contributor_if(
        scaling_fix_contributor(),
        candidate.scaling >= 4 && composition.profile.scaling <= 2,
    );
    assert(coherence_contributors(composition, candidate) =~= narrow_ids + rest);
    assert(coherence_contributors(wider, candidate) =~= wide_ids + rest);
    lemma_total_concat(narrow_ids, rest);
    lemma_total_concat(wide_ids, rest);
}

pub fn score_internal_coherence(composition: &CompositionSnapshot, candidate: &Champion) -> (r:
    ExplainedSubScore)
    ensures
        r@ == coherence_score(composition@, candidate@),
{
    let ghost comp = composition@;
    let ghost cand = candidate@;
    let mut score: i128 = 5000;
    let mut contributors: Vec<ScoreContributor> = Vec::new();
    let ids = &candidate.identities;
    for i in 0..ids.len()
        invariant
            comp == composition@,
            cand == candidate@,
            ids@ == cand.identities,
            contributors.deep_view() == cand.identities.subrange(0, i as int).map_values(
                |id: CompositionIdentity| coherence_identity_contributor(comp.identities, id),
            ),
            score == 5000 + contributions_total(contributors.deep_view()),
            5000 <= score <= 5000 + 900 * i,
    {
        let id = ids[i];
        let c = if contains_identity(&composition.identities, id) {
            contributor(
                ScoreDimension::InternalCoherence,
                ContributionPolarity::Bonus,
                concat("Identité partagée: ", identity_label(&id)),
                900,
                "Renforce un plan de jeu déjà visible dans la draft alliée.",
            )
        } else {
            contributor(
                ScoreDimension::InternalCoherence,
                ContributionPolarity::Bonus,
                concat("Nouvelle identité: ", identity_label(&id)),
                400,
                "Ajoute une option stratégique sans casser la cohérence globale.",
            )
        };
        assert(c@ == coherence_identity_contributor(comp.identities, id));
        let ghost before = contributors.deep_view();
        score = score + c.value as i128;
        contributors.push(c);
        proof {
            assert(contributors.deep_view() =~= before.push(c@));
            lemma_total_push(before, c@);
            assert(cand.identities.subrange(0, i + 1) =~= cand.identities.subrange(0, i as int).push(id));
            assert(cand.identities.subrange(0, i + 1).map_values(
                |id: CompositionIdentity| coherence_identity_contributor(comp.identities, id),
            ) =~= cand.identities.subrange(0, i as int).map_values(
                |id: CompositionIdentity| coherence_identity_contributor(comp.identities, id),
            ).push(c@));
        }
    }
    assert(cand.identities.subrange(0, ids.len() as int) =~= cand.identities);
    if candidate.engage >= 3 && composition.profile.engage <= 1 {
        let c = contributor(
            ScoreDimension::InternalCoherence,
            ContributionPolarity::Bonus,
            String::from_str("Apporte l’engage manquant"),
            1400,
            "Corrige le principal trou structurel observé dans la composition alliée.",
        );
        let ghost before = contributors.deep_view();
        score = score + 1400;
        contributors.push(c);
        proof {
            assert(contributors.deep_view() =~= before.push(c@));
            lemma_total_push(before, c@);
        }
    }
    if candidate.scaling >= 4 && composition.profile.scaling <= 2 {
        let c = contributor(
            ScoreDimension::InternalCoherence,
            ContributionPolarity::Bonus,
            String::from_str("Stabilise la courbe de scaling"),
            800,
            "Ajoute une condition de victoire plus fiable pour les phases tardives.",
        );
        let ghost before = contributors.deep_view();
        score = score + 800;
        contributors.push(c);
        proof {
            assert(contributors.deep_view() =~= before.push(c@));
            lemma_total_push(before, c@);
        }
    }
    assert(contributors.deep_view() =~= coherence_contributors(comp, cand));
    explained_subscore(score, INTERNAL_COHERENCE_WEIGHT, contributors)
}


// ---------------------------------------------------------------- enemy matchup

pub open spec fn resilience_contributor(enemy: ChampionView) -> ScoreContributorView {
    ScoreContributorView {
        dimension: ScoreDimension::EnemyMatchup,
        polarity: ContributionPolarity::Bonus,
        label: "Résilience contre "@ + enemy.name,
        value: 600,
        detail: "Le profil défensif du candidat absorbe bien une source de dégâts mixte."@,
    }
}

pub open spec fn mobility_window_contributor(enemy: ChampionView) -> ScoreContributorView {
    ScoreContributorView {
        dimension: ScoreDimension::EnemyMatchup,
        polarity: ContributionPolarity::Bonus,
        label: "Fenêtres de mobilité contre "@ + enemy.name,
        value: 400,
        detail: "La menace ennemie a peu d’outils pour punir les repositionnements."@,
    }
}

pub open spec fn punished_execution_contributor(enemy: ChampionView) -> ScoreContributorView {
    ScoreContributorView {
        dimension: ScoreDimension::EnemyMatchup,
        polarity: ContributionPolarity::Malus,
        label: "Exécution punissable face à "@ + enemy.name,
        value: -600i64,
        detail: "Le contrôle adverse complique les séquences mécaniques exigeantes."@,
    }
}

/// What one enemy champion contributes to the matchup: +6 for a durable
/// candidate against mixed damage, +4 for a mobile candidate against little
/// crowd control, -6 for a high-execution candidate against heavy crowd control.
pub open spec fn enemy_contributors(enemy: ChampionView, candidate: ChampionView) -> Seq<ScoreContributorView> {
    contributor_if(
        resilience_contributor(enemy),
        candidate.durability >= 3 && enemy.damage_profile == crate::domain::champion::DamageProfile::Mixed,
    ) + contributor_if(
        mobility_window_contributor(enemy),
        candidate.mobility >= 3 && enemy.crowd_control <= 2,
    ) + contributor_if(
        punished_execution_contributor(enemy),
        candidate.execution_demand == ExecutionDemand::High && enemy.crowd_control >= 4,
    )
}

/// The matchup contributors of every enemy, enemy by enemy.
pub open spec fn matchup_contributors(enemies: Seq<ChampionView>, candidate: ChampionView) -> Seq<ScoreContributorView>
    decreases enemies.len(),
{
    if enemies.len() == 0 {
        Seq::empty()
    } else {
        matchup_contributors(enemies.drop_last(), candidate) + enemy_contributors(enemies.last(), candidate)
    }
}

/// Enemy matchup: 50 points plus its contributors, weighted 0.30.
pub open spec fn matchup_score(draft: DraftStateView, candidate: ChampionView) -> ExplainedSubScoreView {
    let cs = matchup_contributors(draft.enemy, candidate);
    subscore_view(5000 + contributions_total(cs), ENEMY_MATCHUP_WEIGHT, cs)
}

fn push_contributor(
    contributors: &mut Vec<ScoreContributor>,
    score: &mut i128,
    c: ScoreContributor,
)
    requires
        -1_000_000_000_000_000_000_000_000 <= *old(score) <= 1_000_000_000_000_000_000_000_000,
        -1_000_000_000_000 <= c.value <= 1_000_000_000_000,
    ensures
        final(contributors).deep_view() == old(contributors).deep_view().push(c@),
        *final(score) == *old(score) + c.value,
{
    let ghost before = contributors.deep_view();
    *score = *score + c.value as i128;
    contributors.push(c);
    assert(contributors.deep_view() =~= before.push(c@));
}

pub fn score_enemy_matchup(draft_state: &DraftState, candidate: &Champion) -> (r: ExplainedSubScore)
    ensures
        r@ == matchup_score(draft_state@, candidate@),
{
    let ghost cand = candidate@;
    let enemies = &draft_state.enemy.champions;
    let ghost es = enemies.deep_view();
    let mut score: i128 = 5000;
    let mut contributors: Vec<ScoreContributor> = Vec::new();
    for i in 0..enemies.len()
        invariant
            cand == candidate@,
            es == enemies.deep_view(),
            contributors.deep_view() == matchup_contributors(es.subrange(0, i as int), cand),
            score == 5000 + contributions_total(contributors.deep_view()),
            5000 - 600 * i <= score <= 5000 + 1000 * i,
    {
        let enemy = &enemies[i];
        let ghost before = contributors.deep_view();
        let ghost start = score;
        if candidate.durability >= 3 && enemy.damage_profile == crate::domain::champion::DamageProfile::Mixed {
            let c = contributor(
                ScoreDimension::EnemyMatchup,
                ContributionPolarity::Bonus,
                concat("Résilience contre ", enemy.name.as_str()),
                600,
                "Le profil défensif du candidat absorbe bien une source de dégâts mixte.",
            );
            proof { lemma_total_push(contributors.deep_view(), c@); }
            push_contributor(&mut contributors, &mut score, c);
        }
        if candidate.mobility >= 3 && enemy.crowd_control <= 2 {
            let c = contributor(
                ScoreDimension::EnemyMatchup,
                ContributionPolarity::Bonus,
                concat("Fenêtres de mobilité contre ", enemy.name.as_str()),
                400,
                "La menace ennemie a peu d’outils pour punir les repositionnements.",
            );
            proof { lemma_total_push(contributors.deep_view(), c@); }
            push_contributor(&mut contributors, &mut score, c);
        }
        if candidate.execution_demand == ExecutionDemand::High && enemy.crowd_control >= 4 {
            let c = contributor(
                ScoreDimension::EnemyMatchup,
                ContributionPolarity::Malus,
                concat("Exécution punissable face à ", enemy.name.as_str()),
                -600,
                "Le contrôle adverse complique les séquences mécaniques exigeantes.",
            );
            proof { lemma_total_push(contributors.deep_view(), c@); }
            push_contributor(&mut contributors, &mut score, c);
        }
        proof {
            assert(es.subrange(0, i + 1).drop_last() =~= es.subrange(0, i as int));
            assert(es.subrange(0, i + 1).last() == enemy@);
            assert(contributors.deep_view() =~= before + enemy_contributors(enemy@, cand));
            lemma_total_concat(before, enemy_contributors(enemy@, cand));
        }
    }
    assert(es.subrange(0, enemies.len() as int) =~= es);
    explained_subscore(score, ENEMY_MATCHUP_WEIGHT, contributors)
}

// ---------------------------------------------------------------- roster fit

/// Lower-case name of a role.
pub open spec fn role_name_text(role: Role) -> Seq<char> {
    match role {
        Role::Top => "top"@,
        Role::Jungle => "jungle"@,
        Role::Mid => "mid"@,
        Role::Bottom => "bottom"@,
        Role::Support => "support"@,
    }
}

pub fn role_name(role: &Role) -> (r: &'static str)
    ensures
        r@ == role_name_text(*role),
{
    match role {
        Role::Top => "top",
        Role::Jungle => "jungle",
        Role::Mid => "mid",
        Role::Bottom => "bottom",
        Role::Support => "support",
    }
}

/// Covering an open role: thirty points times the role confidence.
pub open spec fn cover_contributor(role: Role, candidate: ChampionView) -> ScoreContributorView {
    ScoreContributorView {
        dimension: ScoreDimension::RosterFit,
        polarity: ContributionPolarity::Bonus,
        label: "couvre le rôle "@ + role_name_text(role),
        value: (candidate.role_confidence(role) * 30) as i64,
        detail: "La carte de confiance de rôle indique une couverture crédible pour ce slot."@,
    }
}

pub open spec fn flex_contributor(role: Role) -> ScoreContributorView {
    ScoreContributorView {
        dimension: ScoreDimension::RosterFit,
        polarity: ContributionPolarity::Bonus,
        label: "flex sur le rôle "@ + role_name_text(role),
        value: 800,
        detail: "Peut maintenir l’incertitude de draft sur un rôle contesté."@,
    }
}

pub open spec fn redundancy_contributor() -> ScoreContributorView {
    ScoreContributorView {
        dimension: ScoreDimension::RosterFit,
        polarity: ContributionPolarity::Malus,
        label: "Redondance de rôle"@,
        value: -1000i64,
        detail: "La composition a déjà couvert ses rôles principaux ; le pick ajoute surtout de la duplication."@,
    }
}

/// One contributor per open role that the candidate has some confidence on.
pub open spec fn cover_contributors(roles: Seq<Role>, candidate: ChampionView) -> Seq<ScoreContributorView>
    decreases roles.len(),
{
    if roles.len() == 0 {
        Seq::empty()
    } else {
        cover_contributors(roles.drop_last(), candidate) + contributor_if(
            cover_contributor(roles.last(), candidate),
            candidate.role_confidence(roles.last()) > 0,
        )
    }
}

/// One contributor per contested role that the candidate plays with confidence 0.5 or more.
pub open spec fn flex_contributors(roles: Seq<Role>, candidate: ChampionView) -> Seq<ScoreContributorView>
    decreases roles.len(),
{
    if roles.len() == 0 {
        Seq::empty()
    } else {
        flex_contributors(roles.drop_last(), candidate) + contributor_if(
            flex_contributor(roles.last()),
            candidate.role_confidence(roles.last()) >= 50,
        )
    }
}

/// Roster fit contributors: open roles covered, contested roles kept flexible,
/// and a malus when no role is open any more.
pub open spec fn roster_contributors(draft: DraftStateView, candidate: ChampionView) -> Seq<ScoreContributorView> {
    let missing = missing_roles_of(draft.ally);
    cover_contributors(missing, candidate) + flex_contributors(draft.contested_roles, candidate)
        + contributor_if(redundancy_contributor(), missing.len() == 0)
}

/// Roster fit: 45 points plus its contributors, weighted 0.20.
pub open spec fn roster_score(draft: DraftStateView, candidate: ChampionView) -> ExplainedSubScoreView {
    let cs = roster_contributors(draft, candidate);
    subscore_view(4500 + contributions_total(cs), ROSTER_FIT_WEIGHT, cs)
}

pub fn score_roster_fit(draft_state: &DraftState, candidate: &Champion) -> (r: ExplainedSubScore)
    ensures
        r@ == roster_score(draft_state@, candidate@),
{
    let ghost cand = candidate@;
    let missing = draft_state.missing_roles();
    let ghost ms = missing@;
    proof { crate::domain::draft::lemma_missing_roles_members(draft_state.ally@); }
    let mut score: i128 = 4500;
    let mut contributors: Vec<ScoreContributor> = Vec::new();
    for i in 0..missing.len()
        invariant
            cand == candidate@,
            ms == missing@,
            ms.len() <= 5,
            contributors.deep_view() == cover_contributors(ms.subrange(0, i as int), cand),
            score == 4500 + contributions_total(contributors.deep_view()),
            4500 <= score <= 4500 + 130_000_000_000 * i,
    {
        let role = missing[i];
        let ghost before = contributors.deep_view();
        let confidence = candidate.role_confidence(&role) as i64 * 30;
        if confidence > 0 {
            let c = contributor(
                ScoreDimension::RosterFit,
                ContributionPolarity::Bonus,
                concat("couvre le rôle ", role_name(&role)),
                confidence,
                "La carte de confiance de rôle indique une couverture crédible pour ce slot.",
            );
            proof { lemma_total_push(contributors.deep_view(), c@); }
            push_contributor(&mut contributors, &mut score, c);
        }
        proof {
            assert(ms.subrange(0, i + 1).drop_last() =~= ms.subrange(0, i as int));
            assert(ms.subrange(0, i + 1).last() == role);
            assert(contributors.deep_view() =~= before + contributor_if(
                cover_contributor(role, cand),
                cand.role_confidence(role) > 0,
            ));
        }
    }
    assert(ms.subrange(0, missing.len() as int) =~= ms);
    let ghost covered = contributors.deep_view();
    let contested = &draft_state.contested_roles;
    let ghost cr = contested@;
    for i in 0..contested.len()
        invariant
            cand == candidate@,
            cr == contested@,
            contributors.deep_view() == covered + flex_contributors(cr.subrange(0, i as int), cand),
            score == 4500 + contributions_total(contributors.deep_view()),
            4500 <= score <= 4500 + 650_000_000_000 + 800 * i,
    {
        let role = contested[i];
        let ghost before = contributors.deep_view();
        if candidate.role_confidence(&role) >= 50 {
            let c = contributor(
                ScoreDimension::RosterFit,
                ContributionPolarity::Bonus,
                concat("flex sur le rôle ", role_name(&role)),
                800,
                "Peut maintenir l’incertitude de draft sur un rôle contesté.",
            );
            proof { lemma_total_push(contributors.deep_view(), c@); }
            push_contributor(&mut contributors, &mut score, c);
        }
        proof {
            assert(cr.subrange(0, i + 1).drop_last() =~= cr.subrange(0, i as int));
            assert(cr.subrange(0, i + 1).last() == role);
            assert(contributors.deep_view() =~= covered + flex_contributors(cr.subrange(0, i + 1), cand));
        }
    }
    assert(cr.subrange(0, contested.len() as int) =~= cr);
    if missing.len() == 0 {
        let c = contributor(
            ScoreDimension::RosterFit,
            ContributionPolarity::Malus,
            String::from_str("Redondance de rôle"),
            -1000,
            "La composition a déjà couvert ses rôles principaux ; le pick ajoute surtout de la duplication.",
        );
        proof { lemma_total_push(contributors.deep_view(), c@); }
        push_contributor(&mut contributors, &mut score, c);
    }
    assert(contributors.deep_view() =~= roster_contributors(draft_state@, cand));
    explained_subscore(score, ROSTER_FIT_WEIGHT, contributors)
}

// ---------------------------------------------------------------- execution simplicity

pub open spec fn execution_base(demand: ExecutionDemand) -> int {
    match demand {
        ExecutionDemand::Low => 7800,
        ExecutionDemand::Medium => 6200,
        ExecutionDemand::High => 4600,
    }
}

pub open spec fn execution_load_contributor(demand: ExecutionDemand) -> ScoreContributorView {
    ScoreContributorView {
        dimension: ScoreDimension::ExecutionSimplicity,
        polarity: if demand == ExecutionDemand::High {
            ContributionPolarity::Malus
        } else {
            ContributionPolarity::Bonus
        },
        label: "Charge d’exécution"@,
        value: match demand {
            ExecutionDemand::Low => 1200,
            ExecutionDemand::Medium => 400,
            ExecutionDemand::High => -1000i64,
        },
        detail: "Mesure la difficulté à reproduire le plan de jeu sous pression."@,
    }
}

pub open spec fn readable_plan_contributor() -> ScoreContributorView {
    ScoreContributorView {
        dimension: ScoreDimension::ExecutionSimplicity,
        polarity: ContributionPolarity::Bonus,
        label: "Plan de teamfight lisible"@,
        value: 1000,
        detail: "Le candidat s’insère dans un schéma de combat simple à exécuter pour l’équipe."@,
    }
}

/// Execution simplicity: 78, 62 or 46 points by execution demand, plus 10 when
/// both the composition and the candidate play front-to-back; weighted 0.10.
pub open spec fn execution_score(composition: CompositionSnapshotView, candidate: ChampionView) -> ExplainedSubScoreView {
    let readable = composition.identities.contains(CompositionIdentity::FrontToBack)
        && candidate.identities.contains(CompositionIdentity::FrontToBack);
    subscore_view(
        execution_base(candidate.execution_demand) + if readable { 1000int } else { 0int },
        EXECUTION_SIMPLICITY_WEIGHT,
        seq![execution_load_contributor(candidate.execution_demand)] + contributor_if(
            readable_plan_contributor(),
            readable,
        ),
    )
}

pub fn score_execution_simplicity(composition: &CompositionSnapshot, candidate: &Champion) -> (r:
    ExplainedSubScore)
    ensures
        r@ == execution_score(composition@, candidate@),
{
    let mut score: i128 = match candidate.execution_demand {
        ExecutionDemand::Low => 7800,
        ExecutionDemand::Medium => 6200,
        ExecutionDemand::High => 4600,
    };
    let mut contributors: Vec<ScoreContributor> = Vec::new();
    contributors.push(
        contributor(
            ScoreDimension::ExecutionSimplicity,
            if candidate.execution_demand == ExecutionDemand::High {
                ContributionPolarity::Malus
            } else {
                ContributionPolarity::Bonus
            },
            String::from_str("Charge d’exécution"),
            match candidate.execution_demand {
                ExecutionDemand::Low => 1200,
                ExecutionDemand::Medium => 400,
                ExecutionDemand::High => -1000i64,
            },
            "Mesure la difficulté à reproduire le plan de jeu sous pression.",
        ),
    );
    if contains_identity(&composition.identities, CompositionIdentity::FrontToBack)
        && contains_identity(&candidate.identities, CompositionIdentity::FrontToBack) {
        score = score + 1000;
        contributors.push(
            contributor(
                ScoreDimension::ExecutionSimplicity,
                ContributionPolarity::Bonus,
                String::from_str("Plan de teamfight lisible"),
                1000,
                "Le candidat s’insère dans un schéma de combat simple à exécuter pour l’équipe.",
            ),
        );
    }
    assert(contributors.deep_view() =~= execution_score(composition@, candidate@).contributors);
    explained_subscore(score, EXECUTION_SIMPLICITY_WEIGHT, contributors)
}

// ---------------------------------------------------------------- lane stability

/// How many champions of `team` have `role` as their primary role.
pub open spec fn lane_threats(team: Seq<ChampionView>, role: Role) -> nat
    decreases team.len(),
{
    if team.len() == 0 {
        0
    } else {
        lane_threats(team.drop_last(), role) + if team.last().primary_role() == Some(role) {
            1nat
        } else {
            0nat
        }
    }
}

pub open spec fn hidden_matchup_contributor() -> ScoreContributorView {
    ScoreContributorView {
        dimension: ScoreDimension::LaneStability,
        polarity: ContributionPolarity::Bonus,
        label: "Matchup encore caché"@,
        value: 800,
        detail: "L’adversaire n’a pas encore révélé le matchup direct, ce qui réduit le risque immédiat."@,
    }
}

pub open spec fn stable_lane_contributor() -> ScoreContributorView {
    ScoreContributorView {
        dimension: ScoreDimension::LaneStability,
        polarity: ContributionPolarity::Bonus,
        label: "Profil de lane stable"@,
        value: 600,
        detail: "Le champion limite les états de lane perdants même sous pression."@,
    }
}

pub open spec fn volatile_lane_contributor() -> ScoreContributorView {
    ScoreContributorView {
        dimension: ScoreDimension::LaneStability,
        polarity: ContributionPolarity::Malus,
        label: "Lane volatile"@,
        value: -400i64,
        detail: "Le pick accepte une variance plus forte face à un matchup déjà montré."@,
    }
}

/// Lane stability contributors: none without a primary role; otherwise +8 when no
/// enemy shows that lane yet, else +6 for a stable lane pattern, else -4.
pub open spec fn lane_contributors(draft: DraftStateView, candidate: ChampionView) -> Seq<ScoreContributorView> {
    match candidate.primary_role() {
        None => Seq::empty(),
        Some(role) => if lane_threats(draft.enemy, role) == 0 {
            seq![hidden_matchup_contributor()]
        } else if candidate.lane_pattern == LanePattern::Stable {
            seq![stable_lane_contributor()]
        } else {
            seq![volatile_lane_contributor()]
        },
    }
}

/// Lane stability: 55 points plus its contributors, weighted 0.05.
pub open spec fn lane_score(draft: DraftStateView, candidate: ChampionView) -> ExplainedSubScoreView {
    let cs = lane_contributors(draft, candidate);
    subscore_view(5500 + contributions_total(cs), LANE_STABILITY_WEIGHT, cs)
}

fn count_lane_threats(enemies: &Vec<Champion>, role: Role) -> (r: usize)
    ensures
        r == lane_threats(enemies.deep_view(), role),
{
    let ghost es = enemies.deep_view();
    let mut count: usize = 0;
    for i in 0..enemies.len()
        invariant
            es == enemies.deep_view(),
            count == lane_threats(es.subrange(0, i as int), role),
            count <= i,
    {
        assert(es.subrange(0, i + 1).drop_last() =~= es.subrange(0, i as int));
        if enemies[i].primary_role() == Some(role) {
            count = count + 1;
        }
    }
    assert(es.subrange(0, enemies.len() as int) =~= es);
    count
}

pub fn score_lane_stability(draft_state: &DraftState, candidate: &Champion) -> (r: ExplainedSubScore)
    ensures
        r@ == lane_score(draft_state@, candidate@),
{
    let mut score: i128 = 5500;
    let mut contributors: Vec<ScoreContributor> = Vec::new();
    if let Some(primary_role) = candidate.primary_role() {
        let threats = count_lane_threats(&draft_state.enemy.champions, primary_role);
        if threats == 0 {
            score = score + 800;
            contributors.push(
                contributor(
                    ScoreDimension::LaneStability,
                    ContributionPolarity::Bonus,
                    String::from_str("Matchup encore caché"),
                    800,
                    "L’adversaire n’a pas encore révélé le matchup direct, ce qui réduit le risque immédiat.",
                ),
            );
        } else if candidate.lane_pattern == LanePattern::Stable {
            score = score + 600;
            contributors.push(
                contributor(
                    ScoreDimension::LaneStability,
                    ContributionPolarity::Bonus,
                    String::from_str("Profil de lane stable"),
                    600,
                    "Le champion limite les états de lane perdants même sous pression.",
                ),
            );
        } else {
            score = score - 400;
            contributors.push(
                contributor(
                    ScoreDimension::LaneStability,
                    ContributionPolarity::Malus,
                    String::from_str("Lane volatile"),
                    -400,
                    "Le pick accepte une variance plus forte face à un matchup déjà montré.",
                ),
            );
        }
    }
    let ghost cs = contributors.deep_view();
    assert(cs =~= lane_contributors(draft_state@, candidate@));
    assert(contributions_total(cs) == score - 5500) by {
        if cs.len() == 1 {
            lemma_total_push(Seq::<ScoreContributorView>::empty(), cs[0]);
            assert(Seq::<ScoreContributorView>::empty().push(cs[0]) =~= cs);
        }
    }
    explained_subscore(score, LANE_STABILITY_WEIGHT, contributors)
}


// ---------------------------------------------------------------- candidate alerts

pub open spec fn high_execution_alert(name: Seq<char>) -> DraftAlertView {
    DraftAlertView {
        category: AlertCategory::Structure,
        severity: AlertSeverity::Warning,
        code: "high_execution_without_setup"@,
        title: "Pick difficile à préparer"@,
        detail: name + " demande beaucoup d’exécution alors que la composition crée peu de setup fiable."@,
    }
}

pub open spec fn low_mobility_alert(name: Seq<char>) -> DraftAlertView {
    DraftAlertView {
        category: AlertCategory::Matchup,
        severity: AlertSeverity::Warning,
        code: "low_mobility_into_cc"@,
        title: "Mobilité exposée au contrôle"@,
        detail: name + " risque de subir les outils de catch adverses s’il rate son placement initial."@,
    }
}

pub open spec fn luxury_pick_alert() -> DraftAlertView {
    DraftAlertView {
        category: AlertCategory::Roster,
        severity: AlertSeverity::Info,
        code: "luxury_pick"@,
        title: "Pick de confort"@,
        detail: "La composition est déjà complète ; le pick doit justifier sa valeur par le matchup ou la synergie."@,
    }
}

/// Some champion of `team` has crowd control of four or more.
pub open spec fn has_heavy_crowd_control(team: Seq<ChampionView>) -> bool {
    exists|i: int| 0 <= i < team.len() && #[trigger] team[i].crowd_control >= 4
}

/// The composition's alerts followed, in this order, by: a high-execution pick
/// without engage setup; a low-mobility pick into heavy crowd control; a pick
/// of comfort when every role is covered and the candidate is no support (< 0.3).
pub open spec fn candidate_alerts(
    draft: DraftStateView,
    composition: CompositionSnapshotView,
    candidate: ChampionView,
) -> Seq<DraftAlertView> {
    composition.alerts + alert_if(
        high_execution_alert(candidate.name),
        candidate.execution_demand == ExecutionDemand::High && composition.profile.engage == 0,
    ) + alert_if(
        low_mobility_alert(candidate.name),
        has_heavy_crowd_control(draft.enemy) && candidate.mobility <= 1,
    ) + alert_if(
        luxury_pick_alert(),
        missing_roles_of(draft.ally).len() == 0 && candidate.role_confidence(Role::Support) < 30,
    )
}

fn any_heavy_crowd_control(team: &Vec<Champion>) -> (r: bool)
    ensures
        r == has_heavy_crowd_control(team.deep_view()),
{
    let ghost t = team.deep_view();
    for i in 0..team.len()
        invariant
            t == team.deep_view(),
            forall|k: int| 0 <= k < i ==> t[k].crowd_control < 4,
    {
        if team[i].crowd_control >= 4 {
            assert(t[i as int].crowd_control >= 4);
            return true;
        }
    }
    false
}

pub fn extend_alerts_with_candidate(
    draft_state: &DraftState,
    composition: &CompositionSnapshot,
    candidate: &Champion,
) -> (r: Vec<DraftAlert>)
    ensures
        r.deep_view() == candidate_alerts(draft_state@, composition@, candidate@),
{
    let mut alerts = duplicate_alerts(&composition.alerts);
    let ghost base = alerts.deep_view();
    if candidate.execution_demand == ExecutionDemand::High && composition.profile.engage == 0 {
        alerts.push(
            DraftAlert::new(
                AlertCategory::Structure,
                AlertSeverity::Warning,
                "high_execution_without_setup",
                "Pick difficile à préparer",
                concat(
                    candidate.name.as_str(),
                    " demande beaucoup d’exécution alors que la composition crée peu de setup fiable.",
                ),
            ),
        );
    }
    let ghost first = alerts.deep_view();
    if any_heavy_crowd_control(&draft_state.enemy.champions) && candidate.mobility <= 1 {
        alerts.push(
            DraftAlert::new(
                AlertCategory::Matchup,
                AlertSeverity::Warning,
                "low_mobility_into_cc",
                "Mobilité exposée au contrôle",
                concat(
                    candidate.name.as_str(),
                    " risque de subir les outils de catch adverses s’il rate son placement initial.",
                ),
            ),
        );
    }
    let ghost second = alerts.deep_view();
    if draft_state.missing_roles().len() == 0 && candidate.role_confidence(&Role::Support) < 30 {
        alerts.push(
            DraftAlert::new(
                AlertCategory::Roster,
                AlertSeverity::Info,
                "luxury_pick",
                "Pick de confort",
                String::from_str(
                    "La composition est déjà complète ; le pick doit justifier sa valeur par le matchup ou la synergie.",
                ),
            ),
        );
    }
    assert(alerts.deep_view() =~= candidate_alerts(draft_state@, composition@, candidate@));
    alerts
}

// ---------------------------------------------------------------- explanations

/// Some identity of `team_ids` is also carried by the candidate.
pub open spec fn shares_identity(team_ids: Seq<CompositionIdentity>, candidate_ids: Seq<CompositionIdentity>) -> bool {
    exists|i: int| 0 <= i < team_ids.len() && candidate_ids.contains(#[trigger] team_ids[i])
}

/// The headline: final score out of 100 and the two main sub-scores, one decimal each.
pub open spec fn headline_text(name: Seq<char>, breakdown: ScoreBreakdownView) -> Seq<char> {
    name + " atteint "@ + one_decimal(breakdown.final_score as int, 1000) + "/100 grâce à une cohérence interne de "@
        + one_decimal(breakdown.internal_coherence.raw_score as int, 10) + " et un matchup adverse de "@
        + one_decimal(breakdown.enemy_matchup.raw_score as int, 10) + "."@
}

pub open spec fn extends_plan_text() -> Seq<char> {
    "Le candidat prolonge un axe de composition déjà visible, ce qui simplifie la lecture du plan de jeu."@
}

pub open spec fn alerts_left_text(count: nat) -> Seq<char> {
    decimal(count) + " alerte(s) restent à surveiller après ce pick."@
}

/// The headline, then a note when the candidate extends a visible identity,
/// then the number of alerts left when there are any.
pub open spec fn explanations_of(
    composition: CompositionSnapshotView,
    candidate: ChampionView,
    breakdown: ScoreBreakdownView,
    alerts: Seq<DraftAlertView>,
) -> Seq<Seq<char>> {
    seq![headline_text(candidate.name, breakdown)] + (if shares_identity(
        composition.identities,
        candidate.identities,
    ) {
        seq![extends_plan_text()]
    } else {
        Seq::empty()
    }) + (if alerts.len() > 0 {
        seq![alerts_left_text(alerts.len())]
    } else {
        Seq::empty()
    })
}

fn any_shared_identity(team_ids: &Vec<CompositionIdentity>, candidate_ids: &Vec<CompositionIdentity>) -> (r: bool)
    ensures
        r == shares_identity(team_ids@, candidate_ids@),
{
    for i in 0..team_ids.len()
        invariant
            forall|k: int| 0 <= k < i ==> !candidate_ids@.contains(team_ids@[k]),
    {
        if contains_identity(candidate_ids, team_ids[i]) {
            return true;
        }
    }
    false
}

pub fn build_explanations(
    composition: &CompositionSnapshot,
    candidate: &Champion,
    breakdown: &ScoreBreakdown,
    alerts: &Vec<DraftAlert>,
) -> (r: Vec<String>)
    ensures
        r.deep_view() == explanations_of(composition@, candidate@, breakdown@, alerts.deep_view()),
{
    let mut headline = concat(candidate.name.as_str(), " atteint ");
    headline.append(format_one_decimal(breakdown.final_score, 1000).as_str());
    headline.append("/100 grâce à une cohérence interne de ");
    headline.append(format_one_decimal(breakdown.internal_coherence.raw_score, 10).as_str());
    headline.append(" et un matchup adverse de ");
    headline.append(format_one_decimal(breakdown.enemy_matchup.raw_score, 10).as_str());
    headline.append(".");
    let mut explanations: Vec<String> = Vec::new();
    explanations.push(headline);
    if any_shared_identity(&composition.identities, &candidate.identities) {
        explanations.push(
            String::from_str(
                "Le candidat prolonge un axe de composition déjà visible, ce qui simplifie la lecture du plan de jeu.",
            ),
        );
    }
    if alerts.len() > 0 {
        let count = decimal_string(alerts.len() as u64);
        explanations.push(concat(count.as_str(), " alerte(s) restent à surveiller après ce pick."));
    }
    assert(explanations.deep_view() =~= explanations_of(
        composition@,
        candidate@,
        breakdown@,
        alerts.deep_view(),
    ));
    explanations
}

// ---------------------------------------------------------------- win condition and call

/// The win condition after the pick: front-to-back around a protect-carry
/// candidate or composition; else catches for a pick candidate; else tempo.
pub open spec fn win_condition_after_pick_text(composition: CompositionSnapshotView, candidate: ChampionView) -> Seq<char> {
    if candidate.identities.contains(CompositionIdentity::ProtectCarry) || composition.identities.contains(
        CompositionIdentity::ProtectCarry,
    ) {
        "Jouer front-to-back autour de "@ + candidate.name
            + " et forcer les objectifs quand la ligne avant verrouille l’espace."@
    } else if candidate.identities.contains(CompositionIdentity::Pick) {
        "Créer des surnombres avec "@ + candidate.name
            + " sur les timings de vision, puis convertir en Nashor ou tours extérieures."@
    } else {
        "Utiliser "@ + candidate.name
            + " pour accélérer le tempo de combat et prendre l’initiative sur les objectifs neutres."@
    }
}

pub fn build_win_condition_after_pick(composition: &CompositionSnapshot, candidate: &Champion) -> (r:
    String)
    ensures
        r@ == win_condition_after_pick_text(composition@, candidate@),
{
    if contains_identity(&candidate.identities, CompositionIdentity::ProtectCarry)
        || contains_identity(&composition.identities, CompositionIdentity::ProtectCarry) {
        crate::text::concat3(
            "Jouer front-to-back autour de ",
            candidate.name.as_str(),
            " et forcer les objectifs quand la ligne avant verrouille l’espace.",
        )
    } else if contains_identity(&candidate.identities, CompositionIdentity::Pick) {
        crate::text::concat3(
            "Créer des surnombres avec ",
            candidate.name.as_str(),
            " sur les timings de vision, puis convertir en Nashor ou tours extérieures.",
        )
    } else {
        crate::text::concat3(
            "Utiliser ",
            candidate.name.as_str(),
            " pour accélérer le tempo de combat et prendre l’initiative sur les objectifs neutres.",
        )
    }
}

/// Some alert of the list is critical.
pub open spec fn has_critical(alerts: Seq<DraftAlertView>) -> bool {
    exists|i: int| 0 <= i < alerts.len() && #[trigger] alerts[i].severity == AlertSeverity::Critical
}

pub open spec fn priority_call_text() -> Seq<char> {
    "Blindable et prioritaire si la draft doit verrouiller un power pick maintenant."@
}

pub open spec fn context_call_text() -> Seq<char> {
    "Bon pick de contexte : à prendre si la priorité est la couverture de rôle ou la stabilité de plan."@
}

pub open spec fn situational_call_text() -> Seq<char> {
    "Pick situationnel : garder en réserve si une meilleure réponse de matchup ou de structure reste disponible."@
}

/// A priority call at 72 points or more without a critical alert, a context
/// call at 60 points or more, a situational call otherwise.
pub open spec fn draft_call_text(final_score: i64, alerts: Seq<DraftAlertView>) -> Seq<char> {
    if final_score >= 720000 && !has_critical(alerts) {
        priority_call_text()
    } else if final_score >= 600000 {
        context_call_text()
    } else {
        situational_call_text()
    }
}

pub fn build_draft_call(score_breakdown: &ScoreBreakdown, alerts: &Vec<DraftAlert>) -> (r: String)
    ensures
        r@ == draft_call_text(score_breakdown.final_score, alerts.deep_view()),
{
    let ghost av = alerts.deep_view();
    let mut critical_alerts: usize = 0;
    for i in 0..alerts.len()
        invariant
            av == alerts.deep_view(),
            critical_alerts <= i,
            (critical_alerts == 0) <==> forall|k: int| 0 <= k < i ==> av[k].severity != AlertSeverity::Critical,
    {
        assert(av[i as int].severity == alerts@[i as int].severity);
        if alerts[i].severity == AlertSeverity::Critical {
            critical_alerts = critical_alerts + 1;
        }
    }
    if score_breakdown.final_score >= 720000 && critical_alerts == 0 {
        String::from_str("Blindable et prioritaire si la draft doit verrouiller un power pick maintenant.")
    } else if score_breakdown.final_score >= 600000 {
        String::from_str(
            "Bon pick de contexte : à prendre si la priorité est la couverture de rôle ou la stabilité de plan.",
        )
    } else {
        String::from_str(
            "Pick situationnel : garder en réserve si une meilleure réponse de matchup ou de structure reste disponible.",
        )
    }
}

// ---------------------------------------------------------------- evaluation

/// The five sub-scores of a candidate and their weighted sum.
pub open spec fn breakdown_of(
    draft: DraftStateView,
    composition: CompositionSnapshotView,
    candidate: ChampionView,
) -> ScoreBreakdownView {
    let c = coherence_score(composition, candidate);
    let m = matchup_score(draft, candidate);
    let r = roster_score(draft, candidate);
    let e = execution_score(composition, candidate);
    let l = lane_score(draft, candidate);
    ScoreBreakdownView {
        internal_coherence: c,
        enemy_matchup: m,
        roster_fit: r,
        execution_simplicity: e,
        lane_stability: l,
        final_score: (c.weighted_score + m.weighted_score + r.weighted_score + e.weighted_score
            + l.weighted_score) as i64,
    }
}

/// Every sub-score of a candidate lies between 0 and 100 points, and its
/// final score, their weighted sum, lies between 0 and 100 points too.
pub proof fn lemma_final_score_bounds(
    draft: DraftStateView,
    composition: CompositionSnapshotView,
    candidate: ChampionView,
)
    ensures
        0 <= breakdown_of(draft, composition, candidate).internal_coherence.raw_score <= MAX_RAW_SCORE,
        0 <= breakdown_of(draft, composition, candidate).enemy_matchup.raw_score <= MAX_RAW_SCORE,
        0 <= breakdown_of(draft, composition, candidate).roster_fit.raw_score <= MAX_RAW_SCORE,
        0 <= breakdown_of(draft, composition, candidate).execution_simplicity.raw_score <= MAX_RAW_SCORE,
        0 <= breakdown_of(draft, composition, candidate).lane_stability.raw_score <= MAX_RAW_SCORE,
        0 <= breakdown_of(draft, composition, candidate).final_score <= MAX_RAW_SCORE * WEIGHT_SCALE,
{
}

/// The full evaluation of a candidate against a draft and its composition.
pub open spec fn evaluation_of(
    draft: DraftStateView,
    composition: CompositionSnapshotView,
    candidate: ChampionView,
) -> CandidateEvaluationView {
    let breakdown = breakdown_of(draft, composition, candidate);
    let alerts = candidate_alerts(draft, composition, candidate);
    CandidateEvaluationView {
        champion: candidate,
        score_breakdown: breakdown,
        alerts,
        explanation: explanations_of(composition, candidate, breakdown, alerts),
        win_condition_after_pick: win_condition_after_pick_text(composition, candidate),
        draft_call: draft_call_text(breakdown.final_score, alerts),
    }
}

pub fn evaluate_candidate(
    draft_state: &DraftState,
    composition: &CompositionSnapshot,
    candidate: Champion,
) -> (r: CandidateEvaluation)
    ensures
        r@ == evaluation_of(draft_state@, composition@, candidate@),
        0 <= r.score_breakdown.final_score <= 1_000_000,
{
    let coherence = score_internal_coherence(composition, &candidate);
    let matchup = score_enemy_matchup(draft_state, &candidate);
    let roster_fit = score_roster_fit(draft_state, &candidate);
    let execution = score_execution_simplicity(composition, &candidate);
    let lane_stability = score_lane_stability(draft_state, &candidate);
    let score_breakdown = ScoreBreakdown::from_subscores(
        coherence,
        matchup,
        roster_fit,
        execution,
        lane_stability,
    );
    let alerts = extend_alerts_with_candidate(draft_state, composition, &candidate);
    let explanation = build_explanations(composition, &candidate, &score_breakdown, &alerts);
    let win_condition_after_pick = build_win_condition_after_pick(composition, &candidate);
    let draft_call = build_draft_call(&score_breakdown, &alerts);
    CandidateEvaluation {
        champion: candidate,
        score_breakdown,
        alerts,
        explanation,
        win_condition_after_pick,
        draft_call,
    }
}


// ---------------------------------------------------------------- ranking

/// A draft and the candidates to evaluate for it.
#[derive(Debug, Clone)]
pub struct RecommendationRequest {
    pub draft_state: DraftState,
    pub candidates: Vec<Champion>,
}

/// The composition of the draft, the five best evaluations and every evaluation, best first.
#[derive(Debug, Clone)]
pub struct RecommendationResponse {
    pub composition: CompositionSnapshot,
    pub top_5: Vec<CandidateEvaluation>,
    pub evaluated_candidates: Vec<CandidateEvaluation>,
}

pub struct RecommendationResponseView {
    pub composition: CompositionSnapshotView,
    pub top_5: Seq<CandidateEvaluationView>,
    pub evaluated_candidates: Seq<CandidateEvaluationView>,
}

impl View for RecommendationResponse {
    type V = RecommendationResponseView;

    open spec fn view(&self) -> RecommendationResponseView {
        RecommendationResponseView {
            composition: self.composition@,
            top_5: self.top_5.deep_view(),
            evaluated_candidates: self.evaluated_candidates.deep_view(),
        }
    }
}

/// The final score of an evaluation.
pub open spec fn final_of(e: CandidateEvaluationView) -> int {
    e.score_breakdown.final_score as int
}

/// Where an evaluation scoring `key` goes in a list ranked best first: before
/// the first entry that scores strictly less, so that equal scores keep their order.
pub open spec fn rank_position(ranked: Seq<CandidateEvaluationView>, key: int) -> int
    decreases ranked.len(),
{
    if ranked.len() == 0 {
        0
    } else if final_of(ranked.last()) >= key {
        ranked.len() as int
    } else {
        rank_position(ranked.drop_last(), key)
    }
}

/// The evaluations ordered by final score, best first, equal scores in their
/// input order (a stable sort).
pub open spec fn ranked_by_score(evaluations: Seq<CandidateEvaluationView>) -> Seq<CandidateEvaluationView>
    decreases evaluations.len(),
{
    if evaluations.len() == 0 {
        Seq::empty()
    } else {
        let ranked = ranked_by_score(evaluations.drop_last());
        let e = evaluations.last();
        ranked.insert(rank_position(ranked, final_of(e)), e)
    }
}

/// Ranked best first.
pub open spec fn is_ranked(s: Seq<CandidateEvaluationView>) -> bool {
    forall|i: int, j: int| 0 <= i < j < s.len() ==> final_of(s[i]) >= final_of(s[j])
}

proof fn lemma_rank_position(ranked: Seq<CandidateEvaluationView>, key: int)
    requires
        is_ranked(ranked),
    ensures
        0 <= rank_position(ranked, key) <= ranked.len(),
        forall|i: int| 0 <= i < rank_position(ranked, key) ==> final_of(#[trigger] ranked[i]) >= key,
        forall|i: int|
            rank_position(ranked, key) <= i < ranked.len() ==> final_of(#[trigger] ranked[i]) < key,
    decreases ranked.len(),
{
    if ranked.len() > 0 {
        let n = ranked.len() as int;
        if final_of(ranked.last()) >= key {
            assert forall|i: int| 0 <= i < n implies final_of(#[trigger] ranked[i]) >= key by {
                if i < n - 1 {
                    assert(final_of(ranked[i]) >= final_of(ranked[n - 1]));
                }
            }
        } else {
            let prev = ranked.drop_last();
            assert(is_ranked(prev)) by {
                assert forall|i: int, j: int| 0 <= i < j < prev.len() implies final_of(prev[i])
                    >= final_of(prev[j]) by {
                    assert(prev[i] == ranked[i] && prev[j] == ranked[j]);
                }
            }
            lemma_rank_position(prev, key);
            assert forall|i: int| 0 <= i < n && i < prev.len() implies #[trigger] ranked[i] == prev[i] by {}
        }
    }
}

/// Ranking keeps every evaluation and orders them best first.
pub proof fn lemma_ranked_by_score(evaluations: Seq<CandidateEvaluationView>)
    ensures
        is_ranked(ranked_by_score(evaluations)),
        ranked_by_score(evaluations).len() == evaluations.len(),
        ranked_by_score(evaluations).to_multiset() == evaluations.to_multiset(),
    decreases evaluations.len(),
{
    if evaluations.len() > 0 {
        let prev = evaluations.drop_last();
        lemma_ranked_by_score(prev);
        let ranked = ranked_by_score(prev);
        let e = evaluations.last();
        let p = rank_position(ranked, final_of(e));
        lemma_rank_position(ranked, final_of(e));
        let next = ranked.insert(p, e);
        assert forall|i: int, j: int| 0 <= i < j < next.len() implies final_of(next[i]) >= final_of(
            next[j],
        ) by {
            if j < p {
                assert(next[i] == ranked[i] && next[j] == ranked[j]);
            } else if j == p {
                assert(next[i] == ranked[i]);
            } else if i < p {
                assert(next[i] == ranked[i] && next[j] == ranked[j - 1]);
            } else if i == p {
                assert(next[j] == ranked[j - 1]);
            } else {
                assert(next[i] == ranked[i - 1] && next[j] == ranked[j - 1]);
            }
        }
        assert(evaluations =~= prev.push(e));
        vstd::seq_lib::to_multiset_insert(ranked, p, e);
        vstd::seq_lib::to_multiset_build(prev, e);
    } else {
        assert(ranked_by_score(evaluations) =~= evaluations);
    }
}

/// Inserts `e` into a list ranked best first, after every entry that scores at least as much.
fn insert_ranked(evaluated: &mut Vec<CandidateEvaluation>, e: CandidateEvaluation)
    requires
        is_ranked(old(evaluated).deep_view()),
    ensures
        final(evaluated).deep_view() == old(evaluated).deep_view().insert(
            rank_position(old(evaluated).deep_view(), final_of(e@)),
            e@,
        ),
{
    let ghost ranked = evaluated.deep_view();
    let key = e.score_breakdown.final_score;
    let mut p: usize = evaluated.len();
    assert(ranked.subrange(0, p as int) =~= ranked);
    while p > 0 && evaluated[p - 1].score_breakdown.final_score < key
        invariant
            ranked == evaluated.deep_view(),
            p <= ranked.len(),
            rank_position(ranked.subrange(0, p as int), key as int) == rank_position(
                ranked,
                key as int,
            ),
        decreases p,
    {
        assert(ranked.subrange(0, p as int).drop_last() =~= ranked.subrange(0, p - 1));
        assert(ranked.subrange(0, p as int).last() == evaluated@[p - 1]@);
        p = p - 1;
    }
    proof {
        if p > 0 {
            assert(ranked.subrange(0, p as int).last() == evaluated@[p - 1]@);
        }
    }
    let ghost ev = e@;
    evaluated.insert(p, e);
    assert(evaluated.deep_view() =~= ranked.insert(p as int, ev));
}

/// Evaluates every candidate, ranks them best first (equal scores in input
/// order) and keeps the first five as the top five.
pub open spec fn recommendation_of(
    draft: DraftStateView,
    candidates: Seq<ChampionView>,
) -> RecommendationResponseView {
    let composition = composition_of(draft);
    let ranked = ranked_by_score(
        candidates.map_values(|c: ChampionView| evaluation_of(draft, composition, c)),
    );
    RecommendationResponseView {
        composition,
        top_5: ranked.take(if ranked.len() < 5 { ranked.len() as int } else { 5 }),
        evaluated_candidates: ranked,
    }
}

pub fn recommend_candidates(request: RecommendationRequest) -> (r: RecommendationResponse)
    requires
        profile_totals_fit(request.draft_state.ally@),
    ensures
        r@ == recommendation_of(request.draft_state@, request.candidates.deep_view()),
        is_ranked(r@.evaluated_candidates),
{
    let draft = &request.draft_state;
    let composition = analyze_composition(draft);
    let ghost dv = draft@;
    let ghost cv = composition@;
    let ghost cands = request.candidates.deep_view();
    let ghost evals = cands.map_values(|c: ChampionView| evaluation_of(dv, cv, c));
    let mut evaluated: Vec<CandidateEvaluation> = Vec::new();
    for i in 0..request.candidates.len()
        invariant
            dv == draft@,
            cv == composition@,
            cands == request.candidates.deep_view(),
            evals == cands.map_values(|c: ChampionView| evaluation_of(dv, cv, c)),
            evaluated.deep_view() == ranked_by_score(evals.subrange(0, i as int)),
            is_ranked(evaluated.deep_view()),
    {
        let e = evaluate_candidate(draft, &composition, request.candidates[i].duplicate());
        assert(evals.subrange(0, i + 1).drop_last() =~= evals.subrange(0, i as int));
        assert(evals.subrange(0, i + 1).last() == e@);
        insert_ranked(&mut evaluated, e);
        proof {
            lemma_ranked_by_score(evals.subrange(0, i + 1));
        }
    }
    assert(evals.subrange(0, request.candidates.len() as int) =~= evals);
    let n = if evaluated.len() < 5 {
        evaluated.len()
    } else {
        5
    };
    let mut top_5: Vec<CandidateEvaluation> = Vec::new();
    for i in 0..n
        invariant
            n <= evaluated.len(),
            top_5.len() == i,
            forall|k: int| 0 <= k < i ==> (#[trigger] top_5@[k])@ == evaluated@[k]@,
    {
        top_5.push(evaluated[i].duplicate());
    }
    assert(top_5.deep_view() =~= evaluated.deep_view().take(n as int));
    RecommendationResponse { composition, top_5, evaluated_candidates: evaluated }
}

} // verus!
