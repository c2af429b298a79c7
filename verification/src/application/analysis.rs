//! Composition analysis: the identities an allied draft shows, its profile
//! along eight axes and the structural alerts it raises.
use vstd::prelude::*;

use crate::domain::champion::{Champion, ChampionView, DamageProfile};
use crate::domain::composition::{
    AlertCategory, AlertSeverity, CompositionIdentity, CompositionProfile, CompositionSnapshot,
    CompositionSnapshotView, DraftAlert, DraftAlertView,
};
use crate::domain::draft::{missing_roles_of, DraftPhase, DraftState, DraftStateView};

verus! {

/// Position of an identity in declaration order (the order of the identity set).
pub open spec fn identity_rank(id: CompositionIdentity) -> nat {
    match id {
        CompositionIdentity::Engage => 0,
        CompositionIdentity::Pick => 1,
        CompositionIdentity::Poke => 2,
        CompositionIdentity::Siege => 3,
        CompositionIdentity::FrontToBack => 4,
        CompositionIdentity::SplitPush => 5,
        CompositionIdentity::Skirmish => 6,
        CompositionIdentity::ProtectCarry => 7,
    }
}

/// The identity at a position of the declaration order.
pub open spec fn identity_at(rank: nat) -> CompositionIdentity {
    if rank == 0 {
        CompositionIdentity::Engage
    } else if rank == 1 {
        CompositionIdentity::Pick
    } else if rank == 2 {
        CompositionIdentity::Poke
    } else if rank == 3 {
        CompositionIdentity::Siege
    } else if rank == 4 {
        CompositionIdentity::FrontToBack
    } else if rank == 5 {
        CompositionIdentity::SplitPush
    } else if rank == 6 {
        CompositionIdentity::Skirmish
    } else {
        CompositionIdentity::ProtectCarry
    }
}

fn identity_index(id: CompositionIdentity) -> (r: usize)
    ensures
        r == identity_rank(id),
        identity_at(r as nat) == id,
{
    match id {
        CompositionIdentity::Engage => 0,
        CompositionIdentity::Pick => 1,
        CompositionIdentity::Poke => 2,
        CompositionIdentity::Siege => 3,
        CompositionIdentity::FrontToBack => 4,
        CompositionIdentity::SplitPush => 5,
        CompositionIdentity::Skirmish => 6,
        CompositionIdentity::ProtectCarry => 7,
    }
}

fn identity_of_index(rank: usize) -> (r: CompositionIdentity)
    requires
        rank < 8,
    ensures
        r == identity_at(rank as nat),
        identity_rank(r) == rank,
{
    if rank == 0 {
        CompositionIdentity::Engage
    } else if rank == 1 {
        CompositionIdentity::Pick
    } else if rank == 2 {
        CompositionIdentity::Poke
    } else if rank == 3 {
        CompositionIdentity::Siege
    } else if rank == 4 {
        CompositionIdentity::FrontToBack
    } else if rank == 5 {
        CompositionIdentity::SplitPush
    } else if rank == 6 {
        CompositionIdentity::Skirmish
    } else {
        CompositionIdentity::ProtectCarry
    }
}

/// Some champion of `team` carries identity `id`.
pub open spec fn team_has_identity(team: Seq<ChampionView>, id: CompositionIdentity) -> bool {
    exists|i: int| 0 <= i < team.len() && #[trigger] team[i].identities.contains(id)
}

/// The identities of ranks below `upto` that some champion of `team` carries, in order.
pub open spec fn team_identities_upto(team: Seq<ChampionView>, upto: nat) -> Seq<
    CompositionIdentity,
>
    decreases upto,
{
    if upto == 0 {
        Seq::empty()
    } else {
        let id = identity_at((upto - 1) as nat);
        team_identities_upto(team, (upto - 1) as nat) + if team_has_identity(team, id) {
            seq![id]
        } else {
            Seq::empty()
        }
    }
}

/// Every identity carried by some champion of `team`, once each, in declaration order.
pub open spec fn team_identities(team: Seq<ChampionView>) -> Seq<CompositionIdentity> {
    team_identities_upto(team, 8)
}

/// Whether `ids` lists `id`.
pub fn contains_identity(ids: &Vec<CompositionIdentity>, id: CompositionIdentity) -> (r: bool)
    ensures
        r == ids@.contains(id),
{
    for i in 0..ids.len()
        invariant
            forall|k: int| 0 <= k < i ==> ids@[k] != id,
    {
        if ids[i] == id {
            return true;
        }
    }
    false
}

/// Every identity that some champion carries, once each, in declaration order.
pub fn collect_team_identities(champions: &Vec<Champion>) -> (r: Vec<CompositionIdentity>)
    ensures
        r@ == team_identities(champions.deep_view()),
{
    let ghost team = champions.deep_view();
    let mut present: Vec<bool> = vec![false, false, false, false, false, false, false, false];
    for i in 0..champions.len()
        invariant
            team == champions.deep_view(),
            present.len() == 8,
            forall|r: int|
                0 <= r < 8 ==> (#[trigger] present@[r] <==> exists|k: int|
                    0 <= k < i && #[trigger] team[k].identities.contains(identity_at(r as nat))),
    {
        let ids = &champions[i].identities;
        assert(team[i as int].identities == ids@);
        for j in 0..ids.len()
            invariant
                team == champions.deep_view(),
                team[i as int].identities == ids@,
                present.len() == 8,
                forall|r: int|
                    0 <= r < 8 ==> (#[trigger] present@[r] <==> (exists|k: int|
                        0 <= k < i && #[trigger] team[k].identities.contains(identity_at(r as nat)))
                        || exists|l: int| 0 <= l < j && ids@[l] == identity_at(r as nat)),
        {
            let idx = identity_index(ids[j]);
            present.set(idx, true);
            assert forall|r: int| 0 <= r < 8 implies (#[trigger] present@[r] <==> (exists|k: int|
                0 <= k < i && #[trigger] team[k].identities.contains(identity_at(r as nat)))
                || exists|l: int| 0 <= l < j + 1 && ids@[l] == identity_at(r as nat)) by {
                if r == idx {
                    assert(ids@[j as int] == identity_at(r as nat));
                }
            }
        }
        assert forall|r: int| 0 <= r < 8 implies (#[trigger] present@[r] <==> exists|k: int|
            0 <= k < i + 1 && #[trigger] team[k].identities.contains(identity_at(r as nat))) by {
            if exists|l: int| 0 <= l < ids.len() && ids@[l] == identity_at(r as nat) {
                let l = choose|l: int| 0 <= l < ids.len() && ids@[l] == identity_at(r as nat);
                assert(team[i as int].identities[l] == identity_at(r as nat));
                assert(team[i as int].identities.contains(identity_at(r as nat)));
            }
            if team[i as int].identities.contains(identity_at(r as nat)) {
                let l = choose|l: int|
                    0 <= l < ids.len() && team[i as int].identities[l] == identity_at(r as nat);
                assert(ids@[l] == identity_at(r as nat));
            }
        }
    }
    let mut out: Vec<CompositionIdentity> = Vec::new();
    for r in 0..8
        invariant
            present.len() == 8,
            forall|q: int|
                0 <= q < 8 ==> (#[trigger] present@[q] <==> team_has_identity(
                    team,
                    identity_at(q as nat),
                )),
            out@ == team_identities_upto(team, r as nat),
    {
        if present[r] {
            out.push(identity_of_index(r));
        }
        assert(out@ =~= team_identities_upto(team, (r + 1) as nat));
    }
    out
}

/// Sum over `team` of a per-champion amount.
pub open spec fn sum_over(team: Seq<ChampionView>, f: spec_fn(ChampionView) -> nat) -> nat
    decreases team.len(),
{
    if team.len() == 0 {
        0
    } else {
        sum_over(team.drop_last(), f) + f(team.last())
    }
}

pub proof fn lemma_sum_over_prefix(team: Seq<ChampionView>, f: spec_fn(ChampionView) -> nat, i: int)
    requires
        0 <= i <= team.len(),
    ensures
        sum_over(team.subrange(0, i), f) <= sum_over(team, f),
    decreases team.len() - i,
{
    if i < team.len() {
        lemma_sum_over_prefix(team, f, i + 1);
        assert(team.subrange(0, i + 1).drop_last() =~= team.subrange(0, i));
    } else {
        assert(team.subrange(0, i) =~= team);
    }
}

/// One when the champion carries `id`, zero otherwise.
pub open spec fn carries(id: CompositionIdentity) -> spec_fn(ChampionView) -> nat {
    |c: ChampionView| if c.identities.contains(id) {
        1nat
    } else {
        0nat
    }
}

/// The scaling points a champion adds: its scaling capped at five, halved.
pub open spec fn scaling_points() -> spec_fn(ChampionView) -> nat {
    |c: ChampionView| ((if c.scaling < 5 { c.scaling } else { 5u8 }) / 2) as nat
}

/// One for any damage profile other than true damage.
pub open spec fn wave_clear_points() -> spec_fn(ChampionView) -> nat {
    |c: ChampionView| if c.damage_profile == DamageProfile::True {
        0nat
    } else {
        1nat
    }
}

/// The eight unclamped axis totals of `team`, fitting in a byte each.
pub open spec fn profile_totals_fit(team: Seq<ChampionView>) -> bool {
    &&& sum_over(team, carries(CompositionIdentity::Engage)) <= 255
    &&& sum_over(team, carries(CompositionIdentity::ProtectCarry)) <= 255
    &&& sum_over(team, carries(CompositionIdentity::Pick)) <= 255
    &&& sum_over(team, carries(CompositionIdentity::Poke)) <= 255
    &&& sum_over(team, carries(CompositionIdentity::FrontToBack)) <= 255
    &&& sum_over(team, carries(CompositionIdentity::SplitPush)) <= 255
    &&& sum_over(team, scaling_points()) <= 255
    &&& sum_over(team, wave_clear_points()) <= 255
}

pub open spec fn cap_five(total: nat) -> u8 {
    if total < 5 {
        total as u8
    } else {
        5u8
    }
}

/// The profile of `team`: per axis, the number of champions (or points) that
/// feed it, capped at five. Disengage is fed by protect-carry champions.
pub open spec fn profile_of(team: Seq<ChampionView>) -> CompositionProfile {
    CompositionProfile {
        engage: cap_five(sum_over(team, carries(CompositionIdentity::Engage))),
        disengage: cap_five(sum_over(team, carries(CompositionIdentity::ProtectCarry))),
        pick: cap_five(sum_over(team, carries(CompositionIdentity::Pick))),
        poke: cap_five(sum_over(team, carries(CompositionIdentity::Poke))),
        front_to_back: cap_five(sum_over(team, carries(CompositionIdentity::FrontToBack))),
        split_push: cap_five(sum_over(team, carries(CompositionIdentity::SplitPush))),
        scaling: cap_five(sum_over(team, scaling_points())),
        wave_clear: cap_five(sum_over(team, wave_clear_points())),
    }
}

fn flag(b: bool) -> (r: u8)
    ensures
        r == (if b { 1u8 } else { 0u8 }),
{
    if b {
        1
    } else {
        0
    }
}

/// The clamped profile of a team.
pub fn build_profile(champions: &Vec<Champion>) -> (r: CompositionProfile)
    requires
        profile_totals_fit(champions.deep_view()),
    ensures
        r == profile_of(champions.deep_view()),
{
    let ghost team = champions.deep_view();
    let mut p = CompositionProfile::zero();
    for i in 0..champions.len()
        invariant
            team == champions.deep_view(),
            profile_totals_fit(team),
            p.engage == sum_over(team.subrange(0, i as int), carries(CompositionIdentity::Engage)),
            p.disengage == sum_over(
                team.subrange(0, i as int),
                carries(CompositionIdentity::ProtectCarry),
            ),
            p.pick == sum_over(team.subrange(0, i as int), carries(CompositionIdentity::Pick)),
            p.poke == sum_over(team.subrange(0, i as int), carries(CompositionIdentity::Poke)),
            p.front_to_back == sum_over(
                team.subrange(0, i as int),
                carries(CompositionIdentity::FrontToBack),
            ),
            p.split_push == sum_over(
                team.subrange(0, i as int),
                carries(CompositionIdentity::SplitPush),
            ),
            p.scaling == sum_over(team.subrange(0, i as int), scaling_points()),
            p.wave_clear == sum_over(team.subrange(0, i as int), wave_clear_points()),
    {
        let c = &champions[i];
        let ghost next = team.subrange(0, i + 1);
        assert(next.drop_last() =~= team.subrange(0, i as int));
        assert(next.last() == c@);
        proof {
            lemma_sum_over_prefix(team, carries(CompositionIdentity::Engage), i + 1);
            lemma_sum_over_prefix(team, carries(CompositionIdentity::ProtectCarry), i + 1);
            lemma_sum_over_prefix(team, carries(CompositionIdentity::Pick), i + 1);
            lemma_sum_over_prefix(team, carries(CompositionIdentity::Poke), i + 1);
            lemma_sum_over_prefix(team, carries(CompositionIdentity::FrontToBack), i + 1);
            lemma_sum_over_prefix(team, carries(CompositionIdentity::SplitPush), i + 1);
            lemma_sum_over_prefix(team, scaling_points(), i + 1);
            lemma_sum_over_prefix(team, wave_clear_points(), i + 1);
        }
        p.engage = p.engage + flag(contains_identity(&c.identities, CompositionIdentity::Engage));
        p.disengage = p.disengage + flag(
            contains_identity(&c.identities, CompositionIdentity::ProtectCarry),
        );
        p.pick = p.pick + flag(contains_identity(&c.identities, CompositionIdentity::Pick));
        p.poke = p.poke + flag(contains_identity(&c.identities, CompositionIdentity::Poke));
        p.front_to_back = p.front_to_back + flag(
            contains_identity(&c.identities, CompositionIdentity::FrontToBack),
        );
        p.split_push = p.split_push + flag(
            contains_identity(&c.identities, CompositionIdentity::SplitPush),
        );
        let capped = if c.scaling < 5 {
            c.scaling
        } else {
            5
        };
        p.scaling = p.scaling + capped / 2;
        p.wave_clear = p.wave_clear + match c.damage_profile {
            DamageProfile::Physical | DamageProfile::Magical | DamageProfile::Mixed => 1,
            DamageProfile::True => 0,
        };
    }
    assert(team.subrange(0, champions.len() as int) =~= team);
    p.clamped()
}

/// Whether the eight axis totals of a team fit in a byte each, as the
/// analysis of the team requires.
pub fn fits_profile_totals(champions: &Vec<Champion>) -> (r: bool)
    ensures
        r == profile_totals_fit(champions.deep_view()),
{
    let ghost team = champions.deep_view();
    let mut engage: u64 = 0;
    let mut disengage: u64 = 0;
    let mut pick: u64 = 0;
    let mut poke: u64 = 0;
    let mut front_to_back: u64 = 0;
    let mut split_push: u64 = 0;
    let mut scaling: u128 = 0;
    let mut wave_clear: u64 = 0;
    for i in 0..champions.len()
        invariant
            team == champions.deep_view(),
            engage == sum_over(team.subrange(0, i as int), carries(CompositionIdentity::Engage)),
            disengage == sum_over(team.subrange(0, i as int), carries(CompositionIdentity::ProtectCarry)),
            pick == sum_over(team.subrange(0, i as int), carries(CompositionIdentity::Pick)),
            poke == sum_over(team.subrange(0, i as int), carries(CompositionIdentity::Poke)),
            front_to_back == sum_over(team.subrange(0, i as int), carries(CompositionIdentity::FrontToBack)),
            split_push == sum_over(team.subrange(0, i as int), carries(CompositionIdentity::SplitPush)),
            scaling == sum_over(team.subrange(0, i as int), scaling_points()),
            wave_clear == sum_over(team.subrange(0, i as int), wave_clear_points()),
            engage <= i && disengage <= i && pick <= i && poke <= i && front_to_back <= i
                && split_push <= i && wave_clear <= i && scaling <= 2 * i,
    {
        let c = &champions[i];
        let ghost next = team.subrange(0, i + 1);
        assert(next.drop_last() =~= team.subrange(0, i as int));
        assert(next.last() == c@);
        engage = engage + flag(contains_identity(&c.identities, CompositionIdentity::Engage)) as u64;
        disengage = disengage + flag(contains_identity(&c.identities, CompositionIdentity::ProtectCarry)) as u64;
        pick = pick + flag(contains_identity(&c.identities, CompositionIdentity::Pick)) as u64;
        poke = poke + flag(contains_identity(&c.identities, CompositionIdentity::Poke)) as u64;
        front_to_back = front_to_back + flag(contains_identity(&c.identities, CompositionIdentity::FrontToBack)) as u64;
        split_push = split_push + flag(contains_identity(&c.identities, CompositionIdentity::SplitPush)) as u64;
        let capped = if c.scaling < 5 {
            c.scaling
        } else {
            5
        };
        scaling = scaling + (capped / 2) as u128;
        wave_clear = wave_clear + match c.damage_profile {
            DamageProfile::Physical | DamageProfile::Magical | DamageProfile::Mixed => 1,
            DamageProfile::True => 0,
        };
    }
    assert(team.subrange(0, champions.len() as int) =~= team);
    engage <= 255 && disengage <= 255 && pick <= 255 && poke <= 255 && front_to_back <= 255
        && split_push <= 255 && scaling <= 255 && wave_clear <= 255
}

/// `alert` alone when `raised` holds, nothing otherwise.
pub open spec fn alert_if(alert: DraftAlertView, raised: bool) -> Seq<DraftAlertView> {
    if raised {
        seq![alert]
    } else {
        Seq::empty()
    }
}

pub open spec fn missing_engage_alert() -> DraftAlertView {
    DraftAlertView {
        category: AlertCategory::Structure,
        severity: AlertSeverity::Critical,
        code: "missing_primary_engage"@,
        title: "Engage manquant"@,
        detail: "La composition alliée n’a pas d’outil d’engage fiable pour lancer les combats."@,
    }
}

pub open spec fn low_scaling_alert() -> DraftAlertView {
    DraftAlertView {
        category: AlertCategory::Structure,
        severity: AlertSeverity::Warning,
        code: "low_scaling_curve"@,
        title: "Scaling faible"@,
        detail: "La courbe de scaling actuelle pousse à terminer tôt ou à snowball la carte."@,
    }
}

pub open spec fn core_roles_open_alert() -> DraftAlertView {
    DraftAlertView {
        category: AlertCategory::Roster,
        severity: AlertSeverity::Info,
        code: "core_roles_open"@,
        title: "Rôles encore ouverts"@,
        detail: "Plusieurs rôles restent flexibles : la priorité doit rester la couverture de draft."@,
    }
}

/// The structural alerts of a draft, in this order: no engage among three or
/// more allies; low scaling before the draft is complete; three or more roles open.
pub open spec fn structural_alerts(
    draft: DraftStateView,
    identities: Seq<CompositionIdentity>,
    profile: CompositionProfile,
) -> Seq<DraftAlertView> {
    alert_if(
        missing_engage_alert(),
        !identities.contains(CompositionIdentity::Engage) && draft.ally.len() >= 3,
    ) + alert_if(low_scaling_alert(), profile.scaling <= 1 && draft.phase != DraftPhase::Complete)
        + alert_if(core_roles_open_alert(), missing_roles_of(draft.ally).len() >= 3)
}

pub fn build_structural_alerts(
    draft_state: &DraftState,
    identities: &Vec<CompositionIdentity>,
    profile: &CompositionProfile,
) -> (r: Vec<DraftAlert>)
    ensures
        r.deep_view() == structural_alerts(draft_state@, identities@, *profile),
{
    let mut alerts: Vec<DraftAlert> = Vec::new();
    if !contains_identity(identities, CompositionIdentity::Engage)
        && draft_state.ally.champions.len() >= 3 {
        alerts.push(
            DraftAlert::new(
                AlertCategory::Structure,
                AlertSeverity::Critical,
                "missing_primary_engage",
                "Engage manquant",
                String::from_str(
                    "La composition alliée n’a pas d’outil d’engage fiable pour lancer les combats.",
                ),
            ),
        );
    }
    let ghost first = alerts.deep_view();
    if profile.scaling <= 1 && draft_state.phase != DraftPhase::Complete {
        alerts.push(
            DraftAlert::new(
                AlertCategory::Structure,
                AlertSeverity::Warning,
                "low_scaling_curve",
                "Scaling faible",
                String::from_str(
                    "La courbe de scaling actuelle pousse à terminer tôt ou à snowball la carte.",
                ),
            ),
        );
    }
    let ghost second = alerts.deep_view();
    if draft_state.missing_roles().len() >= 3 {
        alerts.push(
            DraftAlert::new(
                AlertCategory::Roster,
                AlertSeverity::Info,
                "core_roles_open",
                "Rôles encore ouverts",
                String::from_str(
                    "Plusieurs rôles restent flexibles : la priorité doit rester la couverture de draft.",
                ),
            ),
        );
    }
    assert(alerts.deep_view() =~= structural_alerts(draft_state@, identities@, *profile));
    alerts
}

/// What the allied draft is: its identities, its profile and its structural alerts.
/// The low-scaling warning is raised exactly while the draft can still be
/// fixed: the composition of a draft that is not complete and whose allied
/// scaling is at most 1 carries an alert coded `low_scaling_curve`; no other
/// composition does, in particular none of a complete draft.
pub proof fn lemma_low_scaling_warned_before_completion(draft: DraftStateView)
    ensures
        (exists|k: int|
            0 <= k < composition_of(draft).alerts.len() && (#[trigger] composition_of(draft).alerts[k]).code
                == "low_scaling_curve"@) <==> (draft.phase != DraftPhase::Complete
            && composition_of(draft).profile.scaling <= 1),
{
    reveal_strlit("low_scaling_curve");
    reveal_strlit("missing_primary_engage");
    reveal_strlit("core_roles_open");
    let c = composition_of(draft);
    let a = alert_if(
        missing_engage_alert(),
        !c.identities.contains(CompositionIdentity::Engage) && draft.ally.len() >= 3,
    );
    let b = alert_if(low_scaling_alert(), c.profile.scaling <= 1 && draft.phase != DraftPhase::Complete);
    let d = alert_if(core_roles_open_alert(), missing_roles_of(draft.ally).len() >= 3);
    assert(c.alerts =~= a + b + d);
    assert("missing_primary_engage"@[0] != "low_scaling_curve"@[0]);
    assert("core_roles_open"@[0] != "low_scaling_curve"@[0]);
    if c.profile.scaling <= 1 && draft.phase != DraftPhase::Complete {
        assert(c.alerts[a.len() as int] == low_scaling_alert());
    }
}

/// The other structural alerts: missing engage is raised exactly when three
/// or more allies show no engage identity, and open core roles exactly when
/// three or more roles are not covered.
pub proof fn lemma_engage_and_roles_alerts(draft: DraftStateView)
    ensures
        (exists|k: int|
            0 <= k < composition_of(draft).alerts.len() && (#[trigger] composition_of(draft).alerts[k]).code
                == "missing_primary_engage"@) <==> (!composition_of(draft).identities.contains(
            CompositionIdentity::Engage,
        ) && draft.ally.len() >= 3),
        (exists|k: int|
            0 <= k < composition_of(draft).alerts.len() && (#[trigger] composition_of(draft).alerts[k]).code
                == "core_roles_open"@) <==> missing_roles_of(draft.ally).len() >= 3,
{
    reveal_strlit("low_scaling_curve");
    reveal_strlit("missing_primary_engage");
    reveal_strlit("core_roles_open");
    let c = composition_of(draft);
    let a = alert_if(
        missing_engage_alert(),
        !c.identities.contains(CompositionIdentity::Engage) && draft.ally.len() >= 3,
    );
    let b = alert_if(low_scaling_alert(), c.profile.scaling <= 1 && draft.phase != DraftPhase::Complete);
    let d = alert_if(core_roles_open_alert(), missing_roles_of(draft.ally).len() >= 3);
    assert(c.alerts =~= a + b + d);
    assert("missing_primary_engage"@[0] != "low_scaling_curve"@[0]);
    assert("core_roles_open"@[0] != "low_scaling_curve"@[0]);
    assert("core_roles_open"@[0] != "missing_primary_engage"@[0]);
    if a.len() > 0 {
        assert(c.alerts[0] == missing_engage_alert());
    }
    if d.len() > 0 {
        assert(c.alerts[(a.len() + b.len()) as int] == core_roles_open_alert());
    }
}

pub open spec fn composition_of(draft: DraftStateView) -> CompositionSnapshotView {
    CompositionSnapshotView {
        identities: team_identities(draft.ally),
        profile: profile_of(draft.ally),
        alerts: structural_alerts(draft, team_identities(draft.ally), profile_of(draft.ally)),
    }
}

/// Identities, profile and structural alerts of the allied draft.
pub fn analyze_composition(draft_state: &DraftState) -> (r: CompositionSnapshot)
    requires
        profile_totals_fit(draft_state.ally@),
    ensures
        r@ == composition_of(draft_state@),
{
    let identities = collect_team_identities(&draft_state.ally.champions);
    let profile = build_profile(&draft_state.ally.champions);
    let alerts = build_structural_alerts(draft_state, &identities, &profile);
    CompositionSnapshot { identities, profile, alerts }
}

} // verus!
