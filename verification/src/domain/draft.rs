//! The canonical picture of a draft: side, phase, picks, bans and contested roles.
use vstd::prelude::*;

use super::champion::{duplicate_champions, Champion, ChampionView, Role};

verus! {

#[derive(Debug, Clone, Copy, PartialEq, Eq, Structural)]
pub enum TeamSide {
    Blue,
    Red,
}

#[derive(Debug, Clone, Copy, PartialEq, Eq, Structural)]
pub enum DraftPhase {
    BanPhaseOne,
    PickPhaseOne,
    BanPhaseTwo,
    PickPhaseTwo,
    Complete,
}

/// The champions one team has locked so far.
#[derive(Debug, Clone)]
pub struct TeamDraft {
    pub champions: Vec<Champion>,
}

impl View for TeamDraft {
    type V = Seq<ChampionView>;

    open spec fn view(&self) -> Seq<ChampionView> {
        self.champions.deep_view()
    }
}

/// A draft as the analysis reads it.
#[derive(Debug, Clone)]
pub struct DraftState {
    pub patch: String,
    pub side: TeamSide,
    pub phase: DraftPhase,
    pub ally: TeamDraft,
    pub enemy: TeamDraft,
    pub ally_bans: Vec<String>,
    pub enemy_bans: Vec<String>,
    pub contested_roles: Vec<Role>,
}

/// Mathematical value of a [`DraftState`].
pub struct DraftStateView {
    pub patch: Seq<char>,
    pub side: TeamSide,
    pub phase: DraftPhase,
    pub ally: Seq<ChampionView>,
    pub enemy: Seq<ChampionView>,
    pub ally_bans: Seq<Seq<char>>,
    pub enemy_bans: Seq<Seq<char>>,
    pub contested_roles: Seq<Role>,
}

impl View for DraftState {
    type V = DraftStateView;

    open spec fn view(&self) -> DraftStateView {
        DraftStateView {
            patch: self.patch@,
            side: self.side,
            phase: self.phase,
            ally: self.ally@,
            enemy: self.enemy@,
            ally_bans: self.ally_bans.deep_view(),
            enemy_bans: self.enemy_bans.deep_view(),
            contested_roles: self.contested_roles@,
        }
    }
}

/// Some champion of `team` has `role` as its primary role.
pub open spec fn role_taken(team: Seq<ChampionView>, role: Role) -> bool {
    exists|i: int| 0 <= i < team.len() && #[trigger] team[i].primary_role() == Some(role)
}

/// `role` alone when `keep` holds, nothing otherwise.
pub open spec fn role_if(role: Role, keep: bool) -> Seq<Role> {
    if keep {
        seq![role]
    } else {
        Seq::empty()
    }
}

/// The roles, in lane order, that no champion of `team` covers as its primary role.
pub open spec fn missing_roles_of(team: Seq<ChampionView>) -> Seq<Role> {
    role_if(Role::Top, !role_taken(team, Role::Top)) + role_if(
        Role::Jungle,
        !role_taken(team, Role::Jungle),
    ) + role_if(Role::Mid, !role_taken(team, Role::Mid)) + role_if(
        Role::Bottom,
        !role_taken(team, Role::Bottom),
    ) + role_if(Role::Support, !role_taken(team, Role::Support))
}

/// The missing roles are exactly the roles that no ally covers, each once, in lane order.
pub proof fn lemma_missing_roles_members(team: Seq<ChampionView>)
    ensures
        forall|r: Role| #[trigger] missing_roles_of(team).contains(r) <==> !role_taken(team, r),
        missing_roles_of(team).len() <= 5,
        missing_roles_of(team).no_duplicates(),
{
    let m = missing_roles_of(team);
    assert forall|r: Role| #[trigger] m.contains(r) <==> !role_taken(team, r) by {
        if !role_taken(team, r) {
            let k: int = if r == Role::Top {
                0
            } else if r == Role::Jungle {
                (if !role_taken(team, Role::Top) { 1int } else { 0int })
            } else if r == Role::Mid {
                (if !role_taken(team, Role::Top) { 1int } else { 0int }) + (if !role_taken(
                    team,
                    Role::Jungle,
                ) { 1int } else { 0int })
            } else if r == Role::Bottom {
                (if !role_taken(team, Role::Top) { 1int } else { 0int }) + (if !role_taken(
                    team,
                    Role::Jungle,
                ) { 1int } else { 0int }) + (if !role_taken(team, Role::Mid) { 1int } else { 0int })
            } else {
                (if !role_taken(team, Role::Top) { 1int } else { 0int }) + (if !role_taken(
                    team,
                    Role::Jungle,
                ) { 1int } else { 0int }) + (if !role_taken(team, Role::Mid) { 1int } else { 0int })
                    + (if !role_taken(team, Role::Bottom) { 1int } else { 0int })
            };
            assert(m[k] == r);
        }
    }
}

impl DraftState {
    /// The roles, in lane order, that no allied champion covers as its primary role.
    #[verifier::rlimit(30)]
    pub fn missing_roles(&self) -> (r: Vec<Role>)
        ensures
            r@ == missing_roles_of(self.ally@),
    {
        let mut top = false;
        let mut jungle = false;
        let mut mid = false;
        let mut bottom = false;
        let mut support = false;
        let champions = &self.ally.champions;
        for i in 0..champions.len()
            invariant
                top <==> (exists|k: int| 0 <= k < i && #[trigger] champions@[k]@.primary_role() == Some(Role::Top)),
                jungle <==> (exists|k: int| 0 <= k < i && #[trigger] champions@[k]@.primary_role() == Some(Role::Jungle)),
                mid <==> (exists|k: int| 0 <= k < i && #[trigger] champions@[k]@.primary_role() == Some(Role::Mid)),
                bottom <==> (exists|k: int| 0 <= k < i && #[trigger] champions@[k]@.primary_role() == Some(Role::Bottom)),
                support <==> (exists|k: int| 0 <= k < i && #[trigger] champions@[k]@.primary_role() == Some(Role::Support)),
        {
            match champions[i].primary_role() {
                Some(Role::Top) => top = true,
                Some(Role::Jungle) => jungle = true,
                Some(Role::Mid) => mid = true,
                Some(Role::Bottom) => bottom = true,
                Some(Role::Support) => support = true,
                None => {},
            }
        }
        let ghost team = self.ally@;
        assert(forall|k: int| 0 <= k < champions.len() ==> team[k] == (#[trigger] champions@[k])@);
        assert(top <==> role_taken(team, Role::Top));
        assert(jungle <==> role_taken(team, Role::Jungle));
        assert(mid <==> role_taken(team, Role::Mid));
        assert(bottom <==> role_taken(team, Role::Bottom));
        assert(support <==> role_taken(team, Role::Support));
        let mut missing: Vec<Role> = Vec::new();
        if !top {
            missing.push(Role::Top);
        }
        assert(missing@ =~= role_if(Role::Top, !top));
        if !jungle {
            missing.push(Role::Jungle);
        }
        assert(missing@ =~= role_if(Role::Top, !top) + role_if(Role::Jungle, !jungle));
        if !mid {
            missing.push(Role::Mid);
        }
        assert(missing@ =~= role_if(Role::Top, !top) + role_if(Role::Jungle, !jungle) + role_if(Role::Mid, !mid));
        if !bottom {
            missing.push(Role::Bottom);
        }
        assert(missing@ =~= role_if(Role::Top, !top) + role_if(Role::Jungle, !jungle) + role_if(Role::Mid, !mid) + role_if(Role::Bottom, !bottom));
        if !support {
            missing.push(Role::Support);
        }
        assert(missing@ =~= role_if(Role::Top, !top) + role_if(Role::Jungle, !jungle) + role_if(Role::Mid, !mid) + role_if(Role::Bottom, !bottom) + role_if(Role::Support, !support));
        missing
    }
}

/// Copies a list of strings.
pub fn duplicate_strings(items: &Vec<String>) -> (r: Vec<String>)
    ensures
        r.deep_view() == items.deep_view(),
{
    let mut r: Vec<String> = Vec::new();
    for i in 0..items.len()
        invariant
            r.len() == i,
            forall|k: int| 0 <= k < i ==> (#[trigger] r@[k])@ == items@[k]@,
    {
        r.push(items[i].clone());
    }
    assert(r.deep_view() =~= items.deep_view());
    r
}

/// Whether two lists of strings hold the same texts.
pub fn same_strings(a: &Vec<String>, b: &Vec<String>) -> (r: bool)
    ensures
        r == (a.deep_view() == b.deep_view()),
{
    if a.len() != b.len() {
        assert(a.deep_view().len() != b.deep_view().len());
        return false;
    }
    for i in 0..a.len()
        invariant
            a.len() == b.len(),
            forall|k: int| 0 <= k < i ==> a.deep_view()[k] == b.deep_view()[k],
    {
        if a[i] != b[i] {
            assert(a.deep_view()[i as int] != b.deep_view()[i as int]);
            return false;
        }
    }
    assert(a.deep_view() =~= b.deep_view());
    true
}

impl DraftState {
    /// An equal copy of this draft.
    pub fn duplicate(&self) -> (r: DraftState)
        ensures
            r@ == self@,
    {
        DraftState {
            patch: self.patch.clone(),
            side: self.side,
            phase: self.phase,
            ally: TeamDraft { champions: duplicate_champions(&self.ally.champions) },
            enemy: TeamDraft { champions: duplicate_champions(&self.enemy.champions) },
            ally_bans: duplicate_strings(&self.ally_bans),
            enemy_bans: duplicate_strings(&self.enemy_bans),
            contested_roles: crate::domain::champion::duplicate_roles(&self.contested_roles),
        }
    }
}

} // verus!
