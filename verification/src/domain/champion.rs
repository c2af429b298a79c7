//! Champions: roles, role confidence, identities and the small attribute
//! scales that the scoring engine reads.
use vstd::prelude::*;

use super::composition::CompositionIdentity;

verus! {

/// A lane position, in the order Top < Jungle < Mid < Bottom < Support.
#[derive(Debug, Clone, Copy, PartialEq, Eq, Structural, PartialOrd, Ord, Hash)]
pub enum Role {
    Top,
    Jungle,
    Mid,
    Bottom,
    Support,
}

/// Position of a role in the lane order.
pub open spec fn role_rank(role: Role) -> nat {
    match role {
        Role::Top => 0,
        Role::Jungle => 1,
        Role::Mid => 2,
        Role::Bottom => 3,
        Role::Support => 4,
    }
}

#[derive(Debug, Clone, Copy, PartialEq, Eq, Structural)]
pub enum DamageProfile {
    Physical,
    Magical,
    Mixed,
    True,
}

#[derive(Debug, Clone, Copy, PartialEq, Eq, Structural)]
pub enum ExecutionDemand {
    Low,
    Medium,
    High,
}

#[derive(Debug, Clone, Copy, PartialEq, Eq, Structural)]
pub enum LanePattern {
    Bully,
    Stable,
    Scaling,
    Roaming,
    Utility,
}

/// Confidence scale: a confidence of 1.0 is written 100 (hundredths).
pub const CONFIDENCE_ONE: u32 = 100;

/// How confidently a champion can play each role, keyed by role and walked in
/// lane order. Confidences are exact hundredths (1.0 is 100).
#[derive(Debug, Clone, Copy, PartialEq, Eq, Structural)]
pub struct RoleConfidenceMap {
    pub top: Option<u32>,
    pub jungle: Option<u32>,
    pub mid: Option<u32>,
    pub bottom: Option<u32>,
    pub support: Option<u32>,
}

impl RoleConfidenceMap {
    /// The confidence recorded for `role`, if any.
    pub open spec fn entry(self, role: Role) -> Option<u32> {
        match role {
            Role::Top => self.top,
            Role::Jungle => self.jungle,
            Role::Mid => self.mid,
            Role::Bottom => self.bottom,
            Role::Support => self.support,
        }
    }

    /// An empty map.
    pub fn new() -> (m: Self)
        ensures
            forall|r: Role| #[trigger] m.entry(r) is None,
    {
        RoleConfidenceMap { top: None, jungle: None, mid: None, bottom: None, support: None }
    }

    /// Records `confidence` for `role`, replacing any earlier value.
    pub fn insert(&mut self, role: Role, confidence: u32)
        ensures
            final(self).entry(role) == Some(confidence),
            forall|r: Role| r != role ==> #[trigger] final(self).entry(r) == old(self).entry(r),
    {
        match role {
            Role::Top => self.top = Some(confidence),
            Role::Jungle => self.jungle = Some(confidence),
            Role::Mid => self.mid = Some(confidence),
            Role::Bottom => self.bottom = Some(confidence),
            Role::Support => self.support = Some(confidence),
        }
    }

    /// The confidence recorded for `role`, if any.
    pub fn get(&self, role: Role) -> (r: Option<u32>)
        ensures
            r == self.entry(role),
    {
        match role {
            Role::Top => self.top,
            Role::Jungle => self.jungle,
            Role::Mid => self.mid,
            Role::Bottom => self.bottom,
            Role::Support => self.support,
        }
    }

    /// One step of a maximum search that keeps the later of equal maxima.
    pub open spec fn keep_best(
        best: Option<(Role, u32)>,
        role: Role,
        confidence: Option<u32>,
    ) -> Option<(Role, u32)> {
        match confidence {
            None => best,
            Some(c) => match best {
                None => Some((role, c)),
                Some(b) => if c >= b.1 {
                    Some((role, c))
                } else {
                    best
                },
            },
        }
    }

    /// The entry with the highest confidence, walking roles in lane order and
    /// keeping the last of several equal maxima; `None` for an empty map.
    pub open spec fn best_entry(self) -> Option<(Role, u32)> {
        Self::keep_best(
            Self::keep_best(
                Self::keep_best(
                    Self::keep_best(Self::keep_best(None, Role::Top, self.top), Role::Jungle, self.jungle),
                    Role::Mid,
                    self.mid,
                ),
                Role::Bottom,
                self.bottom,
            ),
            Role::Support,
            self.support,
        )
    }

    fn keep_best_exec(best: Option<(Role, u32)>, role: Role, confidence: Option<u32>) -> (r: Option<(Role, u32)>)
        ensures
            r == Self::keep_best(best, role, confidence),
    {
        match confidence {
            None => best,
            Some(c) => match best {
                None => Some((role, c)),
                Some(b) => if c >= b.1 {
                    Some((role, c))
                } else {
                    best
                },
            },
        }
    }

    /// The role with the highest confidence (the last in lane order among equals).
    pub fn best(&self) -> (r: Option<(Role, u32)>)
        ensures
            r == self.best_entry(),
    {
        let b = Self::keep_best_exec(None, Role::Top, self.top);
        let b = Self::keep_best_exec(b, Role::Jungle, self.jungle);
        let b = Self::keep_best_exec(b, Role::Mid, self.mid);
        let b = Self::keep_best_exec(b, Role::Bottom, self.bottom);
        Self::keep_best_exec(b, Role::Support, self.support)
    }
}

/// The best entry of a confidence map is recorded in the map, no recorded
/// confidence exceeds it, and no later role in lane order ties it.
pub proof fn lemma_best_entry_is_maximum(m: RoleConfidenceMap)
    ensures
        m.best_entry() is None <==> (forall|r: Role| #[trigger] m.entry(r) is None),
        m.best_entry() matches Some(b) ==> {
            &&& m.entry(b.0) == Some(b.1)
            &&& forall|r: Role| #[trigger] m.entry(r) matches Some(c) ==> c <= b.1
            &&& forall|r: Role|
                #[trigger] m.entry(r) matches Some(c) ==> (c == b.1 ==> role_rank(r) <= role_rank(b.0))
        },
{
}

/// A champion as the scoring engine sees it.
#[derive(Debug, Clone)]
pub struct Champion {
    pub id: String,
    pub name: String,
    pub roles: Vec<Role>,
    pub role_confidence_map: RoleConfidenceMap,
    pub identities: Vec<CompositionIdentity>,
    pub damage_profile: DamageProfile,
    pub execution_demand: ExecutionDemand,
    pub lane_pattern: LanePattern,
    pub crowd_control: u8,
    pub engage: u8,
    pub scaling: u8,
    pub durability: u8,
    pub mobility: u8,
}

/// Mathematical value of a [`Champion`].
pub struct ChampionView {
    pub id: Seq<char>,
    pub name: Seq<char>,
    pub roles: Seq<Role>,
    pub role_confidence_map: RoleConfidenceMap,
    pub identities: Seq<CompositionIdentity>,
    pub damage_profile: DamageProfile,
    pub execution_demand: ExecutionDemand,
    pub lane_pattern: LanePattern,
    pub crowd_control: u8,
    pub engage: u8,
    pub scaling: u8,
    pub durability: u8,
    pub mobility: u8,
}

impl View for Champion {
    type V = ChampionView;

    open spec fn view(&self) -> ChampionView {
        ChampionView {
            id: self.id@,
            name: self.name@,
            roles: self.roles@,
            role_confidence_map: self.role_confidence_map,
            identities: self.identities@,
            damage_profile: self.damage_profile,
            execution_demand: self.execution_demand,
            lane_pattern: self.lane_pattern,
            crowd_control: self.crowd_control,
            engage: self.engage,
            scaling: self.scaling,
            durability: self.durability,
            mobility: self.mobility,
        }
    }
}

impl DeepView for Champion {
    type V = ChampionView;

    open spec fn deep_view(&self) -> ChampionView {
        self@
    }
}

impl ChampionView {
    /// The role with the highest confidence, or else the first listed role.
    pub open spec fn primary_role(self) -> Option<Role> {
        match self.role_confidence_map.best_entry() {
            Some(b) => Some(b.0),
            None => if self.roles.len() > 0 {
                Some(self.roles[0])
            } else {
                None
            },
        }
    }

    /// The confidence recorded for `role`, zero when none is.
    pub open spec fn role_confidence(self, role: Role) -> u32 {
        match self.role_confidence_map.entry(role) {
            Some(c) => c,
            None => 0,
        }
    }
}

pub fn duplicate_roles(roles: &Vec<Role>) -> (r: Vec<Role>)
    ensures
        r@ == roles@,
{
    let mut r: Vec<Role> = Vec::new();
    for i in 0..roles.len()
        invariant
            r@ == roles@.subrange(0, i as int),
    {
        r.push(roles[i]);
    }
    assert(roles@.subrange(0, roles.len() as int) =~= roles@);
    r
}

pub fn duplicate_identities(identities: &Vec<CompositionIdentity>) -> (r: Vec<CompositionIdentity>)
    ensures
        r@ == identities@,
{
    let mut r: Vec<CompositionIdentity> = Vec::new();
    for i in 0..identities.len()
        invariant
            r@ == identities@.subrange(0, i as int),
    {
        r.push(identities[i]);
    }
    assert(identities@.subrange(0, identities.len() as int) =~= identities@);
    r
}

impl Champion {
    /// The role with the highest confidence (the last in lane order among
    /// equal confidences), or else the first listed role.
    pub fn primary_role(&self) -> (r: Option<Role>)
        ensures
            r == self@.primary_role(),
    {
        match self.role_confidence_map.best() {
            Some(b) => Some(b.0),
            None => if self.roles.len() > 0 {
                Some(self.roles[0])
            } else {
                None
            },
        }
    }

    /// The confidence for `role` in hundredths, zero when none is recorded.
    pub fn role_confidence(&self, role: &Role) -> (r: u32)
        ensures
            r == self@.role_confidence(*role),
    {
        match self.role_confidence_map.get(*role) {
            Some(c) => c,
            None => 0,
        }
    }

    /// An equal copy of this champion.
    pub fn duplicate(&self) -> (r: Champion)
        ensures
            r@ == self@,
    {
        Champion {
            id: self.id.clone(),
            name: self.name.clone(),
            roles: duplicate_roles(&self.roles),
            role_confidence_map: self.role_confidence_map,
            identities: duplicate_identities(&self.identities),
            damage_profile: self.damage_profile,
            execution_demand: self.execution_demand,
            lane_pattern: self.lane_pattern,
            crowd_control: self.crowd_control,
            engage: self.engage,
            scaling: self.scaling,
            durability: self.durability,
            mobility: self.mobility,
        }
    }
}

/// Copies a list of champions.
pub fn duplicate_champions(champions: &Vec<Champion>) -> (r: Vec<Champion>)
    ensures
        r.deep_view() == champions.deep_view(),
{
    let mut r: Vec<Champion> = Vec::new();
    for i in 0..champions.len()
        invariant
            r.len() == i,
            forall|k: int| 0 <= k < i ==> (#[trigger] r@[k])@ == champions@[k]@,
    {
        r.push(champions[i].duplicate());
    }
    assert(r.deep_view() =~= champions.deep_view());
    r
}

/// Whether two champions have the same value.
pub fn same_champion(a: &Champion, b: &Champion) -> (r: bool)
    ensures
        r == (a@ == b@),
{
    if a.id != b.id || a.name != b.name || a.role_confidence_map != b.role_confidence_map
        || a.damage_profile != b.damage_profile || a.execution_demand != b.execution_demand
        || a.lane_pattern != b.lane_pattern || a.crowd_control != b.crowd_control || a.engage
        != b.engage || a.scaling != b.scaling || a.durability != b.durability || a.mobility
        != b.mobility {
        return false;
    }
    if a.roles.len() != b.roles.len() || a.identities.len() != b.identities.len() {
        return false;
    }
    for i in 0..a.roles.len()
        invariant
            a.roles.len() == b.roles.len(),
            forall|k: int| 0 <= k < i ==> a.roles@[k] == b.roles@[k],
    {
        if a.roles[i] != b.roles[i] {
            return false;
        }
    }
    for i in 0..a.identities.len()
        invariant
            a.identities.len() == b.identities.len(),
            forall|k: int| 0 <= k < i ==> a.identities@[k] == b.identities@[k],
    {
        if a.identities[i] != b.identities[i] {
            return false;
        }
    }
    assert(a.roles@ =~= b.roles@);
    assert(a.identities@ =~= b.identities@);
    true
}

/// Whether two lists of champions have the same value.
pub fn same_champions(a: &Vec<Champion>, b: &Vec<Champion>) -> (r: bool)
    ensures
        r == (a.deep_view() == b.deep_view()),
{
    if a.len() != b.len() {
        assert(a.deep_view().len() != b.deep_view().len());
        return false;
    }
    for i in 0..a.len()
        invariant
            a.len() == b.len(),
            forall|k: int| 0 <= k < i ==> a.deep_view()[k] == b.deep_view()[k],
    {
        if !same_champion(&a[i], &b[i]) {
            assert(a.deep_view()[i as int] != b.deep_view()[i as int]);
            return false;
        }
    }
    assert(a.deep_view() =~= b.deep_view());
    true
}

} // verus!
