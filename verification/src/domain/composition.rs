use vstd::prelude::*;

verus! {

/// Strategic intention that a champion (or a whole composition) supports.
#[derive(Debug, Clone, Copy, PartialEq, Eq, Structural, Hash)]
pub enum CompositionIdentity {
    Engage,
    Pick,
    Poke,
    Siege,
    FrontToBack,
    SplitPush,
    Skirmish,
    ProtectCarry,
}

/// Aggregated intensity of a composition along eight readable axes.
#[derive(Debug, Clone, Copy, PartialEq, Eq, Structural)]
pub struct CompositionProfile {
    pub engage: u8,
    pub disengage: u8,
    pub pick: u8,
    pub poke: u8,
    pub front_to_back: u8,
    pub split_push: u8,
    pub scaling: u8,
    pub wave_clear: u8,
}

/// Upper bound of every axis of a clamped profile.
pub const PROFILE_AXIS_MAX: u8 = 5;

pub open spec fn min_u8(value: u8, bound: u8) -> u8 {
    if value < bound { value } else { bound }
}

impl CompositionProfile {
    /// The profile with every axis at zero.
    pub fn zero() -> (profile: Self)
        ensures
            profile == (CompositionProfile {
                engage: 0, disengage: 0, pick: 0, poke: 0,
                front_to_back: 0, split_push: 0, scaling: 0, wave_clear: 0,
            }),
    {
        CompositionProfile {
            engage: 0, disengage: 0, pick: 0, poke: 0,
            front_to_back: 0, split_push: 0, scaling: 0, wave_clear: 0,
        }
    }

    /// Caps every axis at five so that profiles stay comparable.
    pub fn clamped(self) -> (result: Self)
        ensures
            result.engage == min_u8(self.engage, PROFILE_AXIS_MAX),
            result.disengage == min_u8(self.disengage, PROFILE_AXIS_MAX),
            result.pick == min_u8(self.pick, PROFILE_AXIS_MAX),
            result.poke == min_u8(self.poke, PROFILE_AXIS_MAX),
            result.front_to_back == min_u8(self.front_to_back, PROFILE_AXIS_MAX),
            result.split_push == min_u8(self.split_push, PROFILE_AXIS_MAX),
            result.scaling == min_u8(self.scaling, PROFILE_AXIS_MAX),
            result.wave_clear == min_u8(self.wave_clear, PROFILE_AXIS_MAX),
            result.engage <= PROFILE_AXIS_MAX && result.disengage <= PROFILE_AXIS_MAX
                && result.pick <= PROFILE_AXIS_MAX && result.poke <= PROFILE_AXIS_MAX
                && result.front_to_back <= PROFILE_AXIS_MAX && result.split_push <= PROFILE_AXIS_MAX
                && result.scaling <= PROFILE_AXIS_MAX && result.wave_clear <= PROFILE_AXIS_MAX,
    {
        CompositionProfile {
            engage: if self.engage < PROFILE_AXIS_MAX { self.engage } else { PROFILE_AXIS_MAX },
            disengage: if self.disengage < PROFILE_AXIS_MAX { self.disengage } else { PROFILE_AXIS_MAX },
            pick: if self.pick < PROFILE_AXIS_MAX { self.pick } else { PROFILE_AXIS_MAX },
            poke: if self.poke < PROFILE_AXIS_MAX { self.poke } else { PROFILE_AXIS_MAX },
            front_to_back: if self.front_to_back < PROFILE_AXIS_MAX { self.front_to_back } else { PROFILE_AXIS_MAX },
            split_push: if self.split_push < PROFILE_AXIS_MAX { self.split_push } else { PROFILE_AXIS_MAX },
            scaling: if self.scaling < PROFILE_AXIS_MAX { self.scaling } else { PROFILE_AXIS_MAX },
            wave_clear: if self.wave_clear < PROFILE_AXIS_MAX { self.wave_clear } else { PROFILE_AXIS_MAX },
        }
    }
}


#[derive(Debug, Clone, Copy, PartialEq, Eq, Structural)]
pub enum AlertCategory {
    Structure,
    Matchup,
    Roster,
}

#[derive(Debug, Clone, Copy, PartialEq, Eq, Structural)]
pub enum AlertSeverity {
    Info,
    Warning,
    Critical,
}

/// A structural, matchup or roster warning about a draft.
#[derive(Debug, Clone)]
pub struct DraftAlert {
    pub category: AlertCategory,
    pub severity: AlertSeverity,
    pub code: String,
    pub title: String,
    pub detail: String,
}

/// Mathematical value of a [`DraftAlert`].
pub struct DraftAlertView {
    pub category: AlertCategory,
    pub severity: AlertSeverity,
    pub code: Seq<char>,
    pub title: Seq<char>,
    pub detail: Seq<char>,
}

impl View for DraftAlert {
    type V = DraftAlertView;

    open spec fn view(&self) -> DraftAlertView {
        DraftAlertView {
            category: self.category,
            severity: self.severity,
            code: self.code@,
            title: self.title@,
            detail: self.detail@,
        }
    }
}

impl DeepView for DraftAlert {
    type V = DraftAlertView;

    open spec fn deep_view(&self) -> DraftAlertView {
        self@
    }
}

impl DraftAlert {
    /// An alert built from its parts.
    pub fn new(
        category: AlertCategory,
        severity: AlertSeverity,
        code: &str,
        title: &str,
        detail: String,
    ) -> (r: DraftAlert)
        ensures
            r@ == (DraftAlertView {
                category,
                severity,
                code: code@,
                title: title@,
                detail: detail@,
            }),
    {
        DraftAlert {
            category,
            severity,
            code: String::from_str(code),
            title: String::from_str(title),
            detail,
        }
    }

    /// An equal copy of this alert.
    pub fn duplicate(&self) -> (r: DraftAlert)
        ensures
            r@ == self@,
    {
        DraftAlert {
            category: self.category,
            severity: self.severity,
            code: self.code.clone(),
            title: self.title.clone(),
            detail: self.detail.clone(),
        }
    }
}

/// Copies a list of alerts.
pub fn duplicate_alerts(alerts: &Vec<DraftAlert>) -> (r: Vec<DraftAlert>)
    ensures
        r.deep_view() == alerts.deep_view(),
{
    let mut r: Vec<DraftAlert> = Vec::new();
    for i in 0..alerts.len()
        invariant
            r.len() == i,
            forall|k: int| 0 <= k < i ==> (#[trigger] r@[k])@ == alerts@[k]@,
    {
        r.push(alerts[i].duplicate());
    }
    assert(r.deep_view() =~= alerts.deep_view());
    r
}

/// What a composition is: its identities, its profile and its alerts.
#[derive(Debug, Clone)]
pub struct CompositionSnapshot {
    pub identities: Vec<CompositionIdentity>,
    pub profile: CompositionProfile,
    pub alerts: Vec<DraftAlert>,
}

/// Mathematical value of a [`CompositionSnapshot`].
pub struct CompositionSnapshotView {
    pub identities: Seq<CompositionIdentity>,
    pub profile: CompositionProfile,
    pub alerts: Seq<DraftAlertView>,
}

impl View for CompositionSnapshot {
    type V = CompositionSnapshotView;

    open spec fn view(&self) -> CompositionSnapshotView {
        CompositionSnapshotView {
            identities: self.identities@,
            profile: self.profile,
            alerts: self.alerts.deep_view(),
        }
    }
}

impl CompositionSnapshot {
    /// An equal copy of this snapshot.
    pub fn duplicate(&self) -> (r: CompositionSnapshot)
        ensures
            r@ == self@,
    {
        CompositionSnapshot {
            identities: crate::domain::champion::duplicate_identities(&self.identities),
            profile: self.profile,
            alerts: duplicate_alerts(&self.alerts),
        }
    }
}

} // verus!
