//! The champ-select monitor: adaptive polling, the live/sandbox fallback and
//! the change events between two polls.
use std::time::Duration;

use vstd::prelude::*;

use crate::adapters::riot_client::{
    draft_from_session, resolutions, session_outcome_view, text_result_view, ChampionResolver,
    DraftStateTransformer, RiotActionView, RiotChampSelectSession, RiotChampSelectSessionView,
    RiotClientError, RiotClientErrorView, RiotSessionReader,
};
use crate::domain::champion::same_champions;
use crate::domain::draft::{same_strings, DraftState, DraftStateView};
use crate::text::{same_text, trimmed};

verus! {

/// Polling interval, in milliseconds, while no draft is running.
pub const POLL_IDLE_MS: u64 = 2000;

/// Polling interval, in milliseconds, while picks and bans are being made.
pub const POLL_DRAFT_MS: u64 = 400;

/// Polling interval, in milliseconds, while a pick is about to be locked in.
pub const POLL_LOCK_IN_MS: u64 = 250;

/// Names the duration that `Duration::from_millis` makes of a number of
/// milliseconds.
pub uninterp spec fn duration_of_millis(millis: u64) -> Duration;

/// `std::time::Duration::from_millis`. Trusted: the result is the duration
/// named for the argument.
#[verifier::external_body]
fn millis(ms: u64) -> (d: Duration)
    ensures
        d == duration_of_millis(ms),
{
    Duration::from_millis(ms)
}

/// Where the draft shown comes from.
#[derive(Debug, Clone, Copy, PartialEq, Eq, Structural)]
pub enum DraftAvailability {
    Live,
    Sandbox { reason: DraftUnavailableReason },
}

/// Why the live draft is unavailable.
#[derive(Debug, Clone, Copy, PartialEq, Eq, Structural)]
pub enum DraftUnavailableReason {
    ClientAbsent,
    LockfileAbsent,
    LockfileInaccessible,
    LocalSslFailed,
    EndpointChanged,
    PatchUnknown,
    RequestFailed,
}

/// The fallback reason for a client error.
pub open spec fn reason_for(error: RiotClientErrorView) -> DraftUnavailableReason {
    match error {
        RiotClientErrorView::ClientAbsent => DraftUnavailableReason::ClientAbsent,
        RiotClientErrorView::LockfileAbsent => DraftUnavailableReason::LockfileAbsent,
        RiotClientErrorView::LockfileInaccessible { .. } => DraftUnavailableReason::LockfileInaccessible,
        RiotClientErrorView::LocalSslInitializationFailed(_) => DraftUnavailableReason::LocalSslFailed,
        RiotClientErrorView::EndpointChanged { .. } => DraftUnavailableReason::EndpointChanged,
        RiotClientErrorView::PatchUnknown => DraftUnavailableReason::PatchUnknown,
        RiotClientErrorView::RequestFailed(_) => DraftUnavailableReason::RequestFailed,
        RiotClientErrorView::LocalhostOnlyViolation { .. } => DraftUnavailableReason::RequestFailed,
        RiotClientErrorView::InvalidLockfile { .. } => DraftUnavailableReason::LockfileInaccessible,
    }
}

impl<'a> From<&'a RiotClientError> for DraftUnavailableReason {
    fn from(value: &'a RiotClientError) -> (r: Self) {
        match value {
            RiotClientError::ClientAbsent => DraftUnavailableReason::ClientAbsent,
            RiotClientError::LockfileAbsent => DraftUnavailableReason::LockfileAbsent,
            RiotClientError::LockfileInaccessible { .. } => DraftUnavailableReason::LockfileInaccessible,
            RiotClientError::LocalSslInitializationFailed(_) => DraftUnavailableReason::LocalSslFailed,
            RiotClientError::EndpointChanged { .. } => DraftUnavailableReason::EndpointChanged,
            RiotClientError::PatchUnknown => DraftUnavailableReason::PatchUnknown,
            RiotClientError::RequestFailed(_) => DraftUnavailableReason::RequestFailed,
            RiotClientError::LocalhostOnlyViolation { .. } => DraftUnavailableReason::RequestFailed,
            RiotClientError::InvalidLockfile { .. } => DraftUnavailableReason::LockfileInaccessible,
        }
    }
}

impl<'a> vstd::std_specs::convert::FromSpecImpl<&'a RiotClientError> for DraftUnavailableReason {
    open spec fn obeys_from_spec() -> bool {
        true
    }

    open spec fn from_spec(value: &'a RiotClientError) -> Self {
        reason_for(value@)
    }
}

/// The draft shown after a poll, and where it comes from.
#[derive(Debug, Clone)]
pub struct DraftSnapshot {
    pub availability: DraftAvailability,
    pub state: DraftState,
}

/// Mathematical value of a [`DraftSnapshot`].
pub struct DraftSnapshotView {
    pub availability: DraftAvailability,
    pub state: DraftStateView,
}

impl View for DraftSnapshot {
    type V = DraftSnapshotView;

    open spec fn view(&self) -> DraftSnapshotView {
        DraftSnapshotView { availability: self.availability, state: self.state@ }
    }
}

impl DraftSnapshot {
    /// An equal copy of this snapshot.
    pub fn duplicate(&self) -> (r: DraftSnapshot)
        ensures
            r@ == self@,
    {
        DraftSnapshot { availability: self.availability, state: self.state.duplicate() }
    }
}

/// What changed between two polls.
#[derive(Debug, Clone, Copy, PartialEq, Eq, Structural)]
pub enum ChampSelectEventKind {
    SessionStarted,
    PickChanged,
    BanChanged,
    PhaseChanged,
    SessionEnded,
}

impl ChampSelectEventKind {
    pub open spec fn name(self) -> Seq<char> {
        match self {
            ChampSelectEventKind::SessionStarted => "session_started"@,
            ChampSelectEventKind::PickChanged => "pick_changed"@,
            ChampSelectEventKind::BanChanged => "ban_changed"@,
            ChampSelectEventKind::PhaseChanged => "phase_changed"@,
            ChampSelectEventKind::SessionEnded => "session_ended"@,
        }
    }

    /// The wire name of the event kind.
    pub fn as_str(&self) -> (r: &'static str)
        ensures
            r@ == self.name(),
    {
        match self {
            ChampSelectEventKind::SessionStarted => {
                let s = "session_started";
                proof { reveal_strlit("session_started"); }
                s
            },
            ChampSelectEventKind::PickChanged => {
                let s = "pick_changed";
                proof { reveal_strlit("pick_changed"); }
                s
            },
            ChampSelectEventKind::BanChanged => {
                let s = "ban_changed";
                proof { reveal_strlit("ban_changed"); }
                s
            },
            ChampSelectEventKind::PhaseChanged => {
                let s = "phase_changed";
                proof { reveal_strlit("phase_changed"); }
                s
            },
            ChampSelectEventKind::SessionEnded => {
                let s = "session_ended";
                proof { reveal_strlit("session_ended"); }
                s
            },
        }
    }
}

/// One change event, with the snapshot it leads to (none when the session ended).
#[derive(Debug, Clone)]
pub struct ChampSelectEvent {
    pub kind: ChampSelectEventKind,
    pub state: Option<DraftSnapshot>,
}

/// Mathematical value of a [`ChampSelectEvent`].
pub struct ChampSelectEventView {
    pub kind: ChampSelectEventKind,
    pub state: Option<DraftSnapshotView>,
}

pub open spec fn snapshot_option_view(s: Option<DraftSnapshot>) -> Option<DraftSnapshotView> {
    match s {
        Some(x) => Some(x@),
        None => None,
    }
}

impl View for ChampSelectEvent {
    type V = ChampSelectEventView;

    open spec fn view(&self) -> ChampSelectEventView {
        ChampSelectEventView { kind: self.kind, state: snapshot_option_view(self.state) }
    }
}

impl DeepView for ChampSelectEvent {
    type V = ChampSelectEventView;

    open spec fn deep_view(&self) -> ChampSelectEventView {
        self@
    }
}

/// What one poll gives: when to poll next, the change events and the snapshot.
#[derive(Debug)]
pub struct PollOutcome {
    pub next_interval: Duration,
    pub events: Vec<ChampSelectEvent>,
    pub snapshot: Option<DraftSnapshot>,
}

/// Mathematical value of a [`PollOutcome`].
pub struct PollOutcomeView {
    pub next_interval: Duration,
    pub events: Seq<ChampSelectEventView>,
    pub snapshot: Option<DraftSnapshotView>,
}

impl View for PollOutcome {
    type V = PollOutcomeView;

    open spec fn view(&self) -> PollOutcomeView {
        PollOutcomeView {
            next_interval: self.next_interval,
            events: self.events.deep_view(),
            snapshot: snapshot_option_view(self.snapshot),
        }
    }
}

/// Supplies the draft shown while the live client is unavailable.
/// `draft_for` says which draft is shown for each reason; `snapshot` returns
/// a draft of that value.
pub trait SandboxDraftSource {
    /// The draft shown when the live draft is unavailable for `reason`.
    spec fn draft_for(&self, reason: DraftUnavailableReason) -> DraftState;

    fn snapshot(&self, reason: DraftUnavailableReason) -> (r: DraftState)
        ensures
            r@ == self.draft_for(reason)@,
    ;
}

// ---------------------------------------------------------------- polling intervals

/// A pick that is in progress and not yet completed.
pub open spec fn lock_in_action(action: RiotActionView) -> bool {
    action.action_type == "pick"@ && action.is_in_progress && !action.completed
}

/// Some action of the session is a pick about to be locked in.
pub open spec fn in_lock_in_window(session: RiotChampSelectSessionView) -> bool {
    exists|i: int, j: int|
        0 <= i < session.actions.len() && 0 <= j < session.actions[i].len()
            && lock_in_action(#[trigger] session.actions[i][j])
}

/// The session shows a draft under way: actions or members, or a pick/ban or
/// finalization timer.
pub open spec fn draft_active(session: RiotChampSelectSessionView) -> bool {
    session.actions.len() > 0 || session.my_team.len() > 0 || session.their_team.len() > 0
        || session.timer_phase == "BAN_PICK"@ || session.timer_phase == "FINALIZATION"@
}

/// The polling interval for a session, in milliseconds.
pub open spec fn interval_millis(session: RiotChampSelectSessionView) -> u64 {
    if in_lock_in_window(session) {
        POLL_LOCK_IN_MS
    } else if draft_active(session) {
        POLL_DRAFT_MS
    } else {
        POLL_IDLE_MS
    }
}

/// Whether a pick of the session is about to be locked in.
pub fn is_lock_in_window(session: &RiotChampSelectSession) -> (r: bool)
    ensures
        r == in_lock_in_window(session@),
{
    let ghost sv = session@;
    assert(sv.actions.len() == session.actions.len());
    for i in 0..session.actions.len()
        invariant
            sv == session@,
            sv.actions.len() == session.actions.len(),
            forall|a: int, b: int|
                0 <= a < i && 0 <= b < sv.actions[a].len() ==> !lock_in_action(
                    #[trigger] sv.actions[a][b],
                ),
    {
        let group = &session.actions[i];
        for j in 0..group.len()
            invariant
                sv == session@,
                i < sv.actions.len(),
                group.deep_view() == sv.actions[i as int],
                forall|a: int, b: int|
                    0 <= a < i && 0 <= b < sv.actions[a].len() ==> !lock_in_action(
                        #[trigger] sv.actions[a][b],
                    ),
                forall|b: int| 0 <= b < j ==> !lock_in_action(#[trigger] sv.actions[i as int][b]),
        {
            let action = &group[j];
            assert(action@ == sv.actions[i as int][j as int]);
            if same_text(action.action_type.as_str(), "pick") && action.is_in_progress
                && !action.completed {
                proof { reveal_strlit("pick"); }
                assert(lock_in_action(sv.actions[i as int][j as int]));
                assert(j < sv.actions[i as int].len());
                assert(i < sv.actions.len());
                assert(in_lock_in_window(sv));
                return true;
            }
            proof { reveal_strlit("pick"); }
        }
    }
    false
}

/// Whether the session shows a draft under way.
pub fn is_draft_active(session: &RiotChampSelectSession) -> (r: bool)
    ensures
        r == draft_active(session@),
{
    if session.actions.len() > 0 || session.my_team.len() > 0 || session.their_team.len() > 0 {
        assert(session@.actions.len() == session.actions.len());
        assert(session@.my_team.len() == session.my_team.len());
        assert(session@.their_team.len() == session.their_team.len());
        return true;
    }
    let phase = session.timer.phase.as_str();
    let r = same_text(phase, "BAN_PICK") || same_text(phase, "FINALIZATION");
    proof {
        reveal_strlit("BAN_PICK");
        reveal_strlit("FINALIZATION");
    }
    r
}

/// The polling interval for a session: short while a pick is being locked
/// in, medium while the draft is under way, long otherwise.
pub fn interval_for_session(session: &RiotChampSelectSession) -> (r: Duration)
    ensures
        r == duration_of_millis(interval_millis(session@)),
{
    if is_lock_in_window(session) {
        millis(POLL_LOCK_IN_MS)
    } else if is_draft_active(session) {
        millis(POLL_DRAFT_MS)
    } else {
        millis(POLL_IDLE_MS)
    }
}

// ---------------------------------------------------------------- change events

pub open spec fn event_of(kind: ChampSelectEventKind, state: Option<DraftSnapshotView>) -> ChampSelectEventView {
    ChampSelectEventView { kind, state }
}

/// The value of an optional borrowed snapshot.
pub open spec fn snapshot_ref_view(s: Option<&DraftSnapshot>) -> Option<DraftSnapshotView> {
    match s {
        Some(x) => Some(x@),
        None => None,
    }
}

/// The changes from one snapshot to the next: the phase, then the bans of
/// either team, then the picks of either team.
pub open spec fn change_events(previous: DraftSnapshotView, current: DraftSnapshotView) -> Seq<ChampSelectEventView> {
    let c = Some(current);
    (if previous.state.phase != current.state.phase {
        seq![event_of(ChampSelectEventKind::PhaseChanged, c)]
    } else {
        Seq::empty()
    }) + (if previous.state.ally_bans != current.state.ally_bans || previous.state.enemy_bans
        != current.state.enemy_bans {
        seq![event_of(ChampSelectEventKind::BanChanged, c)]
    } else {
        Seq::empty()
    }) + (if previous.state.ally != current.state.ally || previous.state.enemy
        != current.state.enemy {
        seq![event_of(ChampSelectEventKind::PickChanged, c)]
    } else {
        Seq::empty()
    })
}

/// When nothing else was seen but a live session appears where there was
/// none, the session is reported as started.
pub open spec fn with_live_start(
    base: Seq<ChampSelectEventView>,
    had_raw: bool,
    has_raw: bool,
    snapshot: Option<DraftSnapshotView>,
) -> Seq<ChampSelectEventView> {
    if base.len() == 0 && !had_raw && has_raw {
        seq![event_of(ChampSelectEventKind::SessionStarted, snapshot)]
    } else {
        base
    }
}

/// The events between the previous snapshot and the current one: a session
/// starts when a snapshot follows none and ends when none follows one; between
/// two snapshots, each kind of change is reported once.
pub open spec fn diff_events_of(
    previous: Option<DraftSnapshotView>,
    had_raw: bool,
    has_raw: bool,
    snapshot: Option<DraftSnapshotView>,
) -> Seq<ChampSelectEventView> {
    match snapshot {
        None => if previous is Some {
            seq![event_of(ChampSelectEventKind::SessionEnded, None)]
        } else {
            with_live_start(Seq::empty(), had_raw, has_raw, snapshot)
        },
        Some(current) => with_live_start(
            match previous {
                None => seq![event_of(ChampSelectEventKind::SessionStarted, snapshot)],
                Some(p) => change_events(p, current),
            },
            had_raw,
            has_raw,
            snapshot,
        ),
    }
}

/// Between two snapshots, a ban change is reported exactly when the bans of
/// either team differ.
pub proof fn lemma_ban_changes_are_reported(
    previous: DraftSnapshotView,
    current: DraftSnapshotView,
    had_raw: bool,
    has_raw: bool,
)
    ensures
        (exists|k: int|
            0 <= k < diff_events_of(Some(previous), had_raw, has_raw, Some(current)).len()
                && (#[trigger] diff_events_of(Some(previous), had_raw, has_raw, Some(current))[k]).kind
                == ChampSelectEventKind::BanChanged) <==> (previous.state.ally_bans
            != current.state.ally_bans || previous.state.enemy_bans != current.state.enemy_bans),
{
    let c = Some(current);
    let phase = if previous.state.phase != current.state.phase {
        seq![event_of(ChampSelectEventKind::PhaseChanged, c)]
    } else {
        Seq::<ChampSelectEventView>::empty()
    };
    let bans = if previous.state.ally_bans != current.state.ally_bans || previous.state.enemy_bans
        != current.state.enemy_bans {
        seq![event_of(ChampSelectEventKind::BanChanged, c)]
    } else {
        Seq::<ChampSelectEventView>::empty()
    };
    let picks = if previous.state.ally != current.state.ally || previous.state.enemy
        != current.state.enemy {
        seq![event_of(ChampSelectEventKind::PickChanged, c)]
    } else {
        Seq::<ChampSelectEventView>::empty()
    };
    let changes = change_events(previous, current);
    assert(changes =~= phase + bans + picks);
    let events = diff_events_of(Some(previous), had_raw, has_raw, Some(current));
    if bans.len() > 0 {
        assert(events == changes);
        assert(events[phase.len() as int].kind == ChampSelectEventKind::BanChanged);
    } else {
        assert forall|k: int| 0 <= k < events.len() implies (#[trigger] events[k]).kind
            != ChampSelectEventKind::BanChanged by {
            if changes.len() > 0 {
                assert(events == changes);
                if k < phase.len() {
                    assert(events[k] == phase[k]);
                } else {
                    assert(events[k] == picks[k - phase.len()]);
                }
            }
        }
    }
}

/// Between two snapshots, a phase change is reported exactly when the phases
/// differ, and a pick change exactly when the picks of either team differ.
pub proof fn lemma_phase_and_pick_changes_are_reported(
    previous: DraftSnapshotView,
    current: DraftSnapshotView,
    had_raw: bool,
    has_raw: bool,
)
    ensures
        (exists|k: int|
            0 <= k < diff_events_of(Some(previous), had_raw, has_raw, Some(current)).len()
                && (#[trigger] diff_events_of(Some(previous), had_raw, has_raw, Some(current))[k]).kind
                == ChampSelectEventKind::PhaseChanged) <==> previous.state.phase != current.state.phase,
        (exists|k: int|
            0 <= k < diff_events_of(Some(previous), had_raw, has_raw, Some(current)).len()
                && (#[trigger] diff_events_of(Some(previous), had_raw, has_raw, Some(current))[k]).kind
                == ChampSelectEventKind::PickChanged) <==> (previous.state.ally != current.state.ally
            || previous.state.enemy != current.state.enemy),
{
    let c = Some(current);
    let phase = if previous.state.phase != current.state.phase {
        seq![event_of(ChampSelectEventKind::PhaseChanged, c)]
    } else {
        Seq::<ChampSelectEventView>::empty()
    };
    let bans = if previous.state.ally_bans != current.state.ally_bans || previous.state.enemy_bans
        != current.state.enemy_bans {
        seq![event_of(ChampSelectEventKind::BanChanged, c)]
    } else {
        Seq::<ChampSelectEventView>::empty()
    };
    let picks = if previous.state.ally != current.state.ally || previous.state.enemy
        != current.state.enemy {
        seq![event_of(ChampSelectEventKind::PickChanged, c)]
    } else {
        Seq::<ChampSelectEventView>::empty()
    };
    let changes = change_events(previous, current);
    assert(changes =~= phase + bans + picks);
    let events = diff_events_of(Some(previous), had_raw, has_raw, Some(current));
    if changes.len() > 0 {
        assert(events == changes);
        if phase.len() > 0 {
            assert(events[0].kind == ChampSelectEventKind::PhaseChanged);
        }
        if picks.len() > 0 {
            assert(events[(phase.len() + bans.len()) as int].kind == ChampSelectEventKind::PickChanged);
        }
        assert forall|k: int| 0 <= k < events.len() implies ((#[trigger] events[k]).kind
            == ChampSelectEventKind::PhaseChanged ==> phase.len() > 0) && (events[k].kind
            == ChampSelectEventKind::PickChanged ==> picks.len() > 0) by {
            if k < phase.len() {
                assert(events[k] == phase[k]);
            } else if k < phase.len() + bans.len() {
                assert(events[k] == bans[k - phase.len()]);
            } else {
                assert(events[k] == picks[k - phase.len() - bans.len()]);
            }
        }
    } else {
        assert forall|k: int| 0 <= k < events.len() implies (#[trigger] events[k]).kind
            == ChampSelectEventKind::SessionStarted by {}
    }
}

/// Two snapshots that are equal give no change event, unless a live session
/// appears where there was none.
pub proof fn lemma_unchanged_snapshot_is_silent(snapshot: DraftSnapshotView, had_raw: bool, has_raw: bool)
    requires
        had_raw || !has_raw,
    ensures
        diff_events_of(Some(snapshot), had_raw, has_raw, Some(snapshot)) == Seq::<ChampSelectEventView>::empty(),
{
    assert(change_events(snapshot, snapshot) =~= Seq::<ChampSelectEventView>::empty());
}

/// A snapshot after none starts the session, and no snapshot after one ends it.
pub proof fn lemma_session_boundaries(snapshot: DraftSnapshotView, had_raw: bool, has_raw: bool)
    ensures
        diff_events_of(None, had_raw, has_raw, Some(snapshot)) == seq![
            event_of(ChampSelectEventKind::SessionStarted, Some(snapshot)),
        ],
        diff_events_of(Some(snapshot), had_raw, has_raw, None) == seq![
            event_of(ChampSelectEventKind::SessionEnded, None),
        ],
{
}

// ---------------------------------------------------------------- the monitor

pub open spec fn session_option_view(s: Option<RiotChampSelectSession>) -> Option<RiotChampSelectSessionView> {
    match s {
        Some(x) => Some(x@),
        None => None,
    }
}

/// The outcome of a poll that found no session: the idle interval, a
/// session-ended event when a snapshot was shown, no snapshot; nothing is
/// remembered.
pub open spec fn ended_outcome(
    previous: Option<DraftSnapshotView>,
    out: PollOutcomeView,
    next_previous: Option<DraftSnapshotView>,
    next_raw: Option<RiotChampSelectSessionView>,
) -> bool {
    &&& out.next_interval == duration_of_millis(POLL_IDLE_MS)
    &&& out.events == (if previous is Some {
        seq![event_of(ChampSelectEventKind::SessionEnded, None)]
    } else {
        Seq::empty()
    })
    &&& out.snapshot is None
    &&& next_previous is None
    &&& next_raw is None
}

/// The outcome of a poll that fell back to the sandbox for `reason`, showing
/// `draft`: the idle interval, a sandbox snapshot of that draft for that
/// reason, the events from the previous snapshot to it; the snapshot is
/// remembered, no live session is.
pub open spec fn fallback_outcome(
    previous: Option<DraftSnapshotView>,
    had_raw: bool,
    reason: DraftUnavailableReason,
    draft: DraftStateView,
    out: PollOutcomeView,
    next_previous: Option<DraftSnapshotView>,
    next_raw: Option<RiotChampSelectSessionView>,
) -> bool {
    &&& out.next_interval == duration_of_millis(POLL_IDLE_MS)
    &&& out.snapshot == Some(
        DraftSnapshotView { availability: DraftAvailability::Sandbox { reason }, state: draft },
    )
    &&& out.events == diff_events_of(previous, had_raw, false, out.snapshot)
    &&& next_previous == out.snapshot
    &&& next_raw is None
}

/// The outcome of a poll that read a live session whose draft is `draft`:
/// the interval for the session, a live snapshot of that draft, the events
/// from the previous snapshot to it; both the snapshot and the session are
/// remembered.
pub open spec fn live_outcome(
    previous: Option<DraftSnapshotView>,
    had_raw: bool,
    session: RiotChampSelectSessionView,
    draft: DraftStateView,
    out: PollOutcomeView,
    next_previous: Option<DraftSnapshotView>,
    next_raw: Option<RiotChampSelectSessionView>,
) -> bool {
    &&& out.next_interval == duration_of_millis(interval_millis(session))
    &&& out.snapshot == Some(DraftSnapshotView { availability: DraftAvailability::Live, state: draft })
    &&& out.events == diff_events_of(previous, had_raw, true, out.snapshot)
    &&& next_previous == out.snapshot
    &&& next_raw == Some(session)
}

/// What a monitor remembers fits together: a remembered live session comes
/// with a remembered live snapshot.
pub open spec fn memory_consistent(
    previous: Option<DraftSnapshotView>,
    raw: Option<RiotChampSelectSessionView>,
) -> bool {
    raw is Some ==> (previous matches Some(s) && s.availability == DraftAvailability::Live)
}

/// Every kind of poll leaves the monitor's memory consistent, and a poll
/// that shows a snapshot remembers exactly that snapshot.
pub proof fn lemma_polls_keep_memory_consistent(
    previous: Option<DraftSnapshotView>,
    had_raw: bool,
    reason: DraftUnavailableReason,
    session: RiotChampSelectSessionView,
    draft: DraftStateView,
    out: PollOutcomeView,
    next_previous: Option<DraftSnapshotView>,
    next_raw: Option<RiotChampSelectSessionView>,
)
    ensures
        ended_outcome(previous, out, next_previous, next_raw) ==> memory_consistent(next_previous, next_raw),
        fallback_outcome(previous, had_raw, reason, draft, out, next_previous, next_raw) ==> memory_consistent(
            next_previous,
            next_raw,
        ) && next_previous == out.snapshot,
        live_outcome(previous, had_raw, session, draft, out, next_previous, next_raw) ==> memory_consistent(
            next_previous,
            next_raw,
        ) && next_previous == out.snapshot,
{
}

/// A session end is reported once: after a poll that found no session, the
/// next such poll reports nothing.
pub proof fn lemma_end_is_reported_once(
    previous: Option<DraftSnapshotView>,
    first: PollOutcomeView,
    middle: Option<DraftSnapshotView>,
    middle_raw: Option<RiotChampSelectSessionView>,
    second: PollOutcomeView,
    last: Option<DraftSnapshotView>,
    last_raw: Option<RiotChampSelectSessionView>,
)
    requires
        ended_outcome(previous, first, middle, middle_raw),
        ended_outcome(middle, second, last, last_raw),
    ensures
        second.events == Seq::<ChampSelectEventView>::empty(),
{
}

/// Polling an unchanged live session again, with the same draft, reports
/// nothing.
pub proof fn lemma_repeated_live_poll_is_silent(
    previous: Option<DraftSnapshotView>,
    had_raw: bool,
    session: RiotChampSelectSessionView,
    draft: DraftStateView,
    first: PollOutcomeView,
    middle: Option<DraftSnapshotView>,
    middle_raw: Option<RiotChampSelectSessionView>,
    second: PollOutcomeView,
    last: Option<DraftSnapshotView>,
    last_raw: Option<RiotChampSelectSessionView>,
)
    requires
        live_outcome(previous, had_raw, session, draft, first, middle, middle_raw),
        live_outcome(middle, middle_raw is Some, session, draft, second, last, last_raw),
    ensures
        second.events == Seq::<ChampSelectEventView>::empty(),
{
    lemma_unchanged_snapshot_is_silent(
        DraftSnapshotView { availability: DraftAvailability::Live, state: draft },
        true,
        true,
    );
}

/// Falling back again for the same reason, with the same sandbox draft,
/// reports nothing.
pub proof fn lemma_repeated_fallback_is_silent(
    previous: Option<DraftSnapshotView>,
    had_raw: bool,
    reason: DraftUnavailableReason,
    draft: DraftStateView,
    first: PollOutcomeView,
    middle: Option<DraftSnapshotView>,
    middle_raw: Option<RiotChampSelectSessionView>,
    second: PollOutcomeView,
    last: Option<DraftSnapshotView>,
    last_raw: Option<RiotChampSelectSessionView>,
)
    requires
        fallback_outcome(previous, had_raw, reason, draft, first, middle, middle_raw),
        fallback_outcome(middle, middle_raw is Some, reason, draft, second, last, last_raw),
    ensures
        second.events == Seq::<ChampSelectEventView>::empty(),
{
    lemma_unchanged_snapshot_is_silent(
        DraftSnapshotView { availability: DraftAvailability::Sandbox { reason }, state: draft },
        false,
        false,
    );
}

/// Watches the champ-select session of the local client, falls back to a
/// sandbox draft when the client is unavailable, and reports what changed.
pub struct ChampSelectMonitor<'resolver, Reader, Sandbox, Resolver> where
    Reader: RiotSessionReader,
    Sandbox: SandboxDraftSource,
    Resolver: ChampionResolver,
 {
    pub reader: Reader,
    pub sandbox: Sandbox,
    pub transformer: DraftStateTransformer<'resolver, Resolver>,
    pub previous: Option<DraftSnapshot>,
    pub previous_raw: Option<RiotChampSelectSession>,
}

impl<'resolver, Reader, Sandbox, Resolver> ChampSelectMonitor<'resolver, Reader, Sandbox, Resolver> where
    Reader: RiotSessionReader,
    Sandbox: SandboxDraftSource,
    Resolver: ChampionResolver,
 {
    pub open spec fn previous_view(&self) -> Option<DraftSnapshotView> {
        snapshot_option_view(self.previous)
    }

    pub open spec fn previous_raw_view(&self) -> Option<RiotChampSelectSessionView> {
        session_option_view(self.previous_raw)
    }

    /// A monitor that has shown nothing yet.
    pub fn new(reader: Reader, sandbox: Sandbox, resolver: &'resolver Resolver) -> (r: Self)
        ensures
            r.reader == reader,
            r.sandbox == sandbox,
            r.transformer.resolver_of() == resolver,
            r.previous is None,
            r.previous_raw is None,
    {
        ChampSelectMonitor {
            reader,
            sandbox,
            transformer: DraftStateTransformer::new(resolver),
            previous: None,
            previous_raw: None,
        }
    }

    /// The events between the remembered snapshot and `snapshot`; `raw_session`
    /// is the live session read in this poll, if any.
    pub fn diff_events(
        &self,
        raw_session: Option<&RiotChampSelectSession>,
        snapshot: Option<&DraftSnapshot>,
    ) -> (r: Vec<ChampSelectEvent>)
        ensures
            r.deep_view() == diff_events_of(
                self.previous_view(),
                self.previous_raw is Some,
                raw_session is Some,
                snapshot_ref_view(snapshot),
            ),
    {
        let mut events: Vec<ChampSelectEvent> = Vec::new();
        match snapshot {
            None => {
                if self.previous.is_some() {
                    events.push(ChampSelectEvent { kind: ChampSelectEventKind::SessionEnded, state: None });
                    assert(events.deep_view() =~= seq![event_of(ChampSelectEventKind::SessionEnded, None)]);
                    return events;
                }
            },
            Some(current) => {
                match &self.previous {
                    None => {
                        events.push(
                            ChampSelectEvent {
                                kind: ChampSelectEventKind::SessionStarted,
                                state: Some(current.duplicate()),
                            },
                        );
                    },
                    Some(previous) => {
                        let ghost c = Some(current@);
                        if previous.state.phase != current.state.phase {
                            events.push(
                                ChampSelectEvent {
                                    kind: ChampSelectEventKind::PhaseChanged,
                                    state: Some(current.duplicate()),
                                },
                            );
                        }
                        let ghost after_phase = events.deep_view();
                        if !same_strings(&previous.state.ally_bans, &current.state.ally_bans)
                            || !same_strings(&previous.state.enemy_bans, &current.state.enemy_bans) {
                            events.push(
                                ChampSelectEvent {
                                    kind: ChampSelectEventKind::BanChanged,
                                    state: Some(current.duplicate()),
                                },
                            );
                        }
                        let ghost after_bans = events.deep_view();
                        if !same_champions(&previous.state.ally.champions, &current.state.ally.champions)
                            || !same_champions(&previous.state.enemy.champions, &current.state.enemy.champions) {
                            events.push(
                                ChampSelectEvent {
                                    kind: ChampSelectEventKind::PickChanged,
                                    state: Some(current.duplicate()),
                                },
                            );
                        }
                        assert(events.deep_view() =~= change_events(previous@, current@));
                    },
                }
            },
        }
        let ghost base = events.deep_view();
        if events.len() == 0 && self.previous_raw.is_none() && raw_session.is_some() {
            let state = match snapshot {
                Some(s) => Some(s.duplicate()),
                None => None,
            };
            events.push(ChampSelectEvent { kind: ChampSelectEventKind::SessionStarted, state });
            assert(events.deep_view() =~= seq![event_of(ChampSelectEventKind::SessionStarted, snapshot_ref_view(snapshot))]);
        }
        events
    }

    /// A poll that found no champ-select session.
    pub fn handle_session_end(&mut self) -> (r: PollOutcome)
        ensures
            ended_outcome(
                old(self).previous_view(),
                r@,
                final(self).previous_view(),
                final(self).previous_raw_view(),
            ),
            final(self).reader == old(self).reader,
            final(self).sandbox == old(self).sandbox,
            final(self).transformer == old(self).transformer,
    {
        let had_previous = self.previous.is_some();
        self.previous = None;
        self.previous_raw = None;
        let mut events: Vec<ChampSelectEvent> = Vec::new();
        if had_previous {
            events.push(ChampSelectEvent { kind: ChampSelectEventKind::SessionEnded, state: None });
            assert(events.deep_view() =~= seq![event_of(ChampSelectEventKind::SessionEnded, None)]);
        } else {
            assert(events.deep_view() =~= Seq::<ChampSelectEventView>::empty());
        }
        PollOutcome { next_interval: millis(POLL_IDLE_MS), events, snapshot: None }
    }

    /// The fallback for a client error: the sandbox's draft for the reason
    /// the error maps to.
    pub open spec fn unavailable_outcome(
        &self,
        error: RiotClientErrorView,
        out: PollOutcomeView,
        next_previous: Option<DraftSnapshotView>,
        next_raw: Option<RiotChampSelectSessionView>,
    ) -> bool {
        fallback_outcome(
            self.previous_view(),
            self.previous_raw is Some,
            reason_for(error),
            self.sandbox.draft_for(reason_for(error))@,
            out,
            next_previous,
            next_raw,
        )
    }

    /// The outcome for a live session, given the reader's answer for the patch
    /// version: a failure falls back for its reason, a blank patch falls back
    /// as an unknown patch; otherwise the session's draft for the trimmed patch,
    /// with the resolver's answer for each member, is shown live.
    pub open spec fn live_answer_outcome(
        &self,
        session: RiotChampSelectSessionView,
        patch: Result<Seq<char>, RiotClientErrorView>,
        out: PollOutcomeView,
        next_previous: Option<DraftSnapshotView>,
        next_raw: Option<RiotChampSelectSessionView>,
    ) -> bool {
        match patch {
            Err(e) => self.unavailable_outcome(e, out, next_previous, next_raw),
            Ok(p) => if trimmed(p).len() == 0 {
                self.unavailable_outcome(RiotClientErrorView::PatchUnknown, out, next_previous, next_raw)
            } else {
                live_outcome(
                    self.previous_view(),
                    self.previous_raw is Some,
                    session,
                    draft_from_session(
                        trimmed(p),
                        session,
                        resolutions(self.transformer.resolver_of(), session.my_team),
                        resolutions(self.transformer.resolver_of(), session.their_team),
                    ),
                    out,
                    next_previous,
                    next_raw,
                )
            },
        }
    }

    /// The outcome of a poll, given the reader's answer for the session: no
    /// session ends it, a failure falls back for its reason, and a session is
    /// shown as `live_answer_outcome` says for the reader's patch answer.
    pub open spec fn poll_result(
        &self,
        fetched: Result<Option<RiotChampSelectSessionView>, RiotClientErrorView>,
        out: PollOutcomeView,
        next_previous: Option<DraftSnapshotView>,
        next_raw: Option<RiotChampSelectSessionView>,
    ) -> bool {
        match fetched {
            Ok(None) => ended_outcome(self.previous_view(), out, next_previous, next_raw),
            Err(e) => self.unavailable_outcome(e, out, next_previous, next_raw),
            Ok(Some(session)) => self.live_poll_result(session, out, next_previous, next_raw),
        }
    }

    /// The outcome for a live session, for whatever the reader answers for
    /// the patch version.
    pub open spec fn live_poll_result(
        &self,
        session: RiotChampSelectSessionView,
        out: PollOutcomeView,
        next_previous: Option<DraftSnapshotView>,
        next_raw: Option<RiotChampSelectSessionView>,
    ) -> bool {
        exists|patch: Result<Seq<char>, RiotClientErrorView>|
            #[trigger] self.live_answer_outcome(session, patch, out, next_previous, next_raw)
    }

    /// A poll on which the live client failed with `error`: the sandbox draft
    /// for the reason that the error maps to is shown.
    pub fn handle_live_unavailable(&mut self, error: RiotClientError) -> (r: PollOutcome)
        ensures
            old(self).unavailable_outcome(
                error@,
                r@,
                final(self).previous_view(),
                final(self).previous_raw_view(),
            ),
            final(self).reader == old(self).reader,
            final(self).sandbox == old(self).sandbox,
            final(self).transformer == old(self).transformer,
    {
        let reason = DraftUnavailableReason::from(&error);
        let state = self.sandbox.snapshot(reason);
        let snapshot = DraftSnapshot { availability: DraftAvailability::Sandbox { reason }, state };
        let events = self.diff_events(None, Some(&snapshot));
        self.previous = Some(snapshot.duplicate());
        self.previous_raw = None;
        PollOutcome { next_interval: millis(POLL_IDLE_MS), events, snapshot: Some(snapshot) }
    }

    /// A poll that read a live session, given what the reader answered for
    /// the patch version: a failure, or a blank patch, falls back to the
    /// sandbox; otherwise the session's draft for the trimmed patch is shown.
    pub fn handle_live_session_with(
        &mut self,
        session: RiotChampSelectSession,
        patch: Result<String, RiotClientError>,
    ) -> (r: PollOutcome)
        ensures
            old(self).live_answer_outcome(
                session@,
                text_result_view(patch),
                r@,
                final(self).previous_view(),
                final(self).previous_raw_view(),
            ),
            final(self).reader == old(self).reader,
            final(self).sandbox == old(self).sandbox,
            final(self).transformer == old(self).transformer,
    {
        match patch {
            Ok(p) => match self.transformer.transform(Some(p.as_str()), &session) {
                Ok(state) => {
                    let snapshot = DraftSnapshot { availability: DraftAvailability::Live, state };
                    let events = self.diff_events(Some(&session), Some(&snapshot));
                    let next_interval = interval_for_session(&session);
                    self.previous = Some(snapshot.duplicate());
                    self.previous_raw = Some(session);
                    PollOutcome { next_interval, events, snapshot: Some(snapshot) }
                },
                Err(_) => self.handle_live_unavailable(RiotClientError::PatchUnknown),
            },
            Err(error) => self.handle_live_unavailable(error),
        }
    }

    /// A poll that read a live session: asks the reader for the patch version.
    fn handle_live_session(&mut self, session: RiotChampSelectSession) -> (r: PollOutcome)
        ensures
            exists|patch: Result<Seq<char>, RiotClientErrorView>|
                #[trigger] old(self).live_answer_outcome(
                    session@,
                    patch,
                    r@,
                    final(self).previous_view(),
                    final(self).previous_raw_view(),
                ),
            final(self).reader == old(self).reader,
            final(self).sandbox == old(self).sandbox,
            final(self).transformer == old(self).transformer,
    {
        let patch = self.reader.fetch_patch_version();
        let ghost answer = text_result_view(patch);
        let r = self.handle_live_session_with(session, patch);
        assert(old(self).live_answer_outcome(
            session@,
            answer,
            r@,
            self.previous_view(),
            self.previous_raw_view(),
        ));
        r
    }

    /// One poll, given the reader's answer for the session: no session ends
    /// the watch, a failure falls back to the sandbox for its reason, and a
    /// session is read with the reader's patch version.
    pub fn poll_with(
        &mut self,
        fetched: Result<Option<RiotChampSelectSession>, RiotClientError>,
    ) -> (r: PollOutcome)
        ensures
            old(self).poll_result(
                session_outcome_view(fetched),
                r@,
                final(self).previous_view(),
                final(self).previous_raw_view(),
            ),
            final(self).reader == old(self).reader,
            final(self).sandbox == old(self).sandbox,
            final(self).transformer == old(self).transformer,
    {
        match fetched {
            Ok(Some(session)) => {
                let ghost sv = session@;
                assert(session_outcome_view(fetched) == Ok::<Option<RiotChampSelectSessionView>, RiotClientErrorView>(Some(sv)));
                let r = self.handle_live_session(session);
                r
            },
            Ok(None) => self.handle_session_end(),
            Err(error) => self.handle_live_unavailable(error),
        }
    }

    /// Polls the reader once: the outcome is the one `poll_with` gives for
    /// whatever the reader answers for the session.
    pub fn poll_once(&mut self) -> (r: PollOutcome)
        ensures
            exists|fetched: Result<Option<RiotChampSelectSessionView>, RiotClientErrorView>|
                #[trigger] old(self).poll_result(
                    fetched,
                    r@,
                    final(self).previous_view(),
                    final(self).previous_raw_view(),
                ),
            final(self).reader == old(self).reader,
            final(self).sandbox == old(self).sandbox,
            final(self).transformer == old(self).transformer,
    {
        let fetched = self.reader.fetch_session();
        let ghost answer = session_outcome_view(fetched);
        let r = self.poll_with(fetched);
        assert(old(self).poll_result(answer, r@, self.previous_view(), self.previous_raw_view()));
        r
    }
}

} // verus!
