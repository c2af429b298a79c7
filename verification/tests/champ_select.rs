use std::cell::RefCell;
use std::collections::VecDeque;
use std::time::Duration;

use draft_team::adapters::champ_select::{
    interval_for_session, is_draft_active, is_lock_in_window, ChampSelectEventKind,
    ChampSelectMonitor, DraftAvailability, DraftSnapshot, DraftUnavailableReason,
    SandboxDraftSource, POLL_DRAFT_MS, POLL_IDLE_MS, POLL_LOCK_IN_MS,
};
use draft_team::adapters::riot_client::{
    ChampionResolver, DraftStateTransformer, LockfileData, RiotAction, RiotBans,
    RiotChampSelectSession, RiotClientError, RiotSessionReader, RiotTeamMember, RiotTimer,
};
use draft_team::domain::champion::{
    Champion, DamageProfile, ExecutionDemand, LanePattern, Role, RoleConfidenceMap,
};
use draft_team::domain::composition::CompositionIdentity;
use draft_team::domain::draft::{DraftPhase, DraftState, TeamDraft, TeamSide};

struct QueueReader {
    sessions: RefCell<VecDeque<Result<Option<RiotChampSelectSession>, RiotClientError>>>,
    patches: RefCell<VecDeque<Result<String, RiotClientError>>>,
}

impl QueueReader {
    fn new(
        sessions: Vec<Result<Option<RiotChampSelectSession>, RiotClientError>>,
        patches: Vec<Result<String, RiotClientError>>,
    ) -> Self {
        Self {
            sessions: RefCell::new(sessions.into()),
            patches: RefCell::new(patches.into()),
        }
    }
}

impl RiotSessionReader for QueueReader {
    fn fetch_patch_version(&self) -> Result<String, RiotClientError> {
        self.patches
            .borrow_mut()
            .pop_front()
            .unwrap_or(Ok("15.7".into()))
    }

    fn fetch_session(&self) -> Result<Option<RiotChampSelectSession>, RiotClientError> {
        self.sessions.borrow_mut().pop_front().unwrap_or(Ok(None))
    }
}

struct StaticSandbox;

impl SandboxDraftSource for StaticSandbox {
    fn draft_for(&self, reason: DraftUnavailableReason) -> DraftState {
        self.snapshot(reason)
    }

    fn snapshot(&self, _reason: DraftUnavailableReason) -> DraftState {
        DraftState {
            patch: "sandbox".into(),
            side: TeamSide::Blue,
            phase: DraftPhase::Complete,
            ally: TeamDraft { champions: vec![] },
            enemy: TeamDraft { champions: vec![] },
            ally_bans: vec![],
            enemy_bans: vec![],
            contested_roles: vec![],
        }
    }
}

struct TestResolver;

impl ChampionResolver for TestResolver {
    fn resolution(&self, champion_id: i64) -> Option<Champion> {
        self.resolve(champion_id)
    }

    fn resolve(&self, champion_id: i64) -> Option<Champion> {
        let mut role_confidence_map = RoleConfidenceMap::new();
        role_confidence_map.insert(Role::Top, 100);
        Some(Champion {
            id: champion_id.to_string(),
            name: format!("Champion {champion_id}"),
            roles: vec![Role::Top],
            role_confidence_map,
            identities: vec![CompositionIdentity::Engage],
            damage_profile: DamageProfile::Mixed,
            execution_demand: ExecutionDemand::Low,
            lane_pattern: LanePattern::Stable,
            crowd_control: 1,
            engage: 1,
            scaling: 1,
            durability: 1,
            mobility: 1,
        })
    }
}

fn live_session(champion_id: i64) -> RiotChampSelectSession {
    RiotChampSelectSession {
        local_player_cell_id: 1,
        actions: vec![vec![RiotAction {
            actor_cell_id: 1,
            champion_id,
            completed: true,
            is_in_progress: false,
            action_type: "pick".into(),
        }]],
        my_team: vec![RiotTeamMember {
            cell_id: 1,
            champion_id,
            assigned_position: "top".into(),
            champion_pick_intent: champion_id,
        }],
        their_team: vec![],
        bans: RiotBans::default(),
        timer: RiotTimer {
            phase: "BAN_PICK".into(),
        },
    }
}

#[test]
fn adaptive_polling_uses_expected_intervals() {
    assert_eq!(
        interval_for_session(&RiotChampSelectSession::default()),
        Duration::from_millis(POLL_IDLE_MS)
    );
    assert_eq!(
        interval_for_session(&live_session(10)),
        Duration::from_millis(POLL_DRAFT_MS)
    );

    let mut lock_in = live_session(10);
    lock_in.actions[0][0].completed = false;
    lock_in.actions[0][0].is_in_progress = true;
    assert_eq!(
        interval_for_session(&lock_in),
        Duration::from_millis(POLL_LOCK_IN_MS)
    );
}

#[test]
fn emits_session_started_and_pick_changed_without_duplicates() {
    let reader = QueueReader::new(
        vec![Ok(Some(live_session(10))), Ok(Some(live_session(10)))],
        vec![Ok("15.7".into()), Ok("15.7".into())],
    );
    let mut monitor = ChampSelectMonitor::new(reader, StaticSandbox, &TestResolver);

    let first = monitor.poll_once();
    assert_eq!(first.events.len(), 1);
    assert_eq!(first.events[0].kind.as_str(), "session_started");

    let second = monitor.poll_once();
    assert!(second.events.is_empty());
}

#[test]
fn emits_pick_ban_and_phase_events_when_state_changes() {
    let initial = live_session(10);
    let mut changed = live_session(20);
    changed.bans.my_team_bans = vec![99];
    changed.actions = vec![
        vec![
            RiotAction {
                action_type: "ban".into(),
                completed: true,
                ..RiotAction::default()
            };
            6
        ],
        vec![RiotAction {
            action_type: "pick".into(),
            completed: true,
            champion_id: 20,
            actor_cell_id: 1,
            is_in_progress: false,
        }],
    ];

    let reader = QueueReader::new(
        vec![Ok(Some(initial)), Ok(Some(changed))],
        vec![Ok("15.7".into()), Ok("15.7".into())],
    );
    let mut monitor = ChampSelectMonitor::new(reader, StaticSandbox, &TestResolver);

    let first = monitor.poll_once();
    assert_eq!(first.events[0].kind, ChampSelectEventKind::SessionStarted);

    let second = monitor.poll_once();
    let event_kinds = second
        .events
        .iter()
        .map(|event| event.kind)
        .collect::<Vec<_>>();

    assert!(event_kinds.contains(&ChampSelectEventKind::PickChanged));
    assert!(event_kinds.contains(&ChampSelectEventKind::BanChanged));
    assert!(event_kinds.contains(&ChampSelectEventKind::PhaseChanged));
}

#[test]
fn falls_back_to_sandbox_when_live_is_unavailable() {
    let reader = QueueReader::new(vec![Err(RiotClientError::ClientAbsent)], vec![]);
    let mut monitor = ChampSelectMonitor::new(reader, StaticSandbox, &TestResolver);

    let outcome = monitor.poll_once();

    assert_eq!(outcome.events[0].kind, ChampSelectEventKind::SessionStarted);
    assert!(matches!(
        outcome.snapshot.unwrap().availability,
        DraftAvailability::Sandbox {
            reason: DraftUnavailableReason::ClientAbsent
        }
    ));
}

#[test]
fn emits_session_ended_when_riot_session_disappears() {
    let reader = QueueReader::new(vec![Ok(None)], vec![]);
    let mut monitor = ChampSelectMonitor {
        reader,
        sandbox: StaticSandbox,
        transformer: DraftStateTransformer::new(&TestResolver),
        previous: Some(DraftSnapshot {
            availability: DraftAvailability::Live,
            state: DraftState {
                patch: "15.7".into(),
                side: TeamSide::Blue,
                phase: DraftPhase::PickPhaseOne,
                ally: TeamDraft { champions: vec![] },
                enemy: TeamDraft { champions: vec![] },
                ally_bans: vec![],
                enemy_bans: vec![],
                contested_roles: vec![],
            },
        }),
        previous_raw: Some(live_session(10)),
    };

    let outcome = monitor.poll_once();

    assert_eq!(outcome.events[0].kind, ChampSelectEventKind::SessionEnded);
}

#[test]
fn maps_errors_to_expected_fallback_reasons() {
    assert_eq!(
        DraftUnavailableReason::from(&RiotClientError::LockfileAbsent),
        DraftUnavailableReason::LockfileAbsent
    );
    assert_eq!(
        DraftUnavailableReason::from(&RiotClientError::LocalSslInitializationFailed(
            "nope".into()
        )),
        DraftUnavailableReason::LocalSslFailed
    );
    assert_eq!(
        DraftUnavailableReason::from(&RiotClientError::PatchUnknown),
        DraftUnavailableReason::PatchUnknown
    );
    let _ = LockfileData::parse("LeagueClient:123:50443:password:https").unwrap();
}

#[test]
fn maps_every_client_error_to_a_reason() {
    assert_eq!(
        DraftUnavailableReason::from(&RiotClientError::ClientAbsent),
        DraftUnavailableReason::ClientAbsent
    );
    assert_eq!(
        DraftUnavailableReason::from(&RiotClientError::LockfileInaccessible {
            path: "/tmp/lockfile".into(),
            reason: "denied".into()
        }),
        DraftUnavailableReason::LockfileInaccessible
    );
    assert_eq!(
        DraftUnavailableReason::from(&RiotClientError::InvalidLockfile {
            reason: "bad".into()
        }),
        DraftUnavailableReason::LockfileInaccessible
    );
    assert_eq!(
        DraftUnavailableReason::from(&RiotClientError::LocalhostOnlyViolation {
            url: "https://example.com".into()
        }),
        DraftUnavailableReason::RequestFailed
    );
    assert_eq!(
        DraftUnavailableReason::from(&RiotClientError::RequestFailed("boom".into())),
        DraftUnavailableReason::RequestFailed
    );
}

#[test]
fn unknown_patch_falls_back_with_patch_unknown() {
    let reader = QueueReader::new(vec![Ok(Some(live_session(10)))], vec![Ok("   ".into())]);
    let mut monitor = ChampSelectMonitor::new(reader, StaticSandbox, &TestResolver);

    let outcome = monitor.poll_once();

    assert_eq!(outcome.next_interval, Duration::from_millis(POLL_IDLE_MS));
    assert!(matches!(
        outcome.snapshot.unwrap().availability,
        DraftAvailability::Sandbox {
            reason: DraftUnavailableReason::PatchUnknown
        }
    ));
    assert!(monitor.previous_raw.is_none());
}

#[test]
fn patch_request_failure_keeps_its_reason() {
    let reader = QueueReader::new(
        vec![Ok(Some(live_session(10)))],
        vec![Err(RiotClientError::EndpointChanged {
            endpoint: draft_team::adapters::riot_client::RiotEndpoint::GameVersion,
            status_code: 500,
        })],
    );
    let mut monitor = ChampSelectMonitor::new(reader, StaticSandbox, &TestResolver);

    let outcome = monitor.poll_once();

    assert!(matches!(
        outcome.snapshot.unwrap().availability,
        DraftAvailability::Sandbox {
            reason: DraftUnavailableReason::EndpointChanged
        }
    ));
}

#[test]
fn repeated_sandbox_polls_are_silent_and_end_is_reported_once() {
    let reader = QueueReader::new(
        vec![
            Err(RiotClientError::ClientAbsent),
            Err(RiotClientError::ClientAbsent),
            Ok(None),
            Ok(None),
        ],
        vec![],
    );
    let mut monitor = ChampSelectMonitor::new(reader, StaticSandbox, &TestResolver);

    assert_eq!(monitor.poll_once().events.len(), 1);
    assert!(monitor.poll_once().events.is_empty());
    let ended = monitor.poll_once();
    assert_eq!(ended.events.len(), 1);
    assert_eq!(ended.events[0].kind.as_str(), "session_ended");
    assert!(ended.snapshot.is_none());
    assert!(monitor.poll_once().events.is_empty());
}

#[test]
fn live_session_after_sandbox_reports_changes() {
    let reader = QueueReader::new(
        vec![Err(RiotClientError::ClientAbsent), Ok(Some(live_session(10)))],
        vec![Ok("15.7".into())],
    );
    let mut monitor = ChampSelectMonitor::new(reader, StaticSandbox, &TestResolver);

    monitor.poll_once();
    let live = monitor.poll_once();
    let kinds = live.events.iter().map(|e| e.kind).collect::<Vec<_>>();

    assert_eq!(
        kinds,
        vec![
            ChampSelectEventKind::PhaseChanged,
            ChampSelectEventKind::PickChanged
        ]
    );
    assert_eq!(live.next_interval, Duration::from_millis(POLL_DRAFT_MS));
    let snapshot = live.snapshot.unwrap();
    assert_eq!(snapshot.availability, DraftAvailability::Live);
    assert_eq!(snapshot.state.patch, "15.7");
}

#[test]
fn event_kinds_have_wire_names() {
    assert_eq!(ChampSelectEventKind::SessionStarted.as_str(), "session_started");
    assert_eq!(ChampSelectEventKind::PickChanged.as_str(), "pick_changed");
    assert_eq!(ChampSelectEventKind::BanChanged.as_str(), "ban_changed");
    assert_eq!(ChampSelectEventKind::PhaseChanged.as_str(), "phase_changed");
    assert_eq!(ChampSelectEventKind::SessionEnded.as_str(), "session_ended");
}

#[test]
fn draft_activity_reads_members_and_timer() {
    let idle = RiotChampSelectSession::default();
    assert!(!is_draft_active(&idle));
    assert!(!is_lock_in_window(&idle));

    let mut finalization = RiotChampSelectSession::default();
    finalization.timer.phase = "FINALIZATION".into();
    assert!(is_draft_active(&finalization));

    let mut with_enemy = RiotChampSelectSession::default();
    with_enemy.their_team.push(RiotTeamMember::default());
    assert!(is_draft_active(&with_enemy));

    let mut ban_in_progress = live_session(3);
    ban_in_progress.actions[0][0].action_type = "ban".into();
    ban_in_progress.actions[0][0].completed = false;
    ban_in_progress.actions[0][0].is_in_progress = true;
    assert!(!is_lock_in_window(&ban_in_progress));
}

struct ReasonSandbox;

impl SandboxDraftSource for ReasonSandbox {
    fn draft_for(&self, reason: DraftUnavailableReason) -> DraftState {
        self.snapshot(reason)
    }

    fn snapshot(&self, reason: DraftUnavailableReason) -> DraftState {
        let mut state = StaticSandbox.snapshot(reason);
        state.patch = format!("{reason:?}");
        state
    }
}

#[test]
fn sandbox_draft_is_the_one_for_the_reason() {
    let reader = QueueReader::new(
        vec![
            Err(RiotClientError::LockfileAbsent),
            Ok(Some(live_session(10))),
        ],
        vec![Ok("  ".into())],
    );
    let mut monitor = ChampSelectMonitor::new(reader, ReasonSandbox, &TestResolver);

    let first = monitor.poll_with(Err(RiotClientError::LockfileAbsent));
    assert_eq!(first.snapshot.unwrap().state.patch, "LockfileAbsent");
    let second = monitor.poll_once();
    assert_eq!(second.snapshot.unwrap().state.patch, "LockfileAbsent");
    assert!(second.events.is_empty());
    let third = monitor.poll_once();
    assert_eq!(third.snapshot.unwrap().state.patch, "PatchUnknown");
    assert_eq!(third.events.len(), 0);
}

#[test]
fn poll_with_dispatches_on_the_session_answer() {
    let reader = QueueReader::new(vec![], vec![Ok("15.7".into())]);
    let mut monitor = ChampSelectMonitor::new(reader, StaticSandbox, &TestResolver);

    let live = monitor.poll_with(Ok(Some(live_session(10))));
    let snapshot = live.snapshot.unwrap();
    assert_eq!(snapshot.availability, DraftAvailability::Live);
    assert_eq!(snapshot.state.ally.champions[0].name, "Champion 10");
    assert!(monitor.previous_raw.is_some());

    let ended = monitor.poll_with(Ok(None));
    assert_eq!(ended.events[0].kind, ChampSelectEventKind::SessionEnded);
    assert!(monitor.previous.is_none());
}
