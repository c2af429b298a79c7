use draft_team::adapters::riot_client::{
    default_lockfile_candidates, infer_contested_roles, infer_phase, infer_side,
    interpret_http_output, riot_lockfile_name, ChampionResolver, DiscoveryStep,
    DraftStateTransformer, DraftTransformError, HttpMethod, LocalRiotHttpClient, LockfileData,
    LockfileDiscoverer, PathProbe, RiotAction, RiotBans, RiotChampSelectSession,
    RiotClientError, RiotClientFactory, RiotEndpoint, RiotLiveClient, RiotTeamMember,
    RiotTimer,
};
use draft_team::domain::champion::{
    Champion, DamageProfile, ExecutionDemand, LanePattern, Role, RoleConfidenceMap,
};
use draft_team::domain::composition::CompositionIdentity;
use draft_team::domain::draft::{DraftPhase, TeamSide};

struct TestResolver;

impl ChampionResolver for TestResolver {
    fn resolution(&self, champion_id: i64) -> Option<Champion> {
        self.resolve(champion_id)
    }

    fn resolve(&self, champion_id: i64) -> Option<Champion> {
        let role = if champion_id % 2 == 0 {
            Role::Top
        } else {
            Role::Jungle
        };
        let mut role_confidence_map = RoleConfidenceMap::new();
        role_confidence_map.insert(role, 100);

        Some(Champion {
            id: champion_id.to_string(),
            name: format!("Champion {champion_id}"),
            roles: vec![role],
            role_confidence_map,
            identities: vec![CompositionIdentity::Engage],
            damage_profile: DamageProfile::Mixed,
            execution_demand: ExecutionDemand::Low,
            lane_pattern: LanePattern::Stable,
            crowd_control: 2,
            engage: 2,
            scaling: 2,
            durability: 2,
            mobility: 2,
        })
    }
}

fn credentials(protocol: &str) -> LockfileData {
    LockfileData {
        process_name: "LeagueClient".into(),
        pid: 123,
        port: 50_443,
        password: "password".into(),
        protocol: protocol.into(),
    }
}

#[test]
fn parses_lockfile() {
    let parsed = LockfileData::parse("LeagueClient:123:50443:password:https").unwrap();

    assert_eq!(parsed.pid, 123);
    assert_eq!(parsed.port, 50_443);
    assert_eq!(parsed.password, "password");
    assert_eq!(parsed.protocol, "https");
}

#[test]
fn refuses_non_localhost_urls() {
    let error = LocalRiotHttpClient::ensure_localhost(
        "https://riotgames.com/lol-champ-select/v1/session",
    )
    .unwrap_err();

    assert!(matches!(
        error,
        RiotClientError::LocalhostOnlyViolation { .. }
    ));
}

#[test]
fn transforms_riot_payload_into_draft_state() {
    let transformer = DraftStateTransformer::new(&TestResolver);
    let session = RiotChampSelectSession {
        local_player_cell_id: 2,
        actions: vec![vec![RiotAction {
            action_type: "ban".into(),
            completed: true,
            ..RiotAction::default()
        }]],
        my_team: vec![RiotTeamMember {
            cell_id: 2,
            champion_id: 2,
            assigned_position: "top".into(),
            champion_pick_intent: 266,
        }],
        their_team: vec![RiotTeamMember {
            cell_id: 6,
            champion_id: 3,
            assigned_position: "jungle".into(),
            champion_pick_intent: 64,
        }],
        bans: RiotBans {
            my_team_bans: vec![12],
            their_team_bans: vec![34],
        },
        timer: RiotTimer {
            phase: "BAN_PICK".into(),
        },
    };

    let state = transformer.transform(Some("15.7"), &session).unwrap();

    assert_eq!(state.patch, "15.7");
    assert_eq!(state.side, TeamSide::Blue);
    assert_eq!(state.phase, DraftPhase::BanPhaseOne);
    assert_eq!(state.ally.champions.len(), 1);
    assert_eq!(state.enemy.champions.len(), 1);
    assert_eq!(state.ally_bans, vec!["12"]);
}

#[test]
fn rejects_unknown_patch() {
    let transformer = DraftStateTransformer::new(&TestResolver);
    let error = transformer
        .transform(Some("   "), &RiotChampSelectSession::default())
        .unwrap_err();

    assert!(matches!(error, DraftTransformError::PatchUnknown));
}

#[test]
fn lockfile_parse_errors_name_the_problem() {
    match LockfileData::parse("LeagueClient:123:50443") {
        Err(RiotClientError::InvalidLockfile { reason }) => {
            assert_eq!(reason, "expected 5 segments, got 3")
        }
        other => panic!("unexpected {other:?}"),
    }
    match LockfileData::parse("LeagueClient:abc:50443:password:https") {
        Err(RiotClientError::InvalidLockfile { reason }) => {
            assert_eq!(reason, "invalid pid: invalid digit found in string")
        }
        other => panic!("unexpected {other:?}"),
    }
    match LockfileData::parse("LeagueClient:1:70000:password:https") {
        Err(RiotClientError::InvalidLockfile { reason }) => {
            assert_eq!(reason, "invalid port: number too large to fit in target type")
        }
        other => panic!("unexpected {other:?}"),
    }
    let trimmed = LockfileData::parse("  LeagueClient:+7:1:pw:https\n").unwrap();
    assert_eq!(trimmed.process_name, "LeagueClient");
    assert_eq!(trimmed.pid, 7);
    assert_eq!(trimmed.protocol, "https");
}

#[test]
fn client_builds_loopback_urls_and_requires_https() {
    let client = LocalRiotHttpClient::new(credentials("https")).unwrap();
    let url = client.url_for(RiotEndpoint::ChampSelectSession);
    assert_eq!(url, "https://127.0.0.1:50443/lol-champ-select/v1/session");
    assert!(LocalRiotHttpClient::ensure_localhost(&url).is_ok());
    assert_eq!(
        client.url_for(RiotEndpoint::GameVersion),
        "https://127.0.0.1:50443/lol-patch/v1/game-version"
    );
    assert_eq!(
        RiotEndpoint::CurrentSummoner.path(),
        "/lol-summoner/v1/current-summoner"
    );
    assert_eq!(HttpMethod::Get.as_str(), "GET");

    match LocalRiotHttpClient::new(credentials("http")) {
        Err(RiotClientError::LocalSslInitializationFailed(reason)) => {
            assert_eq!(reason, "riot local client must use https")
        }
        other => panic!("unexpected {other:?}"),
    }
    assert!(LocalRiotHttpClient::ensure_localhost("https://localhost:1/x").is_ok());
    assert!(LocalRiotHttpClient::ensure_localhost("https://[::1]:1/x").is_ok());
    assert!(LocalRiotHttpClient::ensure_localhost("http://127.0.0.1:1/x").is_err());
}

#[test]
fn http_output_is_split_into_body_and_status() {
    let body = interpret_http_output("{\"a\":1}\n200", RiotEndpoint::CurrentSummoner).unwrap();
    assert_eq!(body, "{\"a\":1}");

    assert_eq!(
        interpret_http_output("nothing here", RiotEndpoint::GameVersion),
        Err(RiotClientError::RequestFailed(
            "missing http status from curl output".into()
        ))
    );
    assert_eq!(
        interpret_http_output("oops\n404", RiotEndpoint::ChampSelectSession),
        Err(RiotClientError::EndpointChanged {
            endpoint: RiotEndpoint::ChampSelectSession,
            status_code: 404
        })
    );
    assert_eq!(
        interpret_http_output("x\nabc", RiotEndpoint::GameVersion),
        Err(RiotClientError::RequestFailed(
            "invalid digit found in string".into()
        ))
    );
}

#[test]
fn game_version_decodes_json_and_refuses_blank() {
    let client = LocalRiotHttpClient::new(credentials("https")).unwrap();
    assert_eq!(
        client.game_version(Ok("\"15.7.1\"".into())),
        Ok("15.7.1".to_string())
    );
    assert_eq!(
        client.game_version(Ok("\"  \"".into())),
        Err(RiotClientError::PatchUnknown)
    );
    assert!(matches!(
        client.game_version(Ok("15.7".into())),
        Err(RiotClientError::RequestFailed(_))
    ));
    assert_eq!(
        client.game_version(Err(RiotClientError::ClientAbsent)),
        Err(RiotClientError::ClientAbsent)
    );
}

#[test]
fn live_client_reads_404_as_no_session() {
    let client = RiotLiveClient::new(LocalRiotHttpClient::new(credentials("https")).unwrap());
    assert_eq!(
        client.session_from(Err(RiotClientError::EndpointChanged {
            endpoint: RiotEndpoint::ChampSelectSession,
            status_code: 404
        })),
        Ok(None)
    );
    assert_eq!(
        client.session_from(Err(RiotClientError::RequestFailed(
            "HTTP 404 not found".into()
        ))),
        Ok(None)
    );
    assert_eq!(
        client.session_from(Err(RiotClientError::EndpointChanged {
            endpoint: RiotEndpoint::GameVersion,
            status_code: 404
        })),
        Err(RiotClientError::EndpointChanged {
            endpoint: RiotEndpoint::GameVersion,
            status_code: 404
        })
    );
    assert_eq!(
        client.session_from(Ok(RiotChampSelectSession::default())),
        Ok(Some(RiotChampSelectSession::default()))
    );
    assert_eq!(
        client.patch_version_from(Ok("\"15.6\"".into())),
        Ok("15.6".to_string())
    );
}

#[test]
fn factory_connects_only_with_https_credentials() {
    let factory = RiotClientFactory::new(LockfileDiscoverer::new(vec![]));
    let client = factory
        .connect(Ok(("/x/lockfile".into(), credentials("https"))))
        .unwrap();
    assert_eq!(client.http().base_url, "https://127.0.0.1:50443");
    assert!(matches!(
        factory.connect(Ok(("/x/lockfile".into(), credentials("http")))),
        Err(RiotClientError::LocalSslInitializationFailed(_))
    ));
    assert!(matches!(
        factory.connect(Err(RiotClientError::ClientAbsent)),
        Err(RiotClientError::ClientAbsent)
    ));
}

#[test]
fn discovery_reads_the_first_existing_candidate() {
    let empty = LockfileDiscoverer::new(vec![]);
    assert_eq!(
        empty.plan_discovery(&vec![]),
        DiscoveryStep::Failed(RiotClientError::ClientAbsent)
    );

    let discoverer = LockfileDiscoverer::new(vec!["/a/lockfile".into(), "/b/lockfile".into()]);
    let probes = vec![
        PathProbe {
            exists: false,
            parent_exists: true,
        },
        PathProbe {
            exists: true,
            parent_exists: true,
        },
    ];
    assert_eq!(discoverer.plan_discovery(&probes), DiscoveryStep::ReadCandidate(1));
    let found = discoverer
        .finish_discovery(1, Ok("LeagueClient:123:50443:password:https".into()))
        .unwrap();
    assert_eq!(found.0, "/b/lockfile");
    assert_eq!(found.1.port, 50_443);

    let none_exist = vec![
        PathProbe {
            exists: false,
            parent_exists: true,
        },
        PathProbe {
            exists: false,
            parent_exists: false,
        },
    ];
    assert_eq!(
        discoverer.plan_discovery(&none_exist),
        DiscoveryStep::Failed(RiotClientError::LockfileAbsent)
    );
    assert!(matches!(
        discoverer.finish_discovery(0, Err("denied".into())),
        Err(RiotClientError::LockfileInaccessible { .. })
    ));
    assert_eq!(riot_lockfile_name(), "lockfile");
    assert_eq!(default_lockfile_candidates().len(), 4);
    assert_eq!(
        LockfileDiscoverer::with_default_candidates().candidate_paths,
        default_lockfile_candidates()
    );
}

#[test]
fn session_side_phase_and_contested_roles() {
    let mut session = RiotChampSelectSession::default();
    session.local_player_cell_id = 7;
    assert_eq!(infer_side(&session), TeamSide::Red);
    session.timer.phase = "FINALIZATION".into();
    assert_eq!(infer_phase(&session), DraftPhase::Complete);

    session.my_team = vec![
        RiotTeamMember {
            assigned_position: "top".into(),
            ..RiotTeamMember::default()
        },
        RiotTeamMember {
            assigned_position: "top".into(),
            ..RiotTeamMember::default()
        },
        RiotTeamMember {
            assigned_position: "utility".into(),
            ..RiotTeamMember::default()
        },
        RiotTeamMember {
            assigned_position: "support".into(),
            ..RiotTeamMember::default()
        },
        RiotTeamMember {
            assigned_position: "middle".into(),
            ..RiotTeamMember::default()
        },
    ];
    assert_eq!(
        infer_contested_roles(&session),
        vec![Role::Top, Role::Support]
    );
}

struct OddlessResolver;

impl ChampionResolver for OddlessResolver {
    fn resolution(&self, champion_id: i64) -> Option<Champion> {
        self.resolve(champion_id)
    }

    fn resolve(&self, champion_id: i64) -> Option<Champion> {
        if champion_id % 2 == 1 {
            None
        } else {
            TestResolver.resolve(champion_id)
        }
    }
}

#[test]
fn transform_keeps_the_resolver_answers_in_member_order() {
    let transformer = DraftStateTransformer::new(&OddlessResolver);
    let member = |champion_id: i64, position: &str| RiotTeamMember {
        cell_id: 0,
        champion_id,
        assigned_position: position.into(),
        champion_pick_intent: 0,
    };
    let session = RiotChampSelectSession {
        my_team: vec![member(4, "top"), member(5, "jungle"), member(8, "middle")],
        their_team: vec![member(3, "top")],
        ..RiotChampSelectSession::default()
    };

    let state = transformer.transform(Some(" 15.8 "), &session).unwrap();

    let names = state
        .ally
        .champions
        .iter()
        .map(|c| c.name.as_str())
        .collect::<Vec<_>>();
    assert_eq!(names, vec!["Champion 4", "Champion 8"]);
    assert!(state.enemy.champions.is_empty());
    assert_eq!(state.patch, "15.8");
}
