use focusapp::game_watcher::{
    active_player_request, auxiliary_fetch, build_game_state, fetch_active_player,
    fetch_game_stats, fetch_gameflow_phase, fetch_gameflow_phase_request, fetch_live_game_data,
    fetch_selected_champion, game_stats_request, get_selected_champion, observe_lcu,
    observe_phase, poll_ingame, poll_lcu,
    resolve_phase, ActivePlayerStats, AuxiliaryFetch, GameState, GameStats, GameWatcher,
    IngameOutcome, LcuObservation, LiveGameData, PollMode, WatcherState, INGAME_POLL_INTERVAL_MS,
    LCU_POLL_INTERVAL_MS, LIVE_CLIENT_PORT, OVERLAY_UPDATE_EVENT, REQUEST_TIMEOUT_SECS,
    STATE_CHANGED_EVENT,
};
use focusapp::lcu::{
    ChampSelectTeamMember, GameflowPhase, HttpMethod, LcuConnection, LcuError, LcuReply,
    LcuResponse,
};

fn connection(password: &str) -> LcuConnection {
    LcuConnection { port: 50000, password: password.to_string(), protocol: "https".to_string() }
}

fn seen(phase: GameflowPhase) -> LcuObservation {
    LcuObservation::Phase(connection("pw"), phase)
}

fn live(game_id: &str, cs: i32, game_time: f64) -> LiveGameData {
    let per_minute = if game_time > 0.0 { cs as f64 / (game_time / 60.0) } else { 0.0 };
    LiveGameData {
        current_cs: cs,
        cs_per_minute_bits: per_minute.to_bits(),
        current_gold_bits: 500.0f64.to_bits(),
        game_time_bits: game_time.to_bits(),
        champion_name: "Ahri".to_string(),
        game_id: game_id.to_string(),
        level: 3,
        current_health_bits: 600.0f64.to_bits(),
        max_health_bits: 700.0f64.to_bits(),
        current_mana_bits: 300.0f64.to_bits(),
        max_mana_bits: 400.0f64.to_bits(),
    }
}

fn answered(status: u16, status_text: &str, body: &str) -> LcuReply {
    LcuReply::Answered(LcuResponse {
        status,
        status_text: status_text.to_string(),
        body: body.to_string(),
    })
}

#[test]
fn phase_names_resolve() {
    assert_eq!(resolve_phase("InProgress"), GameflowPhase::InProgress);
    assert_eq!(resolve_phase("Foo"), GameflowPhase::Unknown);
    let all = [
        GameflowPhase::Idle,
        GameflowPhase::Lobby,
        GameflowPhase::Matchmaking,
        GameflowPhase::CheckedIntoTournament,
        GameflowPhase::ReadyCheck,
        GameflowPhase::ChampSelect,
        GameflowPhase::GameStart,
        GameflowPhase::FailedToLaunch,
        GameflowPhase::InProgress,
        GameflowPhase::Reconnect,
        GameflowPhase::WaitingForStats,
        GameflowPhase::PreEndOfGame,
        GameflowPhase::EndOfGame,
        GameflowPhase::TerminatedInError,
    ];
    for phase in all {
        assert_eq!(resolve_phase(phase.name()), phase);
    }
    assert_eq!(GameflowPhase::Idle.name(), "None");
    assert_eq!(resolve_phase("None"), GameflowPhase::Idle);
    for raw in ["", "none", "inprogress", "InProgress ", " Lobby", "Unknown", "In Progress"] {
        assert_eq!(resolve_phase(raw), GameflowPhase::Unknown, "{:?}", raw);
    }
    assert_eq!(GameflowPhase::default(), GameflowPhase::Idle);
    assert_eq!(GameState::default(), GameState::ClientClosed);
}

#[test]
fn constants() {
    assert_eq!(LIVE_CLIENT_PORT, 2999);
    assert_eq!(LCU_POLL_INTERVAL_MS, 1000);
    assert_eq!(INGAME_POLL_INTERVAL_MS, 500);
    assert_eq!(REQUEST_TIMEOUT_SECS, 3);
    assert_eq!(PollMode::Lcu.interval_ms(), 1000);
    assert_eq!(PollMode::Ingame.interval_ms(), 500);
}

#[test]
fn same_phase_twice_emits_once() {
    let mut state = WatcherState::new();
    assert_eq!(poll_lcu(&mut state, seen(GameflowPhase::Lobby)), Some(GameState::Lobby));
    let after_first = state.clone();
    let rotated = LcuObservation::Phase(connection("rotated"), GameflowPhase::Lobby);
    assert_eq!(poll_lcu(&mut state, rotated), None);
    assert_eq!(state.last_phase, after_first.last_phase);
    assert_eq!(state.in_live_game, after_first.in_live_game);
    assert_eq!(state.current_game_id, after_first.current_game_id);
    assert_eq!(state.last_connection, Some(connection("rotated")));
}

#[test]
fn failed_phase_fetch_changes_nothing() {
    let mut state = WatcherState::new();
    poll_lcu(&mut state, seen(GameflowPhase::Matchmaking));
    let before = state.clone();
    assert_eq!(poll_lcu(&mut state, LcuObservation::PhaseUnavailable), None);
    assert_eq!(state, before);
}

#[test]
fn client_closed_is_emitted_once() {
    let mut state = WatcherState::new();
    // Never seen open: nothing to report.
    assert_eq!(poll_lcu(&mut state, LcuObservation::Unreachable), None);
    assert_eq!(poll_lcu(&mut state, seen(GameflowPhase::Lobby)), Some(GameState::Lobby));
    assert_eq!(poll_lcu(&mut state, LcuObservation::Unreachable), Some(GameState::ClientClosed));
    assert_eq!(state.last_phase, None);
    assert_eq!(state.last_connection, None);
    assert!(!state.in_live_game);
    for _ in 0..5 {
        assert_eq!(poll_lcu(&mut state, LcuObservation::Unreachable), None);
    }
    // Opened again: the phase counts as new.
    assert_eq!(poll_lcu(&mut state, seen(GameflowPhase::Lobby)), Some(GameState::Lobby));
}

#[test]
fn phases_are_shown_as_the_tick_loop_shows_them() {
    let cases = [
        (GameflowPhase::Idle, GameState::Idle),
        (GameflowPhase::Lobby, GameState::Lobby),
        (GameflowPhase::Matchmaking, GameState::Idle),
        (GameflowPhase::CheckedIntoTournament, GameState::Idle),
        (GameflowPhase::ReadyCheck, GameState::Idle),
        (GameflowPhase::ChampSelect, GameState::ChampSelect { champion_id: None }),
        (GameflowPhase::GameStart, GameState::GameStart),
        (GameflowPhase::FailedToLaunch, GameState::Idle),
        (GameflowPhase::InProgress, GameState::InProgress { game_data: None }),
        (GameflowPhase::Reconnect, GameState::Idle),
        (GameflowPhase::WaitingForStats, GameState::Idle),
        (GameflowPhase::PreEndOfGame, GameState::Idle),
        (GameflowPhase::EndOfGame, GameState::EndOfGame),
        (GameflowPhase::TerminatedInError, GameState::Idle),
        (GameflowPhase::Unknown, GameState::Idle),
    ];
    for (phase, shown) in cases {
        let mut state = WatcherState::new();
        assert_eq!(poll_lcu(&mut state, seen(phase)), Some(shown));
        assert_eq!(state.last_phase, Some(phase));
        assert_eq!(state.in_live_game, phase == GameflowPhase::InProgress);
    }
}

/// Runs one cycle as a driver would: the poll that the mode asks for, and a
/// poll of the client behind a poll of the game that asks for it.
fn cycle(
    watcher: &mut GameWatcher,
    live_data: Option<LiveGameData>,
    observation: LcuObservation,
) -> (Option<PollMode>, Vec<GameState>) {
    let mode = watcher.next_poll();
    let mut emitted = Vec::new();
    match mode {
        None => {}
        Some(PollMode::Lcu) => {
            if let Some(state) = watcher.poll_lcu(observation) {
                emitted.push(state);
            }
        }
        Some(PollMode::Ingame) => match watcher.poll_ingame(live_data) {
            IngameOutcome::Emit(state) => emitted.push(state),
            IngameOutcome::PollLcu => {
                if let Some(state) = watcher.poll_lcu(observation) {
                    emitted.push(state);
                }
            }
            IngameOutcome::Nothing => {}
        },
    }
    (mode, emitted)
}

#[test]
fn a_whole_game_from_lobby_to_end() {
    let mut watcher = GameWatcher::new();
    assert_eq!(watcher.next_poll(), None);
    watcher.start();
    assert!(watcher.attached && watcher.running);

    let script = [
        (GameflowPhase::Idle, GameState::Idle),
        (GameflowPhase::Lobby, GameState::Lobby),
        (GameflowPhase::ChampSelect, GameState::ChampSelect { champion_id: None }),
        (GameflowPhase::GameStart, GameState::GameStart),
        (GameflowPhase::InProgress, GameState::InProgress { game_data: None }),
    ];
    for (phase, shown) in script {
        // The phase begins: one emission.
        let (mode, emitted) = cycle(&mut watcher, None, seen(phase));
        assert_eq!(mode, Some(PollMode::Lcu));
        assert_eq!(emitted, vec![shown]);
        if phase != GameflowPhase::InProgress {
            // The phase lasts: no emission.
            let (mode, emitted) = cycle(&mut watcher, None, seen(phase));
            assert_eq!(mode, Some(PollMode::Lcu));
            assert_eq!(emitted, vec![]);
        }
    }
    // In the game the live data is polled and emitted at every tick.
    assert!(watcher.state.in_live_game);
    for tick in 0..3 {
        let data = live("game-1", 10 * tick, 60.0 * tick as f64);
        let (mode, emitted) = cycle(&mut watcher, Some(data.clone()), seen(GameflowPhase::InProgress));
        assert_eq!(mode, Some(PollMode::Ingame));
        assert_eq!(emitted, vec![GameState::InProgress { game_data: Some(data) }]);
        assert_eq!(watcher.state.current_game_id, Some("game-1".to_string()));
        assert!(watcher.state.in_live_game);
    }
    // The live endpoint stops answering: the client is polled in the same
    // cycle and the end of the game is emitted.
    let (mode, emitted) = cycle(&mut watcher, None, seen(GameflowPhase::EndOfGame));
    assert_eq!(mode, Some(PollMode::Ingame));
    assert_eq!(emitted, vec![GameState::EndOfGame]);
    assert!(!watcher.state.in_live_game);
    assert_eq!(watcher.state.current_game_id, None);
    assert_eq!(watcher.state.last_phase, Some(GameflowPhase::EndOfGame));
    // Back to polling the client.
    let (mode, emitted) = cycle(&mut watcher, None, seen(GameflowPhase::EndOfGame));
    assert_eq!(mode, Some(PollMode::Lcu));
    assert_eq!(emitted, vec![]);

    watcher.stop();
    assert_eq!(watcher.next_poll(), None);
    assert!(watcher.attached);
}

#[test]
fn live_flag_follows_the_phase() {
    let mut state = WatcherState::new();
    poll_lcu(&mut state, seen(GameflowPhase::InProgress));
    assert!(state.in_live_game);
    // Live data fails while the flag is set: flag and game id are cleared
    // and the client is to be polled at once.
    state.current_game_id = Some("g".to_string());
    assert_eq!(poll_ingame(&mut state, None), IngameOutcome::PollLcu);
    assert!(!state.in_live_game);
    assert_eq!(state.current_game_id, None);
    // The client still says InProgress: nothing new, the flag stays clear.
    assert_eq!(poll_lcu(&mut state, seen(GameflowPhase::InProgress)), None);
    assert!(!state.in_live_game);
    // Live data fails while the flag is clear: nothing happens.
    let before = state.clone();
    assert_eq!(poll_ingame(&mut state, None), IngameOutcome::Nothing);
    assert_eq!(state, before);
    // Live data that comes is emitted whatever the flag says.
    let data = live("g2", 60, 600.0);
    assert_eq!(
        poll_ingame(&mut state, Some(data.clone())),
        IngameOutcome::Emit(GameState::InProgress { game_data: Some(data) })
    );
    assert_eq!(state.current_game_id, Some("g2".to_string()));
    assert!(!state.in_live_game);
}

#[test]
fn live_data_carries_its_figures_unchanged() {
    let data = live("g", 60, 600.0);
    assert_eq!(f64::from_bits(data.cs_per_minute_bits), 6.0);
    let none = live("g", 60, 0.0);
    assert_eq!(f64::from_bits(none.cs_per_minute_bits), 0.0);
    let stats = ActivePlayerStats {
        champion_name: None,
        creep_score: 60,
        current_gold_bits: 1234.5f64.to_bits(),
        level: 7,
        current_health_bits: 1.0f64.to_bits(),
        max_health_bits: 2.0f64.to_bits(),
        resource_value_bits: 3.0f64.to_bits(),
        resource_max_bits: 4.0f64.to_bits(),
    };
    let game = GameStats {
        game_time_bits: 600.0f64.to_bits(),
        game_mode: "CLASSIC".to_string(),
        game_id: None,
    };
    let built = fetch_live_game_data(stats, game, 6.0f64.to_bits());
    assert_eq!(
        built,
        LiveGameData {
            current_cs: 60,
            cs_per_minute_bits: 6.0f64.to_bits(),
            current_gold_bits: 1234.5f64.to_bits(),
            game_time_bits: 600.0f64.to_bits(),
            champion_name: "Unknown".to_string(),
            game_id: "unknown".to_string(),
            level: 7,
            current_health_bits: 1.0f64.to_bits(),
            max_health_bits: 2.0f64.to_bits(),
            current_mana_bits: 3.0f64.to_bits(),
            max_mana_bits: 4.0f64.to_bits(),
        }
    );
    let named = fetch_live_game_data(
        ActivePlayerStats {
            champion_name: Some("Ahri".to_string()),
            creep_score: 0,
            current_gold_bits: 0,
            level: 1,
            current_health_bits: 0,
            max_health_bits: 0,
            resource_value_bits: 0,
            resource_max_bits: 0,
        },
        GameStats { game_time_bits: 0, game_mode: String::new(), game_id: Some("77".to_string()) },
        0,
    );
    assert_eq!(named.champion_name, "Ahri");
    assert_eq!(named.game_id, "77");
}

#[test]
fn state_on_demand() {
    let mut state = WatcherState::new();
    assert_eq!(auxiliary_fetch(&state), AuxiliaryFetch::Nothing);
    assert_eq!(build_game_state(&state, Some(1), Some(live("g", 1, 1.0))), GameState::ClientClosed);

    // Outside champion select and the running game a phase is shown as the
    // poll that saw it begin emitted it.
    let plain = [
        (GameflowPhase::Idle, GameState::Idle),
        (GameflowPhase::Lobby, GameState::Lobby),
        (GameflowPhase::Matchmaking, GameState::Idle),
        (GameflowPhase::CheckedIntoTournament, GameState::Idle),
        (GameflowPhase::ReadyCheck, GameState::Idle),
        (GameflowPhase::GameStart, GameState::GameStart),
        (GameflowPhase::FailedToLaunch, GameState::Idle),
        (GameflowPhase::Reconnect, GameState::Idle),
        (GameflowPhase::WaitingForStats, GameState::Idle),
        (GameflowPhase::PreEndOfGame, GameState::Idle),
        (GameflowPhase::EndOfGame, GameState::EndOfGame),
        (GameflowPhase::TerminatedInError, GameState::Idle),
        (GameflowPhase::Unknown, GameState::Idle),
    ];
    for (phase, shown) in plain {
        let mut fresh = WatcherState::new();
        let emitted = poll_lcu(&mut fresh, seen(phase));
        assert_eq!(emitted, Some(shown.clone()));
        assert_eq!(auxiliary_fetch(&fresh), AuxiliaryFetch::Nothing);
        assert_eq!(build_game_state(&fresh, Some(1), Some(live("g", 1, 1.0))), shown);
    }

    poll_lcu(&mut state, seen(GameflowPhase::ChampSelect));
    assert_eq!(auxiliary_fetch(&state), AuxiliaryFetch::SelectedChampion);
    assert_eq!(
        build_game_state(&state, Some(103), None),
        GameState::ChampSelect { champion_id: Some(103) }
    );
    assert_eq!(build_game_state(&state, None, None), GameState::ChampSelect { champion_id: None });
    let without_connection = WatcherState { last_connection: None, ..state.clone() };
    assert_eq!(auxiliary_fetch(&without_connection), AuxiliaryFetch::Nothing);
    assert_eq!(
        build_game_state(&without_connection, Some(103), None),
        GameState::ChampSelect { champion_id: None }
    );

    poll_lcu(&mut state, seen(GameflowPhase::InProgress));
    assert_eq!(auxiliary_fetch(&state), AuxiliaryFetch::LiveData);
    let data = live("g", 60, 600.0);
    assert_eq!(
        build_game_state(&state, None, Some(data.clone())),
        GameState::InProgress { game_data: Some(data.clone()) }
    );
    assert_eq!(build_game_state(&state, None, None), GameState::InProgress { game_data: None });
    poll_ingame(&mut state, None);
    assert_eq!(auxiliary_fetch(&state), AuxiliaryFetch::Nothing);
    assert_eq!(
        build_game_state(&state, None, Some(data)),
        GameState::InProgress { game_data: None }
    );

    let mut watcher = GameWatcher::default();
    assert_eq!(watcher.get_current_state(None, None), GameState::ClientClosed);
    watcher.poll_lcu(seen(GameflowPhase::Lobby));
    assert_eq!(watcher.get_current_state_result(None, None), Ok(GameState::Lobby));
}

#[test]
fn emissions_go_to_both_windows_once_a_sink_is_attached() {
    let mut watcher = GameWatcher::new();
    assert!(watcher.emit_state_change().is_empty());
    watcher.start();
    assert_eq!(watcher.emit_state_change(), vec![STATE_CHANGED_EVENT, OVERLAY_UPDATE_EVENT]);
    assert_eq!(STATE_CHANGED_EVENT, "game-state-changed");
    assert_eq!(OVERLAY_UPDATE_EVENT, "cs-overlay-update");
    watcher.stop();
    assert_eq!(watcher.emit_state_change().len(), 2);
}

#[test]
fn selected_champion_is_found_by_cell() {
    let member = |cell_id: i64, champion_id: i64| ChampSelectTeamMember {
        cell_id,
        champion_id,
        assigned_position: None,
        summoner_id: None,
    };
    let team = vec![member(0, 11), member(1, 22), member(2, 33), member(1, 44)];
    assert_eq!(get_selected_champion(1, &team), 22);
    assert_eq!(get_selected_champion(2, &team), 33);
    assert_eq!(get_selected_champion(0, &team), 11);
    assert_eq!(get_selected_champion(9, &team), 0);
    assert_eq!(get_selected_champion(0, &vec![]), 0);
    assert_eq!(get_selected_champion(-1, &vec![member(-1, 5)]), 5);
}

#[test]
fn watcher_requests_and_replies() {
    let request = fetch_gameflow_phase_request(&connection("test"));
    assert_eq!(request.method, HttpMethod::Get);
    assert_eq!(request.url, "https://127.0.0.1:50000/lol-gameflow/v1/gameflow-phase");
    assert_eq!(request.authorization, Some("Basic cmlvdDp0ZXN0".to_string()));
    assert!(!request.has_json_body);

    let active = active_player_request();
    assert_eq!(active.url, "https://127.0.0.1:2999/liveclientdata/activeplayer");
    assert_eq!(active.authorization, None);
    assert_eq!(active.method, HttpMethod::Get);
    assert_eq!(game_stats_request().url, "https://127.0.0.1:2999/liveclientdata/gamestats");

    assert_eq!(
        fetch_gameflow_phase(answered(200, "200 OK", "\"Lobby\"")),
        Ok(GameflowPhase::Lobby)
    );
    assert_eq!(
        fetch_gameflow_phase(answered(200, "200 OK", " \"InProgress\"\n")),
        Ok(GameflowPhase::InProgress)
    );
    assert_eq!(
        fetch_gameflow_phase(answered(200, "200 OK", "\"Foo\"")),
        Ok(GameflowPhase::Unknown)
    );
    assert_eq!(
        fetch_gameflow_phase(answered(200, "200 OK", "\"None\"")),
        Ok(GameflowPhase::Idle)
    );
    // An escape in the JSON text is undone before the name is looked at.
    assert_eq!(
        fetch_gameflow_phase(answered(200, "200 OK", "\"\\u004cobby\"")),
        Ok(GameflowPhase::Lobby)
    );
    for body in ["Lobby", "", "{\"phase\":\"Lobby\"}", "12", "null", "\"Lobby"] {
        assert!(fetch_gameflow_phase(answered(200, "200 OK", body)).is_err(), "{:?}", body);
    }
    assert_eq!(
        fetch_gameflow_phase(answered(404, "404 Not Found", "x")),
        Err("HTTP 404 Not Found".to_string())
    );
    assert_eq!(
        fetch_gameflow_phase(LcuReply::Failed("refused".to_string())),
        Err("refused".to_string())
    );
    assert_eq!(
        fetch_selected_champion(answered(404, "404 Not Found", "x")),
        Err("Not in champ select".to_string())
    );
    assert_eq!(fetch_selected_champion(answered(299, "299", "{}")), Ok("{}".to_string()));
    assert_eq!(
        fetch_active_player(answered(300, "300 Multiple Choices", "x")),
        Err("Live Client API not available".to_string())
    );
    assert_eq!(fetch_active_player(answered(200, "200 OK", "{}")), Ok("{}".to_string()));
    // The status of the game figures is not looked at.
    assert_eq!(fetch_game_stats(answered(500, "500", "body")), Ok("body".to_string()));
    assert_eq!(fetch_game_stats(LcuReply::Failed("gone".to_string())), Err("gone".to_string()));
}

#[test]
fn observations_of_the_client() {
    let c = connection("pw");
    assert_eq!(
        observe_phase(c.clone(), answered(200, "200 OK", "\"ChampSelect\"")),
        LcuObservation::Phase(c.clone(), GameflowPhase::ChampSelect)
    );
    assert_eq!(
        observe_phase(c.clone(), answered(503, "503 Service Unavailable", "\"ChampSelect\"")),
        LcuObservation::PhaseUnavailable
    );
    assert_eq!(
        observe_phase(c.clone(), answered(200, "200 OK", "ChampSelect")),
        LcuObservation::PhaseUnavailable
    );
    assert_eq!(
        observe_phase(c.clone(), LcuReply::Failed("timed out".to_string())),
        LcuObservation::PhaseUnavailable
    );
    assert_eq!(
        observe_lcu(Err(LcuError::ClientNotRunning), None),
        LcuObservation::Unreachable
    );
    assert_eq!(
        observe_lcu(
            Err(LcuError::LockfileParseError("Invalid port number".to_string())),
            Some(answered(200, "200 OK", "\"Lobby\""))
        ),
        LcuObservation::Unreachable
    );
    assert_eq!(observe_lcu(Ok(c.clone()), None), LcuObservation::PhaseUnavailable);
    assert_eq!(
        observe_lcu(Ok(c.clone()), Some(answered(200, "200 OK", "\"Lobby\""))),
        LcuObservation::Phase(c, GameflowPhase::Lobby)
    );
}
