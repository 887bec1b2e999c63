//! The watcher: what state the game is in, told from two local APIs.
//!
//! The client's API says which phase the game flow is in; while a game runs,
//! the game's own API gives live figures. The watcher polls one of the two
//! at a time, remembers what it saw last, and says when the state that a
//! user interface shows has changed.
//!
//! The watcher here makes no request and waits for no timer. A driver reads
//! from `GameWatcher::next_poll` which API is due, makes the observation and
//! hands it to `poll_lcu` or `poll_ingame`, which say what to emit.

use crate::lcu::{
    client_request, is_client_request, is_success, status_is_success, ChampSelectTeamMember,
    GameflowPhase, HttpMethod, LcuConnection, LcuError, LcuReply, LcuRequest,
};
use crate::text::{decimal, decimal_string, str_concat, str_eq};
use vstd::prelude::*;
use vstd::string::*;

verus! {

/// The port of the game's live data API.
pub const LIVE_CLIENT_PORT: u16 = 2999;

/// Milliseconds between two polls of the client.
pub const LCU_POLL_INTERVAL_MS: u64 = 1000;

/// Milliseconds between two polls of the running game.
pub const INGAME_POLL_INTERVAL_MS: u64 = 500;

/// Seconds after which a request to either API is given up.
pub const REQUEST_TIMEOUT_SECS: u64 = 3;

/// The event that carries a new state to the main window.
pub const STATE_CHANGED_EVENT: &'static str = "game-state-changed";

/// The event that carries a new state to the overlay.
pub const OVERLAY_UPDATE_EVENT: &'static str = "cs-overlay-update";

/// The figures of a running game. The fields whose names end in `_bits` hold
/// a 64-bit floating-point number as its bit pattern: the watcher hands them
/// on and never computes with them.
#[derive(Debug, Clone, PartialEq, Eq)]
pub struct LiveGameData {
    /// Creep score.
    pub current_cs: i32,
    /// Creep score per minute.
    pub cs_per_minute_bits: u64,
    pub current_gold_bits: u64,
    /// Seconds since the game began.
    pub game_time_bits: u64,
    pub champion_name: String,
    pub game_id: String,
    pub level: i32,
    pub current_health_bits: u64,
    pub max_health_bits: u64,
    pub current_mana_bits: u64,
    pub max_mana_bits: u64,
}

/// The state that is shown to the user. `Idle` is the state that a user
/// interface knows as "None": the client is open and nothing goes on.
#[derive(Debug, Clone, PartialEq, Eq)]
pub enum GameState {
    /// The client is closed or cannot be reached.
    ClientClosed,
    Idle,
    Lobby,
    Matchmaking,
    ChampSelect { champion_id: Option<i64> },
    GameStart,
    InProgress { game_data: Option<LiveGameData> },
    EndOfGame,
    Error { message: String },
}

impl Default for GameState {
    fn default() -> (out: Self)
        ensures
            out == GameState::ClientClosed,
    {
        GameState::ClientClosed
    }
}

/// The phase that the raw name `raw` stands for: the phase of that name, or
/// `Unknown` where no phase has it.
pub open spec fn resolved_phase(raw: Seq<char>) -> GameflowPhase {
    if raw == "None"@ {
        GameflowPhase::Idle
    } else if raw == "Lobby"@ {
        GameflowPhase::Lobby
    } else if raw == "Matchmaking"@ {
        GameflowPhase::Matchmaking
    } else if raw == "CheckedIntoTournament"@ {
        GameflowPhase::CheckedIntoTournament
    } else if raw == "ReadyCheck"@ {
        GameflowPhase::ReadyCheck
    } else if raw == "ChampSelect"@ {
        GameflowPhase::ChampSelect
    } else if raw == "GameStart"@ {
        GameflowPhase::GameStart
    } else if raw == "FailedToLaunch"@ {
        GameflowPhase::FailedToLaunch
    } else if raw == "InProgress"@ {
        GameflowPhase::InProgress
    } else if raw == "Reconnect"@ {
        GameflowPhase::Reconnect
    } else if raw == "WaitingForStats"@ {
        GameflowPhase::WaitingForStats
    } else if raw == "PreEndOfGame"@ {
        GameflowPhase::PreEndOfGame
    } else if raw == "EndOfGame"@ {
        GameflowPhase::EndOfGame
    } else if raw == "TerminatedInError"@ {
        GameflowPhase::TerminatedInError
    } else {
        GameflowPhase::Unknown
    }
}

/// Tells the phase from the name that the client gives it. Every name has an
/// answer.
pub fn resolve_phase(raw: &str) -> (out: GameflowPhase)
    ensures
        out == resolved_phase(raw@),
{
    if str_eq(raw, "None") {
        GameflowPhase::Idle
    } else if str_eq(raw, "Lobby") {
        GameflowPhase::Lobby
    } else if str_eq(raw, "Matchmaking") {
        GameflowPhase::Matchmaking
    } else if str_eq(raw, "CheckedIntoTournament") {
        GameflowPhase::CheckedIntoTournament
    } else if str_eq(raw, "ReadyCheck") {
        GameflowPhase::ReadyCheck
    } else if str_eq(raw, "ChampSelect") {
        GameflowPhase::ChampSelect
    } else if str_eq(raw, "GameStart") {
        GameflowPhase::GameStart
    } else if str_eq(raw, "FailedToLaunch") {
        GameflowPhase::FailedToLaunch
    } else if str_eq(raw, "InProgress") {
        GameflowPhase::InProgress
    } else if str_eq(raw, "Reconnect") {
        GameflowPhase::Reconnect
    } else if str_eq(raw, "WaitingForStats") {
        GameflowPhase::WaitingForStats
    } else if str_eq(raw, "PreEndOfGame") {
        GameflowPhase::PreEndOfGame
    } else if str_eq(raw, "EndOfGame") {
        GameflowPhase::EndOfGame
    } else if str_eq(raw, "TerminatedInError") {
        GameflowPhase::TerminatedInError
    } else {
        GameflowPhase::Unknown
    }
}

/// Whether `raw` is the name of one of the phases that the client writes.
pub open spec fn is_phase_name(raw: Seq<char>) -> bool {
    exists|phase: GameflowPhase| phase != GameflowPhase::Unknown && #[trigger] phase.spec_name() == raw
}

proof fn lemma_phase_names_revealed()
    ensures
        "None"@.len() == 4 && "None"@[0] == 'N',
        "Lobby"@.len() == 5 && "Lobby"@[0] == 'L',
        "Matchmaking"@.len() == 11 && "Matchmaking"@[0] == 'M',
        "CheckedIntoTournament"@.len() == 21 && "CheckedIntoTournament"@[0] == 'C',
        "ReadyCheck"@.len() == 10 && "ReadyCheck"@[0] == 'R',
        "ChampSelect"@.len() == 11 && "ChampSelect"@[0] == 'C',
        "GameStart"@.len() == 9 && "GameStart"@[0] == 'G',
        "FailedToLaunch"@.len() == 14 && "FailedToLaunch"@[0] == 'F',
        "InProgress"@.len() == 10 && "InProgress"@[0] == 'I',
        "Reconnect"@.len() == 9 && "Reconnect"@[0] == 'R',
        "WaitingForStats"@.len() == 15 && "WaitingForStats"@[0] == 'W',
        "PreEndOfGame"@.len() == 12 && "PreEndOfGame"@[0] == 'P',
        "EndOfGame"@.len() == 9 && "EndOfGame"@[0] == 'E',
        "TerminatedInError"@.len() == 17 && "TerminatedInError"@[0] == 'T',
{
    reveal_strlit("None");
    reveal_strlit("Lobby");
    reveal_strlit("Matchmaking");
    reveal_strlit("CheckedIntoTournament");
    reveal_strlit("ReadyCheck");
    reveal_strlit("ChampSelect");
    reveal_strlit("GameStart");
    reveal_strlit("FailedToLaunch");
    reveal_strlit("InProgress");
    reveal_strlit("Reconnect");
    reveal_strlit("WaitingForStats");
    reveal_strlit("PreEndOfGame");
    reveal_strlit("EndOfGame");
    reveal_strlit("TerminatedInError");
}

/// The name of a phase resolves to that phase: in particular "InProgress" to
/// `InProgress`.
pub proof fn lemma_resolve_inverts_name(phase: GameflowPhase)
    requires
        phase != GameflowPhase::Unknown,
    ensures
        resolved_phase(phase.spec_name()) == phase,
{
    lemma_phase_names_revealed();
}

/// A raw name resolves to `Unknown` exactly where it is the name of no
/// phase; to another phase exactly where it is that phase's name.
pub proof fn lemma_resolve_unknown(raw: Seq<char>)
    ensures
        resolved_phase(raw) == GameflowPhase::Unknown <==> !is_phase_name(raw),
        resolved_phase(raw) != GameflowPhase::Unknown ==> resolved_phase(raw).spec_name() == raw,
{
    lemma_phase_names_revealed();
    let resolved = resolved_phase(raw);
    if resolved != GameflowPhase::Unknown {
        assert(resolved.spec_name() == raw);
    } else {
        assert forall|phase: GameflowPhase| phase != GameflowPhase::Unknown implies #[trigger] phase.spec_name()
            != raw by {}
    }
}

/// What the watcher remembers between polls.
#[derive(Debug, Clone, PartialEq, Eq)]
pub struct WatcherState {
    /// The phase that the client was last seen in; `None` while the client
    /// cannot be reached.
    pub last_phase: Option<GameflowPhase>,
    /// The connection data that was last found.
    pub last_connection: Option<LcuConnection>,
    /// The id of the game whose live data was last seen.
    pub current_game_id: Option<String>,
    /// Whether the running game is polled, not the client.
    pub in_live_game: bool,
}

impl WatcherState {
    /// The state that the watcher begins in: nothing seen, the client is
    /// polled.
    pub open spec fn initial() -> WatcherState {
        WatcherState {
            last_phase: None,
            last_connection: None,
            current_game_id: None,
            in_live_game: false,
        }
    }

    /// The running game is polled only while the phase last seen is
    /// `InProgress`.
    pub open spec fn wf(self) -> bool {
        self.in_live_game ==> self.last_phase == Some(GameflowPhase::InProgress)
    }

    /// The state that the watcher begins in.
    pub fn new() -> (out: WatcherState)
        ensures
            out == WatcherState::initial(),
            out.wf(),
    {
        WatcherState {
            last_phase: None,
            last_connection: None,
            current_game_id: None,
            in_live_game: false,
        }
    }
}

/// What one look at the client gave.
#[derive(Debug, Clone, PartialEq, Eq)]
pub enum LcuObservation {
    /// No connection data was found: the client is closed.
    Unreachable,
    /// Connection data was found, but the phase could not be fetched.
    PhaseUnavailable,
    /// The client is in this phase; the connection data is what was found.
    Phase(LcuConnection, GameflowPhase),
}

/// The state that a phase is shown as when the watcher sees it begin. The
/// champion of a champion select and the figures of a game are not known at
/// that moment.
pub open spec fn shown_on_change(phase: GameflowPhase) -> GameState {
    match phase {
        GameflowPhase::Idle => GameState::Idle,
        GameflowPhase::Lobby => GameState::Lobby,
        GameflowPhase::ChampSelect => GameState::ChampSelect { champion_id: None },
        GameflowPhase::GameStart => GameState::GameStart,
        GameflowPhase::InProgress => GameState::InProgress { game_data: None },
        GameflowPhase::EndOfGame => GameState::EndOfGame,
        _ => GameState::Idle,
    }
}

/// What a poll of the client makes of the watcher's state, and what it
/// emits.
///
/// Where the client cannot be reached, phase, connection and live flag are
/// cleared, and `ClientClosed` is emitted if a phase was known. Where the
/// phase could not be fetched nothing changes. Where the phase is the one
/// last seen only the connection data is renewed. A new phase is stored with
/// the connection data and emitted; the phase `InProgress` sets the live
/// flag.
pub open spec fn poll_lcu_spec(state: WatcherState, observation: LcuObservation) -> (
    WatcherState,
    Option<GameState>,
) {
    match observation {
        LcuObservation::Unreachable => (
            WatcherState {
                last_phase: None,
                last_connection: None,
                current_game_id: state.current_game_id,
                in_live_game: false,
            },
            if state.last_phase is Some {
                Some(GameState::ClientClosed)
            } else {
                None
            },
        ),
        LcuObservation::PhaseUnavailable => (state, None),
        LcuObservation::Phase(connection, phase) => if state.last_phase == Some(phase) {
            (
                WatcherState {
                    last_phase: state.last_phase,
                    last_connection: Some(connection),
                    current_game_id: state.current_game_id,
                    in_live_game: state.in_live_game,
                },
                None,
            )
        } else {
            (
                WatcherState {
                    last_phase: Some(phase),
                    last_connection: Some(connection),
                    current_game_id: state.current_game_id,
                    in_live_game: state.in_live_game || phase == GameflowPhase::InProgress,
                },
                Some(shown_on_change(phase)),
            )
        },
    }
}

/// What a poll of the running game asks of the driver.
#[derive(Debug, Clone, PartialEq, Eq)]
pub enum IngameOutcome {
    /// Emit this state.
    Emit(GameState),
    /// The game has ended: poll the client now, in this cycle.
    PollLcu,
    /// Nothing to do.
    Nothing,
}

/// What a poll of the running game makes of the watcher's state, and what it
/// asks of the driver. `live` is the live data, or `None` where it could not
/// be fetched.
///
/// Live data is emitted every time, and its game id is stored. Where there
/// is none while the live flag is set, the flag and the game id are cleared
/// and the client is to be polled at once.
pub open spec fn poll_ingame_spec(state: WatcherState, live: Option<LiveGameData>) -> (
    WatcherState,
    IngameOutcome,
) {
    match live {
        Some(data) => (
            WatcherState {
                last_phase: state.last_phase,
                last_connection: state.last_connection,
                current_game_id: Some(data.game_id),
                in_live_game: state.in_live_game,
            },
            IngameOutcome::Emit(GameState::InProgress { game_data: Some(data) }),
        ),
        None => if state.in_live_game {
            (
                WatcherState {
                    last_phase: state.last_phase,
                    last_connection: state.last_connection,
                    current_game_id: None,
                    in_live_game: false,
                },
                IngameOutcome::PollLcu,
            )
        } else {
            (state, IngameOutcome::Nothing)
        },
    }
}

fn show_on_change(phase: GameflowPhase) -> (out: GameState)
    ensures
        out == shown_on_change(phase),
{
    match phase {
        GameflowPhase::Idle => GameState::Idle,
        GameflowPhase::Lobby => GameState::Lobby,
        GameflowPhase::ChampSelect => GameState::ChampSelect { champion_id: None },
        GameflowPhase::GameStart => GameState::GameStart,
        GameflowPhase::InProgress => GameState::InProgress { game_data: None },
        GameflowPhase::EndOfGame => GameState::EndOfGame,
        _ => GameState::Idle,
    }
}

fn same_phase(last: &Option<GameflowPhase>, phase: GameflowPhase) -> (same: bool)
    ensures
        same == (*last == Some(phase)),
{
    match last {
        Some(seen) => *seen == phase,
        None => false,
    }
}

/// Takes one look at the client into account. The result is the state to
/// emit, if there is one.
pub fn poll_lcu(state: &mut WatcherState, observation: LcuObservation) -> (emitted: Option<GameState>)
    ensures
        (*final(state), emitted) == poll_lcu_spec(*old(state), observation),
        old(state).wf() && !old(state).in_live_game ==> final(state).wf(),
{
    match observation {
        LcuObservation::Unreachable => {
            let changed = state.last_phase.is_some();
            state.last_phase = None;
            state.last_connection = None;
            state.in_live_game = false;
            if changed {
                Some(GameState::ClientClosed)
            } else {
                None
            }
        },
        LcuObservation::PhaseUnavailable => None,
        LcuObservation::Phase(connection, phase) => {
            if same_phase(&state.last_phase, phase) {
                state.last_connection = Some(connection);
                None
            } else {
                state.last_phase = Some(phase);
                state.last_connection = Some(connection);
                if phase == GameflowPhase::InProgress {
                    state.in_live_game = true;
                }
                Some(show_on_change(phase))
            }
        },
    }
}

/// Takes one look at the running game into account. The result says what
/// the driver is to do.
pub fn poll_ingame(state: &mut WatcherState, live: Option<LiveGameData>) -> (outcome: IngameOutcome)
    ensures
        (*final(state), outcome) == poll_ingame_spec(*old(state), live),
        old(state).wf() ==> final(state).wf(),
        outcome is PollLcu <==> live is None && old(state).in_live_game,
{
    match live {
        Some(data) => {
            state.current_game_id = Some(data.game_id.clone());
            IngameOutcome::Emit(GameState::InProgress { game_data: Some(data) })
        },
        None => {
            if state.in_live_game {
                state.in_live_game = false;
                state.current_game_id = None;
                IngameOutcome::PollLcu
            } else {
                IngameOutcome::Nothing
            }
        },
    }
}

/// Which of the two APIs a cycle polls.
#[derive(Debug, Clone, Copy, PartialEq, Eq, Structural)]
pub enum PollMode {
    /// The client.
    Lcu,
    /// The running game.
    Ingame,
}

impl PollMode {
    /// Milliseconds to wait before a poll in this mode.
    pub open spec fn spec_interval_ms(self) -> u64 {
        match self {
            PollMode::Lcu => LCU_POLL_INTERVAL_MS,
            PollMode::Ingame => INGAME_POLL_INTERVAL_MS,
        }
    }

    /// Milliseconds to wait before a poll in this mode.
    pub fn interval_ms(&self) -> (out: u64)
        ensures
            out == self.spec_interval_ms(),
    {
        match self {
            PollMode::Lcu => LCU_POLL_INTERVAL_MS,
            PollMode::Ingame => INGAME_POLL_INTERVAL_MS,
        }
    }
}

/// The mode that a cycle runs in: the running game is polled while the live
/// flag is set, else the client.
pub open spec fn mode_of(state: WatcherState) -> PollMode {
    if state.in_live_game {
        PollMode::Ingame
    } else {
        PollMode::Lcu
    }
}

/// The states that are emitted for `emitted`.
pub open spec fn emissions(emitted: Option<GameState>) -> Seq<GameState> {
    match emitted {
        Some(state) => seq![state],
        None => Seq::<GameState>::empty(),
    }
}

/// One cycle of the watcher: the poll that the mode asks for and, where a
/// poll of the running game asks for it, a poll of the client behind it.
/// `live` is what the game's API would give in this cycle and `observation`
/// what the client's API would give; a cycle looks at most once at each.
/// The result is the state after the cycle and what was emitted in it.
pub open spec fn cycle_spec(
    state: WatcherState,
    live: Option<LiveGameData>,
    observation: LcuObservation,
) -> (WatcherState, Seq<GameState>) {
    match mode_of(state) {
        PollMode::Lcu => {
            let (after, emitted) = poll_lcu_spec(state, observation);
            (after, emissions(emitted))
        },
        PollMode::Ingame => {
            let (after, outcome) = poll_ingame_spec(state, live);
            match outcome {
                IngameOutcome::Emit(shown) => (after, seq![shown]),
                IngameOutcome::PollLcu => {
                    let (after, emitted) = poll_lcu_spec(after, observation);
                    (after, emissions(emitted))
                },
                IngameOutcome::Nothing => (after, Seq::<GameState>::empty()),
            }
        },
    }
}

/// A second poll of the client that sees the same phase emits nothing and
/// changes nothing but the connection data.
pub proof fn lemma_poll_lcu_idempotent(
    state: WatcherState,
    first: LcuConnection,
    second: LcuConnection,
    phase: GameflowPhase,
)
    ensures
        ({
            let (seen, _) = poll_lcu_spec(state, LcuObservation::Phase(first, phase));
            let (again, emitted) = poll_lcu_spec(seen, LcuObservation::Phase(second, phase));
            &&& emitted is None
            &&& again == WatcherState { last_connection: Some(second), ..seen }
        }),
{
}

/// A poll of the client emits exactly when the phase it sees is not the one
/// last seen, or the client has become unreachable; what it emits for a new
/// phase depends on that phase alone.
pub proof fn lemma_one_emission_per_transition(state: WatcherState, observation: LcuObservation)
    ensures
        ({
            let (after, emitted) = poll_lcu_spec(state, observation);
            match observation {
                LcuObservation::Unreachable => emitted is Some <==> state.last_phase is Some,
                LcuObservation::PhaseUnavailable => emitted is None && after == state,
                LcuObservation::Phase(_, phase) => {
                    &&& emitted is Some <==> state.last_phase != Some(phase)
                    &&& emitted is Some ==> emitted == Some(shown_on_change(phase))
                    &&& after.last_phase == Some(phase)
                },
            }
        }),
{
}

/// While the client stays closed, `ClientClosed` is emitted once: by the
/// poll that finds it closed after a phase was known, and by none after it.
pub proof fn lemma_client_closed_once(state: WatcherState)
    ensures
        ({
            let (closed, first) = poll_lcu_spec(state, LcuObservation::Unreachable);
            let (still_closed, second) = poll_lcu_spec(closed, LcuObservation::Unreachable);
            &&& first == if state.last_phase is Some {
                Some(GameState::ClientClosed)
            } else {
                None
            }
            &&& second is None
            &&& still_closed == closed
            &&& closed.last_phase is None && closed.last_connection is None
                && !closed.in_live_game
        }),
{
}

/// A cycle keeps the live flag in step with the phase: after it the flag is
/// set only if the phase last seen is `InProgress`. The flag is set by a poll
/// of the client that sees `InProgress` begin and stays set while live data
/// comes; a cycle in which live data fails to come while the flag is set
/// clears it and polls the client at once.
pub proof fn lemma_cycle_keeps_mode(
    state: WatcherState,
    live: Option<LiveGameData>,
    observation: LcuObservation,
)
    requires
        state.wf(),
    ensures
        cycle_spec(state, live, observation).0.wf(),
        state.in_live_game && live is None ==> cycle_spec(state, live, observation)
            == (
            poll_lcu_spec(poll_ingame_spec(state, live).0, observation).0,
            emissions(poll_lcu_spec(poll_ingame_spec(state, live).0, observation).1),
        ),
        state.in_live_game && live is Some ==> cycle_spec(state, live, observation).0.in_live_game,
        !state.in_live_game && cycle_spec(state, live, observation).0.in_live_game ==> observation
            matches LcuObservation::Phase(_, GameflowPhase::InProgress),
{
}

/// The state to show for what the watcher remembers: the state that the
/// phase last seen was emitted as when it began, but for two phases. In
/// champion select the champion is shown that the local player has selected,
/// `champion_id`, where connection data is known; in a game whose live data
/// is polled the figures are shown, `live`. Either is `None` where it could
/// not be found out. While no phase is known the client counts as closed.
pub open spec fn shown_state(
    state: WatcherState,
    champion_id: Option<i64>,
    live: Option<LiveGameData>,
) -> GameState {
    match state.last_phase {
        None => GameState::ClientClosed,
        Some(phase) => match phase {
            GameflowPhase::ChampSelect => GameState::ChampSelect {
                champion_id: if state.last_connection is Some {
                    champion_id
                } else {
                    None
                },
            },
            GameflowPhase::InProgress => GameState::InProgress {
                game_data: if state.in_live_game {
                    live
                } else {
                    None
                },
            },
            _ => shown_on_change(phase),
        },
    }
}

/// What has to be fetched before the state can be shown.
#[derive(Debug, Clone, Copy, PartialEq, Eq, Structural)]
pub enum AuxiliaryFetch {
    /// Nothing: the state follows from what the watcher remembers.
    Nothing,
    /// The champion select session, for the champion of the local player.
    SelectedChampion,
    /// The live data of the running game.
    LiveData,
}

/// What has to be fetched before the state can be shown.
pub open spec fn needed_fetch(state: WatcherState) -> AuxiliaryFetch {
    if state.last_phase == Some(GameflowPhase::ChampSelect) && state.last_connection is Some {
        AuxiliaryFetch::SelectedChampion
    } else if state.last_phase == Some(GameflowPhase::InProgress) && state.in_live_game {
        AuxiliaryFetch::LiveData
    } else {
        AuxiliaryFetch::Nothing
    }
}

/// What has to be fetched before `build_game_state` can show the state.
pub fn auxiliary_fetch(state: &WatcherState) -> (out: AuxiliaryFetch)
    ensures
        out == needed_fetch(*state),
{
    if same_phase(&state.last_phase, GameflowPhase::ChampSelect) && state.last_connection.is_some() {
        AuxiliaryFetch::SelectedChampion
    } else if same_phase(&state.last_phase, GameflowPhase::InProgress) && state.in_live_game {
        AuxiliaryFetch::LiveData
    } else {
        AuxiliaryFetch::Nothing
    }
}

/// The state to show for what the watcher remembers, with what was fetched
/// for it. A fetch that failed is handed in as `None`: the state is then
/// shown without the champion or without the figures. Every phase but
/// champion select and the running game is shown as it was emitted.
pub fn build_game_state(
    state: &WatcherState,
    champion_id: Option<i64>,
    live: Option<LiveGameData>,
) -> (out: GameState)
    ensures
        out == shown_state(*state, champion_id, live),
        state.last_phase matches Some(phase) ==> (phase != GameflowPhase::ChampSelect && phase
            != GameflowPhase::InProgress ==> out == shown_on_change(phase)),
{
    match &state.last_phase {
        None => GameState::ClientClosed,
        Some(phase) => match phase {
            GameflowPhase::ChampSelect => {
                let champion_id = if state.last_connection.is_some() {
                    champion_id
                } else {
                    None
                };
                GameState::ChampSelect { champion_id }
            },
            GameflowPhase::InProgress => {
                if state.in_live_game {
                    GameState::InProgress { game_data: live }
                } else {
                    GameState::InProgress { game_data: None }
                }
            },
            _ => show_on_change(*phase),
        },
    }
}

/// The champion of the member of `team` who sits in cell `cell_id`: that of
/// the first such member, or 0 where nobody sits there.
pub open spec fn champion_in_cell(team: Seq<ChampSelectTeamMember>, cell_id: i64) -> i64
    decreases team.len(),
{
    if team.len() == 0 {
        0
    } else if team.first().cell_id == cell_id {
        team.first().champion_id
    } else {
        champion_in_cell(team.drop_first(), cell_id)
    }
}

/// The champion that the local player has selected: the champion of the
/// team member in the local player's cell, 0 while none is selected or the
/// player is not on the team.
pub fn get_selected_champion(local_player_cell_id: i64, my_team: &Vec<ChampSelectTeamMember>) -> (out:
    i64)
    ensures
        out == champion_in_cell(my_team@, local_player_cell_id),
{
    let mut i: usize = 0;
    assert(my_team@.subrange(0, my_team.len() as int) =~= my_team@);
    while i < my_team.len()
        invariant
            i <= my_team.len(),
            champion_in_cell(my_team@, local_player_cell_id) == champion_in_cell(
                my_team@.subrange(i as int, my_team.len() as int),
                local_player_cell_id,
            ),
        decreases my_team.len() - i,
    {
        let ghost rest = my_team@.subrange(i as int, my_team.len() as int);
        assert(rest.first() == my_team@[i as int]);
        assert(rest.drop_first() =~= my_team@.subrange(i + 1, my_team.len() as int));
        if my_team[i].cell_id == local_player_cell_id {
            return my_team[i].champion_id;
        }
        i += 1;
    }
    0
}

/// The request for the phase of the game flow.
pub fn fetch_gameflow_phase_request(connection: &LcuConnection) -> (out: LcuRequest)
    requires
        connection.can_authenticate(),
    ensures
        is_client_request(
            out,
            *connection,
            HttpMethod::Get,
            "/lol-gameflow/v1/gameflow-phase"@,
            false,
        ),
{
    client_request(connection, HttpMethod::Get, "/lol-gameflow/v1/gameflow-phase", false)
}

/// What a reply to a request of the watcher means: the body of the answer
/// where the status says success; else the reason why there is none, which
/// for an answer with another status is `refusal` followed by the status
/// where `with_status` says so.
pub open spec fn watcher_reply_meaning(
    reply: LcuReply,
    refusal: Seq<char>,
    with_status: bool,
    out: Result<String, String>,
) -> bool {
    match reply {
        LcuReply::Failed(reason) => out == Err::<String, String>(reason),
        LcuReply::Answered(response) => if is_success(response.status) {
            out == Ok::<String, String>(response.body)
        } else {
            &&& out matches Err(reason)
            &&& reason@ == if with_status {
                refusal + response.status_text@
            } else {
                refusal
            }
        },
    }
}

fn check_watcher_reply(reply: LcuReply, refusal: &str, with_status: bool) -> (out: Result<
    String,
    String,
>)
    ensures
        watcher_reply_meaning(reply, refusal@, with_status, out),
{
    match reply {
        LcuReply::Failed(reason) => Err(reason),
        LcuReply::Answered(response) => {
            if status_is_success(response.status) {
                Ok(response.body)
            } else if with_status {
                Err(str_concat(refusal, response.status_text.as_str()))
            } else {
                Err(String::from_str(refusal))
            }
        },
    }
}

/// The string that a JSON text stands for: `None` where the text is not
/// JSON or the JSON is no string.
pub uninterp spec fn json_string(text: Seq<char>) -> Option<Seq<char>>;

/// `serde_json::from_str` at type `String`: whether the text decodes, and to
/// which string, depends on the text alone. The error is handed on as the
/// text that describes it.
#[verifier::external_body]
fn decode_json_string(text: &str) -> (out: Result<String, String>)
    ensures
        match out {
            Ok(decoded) => json_string(text@) == Some(decoded@),
            Err(_) => json_string(text@) is None,
        },
{
    serde_json::from_str::<String>(text).map_err(|e| e.to_string())
}

/// What a reply to the request for the phase means: the phase that the
/// answer names, or the reason why there is none.
pub open spec fn phase_meaning(reply: LcuReply, out: Result<GameflowPhase, String>) -> bool {
    match reply {
        LcuReply::Failed(reason) => out == Err::<GameflowPhase, String>(reason),
        LcuReply::Answered(response) => if is_success(response.status) {
            match json_string(response.body@) {
                Some(raw) => out == Ok::<GameflowPhase, String>(resolved_phase(raw)),
                None => out is Err,
            }
        } else {
            &&& out matches Err(reason)
            &&& reason@ == "HTTP "@ + response.status_text@
        },
    }
}

/// The phase of the game flow that a reply tells: the answer is a JSON
/// string with the name of the phase.
pub fn fetch_gameflow_phase(reply: LcuReply) -> (out: Result<GameflowPhase, String>)
    ensures
        phase_meaning(reply, out),
{
    match check_watcher_reply(reply, "HTTP ", true) {
        Ok(body) => match decode_json_string(body.as_str()) {
            Ok(raw) => Ok(resolve_phase(raw.as_str())),
            Err(detail) => Err(detail),
        },
        Err(reason) => Err(reason),
    }
}

/// The phase that a reply to the request for the phase tells, if it tells
/// one: the answer must say success and hold a JSON string.
pub open spec fn told_phase(reply: LcuReply) -> Option<GameflowPhase> {
    match reply {
        LcuReply::Failed(_) => None,
        LcuReply::Answered(response) => if is_success(response.status) {
            match json_string(response.body@) {
                Some(raw) => Some(resolved_phase(raw)),
                None => None,
            }
        } else {
            None
        },
    }
}

/// What a look at the client has given once the connection data was found
/// and the request for the phase was made: the phase where the reply tells
/// one, else that the phase is not available.
pub fn observe_phase(connection: LcuConnection, reply: LcuReply) -> (out: LcuObservation)
    ensures
        out == match told_phase(reply) {
            Some(phase) => LcuObservation::Phase(connection, phase),
            None => LcuObservation::PhaseUnavailable,
        },
{
    match fetch_gameflow_phase(reply) {
        Ok(phase) => LcuObservation::Phase(connection, phase),
        Err(_) => LcuObservation::PhaseUnavailable,
    }
}

/// What a look at the client has given: that it cannot be reached where no
/// connection data was found, else what `observe_phase` makes of the reply.
/// `phase_reply` is looked at only where connection data was found; `None`
/// there means that the request could not be made.
pub fn observe_lcu(discovery: Result<LcuConnection, LcuError>, phase_reply: Option<LcuReply>) -> (out:
    LcuObservation)
    ensures
        out == match discovery {
            Err(_) => LcuObservation::Unreachable,
            Ok(connection) => match phase_reply {
                Some(reply) => match told_phase(reply) {
                    Some(phase) => LcuObservation::Phase(connection, phase),
                    None => LcuObservation::PhaseUnavailable,
                },
                None => LcuObservation::PhaseUnavailable,
            },
        },
{
    match discovery {
        Err(_) => LcuObservation::Unreachable,
        Ok(connection) => match phase_reply {
            Some(reply) => observe_phase(connection, reply),
            None => LcuObservation::PhaseUnavailable,
        },
    }
}

/// The champion select session as the JSON text that the API sent, for
/// `get_selected_champion` once it is decoded.
pub fn fetch_selected_champion(reply: LcuReply) -> (out: Result<String, String>)
    ensures
        watcher_reply_meaning(reply, "Not in champ select"@, false, out),
{
    check_watcher_reply(reply, "Not in champ select", false)
}

/// Whether `request` asks the game's live data API for `path`. That API
/// listens on a fixed port and takes no login.
pub open spec fn is_live_request(request: LcuRequest, path: Seq<char>) -> bool {
    &&& request.method == HttpMethod::Get
    &&& request.url@ == "https://127.0.0.1:"@ + decimal(LIVE_CLIENT_PORT as nat) + path
    &&& request.authorization is None
    &&& !request.has_json_body
}

fn live_request(path: &str) -> (out: LcuRequest)
    ensures
        is_live_request(out, path@),
{
    let port = decimal_string(LIVE_CLIENT_PORT as u64);
    let mut url = str_concat("https://127.0.0.1:", port.as_str());
    url.append(path);
    LcuRequest { method: HttpMethod::Get, url, authorization: None, has_json_body: false }
}

/// The request for the figures of the active player.
pub fn active_player_request() -> (out: LcuRequest)
    ensures
        is_live_request(out, "/liveclientdata/activeplayer"@),
{
    live_request("/liveclientdata/activeplayer")
}

/// The request for the figures of the game.
pub fn game_stats_request() -> (out: LcuRequest)
    ensures
        is_live_request(out, "/liveclientdata/gamestats"@),
{
    live_request("/liveclientdata/gamestats")
}

/// The figures of the active player as the JSON text that the API sent. An
/// answer with another status than success means that no game is running.
pub fn fetch_active_player(reply: LcuReply) -> (out: Result<String, String>)
    ensures
        watcher_reply_meaning(reply, "Live Client API not available"@, false, out),
{
    check_watcher_reply(reply, "Live Client API not available", false)
}

/// The figures of the game as the JSON text that the API sent. The status of
/// the answer is not looked at: whatever was answered is handed on.
pub fn fetch_game_stats(reply: LcuReply) -> (out: Result<String, String>)
    ensures
        match reply {
            LcuReply::Failed(reason) => out == Err::<String, String>(reason),
            LcuReply::Answered(response) => out == Ok::<String, String>(response.body),
        },
{
    match reply {
        LcuReply::Failed(reason) => Err(reason),
        LcuReply::Answered(response) => Ok(response.body),
    }
}

/// The figures of the active player, as far as the watcher uses them.
#[derive(Debug, Clone, PartialEq, Eq)]
pub struct ActivePlayerStats {
    pub champion_name: Option<String>,
    /// The creep score, in whole creeps.
    pub creep_score: i32,
    pub current_gold_bits: u64,
    pub level: i32,
    pub current_health_bits: u64,
    pub max_health_bits: u64,
    pub resource_value_bits: u64,
    pub resource_max_bits: u64,
}

/// The figures of the game, as far as the watcher uses them.
#[derive(Debug, Clone, PartialEq, Eq)]
pub struct GameStats {
    pub game_time_bits: u64,
    pub game_mode: String,
    pub game_id: Option<String>,
}

/// Puts the figures of the player and of the game together. A champion
/// without a name is called "Unknown", a game without an id "unknown".
/// `cs_per_minute_bits` is the creep score per minute of game time, which
/// the caller computes.
pub fn fetch_live_game_data(stats: ActivePlayerStats, game: GameStats, cs_per_minute_bits: u64) -> (out:
    LiveGameData)
    ensures
        out.current_cs == stats.creep_score,
        out.cs_per_minute_bits == cs_per_minute_bits,
        out.current_gold_bits == stats.current_gold_bits,
        out.game_time_bits == game.game_time_bits,
        out.champion_name@ == match stats.champion_name {
            Some(name) => name@,
            None => "Unknown"@,
        },
        out.game_id@ == match game.game_id {
            Some(id) => id@,
            None => "unknown"@,
        },
        out.level == stats.level,
        out.current_health_bits == stats.current_health_bits,
        out.max_health_bits == stats.max_health_bits,
        out.current_mana_bits == stats.resource_value_bits,
        out.max_mana_bits == stats.resource_max_bits,
{
    let champion_name = match stats.champion_name {
        Some(name) => name,
        None => String::from_str("Unknown"),
    };
    let game_id = match game.game_id {
        Some(id) => id,
        None => String::from_str("unknown"),
    };
    LiveGameData {
        current_cs: stats.creep_score,
        cs_per_minute_bits,
        current_gold_bits: stats.current_gold_bits,
        game_time_bits: game.game_time_bits,
        champion_name,
        game_id,
        level: stats.level,
        current_health_bits: stats.current_health_bits,
        max_health_bits: stats.max_health_bits,
        current_mana_bits: stats.resource_value_bits,
        max_mana_bits: stats.resource_max_bits,
    }
}

/// The watcher: what it remembers, whether a sink for its emissions is
/// attached, and whether its loop is to go on.
#[derive(Debug, PartialEq, Eq)]
pub struct GameWatcher {
    pub state: WatcherState,
    /// Whether a sink is attached. Without one, nothing is emitted.
    pub attached: bool,
    /// Whether the polling loop is to go on.
    pub running: bool,
}

impl GameWatcher {
    /// A watcher that has seen nothing, with no sink attached, not running.
    pub fn new() -> (out: GameWatcher)
        ensures
            out.state == WatcherState::initial(),
            !out.attached,
            !out.running,
    {
        GameWatcher { state: WatcherState::new(), attached: false, running: false }
    }

    /// Attaches the sink and lets the loop run. What the watcher remembers
    /// stays.
    pub fn start(&mut self)
        ensures
            final(self).state == old(self).state,
            final(self).attached,
            final(self).running,
    {
        self.attached = true;
        self.running = true;
    }

    /// Tells the loop to end at its next turn. The sink stays attached.
    pub fn stop(&mut self)
        ensures
            final(self).state == old(self).state,
            final(self).attached == old(self).attached,
            !final(self).running,
    {
        self.running = false;
    }

    /// Which API the loop polls next, or `None` where the loop is to end.
    pub fn next_poll(&self) -> (out: Option<PollMode>)
        ensures
            out == if self.running {
                Some(mode_of(self.state))
            } else {
                None
            },
    {
        if !self.running {
            None
        } else if self.state.in_live_game {
            Some(PollMode::Ingame)
        } else {
            Some(PollMode::Lcu)
        }
    }

    /// The events under which an emitted state is sent to the sink: both,
    /// in this order, where a sink is attached, else none.
    pub fn emit_state_change(&self) -> (events: Vec<&'static str>)
        ensures
            events@ == if self.attached {
                seq![STATE_CHANGED_EVENT, OVERLAY_UPDATE_EVENT]
            } else {
                Seq::<&'static str>::empty()
            },
    {
        let mut events: Vec<&'static str> = Vec::new();
        if self.attached {
            events.push(STATE_CHANGED_EVENT);
            events.push(OVERLAY_UPDATE_EVENT);
        }
        events
    }

    /// The state to show now, with what was fetched for it as
    /// `auxiliary_fetch` asked.
    pub fn get_current_state(&self, champion_id: Option<i64>, live: Option<LiveGameData>) -> (out:
        GameState)
        ensures
            out == shown_state(self.state, champion_id, live),
    {
        build_game_state(&self.state, champion_id, live)
    }

    /// As `get_current_state`, for callers that expect a result. It never
    /// fails.
    pub fn get_current_state_result(
        &self,
        champion_id: Option<i64>,
        live: Option<LiveGameData>,
    ) -> (out: Result<GameState, String>)
        ensures
            out == Ok::<GameState, String>(shown_state(self.state, champion_id, live)),
    {
        Ok(self.get_current_state(champion_id, live))
    }

    /// Takes one look at the client into account; see `poll_lcu`.
    pub fn poll_lcu(&mut self, observation: LcuObservation) -> (emitted: Option<GameState>)
        ensures
            (final(self).state, emitted) == poll_lcu_spec(old(self).state, observation),
            final(self).attached == old(self).attached,
            final(self).running == old(self).running,
    {
        poll_lcu(&mut self.state, observation)
    }

    /// Takes one look at the running game into account; see `poll_ingame`.
    pub fn poll_ingame(&mut self, live: Option<LiveGameData>) -> (outcome: IngameOutcome)
        ensures
            (final(self).state, outcome) == poll_ingame_spec(old(self).state, live),
            final(self).attached == old(self).attached,
            final(self).running == old(self).running,
    {
        poll_ingame(&mut self.state, live)
    }
}

impl Default for GameWatcher {
    fn default() -> (out: Self)
        ensures
            out.state == WatcherState::initial(),
            !out.attached,
            !out.running,
    {
        GameWatcher::new()
    }
}

} // verus!
