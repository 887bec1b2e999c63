//! The game client's local API: how to find it, how to address it, and what
//! its answers mean.
//!
//! Nothing here opens a file or a socket. A caller reads the credentials file
//! and sends the requests; this module says which requests to send and
//! interprets what came back.

use crate::text::{
    chars_of, decimal, decimal_string, is_trimmed, parse_u16, parse_u16_str, signed_decimal,
    signed_decimal_string, split, split_chars, str_concat, trim_chars, trimmed, views,
};
use vstd::prelude::*;
use vstd::string::*;

verus! {

/// What can go wrong when talking to the game client.
#[derive(Debug, Clone, PartialEq, Eq)]
pub enum LcuError {
    /// No credentials file could be read: the client is not started.
    ClientNotRunning,
    /// No credentials file at the given path.
    LockfileNotFound(String),
    /// A credentials file was read but does not have the expected shape.
    LockfileParseError(String),
    /// The request did not get an answer (no connection, timeout).
    HttpError(String),
    /// The client answered with a status outside 200..=299.
    ApiError(String),
    /// Reading a file failed.
    IoError(String),
}

impl LcuError {
    /// The text that describes this error to a person.
    pub open spec fn spec_message(self) -> Seq<char> {
        match self {
            LcuError::ClientNotRunning => {
                "League Client is not running. Please start the client first."@
            },
            LcuError::LockfileNotFound(path) => {
                "Could not find League Client lockfile at: "@ + path@
            },
            LcuError::LockfileParseError(detail) => "Failed to parse lockfile: "@ + detail@,
            LcuError::HttpError(detail) => "HTTP request to League Client failed: "@ + detail@,
            LcuError::ApiError(detail) => "League Client API error: "@ + detail@,
            LcuError::IoError(detail) => "IO error: "@ + detail@,
        }
    }

    /// The short code by which a front end tells the errors apart.
    pub open spec fn spec_code(self) -> Seq<char> {
        match self {
            LcuError::ClientNotRunning => "CLIENT_NOT_RUNNING"@,
            LcuError::LockfileNotFound(_) => "LOCKFILE_NOT_FOUND"@,
            LcuError::LockfileParseError(_) => "LOCKFILE_PARSE_ERROR"@,
            LcuError::HttpError(_) => "HTTP_ERROR"@,
            LcuError::ApiError(_) => "API_ERROR"@,
            LcuError::IoError(_) => "IO_ERROR"@,
        }
    }

    /// The text that describes this error to a person.
    pub fn message(&self) -> (out: String)
        ensures
            out@ == self.spec_message(),
    {
        match self {
            LcuError::ClientNotRunning => String::from_str(
                "League Client is not running. Please start the client first.",
            ),
            LcuError::LockfileNotFound(path) => str_concat(
                "Could not find League Client lockfile at: ",
                path.as_str(),
            ),
            LcuError::LockfileParseError(detail) => str_concat(
                "Failed to parse lockfile: ",
                detail.as_str(),
            ),
            LcuError::HttpError(detail) => str_concat(
                "HTTP request to League Client failed: ",
                detail.as_str(),
            ),
            LcuError::ApiError(detail) => str_concat("League Client API error: ", detail.as_str()),
            LcuError::IoError(detail) => str_concat("IO error: ", detail.as_str()),
        }
    }

    /// The short code by which a front end tells the errors apart.
    pub fn code(&self) -> (out: &'static str)
        ensures
            out@ == self.spec_code(),
    {
        match self {
            LcuError::ClientNotRunning => "CLIENT_NOT_RUNNING",
            LcuError::LockfileNotFound(_) => "LOCKFILE_NOT_FOUND",
            LcuError::LockfileParseError(_) => "LOCKFILE_PARSE_ERROR",
            LcuError::HttpError(_) => "HTTP_ERROR",
            LcuError::ApiError(_) => "API_ERROR",
            LcuError::IoError(_) => "IO_ERROR",
        }
    }
}

/// Where the client's authenticated API listens and how to log in to it.
#[derive(Debug, Clone, PartialEq, Eq)]
pub struct LcuConnection {
    pub port: u16,
    pub password: String,
    pub protocol: String,
}

/// The standard base64 writing, with padding, of a sequence of bytes.
pub uninterp spec fn base64_standard(bytes: Seq<u8>) -> Seq<char>;

/// How many characters the padded base64 writing of `n` bytes takes.
pub open spec fn base64_padded_len(n: nat) -> nat {
    if n % 3 == 0 {
        (n / 3) * 4
    } else {
        (n / 3) * 4 + 4
    }
}

/// `base64::Engine::encode` on the engine `general_purpose::STANDARD`: the
/// result depends on the bytes alone. The call panics where the length of the
/// result does not fit in `usize`, which `requires` leaves out.
#[verifier::external_body]
fn base64_encode(input: &str) -> (out: String)
    requires
        base64_padded_len(input.spec_bytes().len()) <= usize::MAX,
    ensures
        out@ == base64_standard(input.spec_bytes()),
{
    base64::Engine::encode(&base64::engine::general_purpose::STANDARD, input)
}

impl LcuConnection {
    /// The address that every path of the API is appended to.
    pub open spec fn spec_base_url(self) -> Seq<char> {
        self.protocol@ + "://127.0.0.1:"@ + decimal(self.port as nat)
    }

    /// The bytes that the login is made of: the fixed user name, a colon, the
    /// password.
    pub open spec fn credentials(self) -> Seq<u8> {
        vstd::utf8::encode_utf8("riot:"@ + self.password@)
    }

    /// Whether the login is short enough to be written in base64.
    pub open spec fn can_authenticate(self) -> bool {
        base64_padded_len(self.credentials().len()) <= usize::MAX
    }

    /// The value of the `Authorization` header: basic authentication.
    pub open spec fn spec_auth_header(self) -> Seq<char> {
        "Basic "@ + base64_standard(self.credentials())
    }

    /// Whether the login is short enough to be written in base64; the
    /// functions that build the `Authorization` header ask for it.
    pub fn credentials_fit(&self) -> (yes: bool)
        ensures
            yes == self.can_authenticate(),
    {
        let credentials = str_concat("riot:", self.password.as_str());
        let n: usize = credentials.as_str().as_bytes().len();
        let groups: usize = n / 3;
        let most: usize = usize::MAX / 4;
        if n % 3 == 0 {
            groups <= most
        } else {
            groups < most
        }
    }

    /// The address that every path of the API is appended to.
    pub fn base_url(&self) -> (out: String)
        ensures
            out@ == self.spec_base_url(),
    {
        let mut out = str_concat(self.protocol.as_str(), "://127.0.0.1:");
        let port = decimal_string(self.port as u64);
        out.append(port.as_str());
        out
    }

    /// The value of the `Authorization` header: basic authentication.
    pub fn auth_header(&self) -> (out: String)
        requires
            self.can_authenticate(),
        ensures
            out@ == self.spec_auth_header(),
    {
        let credentials = str_concat("riot:", self.password.as_str());
        let encoded = base64_encode(credentials.as_str());
        str_concat("Basic ", encoded.as_str())
    }
}

/// The colon-separated fields of a credentials record.
pub open spec fn lockfile_fields(record: Seq<char>) -> Seq<Seq<char>> {
    split(record, ':')
}

/// Whether a credentials record has the expected shape: five fields or more,
/// the third of which is a port number.
pub open spec fn lockfile_well_formed(record: Seq<char>) -> bool {
    let fields = lockfile_fields(record);
    fields.len() >= 5 && parse_u16(fields[2]) is Some
}

/// What a record says: `Ok` with the connection data where it is well formed,
/// else the error that names what is wrong with it.
pub open spec fn lockfile_meaning(record: Seq<char>, out: Result<LcuConnection, LcuError>) -> bool {
    let fields = lockfile_fields(record);
    match out {
        Ok(connection) => {
            &&& lockfile_well_formed(record)
            &&& Some(connection.port) == parse_u16(fields[2])
            &&& connection.password@ == fields[3]
            &&& connection.protocol@ == fields[4]
        },
        Err(error) => {
            &&& !lockfile_well_formed(record)
            &&& error matches LcuError::LockfileParseError(detail)
            &&& detail@ == if fields.len() < 5 {
                "Expected 5 parts, got "@ + decimal(fields.len())
            } else {
                "Invalid port number"@
            }
        },
    }
}

/// Reads a credentials record that has no white space around it:
/// `name:pid:port:password:protocol`. Only the last three fields are used;
/// fields beyond the fifth are ignored.
pub fn parse_lockfile_record(record: &Vec<char>) -> (out: Result<LcuConnection, LcuError>)
    ensures
        lockfile_meaning(record@, out),
{
    let mut parts = split_chars(record, ':');
    let ghost fields = lockfile_fields(record@);
    assert(forall|i: int| 0 <= i < parts.len() ==> (#[trigger] parts@[i])@ == fields[i]);
    if parts.len() < 5 {
        let count = decimal_string(parts.len() as u64);
        return Err(LcuError::LockfileParseError(str_concat("Expected 5 parts, got ", count.as_str())));
    }
    let port: u16 = match parse_u16_str(parts[2].as_str()) {
        Some(port) => port,
        None => {
            return Err(LcuError::LockfileParseError(String::from_str("Invalid port number")));
        },
    };
    parts.truncate(5);
    let protocol = parts.pop().unwrap();
    let password = parts.pop().unwrap();
    Ok(LcuConnection { port, password, protocol })
}

/// Reads the content of a credentials file. White space around the record is
/// ignored; a content without any is read as it stands.
pub fn parse_lockfile(contents: &str) -> (out: Result<LcuConnection, LcuError>)
    ensures
        lockfile_meaning(trimmed(contents@), out),
        lockfile_fields(trimmed(contents@)).len() < 5 ==> out matches Err(
            LcuError::LockfileParseError(_),
        ),
        is_trimmed(contents@) ==> lockfile_meaning(contents@, out),
{
    let chars = chars_of(contents);
    let record = trim_chars(&chars);
    let record_chars = chars_of(record.as_str());
    parse_lockfile_record(&record_chars)
}

/// What discovery makes of the candidate files. `reads` holds, for each
/// candidate path in the order in which the paths are tried, the content of
/// the file or `None` where it could not be read. The first file that could
/// be read decides; where there is none, the client is not running.
pub open spec fn discovery_meaning(
    reads: Seq<Option<String>>,
    out: Result<LcuConnection, LcuError>,
) -> bool
    decreases reads.len(),
{
    if reads.len() == 0 {
        out == Err::<LcuConnection, LcuError>(LcuError::ClientNotRunning)
    } else {
        match reads.first() {
            Some(contents) => lockfile_meaning(trimmed(contents@), out),
            None => discovery_meaning(reads.drop_first(), out),
        }
    }
}

/// The systems on which the client is installed in a known place.
#[derive(Debug, Clone, Copy, PartialEq, Eq, Structural)]
pub enum Platform {
    Windows,
    MacOs,
    Other,
}

/// The paths at which the credentials file is looked for on `platform`, in
/// the order in which they are tried. `local_lockfile` is the path below the
/// user's local application data, known on Windows alone and left out where
/// it is absent or empty.
pub open spec fn candidate_paths(platform: Platform, local_lockfile: Option<String>) -> Seq<
    Seq<char>,
> {
    match platform {
        Platform::Windows => {
            let fixed = seq![
                "C:\\Riot Games\\League of Legends\\lockfile"@,
                "D:\\Riot Games\\League of Legends\\lockfile"@,
            ];
            match local_lockfile {
                Some(path) => if path@.len() > 0 {
                    fixed.push(path@)
                } else {
                    fixed
                },
                None => fixed,
            }
        },
        Platform::MacOs => seq!["/Applications/League of Legends.app/Contents/LoL/lockfile"@],
        Platform::Other => Seq::<Seq<char>>::empty(),
    }
}

/// The paths at which the credentials file is looked for.
pub fn lockfile_candidates(platform: Platform, local_lockfile: Option<String>) -> (out: Vec<String>)
    ensures
        views(out@) == candidate_paths(platform, local_lockfile),
{
    let mut out: Vec<String> = Vec::new();
    match platform {
        Platform::Windows => {
            out.push(String::from_str("C:\\Riot Games\\League of Legends\\lockfile"));
            out.push(String::from_str("D:\\Riot Games\\League of Legends\\lockfile"));
            match local_lockfile {
                Some(path) => {
                    if path.as_str().unicode_len() > 0 {
                        out.push(path);
                    }
                },
                None => {},
            }
        },
        Platform::MacOs => {
            out.push(
                String::from_str("/Applications/League of Legends.app/Contents/LoL/lockfile"),
            );
        },
        Platform::Other => {},
    }
    assert(views(out@) =~= candidate_paths(platform, local_lockfile));
    out
}

/// Whether discovery finds connection data: whether the first file that
/// could be read holds a well-formed record.
pub open spec fn lockfile_found(reads: Seq<Option<String>>) -> bool
    decreases reads.len(),
{
    if reads.len() == 0 {
        false
    } else {
        match reads.first() {
            Some(contents) => lockfile_well_formed(trimmed(contents@)),
            None => lockfile_found(reads.drop_first()),
        }
    }
}

/// Discovery succeeds exactly where `lockfile_found` says so.
pub proof fn lemma_discovery_succeeds(reads: Seq<Option<String>>, out: Result<LcuConnection, LcuError>)
    requires
        discovery_meaning(reads, out),
    ensures
        out is Ok <==> lockfile_found(reads),
    decreases reads.len(),
{
    if reads.len() > 0 && reads.first() is None {
        lemma_discovery_succeeds(reads.drop_first(), out);
    }
}

/// Finds the connection data among the candidate credentials files, given
/// what reading each of them gave.
pub fn find_lockfile(reads: &Vec<Option<String>>) -> (out: Result<LcuConnection, LcuError>)
    ensures
        discovery_meaning(reads@, out),
        out is Ok <==> lockfile_found(reads@),
{
    let out = find_lockfile_among(reads);
    proof {
        lemma_discovery_succeeds(reads@, out);
    }
    out
}

fn find_lockfile_among(reads: &Vec<Option<String>>) -> (out: Result<LcuConnection, LcuError>)
    ensures
        discovery_meaning(reads@, out),
{
    let mut i: usize = 0;
    assert(reads@.subrange(0, reads.len() as int) =~= reads@);
    while i < reads.len()
        invariant
            i <= reads.len(),
            forall|out: Result<LcuConnection, LcuError>|
                discovery_meaning(reads@, out) == discovery_meaning(
                    reads@.subrange(i as int, reads.len() as int),
                    out,
                ),
        decreases reads.len() - i,
    {
        let ghost rest = reads@.subrange(i as int, reads.len() as int);
        assert(rest.first() == reads@[i as int]);
        assert(rest.drop_first() =~= reads@.subrange(i + 1, reads.len() as int));
        match &reads[i] {
            Some(contents) => {
                return parse_lockfile(contents.as_str());
            },
            None => {},
        }
        i += 1;
    }
    Err(LcuError::ClientNotRunning)
}

/// A rune page as the client takes it.
#[derive(Debug, Clone, PartialEq, Eq)]
pub struct RunePagePayload {
    pub name: String,
    pub primary_style_id: i32,
    pub sub_style_id: i32,
    pub selected_perk_ids: Vec<i32>,
    pub current: Option<bool>,
}

/// An item within a block of an item set.
#[derive(Debug, Clone, PartialEq, Eq)]
pub struct ItemSetItem {
    pub id: String,
    pub count: i32,
}

/// A block within an item set, such as the starting items.
#[derive(Debug, Clone, PartialEq, Eq)]
pub struct ItemSetBlock {
    pub block_type: String,
    pub items: Vec<ItemSetItem>,
    pub hide_if_summoner_spell: Option<String>,
    pub show_if_summoner_spell: Option<String>,
    pub max_summoner_level: Option<i32>,
    pub min_summoner_level: Option<i32>,
    pub rec_math: Option<bool>,
}

/// An item set as the client holds and takes it.
#[derive(Debug, Clone, PartialEq, Eq)]
pub struct ItemSetPayload {
    pub title: String,
    pub associated_champions: Vec<i64>,
    pub associated_maps: Vec<i32>,
    pub blocks: Vec<ItemSetBlock>,
    pub uid: Option<String>,
    pub champion: Option<i64>,
    pub is_deletable: Option<bool>,
    pub is_editable: Option<bool>,
    pub map: Option<String>,
    pub mode: Option<String>,
    pub priority: Option<bool>,
    pub sortrank: Option<i32>,
    pub set_type: Option<String>,
}

/// The two summoner spells of a selection.
#[derive(Debug, Clone, Copy, PartialEq, Eq)]
pub struct SummonerSpellsPayload {
    pub spell1_id: i32,
    pub spell2_id: i32,
}

/// What the build service hands out for one build: each part is optional.
#[derive(Debug, Clone, PartialEq, Eq)]
pub struct ImportPayloadResponse {
    pub champion: Option<String>,
    pub role: Option<String>,
    pub rune_page_payload: Option<RunePagePayload>,
    pub item_set_payload: Option<ItemSetPayload>,
    pub summoner_spells_payload: Option<SummonerSpellsPayload>,
}

/// A rune page that the client holds.
#[derive(Debug, Clone, PartialEq, Eq)]
pub struct ExistingRunePage {
    pub id: i64,
    pub name: String,
    pub is_deletable: bool,
    pub is_editable: bool,
    pub is_active: bool,
}

/// What an import achieved.
#[derive(Debug, Clone, PartialEq, Eq)]
pub struct ImportResult {
    pub success: bool,
    pub runes_imported: bool,
    pub items_imported: bool,
    pub summoners_imported: bool,
    pub message: String,
}

/// The item sets of one account, with the time of their last change.
#[derive(Debug, Clone, PartialEq, Eq)]
pub struct ItemSetsResponse {
    pub account_id: i64,
    pub item_sets: Vec<ItemSetPayload>,
    pub timestamp: i64,
}

/// A pick or a ban in champion select.
#[derive(Debug, Clone, PartialEq, Eq)]
pub struct ChampSelectAction {
    pub actor_cell_id: i64,
    /// 0 while nothing is selected.
    pub champion_id: i64,
    pub completed: bool,
    pub id: i64,
    /// "pick" or "ban".
    pub action_type: String,
}

/// A member of the local player's team in champion select.
#[derive(Debug, Clone, PartialEq, Eq)]
pub struct ChampSelectTeamMember {
    pub cell_id: i64,
    pub champion_id: i64,
    pub assigned_position: Option<String>,
    pub summoner_id: Option<i64>,
}

/// The session of a champion select in progress.
#[derive(Debug, Clone, PartialEq, Eq)]
pub struct ChampionSelectSession {
    pub local_player_cell_id: Option<i64>,
    pub actions: Option<Vec<Vec<ChampSelectAction>>>,
    pub my_team: Option<Vec<ChampSelectTeamMember>>,
    pub game_id: Option<i64>,
    pub is_spectating: bool,
}

/// The phases that the client's game flow goes through. `Idle` is the phase
/// that the client calls "None": it is open and nothing goes on. `Unknown`
/// stands for every phase name that is not one of the others.
#[derive(Debug, Clone, Copy, PartialEq, Eq, Structural)]
pub enum GameflowPhase {
    Idle,
    Lobby,
    Matchmaking,
    CheckedIntoTournament,
    ReadyCheck,
    ChampSelect,
    GameStart,
    FailedToLaunch,
    InProgress,
    Reconnect,
    WaitingForStats,
    PreEndOfGame,
    EndOfGame,
    TerminatedInError,
    Unknown,
}

impl Default for GameflowPhase {
    fn default() -> (out: Self)
        ensures
            out == GameflowPhase::Idle,
    {
        GameflowPhase::Idle
    }
}

/// Whether the game process runs and shows its window.
#[derive(Debug, Clone, Copy, PartialEq, Eq, Default)]
pub struct GameClient {
    pub running: bool,
    pub visible: bool,
}

/// The queue a game was found in.
#[derive(Debug, Clone, PartialEq, Eq, Default)]
pub struct QueueInfo {
    pub id: i32,
    pub is_ranked: bool,
    pub queue_type: String,
}

/// The game that a game flow session is about.
#[derive(Debug, Clone, PartialEq, Eq, Default)]
pub struct GameData {
    pub game_id: i64,
    pub queue: Option<QueueInfo>,
}

/// The client's game flow session.
#[derive(Debug, Clone, PartialEq, Eq)]
pub struct GameflowSession {
    pub phase: GameflowPhase,
    pub game_client: Option<GameClient>,
    pub game_data: Option<GameData>,
}

/// The player who is logged in.
#[derive(Debug, Clone, PartialEq, Eq)]
pub struct CurrentSummoner {
    pub summoner_id: i64,
    pub account_id: i64,
    pub puuid: String,
    pub display_name: String,
    pub summoner_level: i64,
    pub profile_icon_id: i32,
}

/// The verb of a request.
#[derive(Debug, Clone, Copy, PartialEq, Eq, Structural)]
pub enum HttpMethod {
    Get,
    Post,
    Put,
    Patch,
    Delete,
}

/// A request for the caller to send. `has_json_body` says whether a JSON
/// document goes with it, to be announced as `application/json`; which
/// document follows from the request's purpose.
#[derive(Debug, Clone, PartialEq, Eq)]
pub struct LcuRequest {
    pub method: HttpMethod,
    pub url: String,
    /// The value of the `Authorization` header, where the API asks for one.
    pub authorization: Option<String>,
    pub has_json_body: bool,
}

/// An answer that came back. `status_text` is the status as it is shown to a
/// person, such as "404 Not Found"; `body` is empty where it could not be
/// read.
#[derive(Debug, Clone, PartialEq, Eq)]
pub struct LcuResponse {
    pub status: u16,
    pub status_text: String,
    pub body: String,
}

/// What became of a request.
#[derive(Debug, Clone, PartialEq, Eq)]
pub enum LcuReply {
    /// No answer: no connection or no answer in time. Holds the reason.
    Failed(String),
    /// The API answered.
    Answered(LcuResponse),
}

/// Whether a status says that the request was carried out.
pub open spec fn is_success(status: u16) -> bool {
    200 <= status <= 299
}

/// Whether a status says that the request was carried out.
pub fn status_is_success(status: u16) -> (yes: bool)
    ensures
        yes == is_success(status),
{
    200 <= status && status <= 299
}

/// Whether `request` is the authenticated request `method` on `path`.
pub open spec fn is_client_request(
    request: LcuRequest,
    connection: LcuConnection,
    method: HttpMethod,
    path: Seq<char>,
    has_json_body: bool,
) -> bool {
    &&& request.method == method
    &&& request.url@ == connection.spec_base_url() + path
    &&& request.authorization matches Some(header)
    &&& header@ == connection.spec_auth_header()
    &&& request.has_json_body == has_json_body
}

pub(crate) fn client_request(
    connection: &LcuConnection,
    method: HttpMethod,
    path: &str,
    has_json_body: bool,
) -> (out: LcuRequest)
    requires
        connection.can_authenticate(),
    ensures
        is_client_request(out, *connection, method, path@, has_json_body),
{
    let base = connection.base_url();
    LcuRequest {
        method,
        url: str_concat(base.as_str(), path),
        authorization: Some(connection.auth_header()),
        has_json_body,
    }
}

/// What a failed request is reported as: the purpose that failed, the status
/// and the body of the answer.
pub open spec fn api_failure(context: Seq<char>, response: LcuResponse) -> Seq<char> {
    context + ": "@ + response.status_text@ + " - "@ + response.body@
}

/// Writes the report of a failed request.
pub fn describe_failure(context: &str, response: &LcuResponse) -> (out: String)
    ensures
        out@ == api_failure(context@, *response),
{
    let mut detail = str_concat(context, ": ");
    detail.append(response.status_text.as_str());
    detail.append(" - ");
    detail.append(response.body.as_str());
    detail
}

/// What a reply means for a request that is plainly carried out or not: the
/// body of the answer where the status says success, else the error.
pub open spec fn reply_meaning(
    context: Seq<char>,
    reply: LcuReply,
    out: Result<String, LcuError>,
) -> bool {
    match reply {
        LcuReply::Failed(reason) => out == Err::<String, LcuError>(LcuError::HttpError(reason)),
        LcuReply::Answered(response) => if is_success(response.status) {
            out == Ok::<String, LcuError>(response.body)
        } else {
            &&& out matches Err(LcuError::ApiError(detail))
            &&& detail@ == api_failure(context, response)
        },
    }
}

/// Tells a reply that carried the request out from one that did not.
/// `context` names the purpose of the request in the error.
pub fn check_reply(context: &str, reply: LcuReply) -> (out: Result<String, LcuError>)
    ensures
        reply_meaning(context@, reply, out),
{
    match reply {
        LcuReply::Failed(reason) => Err(LcuError::HttpError(reason)),
        LcuReply::Answered(response) => {
            if status_is_success(response.status) {
                Ok(response.body)
            } else {
                Err(LcuError::ApiError(describe_failure(context, &response)))
            }
        },
    }
}

/// As `reply_meaning`, for a request whose answer carries nothing to read.
pub open spec fn done_meaning(context: Seq<char>, reply: LcuReply, out: Result<(), LcuError>) -> bool {
    match reply {
        LcuReply::Failed(reason) => out == Err::<(), LcuError>(LcuError::HttpError(reason)),
        LcuReply::Answered(response) => if is_success(response.status) {
            out is Ok
        } else {
            &&& out matches Err(LcuError::ApiError(detail))
            &&& detail@ == api_failure(context, response)
        },
    }
}

fn check_done(context: &str, reply: LcuReply) -> (out: Result<(), LcuError>)
    ensures
        done_meaning(context@, reply, out),
{
    match check_reply(context, reply) {
        Ok(_) => Ok(()),
        Err(error) => Err(error),
    }
}

/// The request that lists the rune pages.
pub fn get_rune_pages_request(connection: &LcuConnection) -> (out: LcuRequest)
    requires
        connection.can_authenticate(),
    ensures
        is_client_request(out, *connection, HttpMethod::Get, "/lol-perks/v1/pages"@, false),
{
    client_request(connection, HttpMethod::Get, "/lol-perks/v1/pages", false)
}

/// The list of rune pages, as the JSON text that the API sent.
pub fn get_rune_pages(reply: LcuReply) -> (out: Result<String, LcuError>)
    ensures
        reply_meaning("Failed to get rune pages"@, reply, out),
{
    check_reply("Failed to get rune pages", reply)
}

/// The path of the rune page with the given id.
pub open spec fn rune_page_path(page_id: i64) -> Seq<char> {
    "/lol-perks/v1/pages/"@ + signed_decimal(page_id as int)
}

/// The request that deletes the rune page with the given id.
pub fn delete_rune_page_request(connection: &LcuConnection, page_id: i64) -> (out: LcuRequest)
    requires
        connection.can_authenticate(),
    ensures
        is_client_request(out, *connection, HttpMethod::Delete, rune_page_path(page_id), false),
{
    let id = signed_decimal_string(page_id);
    let path = str_concat("/lol-perks/v1/pages/", id.as_str());
    client_request(connection, HttpMethod::Delete, path.as_str(), false)
}

/// Whether the rune page was deleted.
pub fn delete_rune_page(reply: LcuReply) -> (out: Result<(), LcuError>)
    ensures
        done_meaning("Failed to delete rune page"@, reply, out),
{
    check_done("Failed to delete rune page", reply)
}

/// The request that creates a rune page; the page goes with it as JSON.
pub fn create_rune_page_request(connection: &LcuConnection) -> (out: LcuRequest)
    requires
        connection.can_authenticate(),
    ensures
        is_client_request(out, *connection, HttpMethod::Post, "/lol-perks/v1/pages"@, true),
{
    client_request(connection, HttpMethod::Post, "/lol-perks/v1/pages", true)
}

/// The request that sets the summoner spells of the selection in progress;
/// the spells go with it as JSON.
pub fn set_summoner_spells_request(connection: &LcuConnection) -> (out: LcuRequest)
    requires
        connection.can_authenticate(),
    ensures
        is_client_request(
            out,
            *connection,
            HttpMethod::Patch,
            "/lol-champ-select/v1/session/my-selection"@,
            true,
        ),
{
    client_request(connection, HttpMethod::Patch, "/lol-champ-select/v1/session/my-selection", true)
}

/// What a reply to the setting of summoner spells means. Status 404 says
/// that no champion select is going on, which is no fault of the request.
pub open spec fn summoner_spells_meaning(reply: LcuReply, out: Result<(), LcuError>) -> bool {
    match reply {
        LcuReply::Failed(reason) => out == Err::<(), LcuError>(LcuError::HttpError(reason)),
        LcuReply::Answered(response) => if is_success(response.status) {
            out is Ok
        } else {
            &&& out matches Err(LcuError::ApiError(detail))
            &&& detail@ == if response.status == 404 {
                "Not in champion select - summoner spells can only be changed during champ select"@
            } else {
                api_failure("Failed to set summoner spells"@, response)
            }
        },
    }
}

/// Whether the summoner spells were set.
pub fn set_summoner_spells(reply: LcuReply) -> (out: Result<(), LcuError>)
    ensures
        summoner_spells_meaning(reply, out),
{
    match reply {
        LcuReply::Failed(reason) => Err(LcuError::HttpError(reason)),
        LcuReply::Answered(response) => {
            if status_is_success(response.status) {
                Ok(())
            } else if response.status == 404 {
                Err(
                    LcuError::ApiError(
                        String::from_str(
                            "Not in champion select - summoner spells can only be changed during champ select",
                        ),
                    ),
                )
            } else {
                Err(LcuError::ApiError(describe_failure("Failed to set summoner spells", &response)))
            }
        },
    }
}

/// The request for the player who is logged in.
pub fn get_current_summoner_request(connection: &LcuConnection) -> (out: LcuRequest)
    requires
        connection.can_authenticate(),
    ensures
        is_client_request(
            out,
            *connection,
            HttpMethod::Get,
            "/lol-summoner/v1/current-summoner"@,
            false,
        ),
{
    client_request(connection, HttpMethod::Get, "/lol-summoner/v1/current-summoner", false)
}

/// The player who is logged in, read for the id alone, as the JSON text that
/// the API sent.
pub fn get_current_summoner_id(reply: LcuReply) -> (out: Result<String, LcuError>)
    ensures
        reply_meaning("Failed to get current summoner"@, reply, out),
{
    check_reply("Failed to get current summoner", reply)
}

/// The player who is logged in, as the JSON text that the API sent.
pub fn get_current_summoner(reply: LcuReply) -> (out: Result<String, LcuError>)
    ensures
        reply_meaning("Current summoner error"@, reply, out),
{
    check_reply("Current summoner error", reply)
}

/// The path of the item sets of the player with the given id.
pub open spec fn item_sets_path(summoner_id: i64) -> Seq<char> {
    "/lol-item-sets/v1/item-sets/"@ + signed_decimal(summoner_id as int) + "/sets"@
}

fn item_sets_path_string(summoner_id: i64) -> (out: String)
    ensures
        out@ == item_sets_path(summoner_id),
{
    let id = signed_decimal_string(summoner_id);
    let mut path = str_concat("/lol-item-sets/v1/item-sets/", id.as_str());
    path.append("/sets");
    path
}

/// The request for the item sets of the player with the given id.
pub fn get_item_sets_request(connection: &LcuConnection, summoner_id: i64) -> (out: LcuRequest)
    requires
        connection.can_authenticate(),
    ensures
        is_client_request(out, *connection, HttpMethod::Get, item_sets_path(summoner_id), false),
{
    let path = item_sets_path_string(summoner_id);
    client_request(connection, HttpMethod::Get, path.as_str(), false)
}

/// The item sets of a player, as the JSON text that the API sent.
pub fn get_item_sets(reply: LcuReply) -> (out: Result<String, LcuError>)
    ensures
        reply_meaning("Failed to get item sets"@, reply, out),
{
    check_reply("Failed to get item sets", reply)
}

/// The request that replaces the item sets of the player with the given id;
/// the new collection goes with it as JSON.
pub fn update_item_sets_request(connection: &LcuConnection, summoner_id: i64) -> (out: LcuRequest)
    requires
        connection.can_authenticate(),
    ensures
        is_client_request(out, *connection, HttpMethod::Put, item_sets_path(summoner_id), true),
{
    let path = item_sets_path_string(summoner_id);
    client_request(connection, HttpMethod::Put, path.as_str(), true)
}

/// Whether the item sets were replaced.
pub fn update_item_sets(reply: LcuReply) -> (out: Result<(), LcuError>)
    ensures
        done_meaning("Failed to update item sets"@, reply, out),
{
    check_done("Failed to update item sets", reply)
}

/// The request for the champion select session.
pub fn get_champion_select_session_request(connection: &LcuConnection) -> (out: LcuRequest)
    requires
        connection.can_authenticate(),
    ensures
        is_client_request(
            out,
            *connection,
            HttpMethod::Get,
            "/lol-champ-select/v1/session"@,
            false,
        ),
{
    client_request(connection, HttpMethod::Get, "/lol-champ-select/v1/session", false)
}

/// The champion select session, as the JSON text that the API sent. Outside
/// champion select the API refuses the request.
pub fn get_champion_select_session(reply: LcuReply) -> (out: Result<String, LcuError>)
    ensures
        reply_meaning("Not in champion select or error"@, reply, out),
{
    check_reply("Not in champion select or error", reply)
}

/// The request for the game flow session.
pub fn get_gameflow_session_request(connection: &LcuConnection) -> (out: LcuRequest)
    requires
        connection.can_authenticate(),
    ensures
        is_client_request(out, *connection, HttpMethod::Get, "/lol-gameflow/v1/session"@, false),
{
    client_request(connection, HttpMethod::Get, "/lol-gameflow/v1/session", false)
}

/// The game flow session, as the JSON text that the API sent.
pub fn get_gameflow_session(reply: LcuReply) -> (out: Result<String, LcuError>)
    ensures
        reply_meaning("Gameflow session error"@, reply, out),
{
    check_reply("Gameflow session error", reply)
}

impl GameflowPhase {
    /// The name of the phase as the client writes it. `Unknown` has a name
    /// of its own, which the client never writes.
    pub open spec fn spec_name(self) -> Seq<char> {
        match self {
            GameflowPhase::Idle => "None"@,
            GameflowPhase::Lobby => "Lobby"@,
            GameflowPhase::Matchmaking => "Matchmaking"@,
            GameflowPhase::CheckedIntoTournament => "CheckedIntoTournament"@,
            GameflowPhase::ReadyCheck => "ReadyCheck"@,
            GameflowPhase::ChampSelect => "ChampSelect"@,
            GameflowPhase::GameStart => "GameStart"@,
            GameflowPhase::FailedToLaunch => "FailedToLaunch"@,
            GameflowPhase::InProgress => "InProgress"@,
            GameflowPhase::Reconnect => "Reconnect"@,
            GameflowPhase::WaitingForStats => "WaitingForStats"@,
            GameflowPhase::PreEndOfGame => "PreEndOfGame"@,
            GameflowPhase::EndOfGame => "EndOfGame"@,
            GameflowPhase::TerminatedInError => "TerminatedInError"@,
            GameflowPhase::Unknown => "Unknown"@,
        }
    }

    /// The name of the phase as the client writes it.
    pub fn name(&self) -> (out: &'static str)
        ensures
            out@ == self.spec_name(),
    {
        match self {
            GameflowPhase::Idle => "None",
            GameflowPhase::Lobby => "Lobby",
            GameflowPhase::Matchmaking => "Matchmaking",
            GameflowPhase::CheckedIntoTournament => "CheckedIntoTournament",
            GameflowPhase::ReadyCheck => "ReadyCheck",
            GameflowPhase::ChampSelect => "ChampSelect",
            GameflowPhase::GameStart => "GameStart",
            GameflowPhase::FailedToLaunch => "FailedToLaunch",
            GameflowPhase::InProgress => "InProgress",
            GameflowPhase::Reconnect => "Reconnect",
            GameflowPhase::WaitingForStats => "WaitingForStats",
            GameflowPhase::PreEndOfGame => "PreEndOfGame",
            GameflowPhase::EndOfGame => "EndOfGame",
            GameflowPhase::TerminatedInError => "TerminatedInError",
            GameflowPhase::Unknown => "Unknown",
        }
    }
}

/// The name of the phase that a game flow session is in.
pub fn get_gameflow_phase(session: &GameflowSession) -> (out: String)
    ensures
        out@ == session.phase.spec_name(),
{
    String::from_str(session.phase.name())
}

} // verus!
