//! What the commands of the application decide: how an import is named and
//! summed up, and how errors are reported to a front end.

use crate::item_sets::FOCUS_ITEM_SET_PREFIX;
use crate::lcu::{
    find_lockfile, is_success, lockfile_found, status_is_success, ImportResult, LcuError, LcuReply,
};
use crate::rune_pages::FOCUS_RUNE_PAGE_PREFIX;
use crate::text::{join, joined, str_concat, str_to_uppercase, views};
use vstd::prelude::*;
use vstd::string::*;

verus! {

/// Where the build service is found.
pub const FOCUS_API_BASE_URL: &'static str = "https://api.hommet.ch/api/v1";

/// One tree of runes of a build.
#[derive(Debug, Clone, PartialEq, Eq)]
pub struct RuneTree {
    pub rune_ids: Vec<i64>,
    pub tree_id: i64,
}

/// A build as the front end hands it in, to be turned into payloads by the
/// build service.
#[derive(Debug, Clone, PartialEq, Eq)]
pub struct ImportPayloadRequest {
    pub boots: Option<i64>,
    pub champion_id: i64,
    pub champion_key: String,
    pub items_core: Vec<i64>,
    pub items_situational: Vec<i64>,
    pub items_starting: Vec<i64>,
    pub patch: String,
    pub role: String,
    pub rune_shards: Vec<i64>,
    pub runes_primary: RuneTree,
    pub runes_secondary: RuneTree,
    pub source: String,
    pub summoner_spells: Vec<i64>,
    pub title: String,
}

/// An error as a front end gets it: a code to tell errors apart and a text
/// for the user.
#[derive(Debug, Clone, PartialEq, Eq)]
pub struct CommandError {
    pub code: String,
    pub message: String,
}

impl CommandError {
    /// Reports an error of the client API under the code of its kind.
    pub fn from(err: LcuError) -> (out: CommandError)
        ensures
            out.code@ == err.spec_code(),
            out.message@ == err.spec_message(),
    {
        CommandError { code: String::from_str(err.code()), message: err.message() }
    }

    /// Reports a request to the build service that got no answer; `detail`
    /// says why.
    pub fn from_transport(detail: &str) -> (out: CommandError)
        ensures
            out.code@ == "HTTP_ERROR"@,
            out.message@ == "HTTP request failed: "@ + detail@,
    {
        CommandError {
            code: String::from_str("HTTP_ERROR"),
            message: str_concat("HTTP request failed: ", detail),
        }
    }

    /// Reports why no connection data was found, for a command that needs
    /// the client.
    pub fn from_discovery(err: LcuError) -> (out: CommandError)
        ensures
            out.code@ == if err is ClientNotRunning {
                "CLIENT_NOT_RUNNING"@
            } else {
                "CONNECTION_ERROR"@
            },
            out.message@ == if err is ClientNotRunning {
                "League Client is not running"@
            } else {
                "Failed to connect to League Client: "@ + err.spec_message()
            },
    {
        match err {
            LcuError::ClientNotRunning => CommandError {
                code: String::from_str("CLIENT_NOT_RUNNING"),
                message: String::from_str("League Client is not running"),
            },
            _ => {
                let text = err.message();
                CommandError {
                    code: String::from_str("CONNECTION_ERROR"),
                    message: str_concat("Failed to connect to League Client: ", text.as_str()),
                }
            },
        }
    }

    /// Reports an error of the client API under the one code that the
    /// command for summoner spells uses.
    pub fn from_client(err: LcuError) -> (out: CommandError)
        ensures
            out.code@ == "LCU_ERROR"@,
            out.message@ == err.spec_message(),
    {
        CommandError { code: String::from_str("LCU_ERROR"), message: err.message() }
    }
}

/// What a reply of the build service means: the body of the answer where the
/// status says success, else the error for the front end.
pub open spec fn import_payloads_meaning(reply: LcuReply, out: Result<String, CommandError>) -> bool {
    match reply {
        LcuReply::Failed(reason) => {
            &&& out matches Err(error)
            &&& error.code@ == "HTTP_ERROR"@
            &&& error.message@ == "HTTP request failed: "@ + reason@
        },
        LcuReply::Answered(response) => if is_success(response.status) {
            out == Ok::<String, CommandError>(response.body)
        } else {
            &&& out matches Err(error)
            &&& error.code@ == "API_ERROR"@
            &&& error.message@ == "FocusApi returned error "@ + response.status_text@ + ": "@
                + response.body@
        },
    }
}

/// The payloads for a build, as the JSON text that the build service sent.
pub fn fetch_import_payloads(reply: LcuReply) -> (out: Result<String, CommandError>)
    ensures
        import_payloads_meaning(reply, out),
{
    match reply {
        LcuReply::Failed(reason) => Err(CommandError::from_transport(reason.as_str())),
        LcuReply::Answered(response) => {
            if status_is_success(response.status) {
                Ok(response.body)
            } else {
                let mut message = str_concat("FocusApi returned error ", response.status_text.as_str());
                message.append(": ");
                message.append(response.body.as_str());
                Err(CommandError { code: String::from_str("API_ERROR"), message })
            }
        },
    }
}

/// Reports an answer of the build service that could not be decoded;
/// `detail` says why.
pub fn import_payloads_parse_error(detail: &str) -> (out: CommandError)
    ensures
        out.code@ == "PARSE_ERROR"@,
        out.message@ == "Failed to parse FocusApi response: "@ + detail@,
{
    CommandError {
        code: String::from_str("PARSE_ERROR"),
        message: str_concat("Failed to parse FocusApi response: ", detail),
    }
}

/// Whether the client is running: whether connection data is found. `reads`
/// is what reading the candidate credentials files gave.
pub fn is_league_client_running(reads: &Vec<Option<String>>) -> (yes: bool)
    ensures
        yes == lockfile_found(reads@),
{
    find_lockfile(reads).is_ok()
}

/// What a champion is called where the build service gave no name.
pub open spec fn champion_or_unknown(champion: Option<String>) -> Seq<char> {
    match champion {
        Some(name) => name@,
        None => "Unknown"@,
    }
}

/// The role in capitals, empty where the build service gave none.
pub open spec fn role_in_capitals(role: Option<String>) -> Seq<char> {
    match role {
        Some(name) => str_to_uppercase(name@),
        None => str_to_uppercase(""@),
    }
}

/// The name under which a build is put into the client: the mark of this
/// application, the champion, a space, the role in capitals.
pub open spec fn import_name(prefix: Seq<char>, champion: Option<String>, role: Option<String>) -> Seq<
    char,
> {
    prefix + champion_or_unknown(champion) + " "@ + role_in_capitals(role)
}

fn name_import(prefix: &str, champion: &Option<String>, role: &Option<String>) -> (out: String)
    ensures
        out@ == import_name(prefix@, *champion, *role),
{
    let mut out = String::from_str(prefix);
    match champion {
        Some(name) => out.append(name.as_str()),
        None => out.append("Unknown"),
    }
    out.append(" ");
    let capitals = match role {
        Some(name) => name.as_str().to_uppercase(),
        None => "".to_uppercase(),
    };
    out.append(capitals.as_str());
    out
}

/// The name of the rune page for a build.
pub fn rune_page_name(champion: &Option<String>, role: &Option<String>) -> (out: String)
    ensures
        out@ == import_name(FOCUS_RUNE_PAGE_PREFIX@, *champion, *role),
{
    name_import(FOCUS_RUNE_PAGE_PREFIX, champion, role)
}

/// The title of the item set for a build.
pub fn item_set_title(champion: &Option<String>, role: &Option<String>) -> (out: String)
    ensures
        out@ == import_name(FOCUS_ITEM_SET_PREFIX@, *champion, *role),
{
    name_import(FOCUS_ITEM_SET_PREFIX, champion, role)
}

/// What became of one part of an import that has a name: the name under
/// which it was imported, or the error.
pub open spec fn named_line(
    imported: Seq<char>,
    failed: Seq<char>,
    part: Result<String, LcuError>,
) -> Seq<char> {
    match part {
        Ok(name) => imported + name@ + "' imported"@,
        Err(error) => failed + error.spec_message(),
    }
}

/// The lines that sum an import up, part by part: runes, items, summoner
/// spells. A part that the build did not have has no line, and neither have
/// summoner spells that could not be set: outside champion select that is
/// expected.
pub open spec fn import_lines(
    runes: Option<Result<String, LcuError>>,
    items: Option<Result<String, LcuError>>,
    spells: Option<Result<(), LcuError>>,
) -> Seq<Seq<char>> {
    let rune_lines = match runes {
        Some(part) => seq![named_line("Rune page '"@, "Failed to import runes: "@, part)],
        None => Seq::<Seq<char>>::empty(),
    };
    let item_lines = match items {
        Some(part) => seq![named_line("Item set '"@, "Failed to import items: "@, part)],
        None => Seq::<Seq<char>>::empty(),
    };
    let spell_lines = match spells {
        Some(Ok(_)) => seq!["Summoner spells set"@],
        _ => Seq::<Seq<char>>::empty(),
    };
    rune_lines + item_lines + spell_lines
}

fn line_for(imported: &str, failed: &str, part: &Result<String, LcuError>) -> (out: String)
    ensures
        out@ == named_line(imported@, failed@, *part),
{
    match part {
        Ok(name) => {
            let mut line = str_concat(imported, name.as_str());
            line.append("' imported");
            line
        },
        Err(error) => {
            let text = error.message();
            str_concat(failed, text.as_str())
        },
    }
}

/// Sums an import up. Each argument says what became of one part: `None`
/// where the build did not have it, else the outcome, for runes and items
/// with the name under which the part was imported.
///
/// The import has succeeded where one part at least was imported. The
/// message holds one sentence for each line, or says that there was nothing
/// to import.
pub fn import_build_to_client(
    runes: Option<Result<String, LcuError>>,
    items: Option<Result<String, LcuError>>,
    spells: Option<Result<(), LcuError>>,
) -> (out: ImportResult)
    ensures
        out.runes_imported == (runes matches Some(Ok(_))),
        out.items_imported == (items matches Some(Ok(_))),
        out.summoners_imported == (spells matches Some(Ok(_))),
        out.success == (out.runes_imported || out.items_imported || out.summoners_imported),
        out.message@ == if import_lines(runes, items, spells).len() == 0 {
            "No data to import"@
        } else {
            joined(import_lines(runes, items, spells), ". "@)
        },
{
    let mut runes_imported = false;
    let mut items_imported = false;
    let mut summoners_imported = false;
    let mut messages: Vec<String> = Vec::new();
    assert(views(messages@) =~= Seq::<Seq<char>>::empty());
    match &runes {
        Some(part) => {
            runes_imported = part.is_ok();
            let line = line_for("Rune page '", "Failed to import runes: ", part);
            assert(views(messages@.push(line)) =~= views(messages@).push(line@));
            messages.push(line);
        },
        None => {},
    }
    let ghost rune_lines = views(messages@);
    match &items {
        Some(part) => {
            items_imported = part.is_ok();
            let line = line_for("Item set '", "Failed to import items: ", part);
            assert(views(messages@.push(line)) =~= views(messages@).push(line@));
            messages.push(line);
        },
        None => {},
    }
    let ghost item_lines = views(messages@);
    match &spells {
        Some(Ok(_)) => {
            summoners_imported = true;
            let line = String::from_str("Summoner spells set");
            assert(views(messages@.push(line)) =~= views(messages@).push(line@));
            messages.push(line);
        },
        _ => {},
    }
    assert(views(messages@) =~= import_lines(runes, items, spells));
    let success = runes_imported || items_imported || summoners_imported;
    let message = if messages.len() == 0 {
        String::from_str("No data to import")
    } else {
        join(&messages, ". ")
    };
    ImportResult { success, runes_imported, items_imported, summoners_imported, message }
}

} // verus!
