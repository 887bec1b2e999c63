use focusapp::commands::{
    fetch_import_payloads, import_build_to_client, import_payloads_parse_error,
    is_league_client_running, item_set_title, rune_page_name, CommandError, ImportPayloadRequest,
    RuneTree, FOCUS_API_BASE_URL,
};
use focusapp::lcu::{ImportResult, LcuError, LcuReply, LcuResponse};

#[test]
fn errors_are_reported_under_their_code() {
    let cases = [
        (LcuError::ClientNotRunning, "CLIENT_NOT_RUNNING"),
        (LcuError::LockfileNotFound("p".to_string()), "LOCKFILE_NOT_FOUND"),
        (LcuError::LockfileParseError("p".to_string()), "LOCKFILE_PARSE_ERROR"),
        (LcuError::HttpError("p".to_string()), "HTTP_ERROR"),
        (LcuError::ApiError("p".to_string()), "API_ERROR"),
        (LcuError::IoError("p".to_string()), "IO_ERROR"),
    ];
    for (error, code) in cases {
        assert_eq!(error.code(), code);
        let reported = CommandError::from(error.clone());
        assert_eq!(reported.code, code);
        assert_eq!(reported.message, error.message());
    }
    assert_eq!(
        CommandError::from(LcuError::ApiError("boom".to_string())),
        CommandError {
            code: "API_ERROR".to_string(),
            message: "League Client API error: boom".to_string()
        }
    );
    assert_eq!(
        CommandError::from_transport("timed out"),
        CommandError {
            code: "HTTP_ERROR".to_string(),
            message: "HTTP request failed: timed out".to_string()
        }
    );
    assert_eq!(
        CommandError::from_discovery(LcuError::ClientNotRunning),
        CommandError {
            code: "CLIENT_NOT_RUNNING".to_string(),
            message: "League Client is not running".to_string()
        }
    );
    assert_eq!(
        CommandError::from_discovery(LcuError::LockfileParseError("Invalid port number".to_string())),
        CommandError {
            code: "CONNECTION_ERROR".to_string(),
            message:
                "Failed to connect to League Client: Failed to parse lockfile: Invalid port number"
                    .to_string()
        }
    );
    assert_eq!(
        CommandError::from_client(LcuError::ApiError("x".to_string())),
        CommandError {
            code: "LCU_ERROR".to_string(),
            message: "League Client API error: x".to_string()
        }
    );
}

#[test]
fn build_service_replies() {
    assert_eq!(FOCUS_API_BASE_URL, "https://api.hommet.ch/api/v1");
    let answered = |status: u16, status_text: &str, body: &str| {
        LcuReply::Answered(LcuResponse {
            status,
            status_text: status_text.to_string(),
            body: body.to_string(),
        })
    };
    assert_eq!(fetch_import_payloads(answered(200, "200 OK", "{}")), Ok("{}".to_string()));
    assert_eq!(
        fetch_import_payloads(answered(401, "401 Unauthorized", "bad key")),
        Err(CommandError {
            code: "API_ERROR".to_string(),
            message: "FocusApi returned error 401 Unauthorized: bad key".to_string()
        })
    );
    assert_eq!(
        fetch_import_payloads(LcuReply::Failed("dns".to_string())),
        Err(CommandError {
            code: "HTTP_ERROR".to_string(),
            message: "HTTP request failed: dns".to_string()
        })
    );
    assert_eq!(
        import_payloads_parse_error("EOF"),
        CommandError {
            code: "PARSE_ERROR".to_string(),
            message: "Failed to parse FocusApi response: EOF".to_string()
        }
    );
}

#[test]
fn client_runs_where_a_lockfile_parses() {
    assert!(!is_league_client_running(&vec![]));
    assert!(!is_league_client_running(&vec![None]));
    assert!(is_league_client_running(&vec![None, Some("n:1:2:pw:https".to_string())]));
    assert!(!is_league_client_running(&vec![Some("garbage".to_string())]));
}

#[test]
fn import_names() {
    let ahri = Some("Ahri".to_string());
    let mid = Some("mid".to_string());
    assert_eq!(rune_page_name(&ahri, &mid), "⚡Ahri MID");
    assert_eq!(item_set_title(&ahri, &mid), "Focus: Ahri MID");
    assert_eq!(rune_page_name(&None, &None), "⚡Unknown ");
    assert_eq!(item_set_title(&None, &Some("Support".to_string())), "Focus: Unknown SUPPORT");
    assert_eq!(rune_page_name(&ahri, &Some("straße".to_string())), "⚡Ahri STRASSE");
}

#[test]
fn import_summary() {
    assert_eq!(
        import_build_to_client(None, None, None),
        ImportResult {
            success: false,
            runes_imported: false,
            items_imported: false,
            summoners_imported: false,
            message: "No data to import".to_string(),
        }
    );
    assert_eq!(
        import_build_to_client(
            Some(Ok("⚡Ahri MID".to_string())),
            Some(Ok("Focus: Ahri MID".to_string())),
            Some(Ok(())),
        ),
        ImportResult {
            success: true,
            runes_imported: true,
            items_imported: true,
            summoners_imported: true,
            message:
                "Rune page '⚡Ahri MID' imported. Item set 'Focus: Ahri MID' imported. Summoner spells set"
                    .to_string(),
        }
    );
    assert_eq!(
        import_build_to_client(
            Some(Err(LcuError::ApiError("full".to_string()))),
            Some(Ok("Focus: Ahri MID".to_string())),
            Some(Err(LcuError::ApiError("Not in champion select".to_string()))),
        ),
        ImportResult {
            success: true,
            runes_imported: false,
            items_imported: true,
            summoners_imported: false,
            message:
                "Failed to import runes: League Client API error: full. Item set 'Focus: Ahri MID' imported"
                    .to_string(),
        }
    );
    // Spells that could not be set leave no line, so nothing is left to say.
    assert_eq!(
        import_build_to_client(None, None, Some(Err(LcuError::ClientNotRunning))),
        ImportResult {
            success: false,
            runes_imported: false,
            items_imported: false,
            summoners_imported: false,
            message: "No data to import".to_string(),
        }
    );
    assert_eq!(
        import_build_to_client(None, Some(Err(LcuError::HttpError("t".to_string()))), None),
        ImportResult {
            success: false,
            runes_imported: false,
            items_imported: false,
            summoners_imported: false,
            message: "Failed to import items: HTTP request to League Client failed: t".to_string(),
        }
    );
    assert_eq!(import_build_to_client(None, None, Some(Ok(()))).message, "Summoner spells set");
}

#[test]
fn request_types_hold_their_fields() {
    let tree = RuneTree { rune_ids: vec![1, 2], tree_id: 8100 };
    let request = ImportPayloadRequest {
        boots: None,
        champion_id: 103,
        champion_key: "Ahri".to_string(),
        items_core: vec![1],
        items_situational: vec![],
        items_starting: vec![2],
        patch: "14.10".to_string(),
        role: "mid".to_string(),
        rune_shards: vec![3],
        runes_primary: tree.clone(),
        runes_secondary: tree,
        source: "s".to_string(),
        summoner_spells: vec![4, 14],
        title: "t".to_string(),
    };
    assert_eq!(request.clone(), request);
}
