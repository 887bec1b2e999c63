use focusapp::lcu::{
    find_lockfile, lockfile_candidates, parse_lockfile, LcuConnection, LcuError, Platform,
};

#[test]
fn test_parse_lockfile() {
    let lockfile = "LeagueClient:12345:54321:supersecretpassword:https";
    let connection = parse_lockfile(lockfile).unwrap();

    assert_eq!(connection.port, 54321);
    assert_eq!(connection.password, "supersecretpassword");
    assert_eq!(connection.protocol, "https");
}

#[test]
fn test_auth_header() {
    let connection = LcuConnection {
        port: 12345,
        password: "test".to_string(),
        protocol: "https".to_string(),
    };

    let auth = connection.auth_header();
    assert!(auth.starts_with("Basic "));
}

#[test]
fn auth_header_is_base64_of_login() {
    let connection = LcuConnection {
        port: 1,
        password: "test".to_string(),
        protocol: "https".to_string(),
    };
    // base64("riot:test")
    assert_eq!(connection.auth_header(), "Basic cmlvdDp0ZXN0");
    let other = LcuConnection { port: 1, password: "a".to_string(), protocol: "http".to_string() };
    // base64("riot:a"), padded
    assert_eq!(other.auth_header(), "Basic cmlvdDph");
    let empty = LcuConnection { port: 1, password: String::new(), protocol: "http".to_string() };
    assert_eq!(empty.auth_header(), "Basic cmlvdDo=");
}

#[test]
fn base_url_is_exact() {
    let connection = LcuConnection {
        port: 54321,
        password: "x".to_string(),
        protocol: "https".to_string(),
    };
    assert_eq!(connection.base_url(), "https://127.0.0.1:54321");
    let low = LcuConnection { port: 0, password: "x".to_string(), protocol: "http".to_string() };
    assert_eq!(low.base_url(), "http://127.0.0.1:0");
    let high =
        LcuConnection { port: 65535, password: "x".to_string(), protocol: "http".to_string() };
    assert_eq!(high.base_url(), "http://127.0.0.1:65535");
}

#[test]
fn lockfile_with_too_few_fields_is_a_parse_error() {
    for text in ["", "a", "a:b", "a:b:c", "a:1:2:pw", "   \n", "::::x".trim_end_matches(":x")] {
        match parse_lockfile(text) {
            Err(LcuError::LockfileParseError(_)) => {}
            other => panic!("{:?} gave {:?}", text, other),
        }
    }
    assert_eq!(
        parse_lockfile("a:b:c"),
        Err(LcuError::LockfileParseError("Expected 5 parts, got 3".to_string()))
    );
    assert_eq!(
        parse_lockfile(""),
        Err(LcuError::LockfileParseError("Expected 5 parts, got 1".to_string()))
    );
}

#[test]
fn lockfile_port_must_be_a_16_bit_number() {
    let bad = Err(LcuError::LockfileParseError("Invalid port number".to_string()));
    assert_eq!(parse_lockfile("n:1:65536:pw:https"), bad);
    assert_eq!(parse_lockfile("n:1:-1:pw:https"), bad);
    assert_eq!(parse_lockfile("n:1::pw:https"), bad);
    assert_eq!(parse_lockfile("n:1:+:pw:https"), bad);
    assert_eq!(parse_lockfile("n:1:12a:pw:https"), bad);
    assert_eq!(parse_lockfile("n:1: 12:pw:https"), bad);
    assert_eq!(parse_lockfile("n:1:99999999999999999999:pw:https"), bad);
    assert_eq!(parse_lockfile("n:1:65535:pw:https").unwrap().port, 65535);
    assert_eq!(parse_lockfile("n:1:+80:pw:https").unwrap().port, 80);
    assert_eq!(parse_lockfile("n:1:00080:pw:https").unwrap().port, 80);
    assert_eq!(parse_lockfile("n:1:0:pw:https").unwrap().port, 0);
}

#[test]
fn lockfile_is_trimmed_and_extra_fields_are_ignored() {
    let connection = parse_lockfile("  LeagueClient:1:2999:pw:http:more:fields\r\n").unwrap();
    assert_eq!(
        connection,
        LcuConnection { port: 2999, password: "pw".to_string(), protocol: "http".to_string() }
    );
    let empty_fields = parse_lockfile("::7::").unwrap();
    assert_eq!(
        empty_fields,
        LcuConnection { port: 7, password: String::new(), protocol: String::new() }
    );
}

#[test]
fn discovery_takes_the_first_readable_file() {
    assert_eq!(find_lockfile(&vec![]), Err(LcuError::ClientNotRunning));
    assert_eq!(find_lockfile(&vec![None, None]), Err(LcuError::ClientNotRunning));
    let found = find_lockfile(&vec![
        None,
        Some("LeagueClient:1:1111:first:https".to_string()),
        Some("LeagueClient:1:2222:second:https".to_string()),
    ]);
    assert_eq!(found.unwrap().port, 1111);
    // A readable file of the wrong shape decides too: later files are not tried.
    let malformed = find_lockfile(&vec![
        Some("garbage".to_string()),
        Some("LeagueClient:1:2222:second:https".to_string()),
    ]);
    assert_eq!(
        malformed,
        Err(LcuError::LockfileParseError("Expected 5 parts, got 1".to_string()))
    );
}

#[test]
fn error_messages() {
    assert_eq!(
        LcuError::ClientNotRunning.message(),
        "League Client is not running. Please start the client first."
    );
    assert_eq!(
        LcuError::LockfileNotFound("/x/lockfile".to_string()).message(),
        "Could not find League Client lockfile at: /x/lockfile"
    );
    assert_eq!(
        LcuError::LockfileParseError("Invalid port number".to_string()).message(),
        "Failed to parse lockfile: Invalid port number"
    );
    assert_eq!(
        LcuError::HttpError("timed out".to_string()).message(),
        "HTTP request to League Client failed: timed out"
    );
    assert_eq!(
        LcuError::ApiError("boom".to_string()).message(),
        "League Client API error: boom"
    );
    assert_eq!(LcuError::IoError("denied".to_string()).message(), "IO error: denied");
}

#[test]
fn candidate_paths_by_platform() {
    assert_eq!(
        lockfile_candidates(Platform::Windows, None),
        vec![
            "C:\\Riot Games\\League of Legends\\lockfile",
            "D:\\Riot Games\\League of Legends\\lockfile"
        ]
    );
    assert_eq!(
        lockfile_candidates(Platform::Windows, Some("E:\\local\\lockfile".to_string())),
        vec![
            "C:\\Riot Games\\League of Legends\\lockfile",
            "D:\\Riot Games\\League of Legends\\lockfile",
            "E:\\local\\lockfile"
        ]
    );
    assert_eq!(lockfile_candidates(Platform::Windows, Some(String::new())).len(), 2);
    assert_eq!(
        lockfile_candidates(Platform::MacOs, Some("ignored".to_string())),
        vec!["/Applications/League of Legends.app/Contents/LoL/lockfile"]
    );
    assert!(lockfile_candidates(Platform::Other, Some("ignored".to_string())).is_empty());
}

#[test]
fn ordinary_passwords_fit_the_header() {
    for password in ["", "a", "ab", "abc", "supersecretpassword", "pässwörd ⚡"] {
        let connection = LcuConnection {
            port: 1,
            password: password.to_string(),
            protocol: "https".to_string(),
        };
        assert!(connection.credentials_fit());
    }
}
