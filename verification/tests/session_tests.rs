use oxi_launcher::errors::{AuthError, ConfigError};
use oxi_launcher::session::{
    build_login_body, build_request_url, parse_core_settings, session_from_response,
    validate_password, CoreSettings, SessionDescriptor,
};

#[test]
fn successful_response_yields_session_with_defaults() {
    let body = r#"{"sId":"abc123","lobbyHost":"lobby.example","frontierHost":"front.example"}"#;
    let d = session_from_response(200, body).unwrap();
    assert_eq!(d.sid, "abc123");
    assert_eq!(d.lobby_host, "lobby.example");
    assert_eq!(d.frontier_host, "front.example");
    assert_eq!(d.region, 3);
    assert_eq!(d.max_expansion, 1);
    assert_eq!(d.language, 1);
}

#[test]
fn extra_fields_and_any_success_status_are_accepted() {
    let body = r#"{"sId":"s","lobbyHost":"l","frontierHost":"f","other":7}"#;
    assert!(session_from_response(299, body).is_ok());
}

#[test]
fn unauthorized_status_is_rejected_with_its_code() {
    let body = r#"{"sId":"s","lobbyHost":"l","frontierHost":"f"}"#;
    let e = session_from_response(401, body).unwrap_err();
    assert_eq!(e, AuthError::RemoteRejected(401));
    let e = session_from_response(500, "{}").unwrap_err();
    assert_eq!(e, AuthError::RemoteRejected(500));
}

#[test]
fn missing_session_field_is_malformed() {
    let body = r#"{"sId":"s","lobbyHost":"l"}"#;
    assert_eq!(
        session_from_response(200, body).unwrap_err(),
        AuthError::MalformedResponse
    );
}

#[test]
fn unparsable_body_is_malformed() {
    assert_eq!(
        session_from_response(200, "not json").unwrap_err(),
        AuthError::MalformedResponse
    );
    assert_eq!(
        session_from_response(200, "").unwrap_err(),
        AuthError::MalformedResponse
    );
}

#[test]
fn wrongly_typed_session_field_is_malformed() {
    let body = r#"{"sId":5,"lobbyHost":"l","frontierHost":"f"}"#;
    assert_eq!(
        session_from_response(200, body).unwrap_err(),
        AuthError::MalformedResponse
    );
}

#[test]
fn default_session_carries_protocol_defaults() {
    let d = SessionDescriptor::default();
    assert_eq!(d.sid, "");
    assert_eq!(d.lobby_host, "");
    assert_eq!(d.frontier_host, "");
    assert_eq!(d.region, 3);
    assert_eq!(d.max_expansion, 1);
    assert_eq!(d.language, 1);
}

fn settings(game_dir: &str, ip: &str, port: u16, scheme: &str) -> CoreSettings {
    CoreSettings {
        game_dir: game_dir.to_string(),
        frontier_ip: ip.to_string(),
        frontier_port: port,
        frontier_scheme: scheme.to_string(),
    }
}

#[test]
fn validate_accepts_complete_settings() {
    assert!(settings("/games/x", "127.0.0.1", 80, "http").validate().is_ok());
}

#[test]
fn validate_names_the_first_missing_field() {
    assert_eq!(
        settings("/g", "", 80, "http").validate().unwrap_err(),
        ConfigError::MissingFrontierIp
    );
    assert_eq!(
        settings("/g", "h", 0, "http").validate().unwrap_err(),
        ConfigError::MissingFrontierPort
    );
    assert_eq!(
        settings("/g", "h", 80, "").validate().unwrap_err(),
        ConfigError::MissingFrontierScheme
    );
    assert_eq!(
        settings("", "h", 80, "http").validate().unwrap_err(),
        ConfigError::MissingGameDir
    );
    // Field order decides which error wins when several are missing.
    assert_eq!(
        settings("", "", 0, "").validate().unwrap_err(),
        ConfigError::MissingFrontierIp
    );
}

#[test]
fn core_settings_parse_reads_all_fields() {
    let text = r#"{"game_dir":"/games/x","frontier_ip":"10.0.0.1","frontier_port":8080,"frontier_scheme":"https"}"#;
    let s = parse_core_settings(text).unwrap();
    assert_eq!(s.game_dir, "/games/x");
    assert_eq!(s.frontier_ip, "10.0.0.1");
    assert_eq!(s.frontier_port, 8080);
    assert_eq!(s.frontier_scheme, "https");
}

#[test]
fn core_settings_parse_rejects_bad_documents() {
    assert_eq!(
        parse_core_settings("nope").unwrap_err(),
        ConfigError::Malformed
    );
    let missing = r#"{"frontier_ip":"h","frontier_port":1,"frontier_scheme":"http"}"#;
    assert_eq!(parse_core_settings(missing).unwrap_err(), ConfigError::Malformed);
    let oversized_port = r#"{"game_dir":"/g","frontier_ip":"h","frontier_port":70000,"frontier_scheme":"http"}"#;
    assert_eq!(
        parse_core_settings(oversized_port).unwrap_err(),
        ConfigError::Malformed
    );
}

#[test]
fn core_settings_parse_applies_the_field_check() {
    let empty_ip = r#"{"game_dir":"/g","frontier_ip":"","frontier_port":1,"frontier_scheme":"http"}"#;
    assert_eq!(
        parse_core_settings(empty_ip).unwrap_err(),
        ConfigError::MissingFrontierIp
    );
    let zero_port = r#"{"game_dir":"/g","frontier_ip":"h","frontier_port":0,"frontier_scheme":"http"}"#;
    assert_eq!(
        parse_core_settings(zero_port).unwrap_err(),
        ConfigError::MissingFrontierPort
    );
}

#[test]
fn request_url_joins_all_parts() {
    let s = settings("/g", "127.0.0.1", 8080, "http");
    assert_eq!(
        build_request_url(&s, "/sapphire-api/lobby/login"),
        "http://127.0.0.1:8080/sapphire-api/lobby/login"
    );
    let s = settings("/g", "login.example", 443, "https");
    assert_eq!(
        build_request_url(&s, "/sapphire-api/lobby/createAccount"),
        "https://login.example:443/sapphire-api/lobby/createAccount"
    );
}

#[test]
fn login_body_is_the_documented_object() {
    assert_eq!(
        build_login_body("alice", "hunter2"),
        r#"{"username":"alice","pass":"hunter2"}"#
    );
}

#[test]
fn login_body_escaping_round_trips_through_a_json_parser() {
    let tricky_user = "a\"b\\c";
    let tricky_pass = "line\nbreak\ttab\u{1}ctl";
    let body = build_login_body(tricky_user, tricky_pass);
    let v: serde_json::Value = serde_json::from_str(&body).unwrap();
    assert_eq!(v.get("username").unwrap().as_str().unwrap(), tricky_user);
    assert_eq!(v.get("pass").unwrap().as_str().unwrap(), tricky_pass);
}

#[test]
fn empty_password_is_refused() {
    assert!(validate_password(String::new()).is_none());
    assert_eq!(validate_password("secret".to_string()).unwrap(), "secret");
}
