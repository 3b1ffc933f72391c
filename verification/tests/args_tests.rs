use oxi_launcher::args::{
    build_argument_set, build_game_args, serialize_argument_set, version_from_read,
};
use oxi_launcher::errors::RepositoryReadError;
use oxi_launcher::errors::ErrorKind;
use oxi_launcher::session::{CoreSettings, SessionDescriptor};

fn session() -> SessionDescriptor {
    SessionDescriptor {
        sid: "abc123".to_string(),
        lobby_host: "lobby.example".to_string(),
        frontier_host: "front.example".to_string(),
        region: 3,
        max_expansion: 1,
        language: 1,
    }
}

#[test]
fn argument_string_matches_the_wire_layout_exactly() {
    let args = build_game_args(&session(), "2023.09.15.0000.0000");
    let mut expected = String::new();
    expected.push_str(" /DEV.DataPathType =1");
    expected.push_str(" /DEV.UseSqPack =1");
    expected.push_str(" /DEV.MaxEntitledExpansionID =1");
    expected.push_str(" /DEV.TestSID =abc123");
    expected.push_str(" /SYS.Region =3");
    expected.push_str(" /language =1");
    expected.push_str(" /ver =2023.09.15.0000.0000");
    expected.push_str(" /DEV.GMServerHost =front.example");
    for i in 1..=8 {
        expected.push_str(&format!(" /DEV.LobbyHost0{} =lobby.example", i));
        expected.push_str(&format!(" /DEV.LobbyPort0{} =54994", i));
    }
    assert_eq!(args, expected);
}

#[test]
fn builder_emits_eight_identical_lobby_slots() {
    let set = build_argument_set(&session(), "1.0");
    assert_eq!(set.pairs.len(), 24);
    let hosts: Vec<&(String, String)> = set
        .pairs
        .iter()
        .filter(|p| p.0.starts_with("DEV.LobbyHost"))
        .collect();
    let ports: Vec<&(String, String)> = set
        .pairs
        .iter()
        .filter(|p| p.0.starts_with("DEV.LobbyPort"))
        .collect();
    assert_eq!(hosts.len(), 8);
    assert_eq!(ports.len(), 8);
    for (i, p) in hosts.iter().enumerate() {
        assert_eq!(p.0, format!("DEV.LobbyHost0{}", i + 1));
        assert_eq!(p.1, "lobby.example");
    }
    for (i, p) in ports.iter().enumerate() {
        assert_eq!(p.0, format!("DEV.LobbyPort0{}", i + 1));
        assert_eq!(p.1, "54994");
    }
}

#[test]
fn builder_is_deterministic_for_fixed_inputs() {
    let a = build_game_args(&session(), "7.0");
    let b = build_game_args(&session(), "7.0");
    assert_eq!(a, b);
}

#[test]
fn serialization_follows_insertion_order() {
    let set = build_argument_set(&session(), "v");
    let s = serialize_argument_set(&set);
    let first_host = s.find("DEV.LobbyHost01").unwrap();
    let first_port = s.find("DEV.LobbyPort01").unwrap();
    let region = s.find("SYS.Region").unwrap();
    assert!(region < first_host);
    assert!(first_host < first_port);
}

#[test]
fn session_numbers_are_rendered_in_decimal() {
    let mut d = session();
    d.region = -2;
    d.max_expansion = 4;
    d.language = 0;
    let args = build_game_args(&d, "v");
    assert!(args.contains(" /SYS.Region =-2"));
    assert!(args.contains(" /DEV.MaxEntitledExpansionID =4"));
    assert!(args.contains(" /language =0"));
}

#[test]
fn missing_installation_is_a_repository_error() {
    let settings = CoreSettings {
        game_dir: "/nonexistent/game/dir".to_string(),
        frontier_ip: "h".to_string(),
        frontier_port: 1,
        frontier_scheme: "http".to_string(),
    };
    let r = oxi_launcher::args::get_game_args(&session(), &settings, 1);
    assert!(matches!(r, Err(ErrorKind::Repository(_))));
}

#[test]
fn absent_version_reading_becomes_the_repository_error() {
    assert_eq!(version_from_read(None).unwrap_err(), RepositoryReadError);
    assert_eq!(
        version_from_read(Some("2023.09.15.0000.0000".to_string())).unwrap(),
        "2023.09.15.0000.0000"
    );
}
