use mail_sessions::config::{
    Credentials, IncomingProtocol, LoginConfig, OutgoingProtocol, RemoteServer, ServerConfig,
};
use mail_sessions::identifier::{derive as derive_token, get_credentials, Identifier};

fn server(domain: &str, port: u16, username: &str, secret: &str) -> ServerConfig {
    ServerConfig {
        server: RemoteServer { domain: domain.to_string(), port },
        credentials: Credentials::Password {
            username: username.to_string(),
            secret: secret.to_string(),
        },
    }
}

fn sample_config() -> LoginConfig {
    LoginConfig::new(
        IncomingProtocol::Imap(server("imap.example.com", 993, "a", "p1")),
        OutgoingProtocol::Smtp(server("smtp.example.com", 587, "a", "p1")),
    )
}

fn derive(config: &LoginConfig) -> String {
    derive_token(config).unwrap()
}

#[test]
fn derive_agrees_with_building_and_hashing() {
    let config = sample_config();
    assert_eq!(
        derive_token(&config).unwrap(),
        Identifier::from_config(&config).hash().unwrap()
    );
}

#[test]
fn get_credentials_reads_both_variants() {
    let password = Credentials::Password { username: "u".to_string(), secret: "s".to_string() };
    let (username, secret) = get_credentials(&password);
    assert_eq!((username.as_str(), secret.as_str()), ("u", "s"));

    let oauth = Credentials::OAuthToken { username: "u".to_string(), token: "t".to_string() };
    let (username, token) = get_credentials(&oauth);
    assert_eq!((username.as_str(), token.as_str()), ("u", "t"));
}

#[test]
fn login_config_accessors_hand_back_what_was_given() {
    let config = sample_config();
    match config.incoming() {
        IncomingProtocol::Imap(c) => {
            assert_eq!(c.server.domain, "imap.example.com");
            assert_eq!(c.server.port, 993);
        }
        other => panic!("unexpected incoming protocol: {:?}", other),
    }
    match config.outgoing() {
        OutgoingProtocol::Smtp(c) => {
            assert_eq!(c.server.domain, "smtp.example.com");
            assert_eq!(c.server.port, 587);
        }
    }
}

#[test]
fn canonical_plaintext_shape() {
    let identifier = Identifier::from_config(&sample_config());
    assert_eq!(
        identifier.into_string(),
        "a:p1@imap.example.com993|a:p1@smtp.example.com587"
    );
}

#[test]
fn derived_token_exact_value() {
    assert_eq!(
        derive(&sample_config()),
        "f4e2dd31c87c68b46ce111eaca236ce69bdc19c8289c9a9727fd2ff14377da13"
    );
}

#[test]
fn empty_identifier_hash_exact_value() {
    let token = Identifier::default().hash().unwrap();
    assert_eq!(
        token,
        "e3b0c44298fc1c149afbf4c8996fb92427ae41e4649b934ca495991b7852b855"
    );
}

#[test]
fn add_remote_server_builds_expected_text() {
    let mut identifier = Identifier::default();
    identifier.add_remote_server("u", "s", "h", 1);
    assert_eq!(identifier.into_string(), "u:s@h1");
}

#[test]
fn separator_is_a_pipe() {
    let mut identifier = Identifier::default();
    identifier.add_separator();
    assert_eq!(identifier.into_string(), "|");
}

#[test]
fn determinism_same_fields_same_token() {
    assert_eq!(derive(&sample_config()), derive(&sample_config()));
}

#[test]
fn determinism_ignores_protocol_kind() {
    let pop = LoginConfig::new(
        IncomingProtocol::Pop(server("imap.example.com", 993, "a", "p1")),
        OutgoingProtocol::Smtp(server("smtp.example.com", 587, "a", "p1")),
    );
    assert_eq!(derive(&sample_config()), derive(&pop));
}

#[test]
fn determinism_ignores_credential_variant() {
    let oauth_incoming = ServerConfig {
        server: RemoteServer { domain: "imap.example.com".to_string(), port: 993 },
        credentials: Credentials::OAuthToken {
            username: "a".to_string(),
            token: "p1".to_string(),
        },
    };
    let with_token = LoginConfig::new(
        IncomingProtocol::Imap(oauth_incoming),
        OutgoingProtocol::Smtp(server("smtp.example.com", 587, "a", "p1")),
    );
    assert_eq!(derive(&sample_config()), derive(&with_token));
}

#[test]
fn sensitivity_each_field_changes_token() {
    let base = derive(&sample_config());

    let variants = [
        LoginConfig::new(
            IncomingProtocol::Imap(server("imap.example.com", 993, "b", "p1")),
            OutgoingProtocol::Smtp(server("smtp.example.com", 587, "a", "p1")),
        ),
        LoginConfig::new(
            IncomingProtocol::Imap(server("imap.example.com", 993, "a", "p2")),
            OutgoingProtocol::Smtp(server("smtp.example.com", 587, "a", "p1")),
        ),
        LoginConfig::new(
            IncomingProtocol::Imap(server("imap.other.com", 993, "a", "p1")),
            OutgoingProtocol::Smtp(server("smtp.example.com", 587, "a", "p1")),
        ),
        LoginConfig::new(
            IncomingProtocol::Imap(server("imap.example.com", 143, "a", "p1")),
            OutgoingProtocol::Smtp(server("smtp.example.com", 587, "a", "p1")),
        ),
        LoginConfig::new(
            IncomingProtocol::Imap(server("imap.example.com", 993, "a", "p1")),
            OutgoingProtocol::Smtp(server("smtp.example.com", 587, "b", "p1")),
        ),
        LoginConfig::new(
            IncomingProtocol::Imap(server("imap.example.com", 993, "a", "p1")),
            OutgoingProtocol::Smtp(server("smtp.example.com", 587, "a", "p2")),
        ),
        LoginConfig::new(
            IncomingProtocol::Imap(server("imap.example.com", 993, "a", "p1")),
            OutgoingProtocol::Smtp(server("smtp.other.com", 587, "a", "p1")),
        ),
        LoginConfig::new(
            IncomingProtocol::Imap(server("imap.example.com", 993, "a", "p1")),
            OutgoingProtocol::Smtp(server("smtp.example.com", 25, "a", "p1")),
        ),
    ];

    for variant in variants.iter() {
        assert_ne!(base, derive(variant));
    }
}

#[test]
fn token_is_64_lowercase_hex_and_hides_the_secret() {
    let secret = "a-rather-long-secret-value-that-would-stand-out";
    let config = LoginConfig::new(
        IncomingProtocol::Imap(server("imap.example.com", 993, "user", secret)),
        OutgoingProtocol::Smtp(server("smtp.example.com", 587, "user", secret)),
    );
    let token = derive(&config);
    assert_eq!(token.len(), 64);
    assert!(token.chars().all(|c| c.is_ascii_hexdigit() && !c.is_ascii_uppercase()));
    assert!(!token.contains(secret));
    assert!(!token.contains("user"));
}

#[test]
fn token_length_fixed_regardless_of_input_length() {
    let long = "x".repeat(10_000);
    let config = LoginConfig::new(
        IncomingProtocol::Imap(server("imap.example.com", 993, &long, &long)),
        OutgoingProtocol::Smtp(server("smtp.example.com", 587, &long, &long)),
    );
    assert_eq!(derive(&config).len(), 64);
}
