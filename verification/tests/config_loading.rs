use rat::agent_config::{self, AgentEnv};
use rat::client_config::{self, ClientEnv};
use rat::error::Error;

fn env_with_identity(identity_b64: &str) -> AgentEnv {
    AgentEnv {
        server_url: None,
        identity_private_key: Some(identity_b64.to_string()),
        prekey_private_key: None,
        client_identity_public_key: None,
    }
}

fn valid_client_key_b64() -> String {
    let signing = ed25519_dalek::SigningKey::from_bytes(&[7u8; 32]);
    base64::encode(signing.verifying_key().to_bytes())
}

#[test]
fn agent_load_rejects_non_base64_identity() {
    let out = agent_config::Config::load(env_with_identity("@@not base64@@"));
    match out {
        Err(Error::Internal(m)) => assert_eq!(m, "AGENT_IDENTITY_PRIVATE_KEY decode error"),
        _ => panic!("non-base64 identity must be rejected"),
    }
}

#[test]
fn agent_load_rejects_wrong_length_identity() {
    let out = agent_config::Config::load(env_with_identity(&base64::encode([1u8; 31])));
    match out {
        Err(Error::Internal(m)) => assert_eq!(m, "AGENT_IDENTITY_PRIVATE_KEY parse error"),
        _ => panic!("a 31-byte seed must be rejected"),
    }
}

#[test]
fn agent_load_derives_the_matching_public_key() {
    let seed = [9u8; 32];
    let mut env = env_with_identity(&base64::encode(seed));
    env.client_identity_public_key = Some(valid_client_key_b64());
    let conf = agent_config::Config::load(env).unwrap();
    let expected = ed25519_dalek::SigningKey::from_bytes(&seed).verifying_key();
    assert_eq!(conf.identity_private_key, seed.to_vec());
    assert_eq!(conf.identity_public_key, expected.to_bytes().to_vec());
    assert_eq!(conf.server_url, "http://127.0.0.1:8080");
}

#[test]
fn agent_load_takes_server_url_from_environment() {
    let mut env = env_with_identity(&base64::encode([9u8; 32]));
    env.server_url = Some("https://c2.example:8443".to_string());
    env.client_identity_public_key = Some(valid_client_key_b64());
    let conf = agent_config::Config::load(env).unwrap();
    assert_eq!(conf.server_url, "https://c2.example:8443");
}

#[test]
fn agent_load_zero_fills_a_wrong_length_prekey() {
    let mut env = env_with_identity(&base64::encode([9u8; 32]));
    env.prekey_private_key = Some(base64::encode([5u8; 16]));
    env.client_identity_public_key = Some(valid_client_key_b64());
    let conf = agent_config::Config::load(env).unwrap();
    assert_eq!(conf.private_prekey, vec![0u8; 32]);
}

#[test]
fn agent_load_adopts_a_full_length_prekey() {
    let mut env = env_with_identity(&base64::encode([9u8; 32]));
    env.prekey_private_key = Some(base64::encode([5u8; 32]));
    env.client_identity_public_key = Some(valid_client_key_b64());
    let conf = agent_config::Config::load(env).unwrap();
    assert_eq!(conf.private_prekey, vec![5u8; 32]);
}

#[test]
fn agent_load_rejects_bad_client_key() {
    let mut env = env_with_identity(&base64::encode([9u8; 32]));
    env.client_identity_public_key = Some(base64::encode([1u8; 33]));
    match agent_config::Config::load(env) {
        Err(Error::Internal(m)) => assert_eq!(m, "CLIENT_IDENTITY_PUBLIC_KEY parse error"),
        _ => panic!("a 33-byte client key must be rejected"),
    }
}

#[test]
fn agent_server_url_defaults() {
    assert_eq!(agent_config::server_url(None), "http://127.0.0.1:8080");
    assert_eq!(agent_config::server_url(Some("http://x".to_string())), "http://x");
}

#[test]
fn path_joining_is_exact_over_any_base() {
    assert_eq!(agent_config::join_agent_directory("/home/u/.local/share"),
        "/home/u/.local/share/bhr_ch13");
    assert_eq!(agent_config::join_agent_install_target("/base"),
        "/base/bhr_ch13/ch13_agent");
    assert_eq!(agent_config::join_agent_file_path("/base", "agent_id"),
        "/base/bhr_ch13/agent_id");
    assert_eq!(agent_config::join_agent_file_path("/base", "agent_prekey"),
        "/base/bhr_ch13/agent_prekey");
}

#[test]
fn agent_paths_end_with_the_fixed_names() {
    assert_eq!(agent_config::agent_install_file(), "ch13_agent");
    assert_eq!(agent_config::single_instance_identifier(), "ch13_agent");
    assert_eq!(agent_config::install_directory(), "bhr_ch13");
    if let Ok(dir) = agent_config::get_agent_directory() {
        assert!(dir.ends_with("/bhr_ch13"));
        let target = agent_config::get_agent_install_target().unwrap();
        assert!(target.ends_with("/bhr_ch13/ch13_agent"));
        let file = agent_config::agent_file_path("agent_id").unwrap();
        assert!(file.ends_with("/bhr_ch13/agent_id"));
    }
}

#[test]
fn client_load_requires_the_identity_key() {
    let out = client_config::Config::load(ClientEnv {
        server_url: None,
        identity_private_key: None,
    });
    match out {
        Err(Error::Internal(m)) => assert!(m.contains("IDENTITY_PRIVATE_KEY env var is not set")),
        _ => panic!("a missing operator key must instruct the operator"),
    }
}

#[test]
fn client_load_derives_the_matching_public_key() {
    let seed = [3u8; 32];
    let conf = client_config::Config::load(ClientEnv {
        server_url: None,
        identity_private_key: Some(base64::encode(seed)),
    })
    .unwrap();
    let expected = ed25519_dalek::SigningKey::from_bytes(&seed).verifying_key();
    assert_eq!(conf.identity_public_key, expected.to_bytes().to_vec());
    assert_eq!(conf.server_url, "http://127.0.0.1:8080");
}

#[test]
fn client_load_rejects_bad_base64() {
    let out = client_config::Config::load(ClientEnv {
        server_url: None,
        identity_private_key: Some("!!!".to_string()),
    });
    match out {
        Err(Error::Internal(m)) => assert_eq!(m, "IDENTITY_PRIVATE_KEY decode error"),
        _ => panic!("non-base64 operator key must be rejected"),
    }
}
