use rat::agent_config::{AgentEnv, Config};
use rat::error::Error;
use rat::register::{
    get_or_register_agent_id, load_stable_prekey, register_url, verify_signed_prekey,
    AgentDiskState, RegistrationStep,
};

fn conf_with_prekey(prekey: Option<[u8; 32]>) -> Config {
    let signing = ed25519_dalek::SigningKey::from_bytes(&[11u8; 32]);
    let client = ed25519_dalek::SigningKey::from_bytes(&[12u8; 32]);
    Config::load(AgentEnv {
        server_url: None,
        identity_private_key: Some(base64::encode(signing.to_bytes())),
        prekey_private_key: prekey.map(base64::encode),
        client_identity_public_key: Some(base64::encode(client.verifying_key().to_bytes())),
    })
    .unwrap()
}

fn empty_disk() -> AgentDiskState {
    AgentDiskState { prekey_file: None, id_file: None }
}

#[test]
fn first_run_generates_and_persists_a_prekey() {
    let conf = conf_with_prekey(None);
    let step = get_or_register_agent_id(&conf, empty_disk()).unwrap();
    match step {
        RegistrationStep::MustRegister { request, private_prekey, persist_prekey } => {
            assert_eq!(private_prekey.len(), 32);
            assert_eq!(persist_prekey, Some(private_prekey.clone()));
            let expected = x25519_dalek::x25519(
                private_prekey.try_into().unwrap(),
                x25519_dalek::X25519_BASEPOINT_BYTES,
            );
            assert_eq!(request.public_prekey, expected.to_vec());
        }
        _ => panic!("an empty directory must lead to registration"),
    }
}

#[test]
fn second_run_resolves_the_identical_prekey() {
    let conf = conf_with_prekey(None);
    let first = get_or_register_agent_id(&conf, empty_disk()).unwrap();
    let (persisted, public_first) = match first {
        RegistrationStep::MustRegister { request, persist_prekey, .. } => {
            (persist_prekey.unwrap(), request.public_prekey)
        }
        _ => panic!("first run must register"),
    };
    // The shell persisted the prekey but no UUID came back: the next
    // start finds the file and resolves the very same key.
    let second = get_or_register_agent_id(
        &conf,
        AgentDiskState { prekey_file: Some(persisted.clone()), id_file: None },
    )
    .unwrap();
    match second {
        RegistrationStep::MustRegister { request, private_prekey, persist_prekey } => {
            assert_eq!(private_prekey, persisted);
            assert_eq!(persist_prekey, None);
            assert_eq!(request.public_prekey, public_first);
        }
        _ => panic!("still unregistered without an id file"),
    }
}

#[test]
fn configured_prekey_is_adopted_and_persisted_then_disk_rules() {
    let configured = [42u8; 32];
    let conf = conf_with_prekey(Some(configured));
    let step = get_or_register_agent_id(&conf, empty_disk()).unwrap();
    match step {
        RegistrationStep::MustRegister { private_prekey, persist_prekey, .. } => {
            assert_eq!(private_prekey, configured.to_vec());
            assert_eq!(persist_prekey, Some(configured.to_vec()));
        }
        _ => panic!("configured prekey must be adopted"),
    }
    // Later runs with configuration back to "none" trust the file.
    let later = conf_with_prekey(None);
    let step = get_or_register_agent_id(
        &later,
        AgentDiskState { prekey_file: Some(configured.to_vec()), id_file: None },
    )
    .unwrap();
    match step {
        RegistrationStep::MustRegister { private_prekey, persist_prekey, .. } => {
            assert_eq!(private_prekey, configured.to_vec());
            assert_eq!(persist_prekey, None);
        }
        _ => panic!("the disk file must be authoritative"),
    }
}

#[test]
fn stored_uuid_short_circuits_registration() {
    let conf = conf_with_prekey(None);
    let text = b"67e55044-10b1-426f-9247-bb680e5fe0c8\n".to_vec();
    let step = get_or_register_agent_id(
        &conf,
        AgentDiskState { prekey_file: Some(vec![1u8; 32]), id_file: Some(text) },
    )
    .unwrap();
    match step {
        RegistrationStep::Registered { id, persist_prekey } => {
            assert_eq!(
                String::from_utf8(id.format_hyphenated()).unwrap(),
                "67e55044-10b1-426f-9247-bb680e5fe0c8"
            );
            assert_eq!(persist_prekey, None);
        }
        RegistrationStep::MustRegister { .. } => {
            panic!("a stored UUID must mean no registration request")
        }
    }
}

#[test]
fn malformed_stored_uuid_is_fatal() {
    let conf = conf_with_prekey(None);
    let out = get_or_register_agent_id(
        &conf,
        AgentDiskState { prekey_file: None, id_file: Some(b"garbage".to_vec()) },
    );
    match out {
        Err(Error::Internal(m)) => assert_eq!(m, "Stored agent UUID is invalid"),
        _ => panic!("a malformed UUID file must be fatal"),
    }
}

#[test]
fn wrong_length_stored_prekey_is_fatal() {
    let conf = conf_with_prekey(None);
    let out = get_or_register_agent_id(
        &conf,
        AgentDiskState { prekey_file: Some(vec![1u8; 31]), id_file: None },
    );
    match out {
        Err(Error::Internal(m)) => assert_eq!(m, "Stored prekey has wrong length"),
        _ => panic!("a truncated prekey file must never be padded"),
    }
}

#[test]
fn load_stable_prekey_checks_presence_and_length() {
    match load_stable_prekey(None) {
        Err(Error::Internal(m)) => {
            assert_eq!(m, "Prekey not found on disk - run registration first")
        }
        _ => panic!("absent file must fail"),
    }
    match load_stable_prekey(Some(vec![1u8; 31])) {
        Err(Error::Internal(m)) => assert_eq!(m, "Stored prekey has wrong length"),
        _ => panic!("short file must fail"),
    }
    assert_eq!(load_stable_prekey(Some(vec![1u8; 32])).unwrap(), vec![1u8; 32]);
}

#[test]
fn registration_url_and_file_names() {
    assert_eq!(register_url("http://c2:8080"), "http://c2:8080/api/agents");
    assert_eq!(rat::register::agent_id_file(), "agent_id");
    assert_eq!(rat::register::agent_prekey_file(), "agent_prekey");
}

#[test]
fn sign_verify_round_trip_with_the_derived_public_key() {
    let conf = conf_with_prekey(None);
    let step = get_or_register_agent_id(&conf, empty_disk()).unwrap();
    let request = match step {
        RegistrationStep::MustRegister { request, .. } => request,
        _ => panic!("must register"),
    };
    // The signature verifies with the library's own check and with
    // the signing crate directly.
    assert!(verify_signed_prekey(
        &request.identity_public_key,
        &request.public_prekey,
        &request.public_prekey_signature,
    ));
    let key = ed25519_dalek::VerifyingKey::from_bytes(
        request.identity_public_key.as_slice().try_into().unwrap(),
    )
    .unwrap();
    let sig = ed25519_dalek::Signature::from_bytes(
        request.public_prekey_signature.as_slice().try_into().unwrap(),
    );
    assert!(ed25519_dalek::Verifier::verify(&key, &request.public_prekey, &sig).is_ok());

    // Any single-bit flip in the signature or the message invalidates it.
    let mut bad_sig = request.public_prekey_signature.clone();
    bad_sig[5] ^= 0x01;
    assert!(!verify_signed_prekey(
        &request.identity_public_key,
        &request.public_prekey,
        &bad_sig,
    ));
    let mut bad_msg = request.public_prekey.clone();
    bad_msg[0] ^= 0x80;
    assert!(!verify_signed_prekey(
        &request.identity_public_key,
        &bad_msg,
        &request.public_prekey_signature,
    ));
}

#[test]
fn flipping_any_transmitted_prekey_byte_invalidates_the_signature() {
    let conf = conf_with_prekey(Some([99u8; 32]));
    let step = get_or_register_agent_id(&conf, empty_disk()).unwrap();
    let request = match step {
        RegistrationStep::MustRegister { request, .. } => request,
        _ => panic!("must register"),
    };
    for i in 0..32 {
        let mut tampered = request.public_prekey.clone();
        tampered[i] ^= 0x40;
        assert!(
            !verify_signed_prekey(
                &request.identity_public_key,
                &tampered,
                &request.public_prekey_signature,
            ),
            "byte {} tampering must invalidate the binding",
            i
        );
    }
}
