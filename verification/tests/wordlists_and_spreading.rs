use rat::error::Error;
use rat::spread::parse_target;
use rat::wordlist::{credential_attempts, passwords, usernames};

#[test]
fn attempt_space_has_exactly_160_entries_in_list_order() {
    let users = usernames();
    let passes = passwords();
    assert_eq!(users.len(), 10);
    assert_eq!(passes.len(), 16);
    let attempts = credential_attempts();
    assert_eq!(attempts.len(), 160);
    for (k, (u, p)) in attempts.iter().enumerate() {
        assert_eq!(u, &users[k / 16]);
        assert_eq!(p, &passes[k % 16]);
    }
    assert_eq!(attempts[0], ("root".to_string(), "password".to_string()));
    assert_eq!(attempts[159], ("kali".to_string(), "admin123".to_string()));
}

#[test]
fn empty_password_appears_exactly_once_at_its_listed_position() {
    let passes = passwords();
    assert_eq!(passes[14], "");
    let empties = passes.iter().filter(|p| p.is_empty()).count();
    assert_eq!(empties, 1);
}

#[test]
fn parse_target_splits_host_and_port() {
    let (host, port) = parse_target(b"10.0.0.1:22").unwrap();
    assert_eq!(host, b"10.0.0.1".to_vec());
    assert_eq!(port, 22);
    let (host, port) = parse_target(b"target.lab:65535").unwrap();
    assert_eq!(host, b"target.lab".to_vec());
    assert_eq!(port, 65535);
}

#[test]
fn parse_target_rejects_malformed_targets() {
    for bad in [
        &b""[..],
        b"nohost",
        b":22",
        b"host:",
        b"host:abc",
        b"host:65536",
        b"host:123456",
        b"a:b:1",
    ] {
        match parse_target(bad) {
            Err(Error::Internal(m)) => {
                assert_eq!(m, "Invalid SSH target: expected host:port")
            }
            _ => panic!("{:?} must be rejected", bad),
        }
    }
}
