use rat::error::Error;
use rat::protocol::{AgentRegistered, ErrorBody, Job, Response};
use rat::register::finish_registration;
use rat::uid::Uuid;

fn some_uuid() -> Uuid {
    Uuid::from_bytes((0u8..16u8).collect()).unwrap()
}

#[test]
fn error_rendering_matches_kind_and_message() {
    assert_eq!(Error::Internal("x".to_string()).render(), "Internal error: x");
    assert_eq!(Error::Api("boom".to_string()).render(), "API error: boom");
    assert_eq!(Error::Io("gone".to_string()).render(), "IO error: gone");
    assert_eq!(Error::Ssh("refused".to_string()).render(), "SSH error: refused");
    assert_eq!(Error::Zip("bad".to_string()).render(), "Zip error: bad");
    assert_eq!(Error::Api("boom".to_string()).message(), "boom");
}

#[test]
fn envelope_error_is_authoritative_over_data() {
    let response: Response<AgentRegistered> = Response {
        data: Some(AgentRegistered { id: some_uuid() }),
        error: Some(ErrorBody { message: "m".to_string() }),
    };
    let out = response.unwrap_data("missing");
    match out {
        Err(Error::Api(msg)) => assert_eq!(msg, "m"),
        _ => panic!("error field must override data"),
    }
}

#[test]
fn envelope_with_neither_field_is_missing_data_not_a_crash() {
    let response: Response<AgentRegistered> = Response { data: None, error: None };
    let out = finish_registration(response);
    match out {
        Err(Error::Internal(msg)) => assert_eq!(msg, "Server returned no agent ID"),
        _ => panic!("empty envelope must be the distinct missing-data failure"),
    }
}

#[test]
fn envelope_data_without_error_is_unwrapped() {
    let id = some_uuid();
    let response: Response<AgentRegistered> =
        Response { data: Some(AgentRegistered { id: id.clone() }), error: None };
    let out = finish_registration(response);
    assert_eq!(out.unwrap(), id);
}

#[test]
fn job_envelope_behaves_the_same() {
    let id = some_uuid();
    let job = Job {
        id: id.clone(),
        agent_id: some_uuid(),
        encrypted_job: vec![1, 2, 3],
        ephemeral_public_key: vec![0; 32],
        nonce: vec![0; 12],
    };
    let ok: Response<Job> = Response { data: Some(job), error: None };
    assert_eq!(ok.unwrap_data("none").unwrap().id, id);

    let bad: Response<Job> =
        Response { data: None, error: Some(ErrorBody { message: "nope".to_string() }) };
    match bad.unwrap_data("none") {
        Err(Error::Api(msg)) => assert_eq!(msg, "nope"),
        _ => panic!("error must propagate verbatim"),
    }
}
