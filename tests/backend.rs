use sentinel::crypto::{ledger_entry, ledger_payload};
use sentinel::qpu::{
    job_outcome, resolve_api_token, NeutralAtomAdapter, RuntimeError, RuntimeReply, RuntimeSession,
};

#[test]
fn provider_endpoints() {
    assert_eq!(NeutralAtomAdapter::new("pasqal", "k").provider_url(), "https://api.pasqal.com");
    assert_eq!(NeutralAtomAdapter::new("quera", "k").provider_url(), "https://api.amazon.com/braket");
    assert_eq!(NeutralAtomAdapter::new("other", "k").provider_url(), "https://localhost:8080");
}

#[test]
fn analog_submission() {
    let a = NeutralAtomAdapter::new("pasqal", "k");
    assert_eq!(a.submit_analog_program(0), Err("Atom register cannot be empty".to_string()));
    assert_eq!(a.submit_analog_program(3), Ok("job_https://api.pasqal.com_12345".to_string()));
}

#[test]
fn token_fallback() {
    assert_eq!(resolve_api_token(None), ("DIGITAL_TWIN_MOCK_TOKEN".to_string(), true));
    assert_eq!(resolve_api_token(Some("abc".to_string())), ("abc".to_string(), false));
}

#[test]
fn ledger_line_framing() {
    let p = ledger_payload("2024-01-01T00:00:00+00:00", "101.5", "0", "mgr-job-id");
    assert_eq!(p, "2024-01-01T00:00:00+00:00|101.5|0|mgr-job-id");
    assert_eq!(ledger_entry(&p, &[0xab, 0x01, 0xff]), format!("{}|ab01ff\n", p));
    assert_eq!(ledger_entry("x", &[]), "x|\n");
}

#[test]
fn session_lifecycle() {
    let mut s = RuntimeSession::new(None);
    assert!(s.offline);
    assert_eq!(s.api_token, "DIGITAL_TWIN_MOCK_TOKEN");
    assert_eq!(s.session_for_job(), Err(RuntimeError::NoActiveSession));
    assert_eq!(s.accept_session_reply(RuntimeReply::Accepted(None)), Err(RuntimeError::MissingSessionId));
    assert_eq!(
        s.accept_session_reply(RuntimeReply::Refused("denied".to_string())),
        Err(RuntimeError::SessionRejected("denied".to_string()))
    );
    assert!(s.active_session().is_none());
    assert_eq!(s.accept_session_reply(RuntimeReply::Accepted(Some("sess-1".to_string()))), Ok(()));
    assert_eq!(s.session_for_job(), Ok(&"sess-1".to_string()));
    assert_eq!(job_outcome(RuntimeReply::Accepted(Some("job-9".to_string()))), Ok("job-9".to_string()));
    assert_eq!(job_outcome(RuntimeReply::Accepted(None)), Ok("unknown".to_string()));
    assert_eq!(
        job_outcome(RuntimeReply::Refused("busy".to_string())),
        Err(RuntimeError::DispatchFailed("busy".to_string()))
    );
}

#[test]
fn runtime_error_messages() {
    assert_eq!(RuntimeError::NoActiveSession.message(), "No active Qiskit Runtime Session");
    assert_eq!(RuntimeError::MissingSessionId.message(), "Missing Session ID");
    assert_eq!(RuntimeError::SessionRejected("x".to_string()).message(), "Session creation failed: x");
    assert_eq!(RuntimeError::DispatchFailed("y".to_string()).message(), "Job dispatch failed: y");
}
