//! Execution-backend settings: the neutral-atom provider endpoints and the
//! runtime credential with its offline fallback.
use vstd::prelude::*;
use vstd::string::StringExecFns;

verus! {

/// Credential used when none is configured: the runtime then works offline
/// against its simulated twin.
pub const DIGITAL_TWIN_TOKEN: &'static str = "DIGITAL_TWIN_MOCK_TOKEN";

/// The endpoint of a neutral-atom provider.
pub open spec fn provider_endpoint(provider: Seq<char>) -> Seq<char> {
    if provider == "pasqal"@ {
        "https://api.pasqal.com"@
    } else if provider == "quera"@ {
        "https://api.amazon.com/braket"@
    } else {
        "https://localhost:8080"@
    }
}

/// Adapter for neutral-atom hardware providers.
pub struct NeutralAtomAdapter {
    provider_url: String,
    api_key: String,
}

impl NeutralAtomAdapter {
    pub closed spec fn spec_url(&self) -> Seq<char> {
        self.provider_url@
    }

    pub closed spec fn spec_key(&self) -> Seq<char> {
        self.api_key@
    }

    pub fn new(provider: &str, api_key: &str) -> (r: Self)
        ensures
            r.spec_url() == provider_endpoint(provider@),
            r.spec_key() == api_key@,
    {
        let p = provider.to_owned();
        let url = if p == "pasqal".to_owned() {
            "https://api.pasqal.com"
        } else if p == "quera".to_owned() {
            "https://api.amazon.com/braket"
        } else {
            "https://localhost:8080"
        };
        NeutralAtomAdapter { provider_url: url.to_owned(), api_key: api_key.to_owned() }
    }

    pub fn provider_url(&self) -> (r: &str)
        ensures
            r@ == self.spec_url(),
    {
        self.provider_url.as_str()
    }

    /// Submits a program of `atom_count` atoms: refused when the register is
    /// empty, otherwise answered with a job identifier naming the provider.
    pub fn submit_analog_program(&self, atom_count: usize) -> (r: Result<String, String>)
        ensures
            atom_count == 0 <==> r is Err,
            r is Err ==> r->Err_0@ == "Atom register cannot be empty"@,
            r is Ok ==> r->Ok_0@ == "job_"@ + self.spec_url() + "_12345"@,
    {
        if atom_count == 0 {
            return Err("Atom register cannot be empty".to_owned());
        }
        let mut id = "job_".to_owned();
        id.append(self.provider_url.as_str());
        id.append("_12345");
        Ok(id)
    }
}

/// The runtime credential: the configured one, or the offline twin's token
/// when none is configured. The flag tells whether the runtime is offline.
pub fn resolve_api_token(configured: Option<String>) -> (r: (String, bool))
    ensures
        match configured {
            Some(t) => r.0 == t && !r.1,
            None => r.0@ == DIGITAL_TWIN_TOKEN@ && r.1,
        },
{
    match configured {
        Some(t) => (t, false),
        None => (DIGITAL_TWIN_TOKEN.to_owned(), true),
    }
}

/// Why a runtime request did not go through.
#[derive(Debug, Clone, PartialEq, Eq)]
pub enum RuntimeError {
    /// A job was dispatched with no session open.
    NoActiveSession,
    /// The backend accepted the session but sent no identifier.
    MissingSessionId,
    /// The backend refused the session; its answer is kept.
    SessionRejected(String),
    /// The backend refused the job; its answer is kept.
    DispatchFailed(String),
}

impl RuntimeError {
    /// The text reported for the error.
    pub fn message(&self) -> (r: String)
        ensures
            r@ == match self {
                RuntimeError::NoActiveSession => "No active Qiskit Runtime Session"@,
                RuntimeError::MissingSessionId => "Missing Session ID"@,
                RuntimeError::SessionRejected(t) => "Session creation failed: "@ + t@,
                RuntimeError::DispatchFailed(t) => "Job dispatch failed: "@ + t@,
            },
    {
        match self {
            RuntimeError::NoActiveSession => "No active Qiskit Runtime Session".to_owned(),
            RuntimeError::MissingSessionId => "Missing Session ID".to_owned(),
            RuntimeError::SessionRejected(t) => {
                let mut m = "Session creation failed: ".to_owned();
                m.append(t.as_str());
                m
            },
            RuntimeError::DispatchFailed(t) => {
                let mut m = "Job dispatch failed: ".to_owned();
                m.append(t.as_str());
                m
            },
        }
    }
}

/// What a backend answered to a request: on success the identifier it
/// returned, if any; on failure the text of its answer.
pub enum RuntimeReply {
    Accepted(Option<String>),
    Refused(String),
}

/// Session bookkeeping of the runtime client: the credential and the open session.
pub struct RuntimeSession {
    pub api_token: String,
    /// True when no credential was configured and the simulated twin is used.
    pub offline: bool,
    pub active_session: Option<String>,
}

impl RuntimeSession {
    pub open spec fn spec_active(&self) -> Option<Seq<char>> {
        match self.active_session {
            Some(s) => Some(s@),
            None => None,
        }
    }

    /// A client with no session, using the configured credential or the
    /// offline twin's.
    pub fn new(configured: Option<String>) -> (r: Self)
        ensures
            r.spec_active() is None,
            match configured {
                Some(t) => r.api_token == t && !r.offline,
                None => r.api_token@ == DIGITAL_TWIN_TOKEN@ && r.offline,
            },
    {
        let (api_token, offline) = resolve_api_token(configured);
        RuntimeSession { api_token, offline, active_session: None }
    }

    pub fn active_session(&self) -> (r: Option<&String>)
        ensures
            match r {
                Some(s) => self.spec_active() == Some(s@),
                None => self.spec_active() is None,
            },
    {
        match &self.active_session {
            Some(s) => Some(s),
            None => None,
        }
    }

    /// Takes the backend's answer to a session request: an accepted request
    /// with an identifier opens that session; otherwise the session is unchanged.
    pub fn accept_session_reply(&mut self, reply: RuntimeReply) -> (r: Result<(), RuntimeError>)
        ensures
            final(self).api_token == old(self).api_token,
            final(self).offline == old(self).offline,
            match reply {
                RuntimeReply::Accepted(Some(id)) => r is Ok && final(self).spec_active() == Some(
                    id@,
                ),
                RuntimeReply::Accepted(None) => r == Err::<(), RuntimeError>(
                    RuntimeError::MissingSessionId,
                ) && final(self).spec_active() == old(self).spec_active(),
                RuntimeReply::Refused(t) => r == Err::<(), RuntimeError>(
                    RuntimeError::SessionRejected(t),
                ) && final(self).spec_active() == old(self).spec_active(),
            },
    {
        match reply {
            RuntimeReply::Accepted(Some(id)) => {
                self.active_session = Some(id);
                Ok(())
            },
            RuntimeReply::Accepted(None) => Err(RuntimeError::MissingSessionId),
            RuntimeReply::Refused(t) => Err(RuntimeError::SessionRejected(t)),
        }
    }

    /// The session a job is dispatched to; an error when none is open.
    pub fn session_for_job(&self) -> (r: Result<&String, RuntimeError>)
        ensures
            match r {
                Ok(s) => self.spec_active() == Some(s@),
                Err(e) => self.spec_active() is None && e == RuntimeError::NoActiveSession,
            },
    {
        match &self.active_session {
            Some(s) => Ok(s),
            None => Err(RuntimeError::NoActiveSession),
        }
    }
}

/// The job identifier from the backend's answer to a dispatch: the one
/// returned, `"unknown"` when an accepted answer holds none.
pub fn job_outcome(reply: RuntimeReply) -> (r: Result<String, RuntimeError>)
    ensures
        match reply {
            RuntimeReply::Accepted(Some(id)) => r == Ok::<String, RuntimeError>(id),
            RuntimeReply::Accepted(None) => r is Ok && r->Ok_0@ == "unknown"@,
            RuntimeReply::Refused(t) => r == Err::<String, RuntimeError>(
                RuntimeError::DispatchFailed(t),
            ),
        },
{
    match reply {
        RuntimeReply::Accepted(Some(id)) => Ok(id),
        RuntimeReply::Accepted(None) => Ok("unknown".to_owned()),
        RuntimeReply::Refused(t) => Err(RuntimeError::DispatchFailed(t)),
    }
}

} // verus!
