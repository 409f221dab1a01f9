//! The decisions of one exchange: building the signed request, and accepting
//! or rejecting the response. The caller opens a fresh connection for every
//! exchange, sends the request text, reads until close, parses the response
//! and persists the session that results.
use vstd::prelude::*;
use crate::error::ClientError;
use crate::outside::fresh_nonce;
use crate::session::{load_session, loaded_session, Session};
use crate::signing::{sign, signature_accepted, signature_of, verify};
use crate::wire::{canonical_response, canonical_text, SignedRequest, SignedResponse};

verus! {

/// A client identity with its two shared secrets and its current session.
#[derive(Debug, Clone)]
pub struct Client {
    pub client_id: String,
    /// The secret that signs requests.
    pub client_key: String,
    /// The secret that signs responses.
    pub server_key: String,
    pub session: Option<Session>,
}

/// The session that a verified response starts.
pub open spec fn session_after(client_id: String, response: SignedResponse, timestamp: u64) -> Session {
    Session {
        session_id: response.session_id,
        client_id: client_id,
        created_at: timestamp,
        last_used: timestamp,
    }
}

/// The session identifier that a request carries.
pub open spec fn carried_session(session: Option<Session>) -> Option<String> {
    match session {
        Some(s) => Some(s.session_id),
        None => None,
    }
}

/// `r` is the request that client `c` signs for the given timestamp, nonce
/// and payload.
pub open spec fn is_request_of(
    r: SignedRequest,
    c: Client,
    timestamp: u64,
    nonce: Seq<char>,
    payload: String,
) -> bool {
    &&& r.client_id == c.client_id
    &&& r.timestamp == timestamp
    &&& r.nonce@ == nonce
    &&& r.signature@ == signature_of(c.client_id@, timestamp as nat, nonce, c.client_key@)
    &&& r.session_id == carried_session(c.session)
    &&& r.payload == payload
}

impl Client {
    /// The client's state is consistent: a session it holds is its own.
    pub open spec fn wf(&self) -> bool {
        self.session matches Some(s) ==> s.client_id@ == self.client_id@
    }

    /// Creates a client, resuming the persisted session `stored` (absent when
    /// none could be read) if it may be resumed at time `now`.
    pub fn new(
        client_id: String,
        client_key: String,
        server_key: String,
        stored: Option<Session>,
        now: u64,
    ) -> (c: Client)
        ensures
            c.wf(),
            c.client_id == client_id,
            c.client_key == client_key,
            c.server_key == server_key,
            c.session == loaded_session(stored, client_id@, now as int),
    {
        let session = load_session(stored, client_id.as_str(), now);
        Client { client_id, client_key, server_key, session }
    }

    /// Builds the signed request for the given timestamp, nonce and payload,
    /// carrying the current session's identifier if there is one.
    pub fn build_request(&self, timestamp: u64, nonce: String, payload: String) -> (r:
        SignedRequest)
        ensures
            is_request_of(r, *self, timestamp, nonce@, payload),
    {
        let signature = sign(self.client_id.as_str(), timestamp, nonce.as_str(), self.client_key.as_str());
        let session_id = match &self.session {
            Some(s) => Some(s.session_id.clone()),
            None => None,
        };
        SignedRequest {
            client_id: self.client_id.clone(),
            timestamp,
            nonce,
            signature,
            session_id,
            payload,
        }
    }

    /// Builds the signed request for `payload` at `timestamp` under a fresh
    /// random nonce.
    pub fn prepare_request(&self, timestamp: u64, payload: String) -> (r: SignedRequest)
        ensures
            is_request_of(r, *self, timestamp, r.nonce@, payload),
    {
        let nonce = fresh_nonce();
        self.build_request(timestamp, nonce, payload)
    }

    /// Decides on a response given the text its signature covers: when the
    /// signature matches under the server secret, the response is returned
    /// and starts a new session at `timestamp`; otherwise it is rejected with
    /// `SignatureError` and nothing changes.
    pub fn accept_checked(&mut self, response: SignedResponse, canonical: &str, timestamp: u64) -> (r:
        Result<SignedResponse, ClientError>)
        requires
            old(self).wf(),
        ensures
            final(self).wf(),
            final(self).client_id == old(self).client_id,
            final(self).client_key == old(self).client_key,
            final(self).server_key == old(self).server_key,
            signature_accepted(canonical@, response.signature@, old(self).server_key@) ==> r == Ok::<
                SignedResponse,
                ClientError,
            >(response) && final(self).session == Some(
                session_after(old(self).client_id, response, timestamp),
            ),
            !signature_accepted(canonical@, response.signature@, old(self).server_key@) ==> r
                == Err::<SignedResponse, ClientError>(ClientError::SignatureError) && final(self).session
                == old(self).session,
    {
        if !verify(canonical, response.signature.as_str(), self.server_key.as_str()) {
            return Err(ClientError::SignatureError);
        }
        self.session = Some(
            Session {
                session_id: response.session_id.clone(),
                client_id: self.client_id.clone(),
                created_at: timestamp,
                last_used: timestamp,
            },
        );
        Ok(response)
    }

    /// Verifies a parsed response against the text of it with the signature
    /// field emptied, then accepts or rejects it as `accept_checked` does: a
    /// response is returned, and starts a new session, exactly when its
    /// signature matches; otherwise it is rejected with `SignatureError` and
    /// nothing changes.
    pub fn accept_response(&mut self, response: SignedResponse, timestamp: u64) -> (r: Result<
        SignedResponse,
        ClientError,
    >)
        requires
            old(self).wf(),
        ensures
            final(self).wf(),
            final(self).client_id == old(self).client_id,
            final(self).client_key == old(self).client_key,
            final(self).server_key == old(self).server_key,
            signature_accepted(canonical_text(response), response.signature@, old(self).server_key@)
                ==> r == Ok::<SignedResponse, ClientError>(response) && final(self).session == Some(
                session_after(old(self).client_id, response, timestamp),
            ),
            !signature_accepted(canonical_text(response), response.signature@, old(self).server_key@)
                ==> r == Err::<SignedResponse, ClientError>(ClientError::SignatureError)
                && final(self).session == old(self).session,
    {
        let text = canonical_response(&response);
        self.accept_checked(response, text.as_str(), timestamp)
    }
}

} // verus!
