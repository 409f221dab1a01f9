//! Session continuity: which persisted session may be resumed.
use vstd::prelude::*;

verus! {

/// How long, in seconds after its creation, a session may be resumed.
pub const SESSION_TTL_SECS: u64 = 3600;

/// A continuity token issued by the server, bound to one client.
#[derive(Debug, Clone, PartialEq, Eq)]
pub struct Session {
    pub session_id: String,
    pub client_id: String,
    /// Seconds since the epoch at which the session was created.
    pub created_at: u64,
    /// Seconds since the epoch at which the session was last used.
    pub last_used: u64,
}

/// Whether a persisted session may be resumed by `client_id` at time `now`:
/// it belongs to that client and `now - created_at` is at most the TTL.
pub open spec fn session_resumable(s: Session, client_id: Seq<char>, now: int) -> bool {
    &&& s.client_id@ == client_id
    &&& now - s.created_at <= SESSION_TTL_SECS
}

/// What loading yields from a persisted record: the record itself when it may
/// be resumed, and no session otherwise.
pub open spec fn loaded_session(record: Option<Session>, client_id: Seq<char>, now: int) -> Option<Session> {
    match record {
        Some(s) => if session_resumable(s, client_id, now) {
            Some(s)
        } else {
            None
        },
        None => None,
    }
}

/// Decides whether the persisted `record` (absent when it could not be read or
/// parsed) is resumed by `client_id` at time `now`. Every failure yields `None`.
pub fn load_session(record: Option<Session>, client_id: &str, now: u64) -> (r: Option<Session>)
    ensures
        r == loaded_session(record, client_id@, now as int),
{
    match record {
        Some(s) => {
            let wanted = client_id.to_owned();
            let fresh = s.created_at >= now || now - s.created_at <= SESSION_TTL_SECS;
            if fresh && s.client_id == wanted {
                Some(s)
            } else {
                None
            }
        },
        None => None,
    }
}

/// A session created one second inside the TTL is resumed, and so is one
/// created exactly the TTL ago (the cutoff is `now - created_at <= TTL`); one
/// created more than the TTL ago is not.
pub proof fn lemma_ttl_boundary(s: Session, now: int)
    ensures
        s.created_at == now - 3599 ==> loaded_session(Some(s), s.client_id@, now) == Some(s),
        s.created_at == now - SESSION_TTL_SECS ==> loaded_session(Some(s), s.client_id@, now)
            == Some(s),
        s.created_at < now - SESSION_TTL_SECS ==> loaded_session(Some(s), s.client_id@, now)
            == None::<Session>,
{
}

/// A session persisted under one client is never resumed by another.
pub proof fn lemma_identity_isolation(s: Session, other: Seq<char>, now: int)
    requires
        s.client_id@ != other,
    ensures
        loaded_session(Some(s), other, now) == None::<Session>,
{
}

} // verus!
