//! Decisions around the identity/inventory collaborator: the login outcome,
//! retries of enumeration calls, and the entries kept from an enumeration.
use vstd::prelude::*;
use crate::error::ClientError;
use crate::transport::RetryPolicy;

verus! {

/// A group of agents; its identifier is its name.
#[derive(Debug, Clone, PartialEq, Eq)]
pub struct Group {
    pub id: String,
    pub name: String,
}

/// An agent within a group.
#[derive(Debug, Clone, PartialEq, Eq)]
pub struct Agent {
    pub id: String,
    pub name: String,
}

/// What the caller does after an enumeration attempt.
#[derive(Debug, Clone, PartialEq, Eq)]
pub enum FetchStep {
    /// The reply was usable.
    Done,
    /// Wait this many milliseconds, then call again.
    RetryAfter(u64),
    /// Stop: the attempts ran out.
    GiveUp(ClientError),
}

/// Decides a login from the service's reply: whether its status was a
/// success, the token the reply carried if any, and the reply body.
pub fn login_outcome(accepted: bool, token: Option<String>, body: String) -> (r: Result<
    String,
    ClientError,
>)
    ensures
        r matches Ok(t) ==> accepted && token == Some(t),
        !accepted ==> r == Err::<String, ClientError>(ClientError::AuthError(body)),
        accepted && token is None ==> (r matches Err(ClientError::AuthError(m)) && m@
            == "no token received"@),
        accepted && token is Some ==> r is Ok,
{
    if !accepted {
        return Err(ClientError::AuthError(body));
    }
    match token {
        Some(t) => Ok(t),
        None => Err(ClientError::AuthError("no token received".to_owned())),
    }
}

/// The step after enumeration attempt number `made` (from 1) was usable or not.
pub open spec fn fetch_step(p: RetryPolicy, made: nat, usable: bool, what: String) -> FetchStep {
    if usable {
        FetchStep::Done
    } else if made < p.max_attempts {
        FetchStep::RetryAfter(p.delay_ms)
    } else {
        FetchStep::GiveUp(ClientError::ExhaustedRetries(what))
    }
}

/// Decides what follows enumeration attempt number `made` (from 1): a usable
/// reply ends the loop; an unusable one (failed status, malformed envelope)
/// is retried after the delay while attempts remain, and otherwise ends in
/// `ExhaustedRetries` naming what was being fetched.
pub fn after_fetch(p: &RetryPolicy, made: u32, usable: bool, what: String) -> (r: FetchStep)
    ensures
        r == fetch_step(*p, made as nat, usable, what),
{
    if usable {
        FetchStep::Done
    } else if made < p.max_attempts {
        FetchStep::RetryAfter(p.delay_ms)
    } else {
        FetchStep::GiveUp(ClientError::ExhaustedRetries(what))
    }
}

/// The groups named by an enumeration, in order; items without a name are skipped.
pub open spec fn groups_of(names: Seq<Option<String>>) -> Seq<Group>
    decreases names.len(),
{
    if names.len() == 0 {
        Seq::empty()
    } else {
        let rest = groups_of(names.drop_last());
        match names.last() {
            Some(n) => rest.push(Group { id: n, name: n }),
            None => rest,
        }
    }
}

/// The agents of an enumeration, in order; items missing an identifier or a
/// name are skipped.
pub open spec fn agents_of(items: Seq<(Option<String>, Option<String>)>) -> Seq<Agent>
    decreases items.len(),
{
    if items.len() == 0 {
        Seq::empty()
    } else {
        let rest = agents_of(items.drop_last());
        match items.last() {
            (Some(id), Some(name)) => rest.push(Agent { id: id, name: name }),
            _ => rest,
        }
    }
}

/// Builds the groups from the `name` field of each enumerated item.
pub fn collect_groups(names: &Vec<Option<String>>) -> (r: Vec<Group>)
    ensures
        r@ == groups_of(names@),
{
    let mut r: Vec<Group> = Vec::new();
    let mut i: usize = 0;
    while i < names.len()
        invariant
            i <= names@.len(),
            r@ == groups_of(names@.subrange(0, i as int)),
        decreases names@.len() - i,
    {
        assert(names@.subrange(0, i as int + 1).drop_last() =~= names@.subrange(0, i as int));
        match &names[i] {
            Some(n) => {
                r.push(Group { id: n.clone(), name: n.clone() });
            },
            None => {},
        }
        i = i + 1;
    }
    assert(names@.subrange(0, names@.len() as int) =~= names@);
    r
}

/// Builds the agents from the `id` and `name` fields of each enumerated item.
pub fn collect_agents(items: &Vec<(Option<String>, Option<String>)>) -> (r: Vec<Agent>)
    ensures
        r@ == agents_of(items@),
{
    let mut r: Vec<Agent> = Vec::new();
    let mut i: usize = 0;
    while i < items.len()
        invariant
            i <= items@.len(),
            r@ == agents_of(items@.subrange(0, i as int)),
        decreases items@.len() - i,
    {
        assert(items@.subrange(0, i as int + 1).drop_last() =~= items@.subrange(0, i as int));
        let item = &items[i];
        match (&item.0, &item.1) {
            (Some(id), Some(name)) => {
                r.push(Agent { id: id.clone(), name: name.clone() });
            },
            _ => {},
        }
        i = i + 1;
    }
    assert(items@.subrange(0, items@.len() as int) =~= items@);
    r
}

} // verus!
