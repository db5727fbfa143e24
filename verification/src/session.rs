//! The session store: for each session token the state of that client's
//! negotiation.

use crate::protocol::{Action, Request};
use vstd::hash_map::StringHashMap;
use vstd::prelude::*;
use vstd::string::StringExecFns;

verus! {

/// The state of one client's negotiation.
#[derive(Clone, Debug, PartialEq, Eq)]
pub struct Session {
    /// The token bound to the response that was issued last.
    pub requestid: String,
    /// The only actions that are accepted next.
    pub possible_actions: Vec<Action>,
    /// The phase that the session is in.
    pub previous_action: Action,
}

/// A session as a mathematical value.
pub ghost struct SessionView {
    pub requestid: Seq<char>,
    pub possible_actions: Seq<Action>,
    pub previous_action: Action,
}

impl View for Session {
    type V = SessionView;

    open spec fn view(&self) -> SessionView {
        SessionView {
            requestid: self.requestid@,
            possible_actions: self.possible_actions@,
            previous_action: self.previous_action,
        }
    }
}

/// The sessions, each under its session token.
///
/// Every operation that changes the store takes it by exclusive reference,
/// so a step of the engine is atomic towards every other: of two requests
/// that race for one session, the second sees what the first left behind.
/// A server that answers exchanges in parallel keeps the store behind a
/// lock.
#[allow(non_camel_case_types)]
pub struct Session_Manager {
    pub sessions: StringHashMap<Session>,
}

impl View for Session_Manager {
    type V = Map<Seq<char>, SessionView>;

    open spec fn view(&self) -> Map<Seq<char>, SessionView> {
        self.sessions@.map_values(|session: Session| session@)
    }
}

/// The state of a session that was just created for a request that came
/// with `requestid`: the phase is `latest` and only `latest` is permitted.
pub open spec fn created(requestid: Seq<char>) -> SessionView {
    SessionView {
        requestid,
        possible_actions: seq![Action::latest],
        previous_action: Action::latest,
    }
}

/// A store without sessions.
pub fn new_session_manager() -> (manager: Session_Manager)
    ensures
        manager@ == Map::<Seq<char>, SessionView>::empty(),
{
    let manager = Session_Manager { sessions: StringHashMap::new() };
    assert(manager@ =~= Map::<Seq<char>, SessionView>::empty());
    manager
}

/// Creates the session of `request`, under the request's session token.
/// Where a session with that token exists already, nothing is created, the
/// store stays as it is and the result is `false`.
pub fn new_session(manager: &mut Session_Manager, request: &Request) -> (is_new: bool)
    ensures
        is_new == !old(manager)@.contains_key(request.sessionid@),
        is_new ==> final(manager)@ == old(manager)@.insert(
            request.sessionid@,
            created(request.requestid@),
        ),
        !is_new ==> final(manager)@ == old(manager)@,
{
    if manager.sessions.contains_key(request.sessionid.as_str()) {
        return false;
    }
    let mut possible_actions: Vec<Action> = Vec::new();
    possible_actions.push(Action::latest);
    let session = Session {
        requestid: request.requestid.clone(),
        possible_actions,
        previous_action: Action::latest,
    };
    assert(session@ == created(request.requestid@));
    manager.sessions.insert(request.sessionid.clone(), session);
    assert(final(manager)@ =~= old(manager)@.insert(
        request.sessionid@,
        created(request.requestid@),
    ));
    true
}

impl Session_Manager {
    /// A copy of the session under `sessionid`, if there is one.
    pub fn get(&self, sessionid: &str) -> (session: Option<Session>)
        ensures
            match session {
                Some(s) => self@.contains_key(sessionid@) && s@ == self@[sessionid@],
                None => !self@.contains_key(sessionid@),
            },
    {
        match self.sessions.get(sessionid) {
            Some(session) => Some(
                Session {
                    requestid: session.requestid.clone(),
                    possible_actions: session.possible_actions.clone(),
                    previous_action: session.previous_action,
                },
            ),
            None => None,
        }
    }

    /// Whether a session stands under `sessionid`.
    pub fn contains(&self, sessionid: &str) -> (found: bool)
        ensures
            found == self@.contains_key(sessionid@),
    {
        self.sessions.contains_key(sessionid)
    }

    /// The number of sessions.
    pub fn len(&self) -> (count: usize)
        ensures
            count == self@.len(),
    {
        broadcast use vstd::hash_map::group_hash_map_axioms;

        let count = self.sessions.len();
        proof {
            lemma_view_domain(*self);
        }
        count
    }

    /// Puts `session` under `sessionid`, in place of the one that stood
    /// there, if any.
    fn put(&mut self, sessionid: &str, session: Session)
        ensures
            final(self)@ == old(self)@.insert(sessionid@, session@),
    {
        self.sessions.insert(String::from_str(sessionid), session);
        assert(final(self)@ =~= old(self)@.insert(sessionid@, session@));
    }
}

/// The store's view has a session under exactly the tokens that the
/// underlying map has.
pub proof fn lemma_view_domain(manager: Session_Manager)
    ensures
        manager@.dom() == manager.sessions@.dom(),
        manager@.len() == manager.sessions@.len(),
{
    assert(manager@.dom() =~= manager.sessions@.dom());
}

/// The text that tells that an update of a session was made.
pub open spec fn success_text() -> Seq<char> {
    "success"@
}

/// The text that tells that no session stands under the token.
pub open spec fn invalid_session_text() -> Seq<char> {
    "Invalid Session ID"@
}

/// Replaces the permitted actions of the session of `request`. Where there
/// is no such session, the store stays as it is; the result tells which,
/// with a message.
pub fn update_session_actions(
    manager: &mut Session_Manager,
    request: &Request,
    new_actions: Vec<Action>,
) -> (outcome: (bool, String))
    ensures
        outcome.0 == old(manager)@.contains_key(request.sessionid@),
        outcome.0 ==> outcome.1@ == success_text() && final(manager)@ == old(manager)@.insert(
            request.sessionid@,
            SessionView {
                possible_actions: new_actions@,
                ..old(manager)@[request.sessionid@]
            },
        ),
        !outcome.0 ==> outcome.1@ == invalid_session_text() && final(manager)@ == old(manager)@,
{
    match manager.get(request.sessionid.as_str()) {
        Some(session) => {
            let updated = Session {
                requestid: session.requestid,
                possible_actions: new_actions,
                previous_action: session.previous_action,
            };
            manager.put(request.sessionid.as_str(), updated);
            (true, String::from_str("success"))
        },
        None => (false, String::from_str("Invalid Session ID")),
    }
}

/// Replaces the phase of the session of `request`. Where there is no such
/// session, the store stays as it is; the result tells which, with a
/// message.
pub fn update_current_action(
    manager: &mut Session_Manager,
    request: &Request,
    new_action: Action,
) -> (outcome: (bool, String))
    ensures
        outcome.0 == old(manager)@.contains_key(request.sessionid@),
        outcome.0 ==> outcome.1@ == success_text() && final(manager)@ == old(manager)@.insert(
            request.sessionid@,
            SessionView { previous_action: new_action, ..old(manager)@[request.sessionid@] },
        ),
        !outcome.0 ==> outcome.1@ == invalid_session_text() && final(manager)@ == old(manager)@,
{
    match manager.get(request.sessionid.as_str()) {
        Some(session) => {
            let updated = Session {
                requestid: session.requestid,
                possible_actions: session.possible_actions,
                previous_action: new_action,
            };
            manager.put(request.sessionid.as_str(), updated);
            (true, String::from_str("success"))
        },
        None => (false, String::from_str("Invalid Session ID")),
    }
}

/// Binds a new request token to the session of `request`. Where there is
/// no such session, the store stays as it is; the result tells which, with
/// a message.
pub fn update_request(
    manager: &mut Session_Manager,
    request: &Request,
    new_requestid: String,
) -> (outcome: (bool, String))
    ensures
        outcome.0 == old(manager)@.contains_key(request.sessionid@),
        outcome.0 ==> outcome.1@ == success_text() && final(manager)@ == old(manager)@.insert(
            request.sessionid@,
            SessionView { requestid: new_requestid@, ..old(manager)@[request.sessionid@] },
        ),
        !outcome.0 ==> outcome.1@ == invalid_session_text() && final(manager)@ == old(manager)@,
{
    match manager.get(request.sessionid.as_str()) {
        Some(session) => {
            let updated = Session {
                requestid: new_requestid,
                possible_actions: session.possible_actions,
                previous_action: session.previous_action,
            };
            manager.put(request.sessionid.as_str(), updated);
            (true, String::from_str("success"))
        },
        None => (false, String::from_str("Invalid Session ID")),
    }
}

/// Removes the session under `sessionid`; the result tells whether there
/// was one.
pub fn remove_session(manager: &mut Session_Manager, sessionid: String) -> (removed: bool)
    ensures
        removed == old(manager)@.contains_key(sessionid@),
        final(manager)@ == old(manager)@.remove(sessionid@),
{
    let removed = manager.sessions.contains_key(sessionid.as_str());
    manager.sessions.remove(sessionid.as_str());
    assert(final(manager)@ =~= old(manager)@.remove(sessionid@));
    removed
}

} // verus!
