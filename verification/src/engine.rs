//! The negotiation engine: the three steps that move a session through the
//! update, each from the store and a decoded message to the store that
//! follows and the reply.
//!
//! A session starts when a client asks for the latest version, advances
//! when it asks for the download, and ends when it reports success, gives
//! up or completes. Each step is stated as a function on the store's view;
//! the executable functions are proved to follow it.

use crate::compose::{
    download_reply, fault_reply, handle_download_response, handle_latest_response,
    handle_status_response, latest_reply, permitted, reply_view, status_reply, Payload, Reply,
    ReplyView,
};
use crate::protocol::{
    Action, Request, RequestView, Status, StatusRequest, StatusRequestView,
};
use crate::session::{
    created, new_session, remove_session, update_current_action, update_request,
    update_session_actions, SessionView, Session_Manager,
};
use crate::token::{generate_id, is_id, lemma_id_exists};
use crate::version::{
    lemma_empty_version, offer_link, offer_outcome, offer_text, Version, Versions,
};
use vstd::prelude::*;

verus! {

/// What a step of the engine leaves behind: the store, the two tokens that
/// the request carries from then on, and the reply, if one is sent.
pub ghost struct Step {
    pub store: Map<Seq<char>, SessionView>,
    pub sessionid: Seq<char>,
    pub requestid: Seq<char>,
    pub reply: Option<ReplyView>,
}

/// The step that changes nothing and sends `reply`.
pub open spec fn stay(
    store: Map<Seq<char>, SessionView>,
    request: RequestView,
    reply: Option<ReplyView>,
) -> Step {
    Step { store, sessionid: request.sessionid, requestid: request.requestid, reply }
}

/// Whether `after` is `before` but for its two tokens.
pub open spec fn same_but_tokens(before: Request, after: Request) -> bool {
    after == (Request { sessionid: after.sessionid, requestid: after.requestid, ..before })
}

/// Whether an executed step is `step`: the store and the reply are those of
/// the step, the request carries the step's tokens and is otherwise as it
/// was.
pub open spec fn took(
    step: Step,
    store: Map<Seq<char>, SessionView>,
    before: Request,
    after: Request,
    reply: Option<ReplyView>,
) -> bool {
    &&& store == step.store
    &&& reply == step.reply
    &&& after.sessionid@ == step.sessionid
    &&& after.requestid@ == step.requestid
    &&& same_but_tokens(before, after)
}

/// The state of a session that was opened with a freshly minted request
/// token: the phase is `latest`; asking again, downloading, giving up and
/// retrying are permitted.
pub open spec fn opened(request_token: Seq<char>) -> SessionView {
    SessionView {
        requestid: request_token,
        possible_actions: seq![Action::latest, Action::download, Action::abandon, Action::retry],
        previous_action: Action::latest,
    }
}

/// The state of a session whose download was granted: the phase is
/// `download`; only giving up and retrying are permitted.
pub open spec fn downloading(request_token: Seq<char>) -> SessionView {
    SessionView {
        requestid: request_token,
        possible_actions: seq![Action::abandon, Action::retry],
        previous_action: Action::download,
    }
}

/// The first step: a client asks for the latest version.
///
/// A request without a session token gets `session_token`. Where a session
/// stands under the token already, nothing changes and no reply is sent.
/// Otherwise the session is created. A request without a request token gets
/// `request_token`, and the session is opened with it; one that brought its
/// own keeps it, and the session is the bare created one. The reply offers
/// what the catalog has on the request's channel.
///
/// Where a token is needed and the given one is empty, this is a fault:
/// nothing changes.
pub open spec fn begin_step(
    store: Map<Seq<char>, SessionView>,
    request: RequestView,
    versions: Versions,
    session_token: Seq<char>,
    request_token: Seq<char>,
) -> Step {
    let sessionid = if request.sessionid.len() == 0 {
        session_token
    } else {
        request.sessionid
    };
    if sessionid.len() == 0 {
        stay(store, request, Some(fault_reply()))
    } else if store.contains_key(sessionid) {
        Step { store, sessionid, requestid: request.requestid, reply: None }
    } else if request.requestid.len() > 0 {
        Step {
            store: store.insert(sessionid, created(request.requestid)),
            sessionid,
            requestid: request.requestid,
            reply: Some(
                latest_reply(
                    offer_text(versions, request.channel),
                    offer_outcome(versions, request.channel),
                    sessionid,
                    request.requestid,
                ),
            ),
        }
    } else if request_token.len() == 0 {
        Step { store, sessionid, requestid: request.requestid, reply: Some(fault_reply()) }
    } else {
        Step {
            store: store.insert(sessionid, opened(request_token)),
            sessionid,
            requestid: request_token,
            reply: Some(
                latest_reply(
                    offer_text(versions, request.channel),
                    offer_outcome(versions, request.channel),
                    sessionid,
                    request_token,
                ),
            ),
        }
    }
}

/// Whether the session under `sessionid` may go on to the download for a
/// request that presents `requestid`: the session exists, the token is the
/// one bound to it, its phase is `latest` and it permits `download`.
pub open spec fn may_advance(
    store: Map<Seq<char>, SessionView>,
    sessionid: Seq<char>,
    requestid: Seq<char>,
) -> bool {
    &&& store.contains_key(sessionid)
    &&& store[sessionid].requestid == requestid
    &&& store[sessionid].previous_action == Action::latest
    &&& store[sessionid].possible_actions.contains(Action::download)
}

/// The second step: a client asks for the download.
///
/// A request without a session token or without a request token gets the
/// fault. Where the session may not advance, nothing changes and the reply
/// is `noupdate`. Otherwise `request_token` is bound to the session in
/// place of the old token, the phase becomes `download`, only giving up and
/// retrying stay permitted, and the reply gives the download locator of
/// what the catalog has on the request's channel. An empty `request_token`
/// is an internal error: nothing changes.
pub open spec fn advance_step(
    store: Map<Seq<char>, SessionView>,
    request: RequestView,
    versions: Versions,
    request_token: Seq<char>,
) -> Step {
    let sessionid = request.sessionid;
    let requestid = request.requestid;
    if sessionid.len() == 0 || requestid.len() == 0 {
        stay(store, request, Some(fault_reply()))
    } else if !may_advance(store, sessionid, requestid) {
        stay(
            store,
            request,
            Some(
                download_reply(
                    Seq::<char>::empty(),
                    Status::noupdate,
                    sessionid,
                    requestid,
                    permitted(store, sessionid),
                ),
            ),
        )
    } else if request_token.len() == 0 {
        stay(
            store,
            request,
            Some(
                download_reply(
                    Seq::<char>::empty(),
                    Status::errorinternal,
                    sessionid,
                    requestid,
                    permitted(store, sessionid),
                ),
            ),
        )
    } else {
        Step {
            store: store.insert(sessionid, downloading(request_token)),
            sessionid,
            requestid: request_token,
            reply: Some(
                download_reply(
                    offer_link(versions, request.channel),
                    offer_outcome(versions, request.channel),
                    sessionid,
                    request_token,
                    downloading(request_token).possible_actions,
                ),
            ),
        }
    }
}

/// What follows a report of an action that failed or was cancelled.
///
/// A `retry` runs the step of the session's phase again: the first step in
/// phase `latest`, the second in phase `download`; in any other phase it is
/// refused as an unsupported use of the protocol. `abandon` and `complete`
/// remove the session, and no reply is sent. Any other action is refused.
pub open spec fn action_step(
    store: Map<Seq<char>, SessionView>,
    request: RequestView,
    versions: Versions,
    action: Action,
    previous_action: Action,
    session_token: Seq<char>,
    request_token: Seq<char>,
) -> Step {
    match action {
        Action::retry => match previous_action {
            Action::latest => begin_step(store, request, versions, session_token, request_token),
            Action::download => advance_step(store, request, versions, request_token),
            _ => stay(
                store,
                request,
                Some(
                    status_reply(
                        Status::errorunsupportedprotocol,
                        request.sessionid,
                        request.requestid,
                    ),
                ),
            ),
        },
        Action::abandon | Action::complete => Step {
            store: store.remove(request.sessionid),
            sessionid: request.sessionid,
            requestid: request.requestid,
            reply: None,
        },
        _ => stay(
            store,
            request,
            Some(
                status_reply(
                    Status::errorunsupportedprotocol,
                    request.sessionid,
                    request.requestid,
                ),
            ),
        ),
    }
}

/// Whether a report is accepted: its session exists, it presents the
/// request token that is bound to the session, and the session permits the
/// reported action.
pub open spec fn accepted(store: Map<Seq<char>, SessionView>, report: StatusRequestView) -> bool {
    &&& store.contains_key(report.request.sessionid)
    &&& store[report.request.sessionid].requestid == report.request.requestid
    &&& store[report.request.sessionid].possible_actions.contains(report.action)
}

/// The third step: a client reports how an action went.
///
/// A report without a session token or without a request token gets the
/// fault. One that is not accepted is refused as an unsupported use of the
/// protocol, and nothing changes. Of an accepted report the result decides:
/// success (`1`) removes the session and is answered `ok`; failure (`0`) and
/// cancellation (`2`) go by the reported action; any other result is an
/// internal error and changes nothing.
pub open spec fn report_step(
    store: Map<Seq<char>, SessionView>,
    report: StatusRequestView,
    versions: Versions,
) -> Step {
    let request = report.request;
    let sessionid = request.sessionid;
    let requestid = request.requestid;
    if sessionid.len() == 0 || requestid.len() == 0 {
        stay(store, request, Some(fault_reply()))
    } else if !accepted(store, report) {
        stay(
            store,
            request,
            Some(status_reply(Status::errorunsupportedprotocol, sessionid, requestid)),
        )
    } else if report.result == 1 {
        Step {
            store: store.remove(sessionid),
            sessionid,
            requestid,
            reply: Some(status_reply(Status::ok, sessionid, requestid)),
        }
    } else if report.result == 0 || report.result == 2 {
        action_step(
            store,
            request,
            versions,
            report.action,
            store[sessionid].previous_action,
            Seq::<char>::empty(),
            Seq::<char>::empty(),
        )
    } else {
        stay(store, request, Some(status_reply(Status::errorinternal, sessionid, requestid)))
    }
}

/// Whether `actions` holds `action`.
pub fn contains_action(actions: &Vec<Action>, action: Action) -> (found: bool)
    ensures
        found == actions@.contains(action),
{
    let mut i: usize = 0;
    while i < actions.len()
        invariant
            i <= actions.len(),
            forall|j: int| 0 <= j < i ==> actions@[j] != action,
        decreases actions.len() - i,
    {
        if actions[i] == action {
            return true;
        }
        i += 1;
    }
    false
}

fn opened_actions() -> (actions: Vec<Action>)
    ensures
        actions@ == opened(Seq::<char>::empty()).possible_actions,
{
    let mut actions: Vec<Action> = Vec::new();
    actions.push(Action::latest);
    actions.push(Action::download);
    actions.push(Action::abandon);
    actions.push(Action::retry);
    assert(actions@ =~= opened(Seq::<char>::empty()).possible_actions);
    actions
}

fn downloading_actions() -> (actions: Vec<Action>)
    ensures
        actions@ == downloading(Seq::<char>::empty()).possible_actions,
{
    let mut actions: Vec<Action> = Vec::new();
    actions.push(Action::abandon);
    actions.push(Action::retry);
    assert(actions@ =~= downloading(Seq::<char>::empty()).possible_actions);
    actions
}

fn fault() -> (reply: Reply)
    ensures
        reply@ == fault_reply(),
{
    Reply { code: 500, payload: Payload::Fault }
}

/// Composes the offer of the catalog on the channel of `request`.
fn offer_latest(versions: &Versions, request: &Request) -> (reply: Reply)
    ensures
        reply@ == latest_reply(
            offer_text(*versions, request.channel),
            offer_outcome(*versions, request.channel),
            request.sessionid@,
            request.requestid@,
        ),
{
    match versions.offer(request.channel) {
        Some(version) => handle_latest_response(version, Status::ok, request),
        None => {
            let default_version = Version::empty();
            proof {
                lemma_empty_version(default_version);
            }
            handle_latest_response(&default_version, Status::noupdate, request)
        },
    }
}

/// The first step, with the tokens to hand out given: `session_token` for a
/// request that has no session token, `request_token` for one that has no
/// request token.
pub fn begin_with(
    versions: &Versions,
    manager: &mut Session_Manager,
    request: &mut Request,
    session_token: String,
    request_token: String,
) -> (reply: Option<Reply>)
    ensures
        took(
            begin_step(
                old(manager)@,
                old(request)@,
                *versions,
                session_token@,
                request_token@,
            ),
            final(manager)@,
            *old(request),
            *final(request),
            reply_view(reply),
        ),
{
    if request.sessionid.as_str().is_empty() {
        if session_token.as_str().is_empty() {
            return Some(fault());
        }
        request.sessionid = session_token;
    }
    if manager.contains(request.sessionid.as_str()) {
        return None;
    }
    if request.requestid.as_str().is_empty() {
        if request_token.as_str().is_empty() {
            return Some(fault());
        }
        new_session(manager, request);
        request.requestid = request_token.clone();
        update_request(manager, request, request_token);
        update_current_action(manager, request, Action::latest);
        update_session_actions(manager, request, opened_actions());
        assert(final(manager)@ =~= old(manager)@.insert(
            request.sessionid@,
            opened(request.requestid@),
        ));
    } else {
        new_session(manager, request);
    }
    Some(offer_latest(versions, request))
}

/// The first step: a client asks for the latest version. The tokens that
/// the step hands out are minted here, so the contract says that the step
/// was taken with some pair of minted tokens.
pub fn handle_latest(
    versions: &Versions,
    manager: &mut Session_Manager,
    request: &mut Request,
) -> (reply: Option<Reply>)
    ensures
        exists|session_token: Seq<char>, request_token: Seq<char>|
            is_id(session_token) && is_id(request_token) && took(
                #[trigger] begin_step(
                    old(manager)@,
                    old(request)@,
                    *versions,
                    session_token,
                    request_token,
                ),
                final(manager)@,
                *old(request),
                *final(request),
                reply_view(reply),
            ),
{
    let ghost spare = lemma_id_exists();
    let no_session_token = request.sessionid.as_str().is_empty();
    let session_token = if no_session_token {
        generate_id()
    } else {
        String::new()
    };
    let is_new = if no_session_token {
        !manager.contains(session_token.as_str())
    } else {
        !manager.contains(request.sessionid.as_str())
    };
    let no_request_token = request.requestid.as_str().is_empty();
    let request_token = if is_new && no_request_token {
        generate_id()
    } else {
        String::new()
    };
    let ghost session_witness = if no_session_token {
        session_token@
    } else {
        spare
    };
    let ghost request_witness = if is_new && no_request_token {
        request_token@
    } else {
        spare
    };
    assert(begin_step(manager@, request@, *versions, session_token@, request_token@)
        == begin_step(manager@, request@, *versions, session_witness, request_witness));
    let reply = begin_with(versions, manager, request, session_token, request_token);
    assert(took(
        begin_step(old(manager)@, old(request)@, *versions, session_witness, request_witness),
        final(manager)@,
        *old(request),
        *final(request),
        reply_view(reply),
    ));
    reply
}

/// Composes the download of what the catalog offers on the channel of
/// `request`.
fn offer_download(versions: &Versions, request: &Request, manager: &Session_Manager) -> (reply:
    Reply)
    ensures
        reply@ == download_reply(
            offer_link(*versions, request.channel),
            offer_outcome(*versions, request.channel),
            request.sessionid@,
            request.requestid@,
            permitted(manager@, request.sessionid@),
        ),
{
    match versions.offer(request.channel) {
        Some(version) => handle_download_response(version, Status::ok, request, manager),
        None => refuse_download(Status::noupdate, request, manager),
    }
}

/// Composes a reply to a request for the download that offers nothing.
fn refuse_download(status: Status, request: &Request, manager: &Session_Manager) -> (reply: Reply)
    ensures
        reply@ == download_reply(
            Seq::<char>::empty(),
            status,
            request.sessionid@,
            request.requestid@,
            permitted(manager@, request.sessionid@),
        ),
{
    let default_version = Version::empty();
    proof {
        lemma_empty_version(default_version);
    }
    handle_download_response(&default_version, status, request, manager)
}

/// Whether the session of `request` may go on to the download.
pub fn can_advance(manager: &Session_Manager, request: &Request) -> (allowed: bool)
    ensures
        allowed == may_advance(manager@, request.sessionid@, request.requestid@),
{
    match manager.get(request.sessionid.as_str()) {
        Some(current_session) => {
            current_session.requestid == request.requestid && current_session.previous_action
                == Action::latest && contains_action(
                &current_session.possible_actions,
                Action::download,
            )
        },
        None => false,
    }
}

/// The second step, with the request token to bind given.
pub fn advance_with(
    versions: &Versions,
    manager: &mut Session_Manager,
    request: &mut Request,
    request_token: String,
) -> (reply: Reply)
    ensures
        took(
            advance_step(old(manager)@, old(request)@, *versions, request_token@),
            final(manager)@,
            *old(request),
            *final(request),
            Some(reply@),
        ),
{
    if request.sessionid.as_str().is_empty() || request.requestid.as_str().is_empty() {
        return fault();
    }
    if !can_advance(manager, request) {
        return refuse_download(Status::noupdate, request, manager);
    }
    if request_token.as_str().is_empty() {
        return refuse_download(Status::errorinternal, request, manager);
    }
    update_request(manager, request, request_token.clone());
    request.requestid = request_token;
    update_current_action(manager, request, Action::download);
    update_session_actions(manager, request, downloading_actions());
    assert(final(manager)@ =~= old(manager)@.insert(
        request.sessionid@,
        downloading(request.requestid@),
    ));
    offer_download(versions, request, manager)
}

/// The second step: a client asks for the download. The request token that
/// a granted download binds is minted here, so the contract says that the
/// step was taken with some minted token.
pub fn handle_download(
    versions: &Versions,
    manager: &mut Session_Manager,
    request: &mut Request,
) -> (reply: Reply)
    ensures
        exists|request_token: Seq<char>|
            is_id(request_token) && took(
                #[trigger] advance_step(old(manager)@, old(request)@, *versions, request_token),
                final(manager)@,
                *old(request),
                *final(request),
                Some(reply@),
            ),
{
    let ghost spare = lemma_id_exists();
    let granted = !request.sessionid.as_str().is_empty() && !request.requestid.as_str().is_empty()
        && can_advance(manager, request);
    let request_token = if granted {
        generate_id()
    } else {
        String::new()
    };
    let ghost witness = if granted {
        request_token@
    } else {
        spare
    };
    assert(advance_step(manager@, request@, *versions, request_token@) == advance_step(
        manager@,
        request@,
        *versions,
        witness,
    ));
    let reply = advance_with(versions, manager, request, request_token);
    assert(took(
        advance_step(old(manager)@, old(request)@, *versions, witness),
        final(manager)@,
        *old(request),
        *final(request),
        Some(reply@),
    ));
    reply
}

/// What follows a report of an action that failed or was cancelled, for a
/// session in phase `previous_action`. Tokens are minted where a step that
/// runs again hands one out, so the contract says that the step was taken
/// with some pair of minted tokens.
pub fn handle_status_action(
    versions: &Versions,
    manager: &mut Session_Manager,
    request: &mut Request,
    action: Action,
    previous_action: Action,
) -> (reply: Option<Reply>)
    ensures
        exists|session_token: Seq<char>, request_token: Seq<char>|
            is_id(session_token) && is_id(request_token) && took(
                #[trigger] action_step(
                    old(manager)@,
                    old(request)@,
                    *versions,
                    action,
                    previous_action,
                    session_token,
                    request_token,
                ),
                final(manager)@,
                *old(request),
                *final(request),
                reply_view(reply),
            ),
{
    let ghost mut session_witness = lemma_id_exists();
    let ghost mut request_witness = session_witness;
    let reply = match action {
        Action::retry => match previous_action {
            Action::latest => {
                let reply = handle_latest(versions, manager, request);
                proof {
                    let (session_token, request_token) = choose|
                        session_token: Seq<char>,
                        request_token: Seq<char>,
                    |
                        is_id(session_token) && is_id(request_token) && took(
                            #[trigger] begin_step(
                                old(manager)@,
                                old(request)@,
                                *versions,
                                session_token,
                                request_token,
                            ),
                            manager@,
                            *old(request),
                            *request,
                            reply_view(reply),
                        );
                    session_witness = session_token;
                    request_witness = request_token;
                }
                reply
            },
            Action::download => {
                let reply = handle_download(versions, manager, request);
                proof {
                    request_witness = choose|request_token: Seq<char>|
                        is_id(request_token) && took(
                            #[trigger] advance_step(
                                old(manager)@,
                                old(request)@,
                                *versions,
                                request_token,
                            ),
                            manager@,
                            *old(request),
                            *request,
                            Some(reply@),
                        );
                }
                Some(reply)
            },
            _ => Some(handle_status_response(Status::errorunsupportedprotocol, request)),
        },
        Action::abandon | Action::complete => {
            remove_session(manager, request.sessionid.clone());
            None
        },
        _ => Some(handle_status_response(Status::errorunsupportedprotocol, request)),
    };
    assert(took(
        action_step(
            old(manager)@,
            old(request)@,
            *versions,
            action,
            previous_action,
            session_witness,
            request_witness,
        ),
        manager@,
        *old(request),
        *request,
        reply_view(reply),
    ));
    reply
}

/// The third step: a client reports how an action went. No token is ever
/// handed out by a report, so the step is fully determined by the store and
/// the report.
pub fn handle_status(
    versions: &Versions,
    manager: &mut Session_Manager,
    report: &mut StatusRequest,
) -> (reply: Option<Reply>)
    ensures
        took(
            report_step(old(manager)@, old(report)@, *versions),
            final(manager)@,
            old(report).request,
            final(report).request,
            reply_view(reply),
        ),
        final(report).eventtype == old(report).eventtype,
        final(report).action == old(report).action,
        final(report).result == old(report).result,
{
    if report.request.sessionid.as_str().is_empty() || report.request.requestid.as_str().is_empty() {
        return Some(fault());
    }
    let current_session = match manager.get(report.request.sessionid.as_str()) {
        Some(session) => session,
        None => {
            return Some(
                handle_status_response(Status::errorunsupportedprotocol, &report.request),
            );
        },
    };
    if !(current_session.requestid == report.request.requestid) || !contains_action(
        &current_session.possible_actions,
        report.action,
    ) {
        return Some(handle_status_response(Status::errorunsupportedprotocol, &report.request));
    }
    if report.result == 1 {
        remove_session(manager, report.request.sessionid.clone());
        Some(handle_status_response(Status::ok, &report.request))
    } else if report.result == 0 || report.result == 2 {
        handle_status_action(
            versions,
            manager,
            &mut report.request,
            report.action,
            current_session.previous_action,
        )
    } else {
        Some(handle_status_response(Status::errorinternal, &report.request))
    }
}

} // verus!
