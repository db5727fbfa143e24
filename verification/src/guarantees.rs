//! What the engine guarantees across several steps, proved from the steps'
//! definitions.

use crate::compose::{download_reply, latest_reply, status_reply, PayloadView};
use crate::engine::{
    accepted, advance_step, begin_step, downloading, may_advance, opened, report_step, stay,
};
use crate::session::created;
use crate::protocol::{Action, Channel, RequestView, Status, StatusRequestView};
use crate::session::SessionView;
use crate::token::is_id;
use crate::version::{empty_version_text, Versions};
use vstd::prelude::*;

verus! {

/// The session token under which the first step works: the request's own,
/// or the minted one where the request has none.
pub open spec fn session_token_of(request: RequestView, session_token: Seq<char>) -> Seq<char> {
    if request.sessionid.len() == 0 {
        session_token
    } else {
        request.sessionid
    }
}

/// A session is created exactly once. Of the requests for the latest
/// version that work under one session token, the first creates the
/// session and is answered; every later one, as long as the session stands,
/// leaves the store as it is and gets no reply.
pub proof fn session_is_created_once(
    store: Map<Seq<char>, SessionView>,
    first: RequestView,
    second: RequestView,
    versions: Versions,
    first_session_token: Seq<char>,
    first_request_token: Seq<char>,
    second_session_token: Seq<char>,
    second_request_token: Seq<char>,
)
    requires
        is_id(first_session_token),
        is_id(first_request_token),
        is_id(second_session_token),
        is_id(second_request_token),
        session_token_of(first, first_session_token) == session_token_of(
            second,
            second_session_token,
        ),
        !store.contains_key(session_token_of(first, first_session_token)),
    ensures
        ({
            let created = begin_step(
                store,
                first,
                versions,
                first_session_token,
                first_request_token,
            );
            let again = begin_step(
                created.store,
                second,
                versions,
                second_session_token,
                second_request_token,
            );
            &&& created.reply is Some
            &&& created.store.contains_key(session_token_of(first, first_session_token))
            &&& again.reply is None
            &&& again.store == created.store
        }),
{
}

/// A request for the latest version under the token of a session that
/// stands changes nothing and gets no reply, whatever the request token at
/// hand.
pub proof fn begin_spares_a_standing_session(
    store: Map<Seq<char>, SessionView>,
    request: RequestView,
    versions: Versions,
    session_token: Seq<char>,
    request_token: Seq<char>,
)
    requires
        session_token_of(request, session_token).len() > 0,
        store.contains_key(session_token_of(request, session_token)),
    ensures
        begin_step(store, request, versions, session_token, request_token).store == store,
        begin_step(store, request, versions, session_token, request_token).reply is None,
{
}

/// The download is granted only to a session in phase `latest`: whenever
/// the second step changes the store or the request's token, the session
/// stood in that phase, presented its token and permitted the download.
pub proof fn advance_needs_phase_latest(
    store: Map<Seq<char>, SessionView>,
    request: RequestView,
    versions: Versions,
    request_token: Seq<char>,
)
    ensures
        ({
            let step = advance_step(store, request, versions, request_token);
            step.store != store || step.requestid != request.requestid ==> may_advance(
                store,
                request.sessionid,
                request.requestid,
            ) && store[request.sessionid].previous_action == Action::latest
        }),
{
}

/// After the download was granted, asking for it again with the request
/// token of before is refused: the store stays as it is and the reply is
/// `noupdate`. This holds whichever token the grant bound, because the
/// session has left phase `latest`.
pub proof fn second_advance_is_refused(
    store: Map<Seq<char>, SessionView>,
    request: RequestView,
    versions: Versions,
    first_token: Seq<char>,
    second_token: Seq<char>,
)
    requires
        request.sessionid.len() > 0,
        request.requestid.len() > 0,
        may_advance(store, request.sessionid, request.requestid),
        is_id(first_token),
    ensures
        ({
            let granted = advance_step(store, request, versions, first_token);
            let again = advance_step(granted.store, request, versions, second_token);
            &&& granted.store == store.insert(request.sessionid, downloading(first_token))
            &&& granted.requestid == first_token
            &&& again == stay(
                granted.store,
                request,
                Some(
                    download_reply(
                        Seq::<char>::empty(),
                        Status::noupdate,
                        request.sessionid,
                        request.requestid,
                        seq![Action::abandon, Action::retry],
                    ),
                ),
            )
        }),
{
}

/// A request token that is not the one bound to the session opens nothing:
/// a request for the download that presents it is answered `noupdate`, a
/// report that presents it is refused as an unsupported use of the
/// protocol, and neither changes the store. As the store stays as it is,
/// the same holds of every further such call.
pub proof fn stale_token_is_refused(
    store: Map<Seq<char>, SessionView>,
    request: RequestView,
    versions: Versions,
    action: Action,
    result: i32,
    request_token: Seq<char>,
)
    requires
        request.sessionid.len() > 0,
        request.requestid.len() > 0,
        store.contains_key(request.sessionid),
        store[request.sessionid].requestid != request.requestid,
    ensures
        advance_step(store, request, versions, request_token) == stay(
            store,
            request,
            Some(
                download_reply(
                    Seq::<char>::empty(),
                    Status::noupdate,
                    request.sessionid,
                    request.requestid,
                    store[request.sessionid].possible_actions,
                ),
            ),
        ),
        report_step(store, StatusRequestView { request, action, result }, versions) == stay(
            store,
            request,
            Some(
                status_reply(
                    Status::errorunsupportedprotocol,
                    request.sessionid,
                    request.requestid,
                ),
            ),
        ),
{
}

/// Rotation makes the request token a capability. Once a granted download
/// has bound a new token that differs from the old one, the old token is
/// refused for that session, both by a request for the download and by a
/// report; the session is left as the grant made it.
pub proof fn rotation_invalidates_old_token(
    store: Map<Seq<char>, SessionView>,
    request: RequestView,
    versions: Versions,
    action: Action,
    result: i32,
    minted: Seq<char>,
    later_token: Seq<char>,
)
    requires
        request.sessionid.len() > 0,
        request.requestid.len() > 0,
        may_advance(store, request.sessionid, request.requestid),
        is_id(minted),
        minted != request.requestid,
    ensures
        ({
            let granted = advance_step(store, request, versions, minted).store;
            &&& granted[request.sessionid] == downloading(minted)
            &&& advance_step(granted, request, versions, later_token).store == granted
            &&& advance_step(granted, request, versions, later_token).reply == Some(
                download_reply(
                    Seq::<char>::empty(),
                    Status::noupdate,
                    request.sessionid,
                    request.requestid,
                    seq![Action::abandon, Action::retry],
                ),
            )
            &&& report_step(granted, StatusRequestView { request, action, result }, versions)
                == stay(
                granted,
                request,
                Some(
                    status_reply(
                        Status::errorunsupportedprotocol,
                        request.sessionid,
                        request.requestid,
                    ),
                ),
            )
        }),
{
    let granted = advance_step(store, request, versions, minted).store;
    stale_token_is_refused(granted, request, versions, action, result, later_token);
}

/// A report on a session that does not stand reports just that: it is
/// refused as an unsupported use of the protocol and the store stays as it
/// is.
pub proof fn report_on_absent_session(
    store: Map<Seq<char>, SessionView>,
    report: StatusRequestView,
    versions: Versions,
)
    requires
        report.request.sessionid.len() > 0,
        report.request.requestid.len() > 0,
        !store.contains_key(report.request.sessionid),
    ensures
        report_step(store, report, versions) == stay(
            store,
            report.request,
            Some(
                status_reply(
                    Status::errorunsupportedprotocol,
                    report.request.sessionid,
                    report.request.requestid,
                ),
            ),
        ),
{
}

/// Giving up is safe to repeat. An accepted report of `abandon` that
/// failed, succeeded or was cancelled removes the session; the same report
/// sent again finds no session, is refused as an unsupported use of the
/// protocol and changes nothing.
pub proof fn abandon_twice_reports_absence(
    store: Map<Seq<char>, SessionView>,
    report: StatusRequestView,
    versions: Versions,
)
    requires
        report.request.sessionid.len() > 0,
        report.request.requestid.len() > 0,
        report.action == Action::abandon,
        report.result == 0 || report.result == 1 || report.result == 2,
        accepted(store, report),
    ensures
        ({
            let first = report_step(store, report, versions);
            let second = report_step(first.store, report, versions);
            &&& first.store == store.remove(report.request.sessionid)
            &&& second == stay(
                first.store,
                report.request,
                Some(
                    status_reply(
                        Status::errorunsupportedprotocol,
                        report.request.sessionid,
                        report.request.requestid,
                    ),
                ),
            )
        }),
{
    let first = report_step(store, report, versions);
    report_on_absent_session(first.store, report, versions);
}

/// Channels are gated. On a channel other than `Dev` a request for the
/// latest version that is answered is answered `noupdate`, with code 200,
/// no action and the text of the empty version; and a granted download
/// names no download locator.
pub proof fn unserved_channel_offers_nothing(
    store: Map<Seq<char>, SessionView>,
    request: RequestView,
    versions: Versions,
    session_token: Seq<char>,
    request_token: Seq<char>,
)
    requires
        request.channel != Channel::Dev,
        is_id(session_token),
        is_id(request_token),
    ensures
        ({
            let step = begin_step(store, request, versions, session_token, request_token);
            step.reply matches Some(reply) ==> {
                &&& reply == latest_reply(
                    empty_version_text(),
                    Status::noupdate,
                    step.sessionid,
                    step.requestid,
                )
                &&& reply.code == 200
                &&& reply.payload matches PayloadView::Latest(body)
                &&& body.status == Status::noupdate
                &&& body.actions.len() == 0
                &&& body.version == empty_version_text()
            }
        }),
        ({
            let step = advance_step(store, request, versions, request_token);
            step.reply matches Some(reply) ==> (reply.payload matches PayloadView::Download(body)
                ==> body.downloadlink.len() == 0 && body.status == Status::noupdate)
        }),
{
}

/// An exchange touches one session. Each step leaves every session but the
/// one it works on as it was; and the one it works on it either leaves as
/// it was, or removes, or replaces as a whole by the state that the step
/// defines, never field by field.
pub proof fn steps_touch_one_session(
    store: Map<Seq<char>, SessionView>,
    request: RequestView,
    action: Action,
    result: i32,
    versions: Versions,
    session_token: Seq<char>,
    request_token: Seq<char>,
    other: Seq<char>,
)
    ensures
        ({
            let step = begin_step(store, request, versions, session_token, request_token);
            &&& other != step.sessionid ==> step.store.contains_key(other) == store.contains_key(
                other,
            ) && step.store[other] == store[other]
            &&& step.store == store || step.store == store.insert(
                step.sessionid,
                opened(step.requestid),
            ) || step.store == store.insert(step.sessionid, created(step.requestid))
        }),
        ({
            let step = advance_step(store, request, versions, request_token);
            &&& other != step.sessionid ==> step.store.contains_key(other) == store.contains_key(
                other,
            ) && step.store[other] == store[other]
            &&& step.store == store || step.store == store.insert(
                step.sessionid,
                downloading(step.requestid),
            )
        }),
        ({
            let step = report_step(
                store,
                StatusRequestView { request, action, result },
                versions,
            );
            &&& other != step.sessionid ==> step.store.contains_key(other) == store.contains_key(
                other,
            ) && step.store[other] == store[other]
            &&& step.store == store || step.store == store.remove(step.sessionid)
        }),
{
}

} // verus!
