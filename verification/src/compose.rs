//! The response composer: from the engine's decision to one of the three
//! reply shapes, with the HTTP status code and the actions that the client
//! may take next.

use crate::protocol::{Action, Request, Status};
use crate::session::Session_Manager;
use crate::version::{first_url, version_text, Version};
use vstd::prelude::*;
use vstd::string::StringExecFns;

verus! {

/// The body of the reply to a request for the latest version.
#[derive(Clone, Debug, PartialEq, Eq)]
pub struct LatestResponse {
    pub actions: Vec<Action>,
    pub info: String,
    pub status: Status,
    pub version: String,
    pub sessionid: String,
    pub requestid: String,
}

/// The body of the reply to a request for the download.
#[derive(Clone, Debug, PartialEq, Eq)]
pub struct DownloadResponse {
    pub actions: Vec<Action>,
    pub info: String,
    pub status: Status,
    pub sessionid: String,
    pub requestid: String,
    pub downloadlink: String,
}

/// The body of the reply to a report.
#[derive(Clone, Debug, PartialEq, Eq)]
pub struct StatusResponse {
    pub sessionid: String,
    pub requestid: String,
    pub status: Status,
}

/// What a reply carries.
#[derive(Clone, Debug, PartialEq, Eq)]
pub enum Payload {
    /// The fixed body that tells of an internal error and nothing else.
    Fault,
    Latest(LatestResponse),
    Download(DownloadResponse),
    Report(StatusResponse),
}

/// A reply: the HTTP status code and the body.
#[derive(Clone, Debug, PartialEq, Eq)]
pub struct Reply {
    pub code: i32,
    pub payload: Payload,
}

pub ghost struct LatestResponseView {
    pub actions: Seq<Action>,
    pub info: Seq<char>,
    pub status: Status,
    pub version: Seq<char>,
    pub sessionid: Seq<char>,
    pub requestid: Seq<char>,
}

pub ghost struct DownloadResponseView {
    pub actions: Seq<Action>,
    pub info: Seq<char>,
    pub status: Status,
    pub sessionid: Seq<char>,
    pub requestid: Seq<char>,
    pub downloadlink: Seq<char>,
}

pub ghost struct StatusResponseView {
    pub sessionid: Seq<char>,
    pub requestid: Seq<char>,
    pub status: Status,
}

pub ghost enum PayloadView {
    Fault,
    Latest(LatestResponseView),
    Download(DownloadResponseView),
    Report(StatusResponseView),
}

/// A reply as a mathematical value.
pub ghost struct ReplyView {
    pub code: i32,
    pub payload: PayloadView,
}

impl View for LatestResponse {
    type V = LatestResponseView;

    open spec fn view(&self) -> LatestResponseView {
        LatestResponseView {
            actions: self.actions@,
            info: self.info@,
            status: self.status,
            version: self.version@,
            sessionid: self.sessionid@,
            requestid: self.requestid@,
        }
    }
}

impl View for DownloadResponse {
    type V = DownloadResponseView;

    open spec fn view(&self) -> DownloadResponseView {
        DownloadResponseView {
            actions: self.actions@,
            info: self.info@,
            status: self.status,
            sessionid: self.sessionid@,
            requestid: self.requestid@,
            downloadlink: self.downloadlink@,
        }
    }
}

impl View for StatusResponse {
    type V = StatusResponseView;

    open spec fn view(&self) -> StatusResponseView {
        StatusResponseView {
            sessionid: self.sessionid@,
            requestid: self.requestid@,
            status: self.status,
        }
    }
}

impl View for Payload {
    type V = PayloadView;

    open spec fn view(&self) -> PayloadView {
        match self {
            Payload::Fault => PayloadView::Fault,
            Payload::Latest(body) => PayloadView::Latest(body@),
            Payload::Download(body) => PayloadView::Download(body@),
            Payload::Report(body) => PayloadView::Report(body@),
        }
    }
}

impl View for Reply {
    type V = ReplyView;

    open spec fn view(&self) -> ReplyView {
        ReplyView { code: self.code, payload: self.payload@ }
    }
}

/// The view of a reply that may be missing.
pub open spec fn reply_view(reply: Option<Reply>) -> Option<ReplyView> {
    match reply {
        Some(r) => Some(r@),
        None => None,
    }
}

/// The HTTP status code that goes with a status.
pub open spec fn status_code(status: Status) -> i32 {
    match status {
        Status::ok => 200,
        Status::noupdate => 200,
        Status::updatecomplete => 200,
        Status::updateabandoned => 200,
        Status::errorinternal => 500,
        Status::errorosnotsupported => 406,
        Status::errorhwnotsupported => 428,
        Status::errorunsupportedprotocol => 401,
        Status::errorhash => 400,
    }
}

/// The HTTP status code that goes with `status`.
pub fn http_code(status: Status) -> (code: i32)
    ensures
        code == status_code(status),
{
    match status {
        Status::ok | Status::noupdate | Status::updatecomplete | Status::updateabandoned => 200,
        Status::errorinternal => 500,
        Status::errorosnotsupported => 406,
        Status::errorhwnotsupported => 428,
        Status::errorunsupportedprotocol => 401,
        Status::errorhash => 400,
    }
}

/// The note that every reply to a request for a version carries.
pub open spec fn info_text() -> Seq<char> {
    "server prototype"@
}

/// The reply that tells of an internal error: code 500 and the fixed body.
pub open spec fn fault_reply() -> ReplyView {
    ReplyView { code: 500, payload: PayloadView::Fault }
}

/// The fixed body of a fault, as it goes over the wire: the JSON text of the
/// empty string.
pub open spec fn fault_text() -> Seq<char> {
    "\"\""@
}

/// The JSON text of a string with the given characters: the string in
/// double quotes, with what JSON does not take as it stands escaped.
pub uninterp spec fn json_string_text(text: Seq<char>) -> Seq<char>;

/// `serde_json::to_string` on a string slice. The contract names the text
/// that comes out, as a function of the string's characters, and says what
/// it is for the empty string: two double quotes and nothing between them.
/// It does not promise that a text comes out.
#[verifier::external_body]
fn json_string(text: &str) -> (encoded: Option<String>)
    ensures
        encoded matches Some(json) ==> json@ == json_string_text(text@) && (text@.len() == 0
            ==> json@ == fault_text()),
{
    serde_json::to_string(text).ok()
}

/// The fixed body of a fault, as it goes over the wire. It is encoded as
/// every other body is.
pub fn fault_body() -> (body: String)
    ensures
        body@ == fault_text(),
{
    proof {
        reveal_strlit("");
    }
    match json_string("") {
        Some(json) => json,
        None => String::from_str("\"\""),
    }
}

/// The actions that a reply to a request for the latest version permits.
pub open spec fn latest_actions(status: Status) -> Seq<Action> {
    match status {
        Status::ok => seq![Action::download, Action::abandon],
        Status::noupdate => Seq::<Action>::empty(),
        Status::errorinternal => seq![Action::retry, Action::abandon],
        Status::errorhwnotsupported => seq![Action::download, Action::abandon],
        _ => seq![Action::abandon],
    }
}

/// The status that a reply to a request for a version reports: the status
/// itself, but `noupdate` for those that have no reply of their own.
pub open spec fn offer_status(status: Status) -> Status {
    match status {
        Status::errorhash => Status::noupdate,
        Status::updatecomplete => Status::noupdate,
        Status::updateabandoned => Status::noupdate,
        _ => status,
    }
}

/// The status that a reply to a report names: the two terminal statuses
/// are reported as `ok`, `errorhash` as `noupdate`, any other as itself.
pub open spec fn report_status(status: Status) -> Status {
    match status {
        Status::updatecomplete => Status::ok,
        Status::updateabandoned => Status::ok,
        Status::errorhash => Status::noupdate,
        _ => status,
    }
}

/// The reply to a request for the latest version. Without a session token
/// or without a request token the reply is the fault, whatever the status.
pub open spec fn latest_reply(
    version: Seq<char>,
    status: Status,
    sessionid: Seq<char>,
    requestid: Seq<char>,
) -> ReplyView {
    if requestid.len() == 0 || sessionid.len() == 0 {
        fault_reply()
    } else {
        ReplyView {
            code: status_code(status),
            payload: PayloadView::Latest(
                LatestResponseView {
                    actions: latest_actions(status),
                    info: info_text(),
                    status: offer_status(status),
                    version,
                    sessionid,
                    requestid,
                },
            ),
        }
    }
}

/// The reply to a request for the download; `actions` are those that the
/// session permits. Without a session token or without a request token the
/// reply is the fault, whatever the status.
pub open spec fn download_reply(
    downloadlink: Seq<char>,
    status: Status,
    sessionid: Seq<char>,
    requestid: Seq<char>,
    actions: Seq<Action>,
) -> ReplyView {
    if requestid.len() == 0 || sessionid.len() == 0 {
        fault_reply()
    } else {
        ReplyView {
            code: status_code(status),
            payload: PayloadView::Download(
                DownloadResponseView {
                    actions,
                    info: info_text(),
                    status: offer_status(status),
                    sessionid,
                    requestid,
                    downloadlink,
                },
            ),
        }
    }
}

/// The reply to a report. Without a session token or without a request
/// token the reply is the fault, whatever the status.
pub open spec fn status_reply(
    status: Status,
    sessionid: Seq<char>,
    requestid: Seq<char>,
) -> ReplyView {
    if requestid.len() == 0 || sessionid.len() == 0 {
        fault_reply()
    } else {
        ReplyView {
            code: status_code(status),
            payload: PayloadView::Report(
                StatusResponseView { sessionid, requestid, status: report_status(status) },
            ),
        }
    }
}

/// The actions that the session under `sessionid` permits; none where
/// there is no such session.
pub open spec fn permitted(
    store: Map<Seq<char>, crate::session::SessionView>,
    sessionid: Seq<char>,
) -> Seq<Action> {
    if store.contains_key(sessionid) {
        store[sessionid].possible_actions
    } else {
        Seq::<Action>::empty()
    }
}

fn actions_for_latest(status: Status) -> (actions: Vec<Action>)
    ensures
        actions@ == latest_actions(status),
{
    let mut actions: Vec<Action> = Vec::new();
    match status {
        Status::ok | Status::errorhwnotsupported => {
            actions.push(Action::download);
            actions.push(Action::abandon);
        },
        Status::noupdate => {},
        Status::errorinternal => {
            actions.push(Action::retry);
            actions.push(Action::abandon);
        },
        _ => {
            actions.push(Action::abandon);
        },
    }
    assert(actions@ =~= latest_actions(status));
    actions
}

fn status_for_offer(status: Status) -> (reported: Status)
    ensures
        reported == offer_status(status),
{
    match status {
        Status::errorhash | Status::updatecomplete | Status::updateabandoned => Status::noupdate,
        _ => status,
    }
}

/// Composes the reply to a request for the latest version: the status, the
/// actions that it permits, the version's text and the two tokens of
/// `request`.
pub fn handle_latest_response(version: &Version, status: Status, request: &Request) -> (reply:
    Reply)
    ensures
        reply@ == latest_reply(version_text(*version), status, request.sessionid@, request.requestid@),
{
    if request.requestid.as_str().is_empty() || request.sessionid.as_str().is_empty() {
        return Reply { code: 500, payload: Payload::Fault };
    }
    let response_object = LatestResponse {
        actions: actions_for_latest(status),
        info: String::from_str("server prototype"),
        status: status_for_offer(status),
        version: version.to_string(),
        sessionid: request.sessionid.clone(),
        requestid: request.requestid.clone(),
    };
    Reply { code: http_code(status), payload: Payload::Latest(response_object) }
}

/// Composes the reply to a request for the download: the status, the
/// actions that the session of `request` permits (none without a session),
/// the version's first download locator and the two tokens of `request`.
pub fn handle_download_response(
    version: &Version,
    status: Status,
    request: &Request,
    session_manager: &Session_Manager,
) -> (reply: Reply)
    ensures
        reply@ == download_reply(
            first_url(*version),
            status,
            request.sessionid@,
            request.requestid@,
            permitted(session_manager@, request.sessionid@),
        ),
{
    if request.requestid.as_str().is_empty() || request.sessionid.as_str().is_empty() {
        return Reply { code: 500, payload: Payload::Fault };
    }
    let actions = match session_manager.get(request.sessionid.as_str()) {
        Some(session) => session.possible_actions,
        None => Vec::new(),
    };
    let response_object = DownloadResponse {
        actions,
        info: String::from_str("server prototype"),
        status: status_for_offer(status),
        sessionid: request.sessionid.clone(),
        requestid: request.requestid.clone(),
        downloadlink: version.download_link(),
    };
    Reply { code: http_code(status), payload: Payload::Download(response_object) }
}

/// Composes the reply to a report: the status and the two tokens of
/// `request`.
pub fn handle_status_response(status: Status, request: &Request) -> (reply: Reply)
    ensures
        reply@ == status_reply(status, request.sessionid@, request.requestid@),
{
    if request.requestid.as_str().is_empty() || request.sessionid.as_str().is_empty() {
        return Reply { code: 500, payload: Payload::Fault };
    }
    let reported = match status {
        Status::updatecomplete | Status::updateabandoned => Status::ok,
        Status::errorhash => Status::noupdate,
        _ => status,
    };
    let response_object = StatusResponse {
        sessionid: request.sessionid.clone(),
        requestid: request.requestid.clone(),
        status: reported,
    };
    Reply { code: http_code(status), payload: Payload::Report(response_object) }
}

} // verus!
