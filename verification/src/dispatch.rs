//! The request dispatcher: from a request line and a decoded body to the
//! step of the engine that answers it.

use crate::compose::{
    download_reply, fault_reply, handle_download_response, handle_latest_response, latest_reply,
    permitted, reply_view, Payload, Reply, ReplyView,
};
use crate::engine::{
    advance_step, begin_step, handle_download, handle_latest, handle_status, report_step, took,
};
use crate::protocol::{
    default_request, default_request_view, default_status_request, default_status_request_view,
    Request, RequestView, Status, StatusRequest, StatusRequestView,
};
use crate::session::{SessionView, Session_Manager};
use crate::token::{is_id, lemma_id_exists};
use crate::version::{empty_version_text, lemma_empty_version, Version, Versions};
use vstd::prelude::*;
use vstd::string::StrSliceExecFns;

verus! {

/// The place of the first space of `line` at or after `from`; the length of
/// `line` where there is none.
pub open spec fn field_end(line: Seq<char>, from: int) -> int
    decreases line.len() - from,
{
    if from >= line.len() {
        line.len() as int
    } else if line[from] == ' ' {
        from
    } else {
        field_end(line, from + 1)
    }
}

/// The method of a request line: what stands before its first space.
pub open spec fn method_of(line: Seq<char>) -> Seq<char> {
    line.subrange(0, field_end(line, 0))
}

/// Whether a request line names an endpoint, that is, holds a space.
pub open spec fn has_endpoint(line: Seq<char>) -> bool {
    field_end(line, 0) < line.len()
}

/// The endpoint of a request line: what stands between its first space and
/// the next one, or the end of the line.
pub open spec fn endpoint_of(line: Seq<char>) -> Seq<char> {
    line.subrange(field_end(line, 0) + 1, field_end(line, field_end(line, 0) + 1))
}

/// Where a request line leads.
#[derive(Clone, Copy, Debug, PartialEq, Eq, Structural)]
pub enum Route {
    /// The first step of the engine: the client asks for the latest version.
    Latest,
    /// The second step: the client asks for the download.
    Download,
    /// The third step: the client reports.
    Report,
    /// A request for the latest version with a method other than `GET`.
    RejectLatest,
    /// A request for the download with a method other than `GET`.
    RejectDownload,
    /// Nothing: the request is dropped without a reply.
    Dropped,
}

/// The route of a request line. `/latest` and `/download` take `GET` and
/// reject any other method; `/status` takes `POST`, and with any other
/// method it is dropped, as is any other endpoint and a line without one.
pub open spec fn route_of(line: Seq<char>) -> Route {
    if !has_endpoint(line) {
        Route::Dropped
    } else if endpoint_of(line) == "/latest"@ {
        if method_of(line) == "GET"@ {
            Route::Latest
        } else {
            Route::RejectLatest
        }
    } else if endpoint_of(line) == "/download"@ {
        if method_of(line) == "GET"@ {
            Route::Download
        } else {
            Route::RejectDownload
        }
    } else if endpoint_of(line) == "/status"@ && method_of(line) == "POST"@ {
        Route::Report
    } else {
        Route::Dropped
    }
}

/// Splits a request line into its method and its endpoint; `None` where
/// the line names no endpoint.
pub fn split_request_line(line: &str) -> (fields: Option<(&str, &str)>)
    ensures
        match fields {
            Some((method, endpoint)) => has_endpoint(line@) && method@ == method_of(line@)
                && endpoint@ == endpoint_of(line@),
            None => !has_endpoint(line@),
        },
{
    let length = line.unicode_len();
    // `spaces` counts the spaces seen, up to two; `first` and `second` are
    // their places, or the place reached while still looking.
    let mut spaces: u8 = 0;
    let mut first: usize = 0;
    let mut second: usize = 0;
    for c in it: line.chars()
        invariant
            it.seq() == line@,
            length == line@.len(),
            spaces <= 2,
            spaces == 0 ==> first == it.index() && field_end(line@, 0) == field_end(
                line@,
                first as int,
            ),
            spaces >= 1 ==> first < it.index() && field_end(line@, 0) == first,
            spaces == 1 ==> second == it.index() && field_end(line@, first + 1) == field_end(
                line@,
                second as int,
            ),
            spaces == 2 ==> first < second < it.index() && field_end(line@, first + 1) == second,
    {
        if spaces == 0 {
            if c == ' ' {
                spaces = 1;
                second = first + 1;
            } else {
                first = first + 1;
            }
        } else if spaces == 1 {
            if c == ' ' {
                spaces = 2;
            } else {
                second = second + 1;
            }
        }
    }
    if spaces == 0 {
        None
    } else {
        let method = line.substring_char(0, first);
        let endpoint = line.substring_char(first + 1, second);
        Some((method, endpoint))
    }
}

/// The route of a request line.
pub fn route(request_header: &str) -> (route: Route)
    ensures
        route == route_of(request_header@),
{
    match split_request_line(request_header) {
        None => Route::Dropped,
        Some((method, endpoint)) => {
            if endpoint.eq("/latest") {
                if method.eq("GET") {
                    Route::Latest
                } else {
                    Route::RejectLatest
                }
            } else if endpoint.eq("/download") {
                if method.eq("GET") {
                    Route::Download
                } else {
                    Route::RejectDownload
                }
            } else if endpoint.eq("/status") && method.eq("POST") {
                Route::Report
            } else {
                Route::Dropped
            }
        },
    }
}

/// The decoded body of a request.
#[derive(Clone, Debug, PartialEq, Eq)]
pub enum Body {
    /// The request came without a body.
    Empty,
    /// The message of a client that asks for a version or for the download.
    Client(Request),
    /// The message of a client that reports.
    Report(StatusRequest),
    /// The body could not be decoded.
    Malformed,
}

/// What the engine reads of a body.
pub ghost enum BodyView {
    Empty,
    Client(RequestView),
    Report(StatusRequestView),
    Malformed,
}

impl View for Body {
    type V = BodyView;

    open spec fn view(&self) -> BodyView {
        match self {
            Body::Empty => BodyView::Empty,
            Body::Client(request) => BodyView::Client(request@),
            Body::Report(report) => BodyView::Report(report@),
            Body::Malformed => BodyView::Malformed,
        }
    }
}

/// The request that a body holds for the first two steps: the default
/// request for a missing body; none where the body is of another kind.
pub open spec fn client_of(body: BodyView) -> Option<RequestView> {
    match body {
        BodyView::Empty => Some(default_request_view()),
        BodyView::Client(request) => Some(request),
        _ => None,
    }
}

/// The report that a body holds for the third step: the default report for
/// a missing body; none where the body is of another kind.
pub open spec fn report_of(body: BodyView) -> Option<StatusRequestView> {
    match body {
        BodyView::Empty => Some(default_status_request_view()),
        BodyView::Report(report) => Some(report),
        _ => None,
    }
}

/// What an exchange leaves behind: the store, and the reply if one is
/// sent.
pub ghost struct Exchange {
    pub store: Map<Seq<char>, SessionView>,
    pub reply: Option<ReplyView>,
}

/// The exchange that a request makes, with the tokens that the engine may
/// hand out.
///
/// The request line picks the route. A dropped request changes nothing and
/// gets no reply. A rejected one is answered as an unsupported use of the
/// protocol, on behalf of a request without tokens, so what the composer
/// sends is the fault. On the three routes into the engine, a body of the
/// wrong kind or one that could not be decoded gets the fault and changes
/// nothing; otherwise the exchange is the engine's step.
pub open spec fn exchange_of(
    store: Map<Seq<char>, SessionView>,
    line: Seq<char>,
    body: BodyView,
    versions: Versions,
    session_token: Seq<char>,
    request_token: Seq<char>,
) -> Exchange {
    match route_of(line) {
        Route::Dropped => Exchange { store, reply: None },
        Route::RejectLatest => Exchange {
            store,
            reply: Some(
                latest_reply(
                    empty_version_text(),
                    Status::errorunsupportedprotocol,
                    default_request_view().sessionid,
                    default_request_view().requestid,
                ),
            ),
        },
        Route::RejectDownload => Exchange {
            store,
            reply: Some(
                download_reply(
                    Seq::<char>::empty(),
                    Status::errorunsupportedprotocol,
                    default_request_view().sessionid,
                    default_request_view().requestid,
                    permitted(store, default_request_view().sessionid),
                ),
            ),
        },
        Route::Latest => match client_of(body) {
            Some(request) => {
                let step = begin_step(store, request, versions, session_token, request_token);
                Exchange { store: step.store, reply: step.reply }
            },
            None => Exchange { store, reply: Some(fault_reply()) },
        },
        Route::Download => match client_of(body) {
            Some(request) => {
                let step = advance_step(store, request, versions, request_token);
                Exchange { store: step.store, reply: step.reply }
            },
            None => Exchange { store, reply: Some(fault_reply()) },
        },
        Route::Report => match report_of(body) {
            Some(report) => {
                let step = report_step(store, report, versions);
                Exchange { store: step.store, reply: step.reply }
            },
            None => Exchange { store, reply: Some(fault_reply()) },
        },
    }
}

/// Whether an executed exchange is `exchange`.
pub open spec fn made(
    exchange: Exchange,
    store: Map<Seq<char>, SessionView>,
    reply: Option<ReplyView>,
) -> bool {
    store == exchange.store && reply == exchange.reply
}

/// Answers one request: routes the request line, lets the engine take its
/// step on the decoded body and returns the reply to send, if any. Tokens
/// are minted where the engine hands one out, so the contract says that the
/// exchange was made with some pair of minted tokens.
pub fn parse_request(
    request_header: &str,
    body: Body,
    versions: &Versions,
    session_manager: &mut Session_Manager,
) -> (reply: Option<Reply>)
    ensures
        exists|session_token: Seq<char>, request_token: Seq<char>|
            is_id(session_token) && is_id(request_token) && made(
                #[trigger] exchange_of(
                    old(session_manager)@,
                    request_header@,
                    body@,
                    *versions,
                    session_token,
                    request_token,
                ),
                final(session_manager)@,
                reply_view(reply),
            ),
{
    let ghost spare = lemma_id_exists();
    let ghost before = session_manager@;
    let ghost line = request_header@;
    let reply = match route(request_header) {
        Route::Dropped => None,
        Route::RejectLatest => {
            let default_version = Version::empty();
            proof {
                lemma_empty_version(default_version);
            }
            Some(
                handle_latest_response(
                    &default_version,
                    Status::errorunsupportedprotocol,
                    &default_request(),
                ),
            )
        },
        Route::RejectDownload => {
            let default_version = Version::empty();
            proof {
                lemma_empty_version(default_version);
            }
            Some(
                handle_download_response(
                    &default_version,
                    Status::errorunsupportedprotocol,
                    &default_request(),
                    session_manager,
                ),
            )
        },
        Route::Latest => {
            let mut request_data = match body {
                Body::Empty => default_request(),
                Body::Client(request) => request,
                _ => {
                    assert(made(
                        exchange_of(before, line, body@, *versions, spare, spare),
                        session_manager@,
                        Some(fault_reply()),
                    ));
                    return Some(Reply { code: 500, payload: Payload::Fault });
                },
            };
            let ghost asked = request_data@;
            let reply = handle_latest(versions, session_manager, &mut request_data);
            proof {
                let (session_token, request_token) = choose|
                    session_token: Seq<char>,
                    request_token: Seq<char>,
                |
                    is_id(session_token) && is_id(request_token) && took(
                        #[trigger] begin_step(
                            before,
                            asked,
                            *versions,
                            session_token,
                            request_token,
                        ),
                        session_manager@,
                        request_data,
                        request_data,
                        reply_view(reply),
                    );
                assert(made(
                    exchange_of(before, line, body@, *versions, session_token, request_token),
                    session_manager@,
                    reply_view(reply),
                ));
            }
            return reply;
        },
        Route::Download => {
            let mut request_data = match body {
                Body::Empty => default_request(),
                Body::Client(request) => request,
                _ => {
                    assert(made(
                        exchange_of(before, line, body@, *versions, spare, spare),
                        session_manager@,
                        Some(fault_reply()),
                    ));
                    return Some(Reply { code: 500, payload: Payload::Fault });
                },
            };
            let ghost asked = request_data@;
            let reply = handle_download(versions, session_manager, &mut request_data);
            proof {
                let request_token = choose|request_token: Seq<char>|
                    is_id(request_token) && took(
                        #[trigger] advance_step(before, asked, *versions, request_token),
                        session_manager@,
                        request_data,
                        request_data,
                        Some(reply@),
                    );
                assert(made(
                    exchange_of(before, line, body@, *versions, spare, request_token),
                    session_manager@,
                    Some(reply@),
                ));
            }
            return Some(reply);
        },
        Route::Report => {
            let mut request_data = match body {
                Body::Empty => default_status_request(),
                Body::Report(report) => report,
                _ => {
                    assert(made(
                        exchange_of(before, line, body@, *versions, spare, spare),
                        session_manager@,
                        Some(fault_reply()),
                    ));
                    return Some(Reply { code: 500, payload: Payload::Fault });
                },
            };
            handle_status(versions, session_manager, &mut request_data)
        },
    };
    assert(made(
        exchange_of(before, line, body@, *versions, spare, spare),
        session_manager@,
        reply_view(reply),
    ));
    reply
}

} // verus!
