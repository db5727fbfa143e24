use mini_omaha::compose::{DownloadResponse, LatestResponse, Payload, Reply, StatusResponse};
use mini_omaha::dispatch::{parse_request, route, split_request_line, Body, Route};
use mini_omaha::protocol::{
    default_request, default_status_request, Action, Channel, EventType, Hardware,
    OperatingSystem, Request, Status, StatusRequest, PROTOCOL_ONE,
};
use mini_omaha::session::{new_session_manager, Session};
use mini_omaha::version::{Version, Versions};

fn catalog() -> Versions {
    Versions {
        dev: vec![Version {
            major: 4,
            minor: 5,
            build: 6,
            patch: 7,
            count: 0,
            urls: vec!["http://dl/4.5.6".to_string()],
        }],
        stable: vec![Version {
            major: 3,
            minor: 0,
            build: 0,
            patch: 0,
            count: 0,
            urls: vec!["http://dl/stable".to_string()],
        }],
        beta: vec![],
        canary: vec![],
        extended: vec![],
    }
}

fn request(sessionid: &str, requestid: &str, channel: Channel) -> Request {
    let mut r = default_request();
    r.sessionid = sessionid.to_string();
    r.requestid = requestid.to_string();
    r.channel = channel;
    r
}

fn report(sessionid: &str, requestid: &str, action: Action, result: i32) -> StatusRequest {
    StatusRequest {
        request: request(sessionid, requestid, Channel::Dev),
        eventtype: EventType::Update,
        action,
        result,
    }
}

fn fault() -> Option<Reply> {
    Some(Reply { code: 500, payload: Payload::Fault })
}

fn latest_body(reply: Option<Reply>) -> (i32, LatestResponse) {
    match reply {
        Some(Reply { code, payload: Payload::Latest(body) }) => (code, body),
        other => panic!("not a latest reply: {:?}", other),
    }
}

fn download_body(reply: Option<Reply>) -> (i32, DownloadResponse) {
    match reply {
        Some(Reply { code, payload: Payload::Download(body) }) => (code, body),
        other => panic!("not a download reply: {:?}", other),
    }
}

#[test]
fn the_default_request_knows_nothing_of_the_client() {
    let r = default_request();
    assert_eq!(
        r,
        Request {
            updater: String::new(),
            acceptformat: String::new(),
            hw: Hardware {
                sse: -1,
                sse2: -1,
                sse41: -1,
                sse42: -1,
                sse3: -1,
                avx: -1,
                physmemory: -1
            },
            ismachine: 0,
            os: OperatingSystem {
                platform: String::new(),
                sp: String::new(),
                arch: String::new(),
                dedup: String::new(),
            },
            protocol: 1.0f32.to_bits(),
            requestid: String::new(),
            sessionid: String::new(),
            channel: Channel::Dev,
            updaterversion: 0.0f32.to_bits(),
        }
    );
    assert_eq!(PROTOCOL_ONE, 1.0f32.to_bits());
    let s = default_status_request();
    assert_eq!(s.request, r);
    assert_eq!(s.eventtype, EventType::Idle);
    assert_eq!(s.action, Action::retry);
    assert_eq!(s.result, 1);
}

#[test]
fn request_lines_split_at_single_spaces() {
    assert_eq!(split_request_line("GET /latest HTTP/1.1\r\n"), Some(("GET", "/latest")));
    assert_eq!(split_request_line("GET /latest"), Some(("GET", "/latest")));
    assert_eq!(split_request_line("GET "), Some(("GET", "")));
    assert_eq!(split_request_line(" /latest"), Some(("", "/latest")));
    assert_eq!(split_request_line("GET  /latest"), Some(("GET", "")));
    assert_eq!(split_request_line(" "), Some(("", "")));
    assert_eq!(split_request_line("GET"), None);
    assert_eq!(split_request_line(""), None);
    assert_eq!(split_request_line("GET\t/latest"), None);
    assert_eq!(split_request_line("GÉT /läτest x"), Some(("GÉT", "/läτest")));
    let line = "POST /status HTTP/1.1";
    let fields: Vec<&str> = line.split(" ").collect();
    assert_eq!(split_request_line(line), Some((fields[0], fields[1])));
}

#[test]
fn routes() {
    assert_eq!(route("GET /latest HTTP/1.1\r\n"), Route::Latest);
    assert_eq!(route("GET /download HTTP/1.1\r\n"), Route::Download);
    assert_eq!(route("POST /status HTTP/1.1\r\n"), Route::Report);
    assert_eq!(route("POST /latest HTTP/1.1\r\n"), Route::RejectLatest);
    assert_eq!(route("PUT /latest HTTP/1.1\r\n"), Route::RejectLatest);
    assert_eq!(route("get /latest HTTP/1.1\r\n"), Route::RejectLatest);
    assert_eq!(route("POST /download HTTP/1.1\r\n"), Route::RejectDownload);
    assert_eq!(route("DELETE /download HTTP/1.1\r\n"), Route::RejectDownload);
    assert_eq!(route("GET /status HTTP/1.1\r\n"), Route::Dropped);
    assert_eq!(route("PUT /status HTTP/1.1\r\n"), Route::Dropped);
    assert_eq!(route("GET / HTTP/1.1\r\n"), Route::Dropped);
    assert_eq!(route("GET /latest/ HTTP/1.1\r\n"), Route::Dropped);
    assert_eq!(route("GET /Latest HTTP/1.1\r\n"), Route::Dropped);
    assert_eq!(route("GET /latest\r\n"), Route::Dropped);
    assert_eq!(route("GET /latest"), Route::Latest);
    assert_eq!(route("GET  /latest HTTP/1.1"), Route::Dropped);
    assert_eq!(route("GET"), Route::Dropped);
    assert_eq!(route(""), Route::Dropped);
}

#[test]
fn dropped_requests_get_no_reply() {
    let mut manager = new_session_manager();
    for line in ["GET / HTTP/1.1", "GET /status HTTP/1.1", "nonsense", ""] {
        for body in [
            Body::Empty,
            Body::Malformed,
            Body::Client(request("s", "r", Channel::Dev)),
            Body::Report(report("s", "r", Action::abandon, 1)),
        ] {
            assert_eq!(parse_request(line, body, &catalog(), &mut manager), None);
        }
    }
    assert_eq!(manager.len(), 0);
}

#[test]
fn a_wrong_method_is_rejected_without_tokens() {
    let mut manager = new_session_manager();
    for line in ["POST /latest HTTP/1.1", "PUT /download HTTP/1.1"] {
        for body in [Body::Empty, Body::Malformed, Body::Client(request("s", "r", Channel::Dev))] {
            assert_eq!(parse_request(line, body, &catalog(), &mut manager), fault());
        }
    }
    assert_eq!(manager.len(), 0);
}

#[test]
fn a_body_of_the_wrong_kind_is_a_fault() {
    let mut manager = new_session_manager();
    let rep = Body::Report(report("s", "r", Action::abandon, 1));
    let req = Body::Client(request("s", "r", Channel::Dev));
    assert_eq!(parse_request("GET /latest x", Body::Malformed, &catalog(), &mut manager), fault());
    assert_eq!(parse_request("GET /latest x", rep.clone(), &catalog(), &mut manager), fault());
    assert_eq!(
        parse_request("GET /download x", Body::Malformed, &catalog(), &mut manager),
        fault()
    );
    assert_eq!(parse_request("GET /download x", rep, &catalog(), &mut manager), fault());
    assert_eq!(parse_request("POST /status x", Body::Malformed, &catalog(), &mut manager), fault());
    assert_eq!(parse_request("POST /status x", req, &catalog(), &mut manager), fault());
    assert_eq!(manager.len(), 0);
}

#[test]
fn requests_without_a_body_use_the_defaults() {
    let mut manager = new_session_manager();
    // the default report has no tokens
    assert_eq!(parse_request("POST /status x", Body::Empty, &catalog(), &mut manager), fault());
    // neither has the default request
    assert_eq!(parse_request("GET /download x", Body::Empty, &catalog(), &mut manager), fault());
    assert_eq!(manager.len(), 0);
    // for the latest version it gets both minted, on the Dev channel
    let (code, body) =
        latest_body(parse_request("GET /latest x", Body::Empty, &catalog(), &mut manager));
    assert_eq!(code, 200);
    assert_eq!(body.status, Status::ok);
    assert_eq!(body.version, "4.5.6, [\"http://dl/4.5.6\"]");
    assert_eq!(manager.len(), 1);
    assert!(manager.contains(&body.sessionid));
}

#[test]
fn a_stable_request_gets_no_update() {
    let mut manager = new_session_manager();
    let (code, body) = latest_body(parse_request(
        "GET /latest HTTP/1.1",
        Body::Client(request("", "", Channel::Stable)),
        &catalog(),
        &mut manager,
    ));
    assert_eq!(code, 200);
    assert_eq!(body.status, Status::noupdate);
    assert_eq!(body.actions, vec![]);
    assert_eq!(body.version, "0.0.0, []");
    let (code, body) = download_body(parse_request(
        "GET /download HTTP/1.1",
        Body::Client(request(&body.sessionid, &body.requestid, Channel::Stable)),
        &catalog(),
        &mut manager,
    ));
    assert_eq!(code, 200);
    assert_eq!(body.status, Status::noupdate);
    assert_eq!(body.downloadlink, "");
}

#[test]
fn a_whole_update_from_first_contact_to_success() {
    let versions = catalog();
    let mut manager = new_session_manager();

    let (code, first) = latest_body(parse_request(
        "GET /latest HTTP/1.1\r\n",
        Body::Client(request("", "", Channel::Dev)),
        &versions,
        &mut manager,
    ));
    assert_eq!(code, 200);
    assert_eq!(first.status, Status::ok);
    assert_eq!(first.actions, vec![Action::download, Action::abandon]);
    assert!(!first.sessionid.is_empty());
    assert!(!first.requestid.is_empty());
    assert_eq!(first.info, "server prototype");
    assert_eq!(first.version, "4.5.6, [\"http://dl/4.5.6\"]");
    assert_eq!(
        manager.get(&first.sessionid),
        Some(Session {
            requestid: first.requestid.clone(),
            possible_actions: vec![
                Action::latest,
                Action::download,
                Action::abandon,
                Action::retry
            ],
            previous_action: Action::latest,
        })
    );

    let (code, second) = download_body(parse_request(
        "GET /download HTTP/1.1\r\n",
        Body::Client(request(&first.sessionid, &first.requestid, Channel::Dev)),
        &versions,
        &mut manager,
    ));
    assert_eq!(code, 200);
    assert_eq!(second.status, Status::ok);
    assert_eq!(second.actions, vec![Action::abandon, Action::retry]);
    assert_eq!(second.sessionid, first.sessionid);
    assert_ne!(second.requestid, first.requestid);
    assert!(!second.requestid.is_empty());
    assert_eq!(second.downloadlink, "http://dl/4.5.6");

    let third = parse_request(
        "POST /status HTTP/1.1\r\n",
        Body::Report(report(&second.sessionid, &second.requestid, Action::retry, 1)),
        &versions,
        &mut manager,
    );
    assert_eq!(
        third,
        Some(Reply {
            code: 200,
            payload: Payload::Report(StatusResponse {
                sessionid: second.sessionid.clone(),
                requestid: second.requestid.clone(),
                status: Status::ok,
            }),
        })
    );
    assert_eq!(manager.len(), 0);

    // the session is gone: the same tokens open nothing
    let (code, after) = download_body(parse_request(
        "GET /download HTTP/1.1\r\n",
        Body::Client(request(&second.sessionid, &second.requestid, Channel::Dev)),
        &versions,
        &mut manager,
    ));
    assert_eq!(code, 200);
    assert_eq!(after.status, Status::noupdate);
    assert_eq!(after.actions, vec![]);
    assert_eq!(after.downloadlink, "");
    assert_eq!(after.requestid, second.requestid);
    assert_eq!(manager.len(), 0);
}

#[test]
fn a_second_first_contact_with_the_same_session_fails() {
    let versions = catalog();
    let mut manager = new_session_manager();
    let (_, first) =
        latest_body(parse_request("GET /latest x", Body::Empty, &versions, &mut manager));
    let kept = manager.get(&first.sessionid);
    for requestid in ["", first.requestid.as_str(), "other"] {
        let again = parse_request(
            "GET /latest x",
            Body::Client(request(&first.sessionid, requestid, Channel::Dev)),
            &versions,
            &mut manager,
        );
        assert_eq!(again, None);
        assert_eq!(manager.len(), 1);
        assert_eq!(manager.get(&first.sessionid), kept);
    }
}

#[test]
fn the_old_request_token_is_dead_after_rotation() {
    let versions = catalog();
    let mut manager = new_session_manager();
    let (_, first) =
        latest_body(parse_request("GET /latest x", Body::Empty, &versions, &mut manager));
    let (_, second) = download_body(parse_request(
        "GET /download x",
        Body::Client(request(&first.sessionid, &first.requestid, Channel::Dev)),
        &versions,
        &mut manager,
    ));
    let kept = manager.get(&first.sessionid);
    for _ in 0..3 {
        let (code, refused) = download_body(parse_request(
            "GET /download x",
            Body::Client(request(&first.sessionid, &first.requestid, Channel::Dev)),
            &versions,
            &mut manager,
        ));
        assert_eq!((code, refused.status), (200, Status::noupdate));
        assert_eq!(refused.downloadlink, "");
        let refused = parse_request(
            "POST /status x",
            Body::Report(report(&first.sessionid, &first.requestid, Action::abandon, 1)),
            &versions,
            &mut manager,
        );
        assert_eq!(
            refused,
            Some(Reply {
                code: 401,
                payload: Payload::Report(StatusResponse {
                    sessionid: first.sessionid.clone(),
                    requestid: first.requestid.clone(),
                    status: Status::errorunsupportedprotocol,
                }),
            })
        );
        assert_eq!(manager.get(&first.sessionid), kept);
    }
    assert_eq!(kept.unwrap().requestid, second.requestid);
}
