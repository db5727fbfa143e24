//! The vocabulary of the negotiation protocol: release channels, actions,
//! statuses and the decoded client messages.

use vstd::prelude::*;
use vstd::string::StringExecFns;

verus! {

/// A release track; it selects the slice of the version catalog that a
/// request may see.
#[derive(Clone, Copy, Debug, PartialEq, Eq, Structural)]
pub enum Channel {
    Stable,
    Beta,
    Dev,
    Canary,
    Extended,
}

/// The name of a channel as it is written out.
pub open spec fn channel_name(channel: Channel) -> Seq<char> {
    match channel {
        Channel::Stable => "Stable"@,
        Channel::Beta => "Beta"@,
        Channel::Dev => "Dev"@,
        Channel::Canary => "Canary"@,
        Channel::Extended => "Extended"@,
    }
}

impl Channel {
    /// The channel's name as text.
    pub fn to_string(&self) -> (name: String)
        ensures
            name@ == channel_name(*self),
    {
        let channel_string = match self {
            Channel::Stable => "Stable",
            Channel::Beta => "Beta",
            Channel::Dev => "Dev",
            Channel::Canary => "Canary",
            Channel::Extended => "Extended",
        };
        String::from_str(channel_string)
    }
}

/// A phase of the update and, at the same time, what a client may report
/// or ask for next.
#[allow(non_camel_case_types)]
#[derive(Clone, Copy, Debug, PartialEq, Eq, Structural)]
pub enum Action {
    /// Download after verification.
    download,
    /// No more responses.
    abandon,
    /// Try again after a failure.
    retry,
    /// Ask for the latest version.
    latest,
    /// The update is installed.
    complete,
}

/// The outcome that a reply reports. It decides the HTTP status code and
/// the actions that the reply permits.
#[allow(non_camel_case_types)]
#[derive(Clone, Copy, Debug, PartialEq, Eq, Structural)]
pub enum Status {
    ok,
    noupdate,
    errorinternal,
    errorhash,
    errorosnotsupported,
    errorhwnotsupported,
    errorunsupportedprotocol,
    updatecomplete,
    updateabandoned,
}

/// What the client was doing when it reports.
#[derive(Clone, Copy, Debug, PartialEq, Eq, Structural)]
pub enum EventType {
    Install,
    Update,
    Uninstall,
    Download,
    Complete,
    /// No event is reported.
    Idle,
}

/// Hardware capabilities of the client; `-1` stands for unknown.
#[derive(Clone, Copy, Debug, PartialEq, Eq, Structural)]
pub struct Hardware {
    pub sse: i32,
    pub sse2: i32,
    pub sse41: i32,
    pub sse42: i32,
    pub sse3: i32,
    pub avx: i32,
    /// Physical memory available to the client.
    pub physmemory: i32,
}

/// The client's operating system.
#[derive(Clone, Debug, PartialEq, Eq)]
pub struct OperatingSystem {
    pub platform: String,
    /// Service pack.
    pub sp: String,
    pub arch: String,
    /// Used to count each user once.
    pub dedup: String,
}

/// A decoded client message. An empty `sessionid` or `requestid` means that
/// the client has none yet.
#[derive(Clone, Debug, PartialEq, Eq)]
pub struct Request {
    /// The client software.
    pub updater: String,
    pub acceptformat: String,
    pub hw: Hardware,
    /// Whether the updater serves the whole machine or a single user.
    pub ismachine: i32,
    pub os: OperatingSystem,
    /// The protocol version, a 32-bit float carried as its bit pattern; the
    /// engine never reads it.
    pub protocol: u32,
    pub requestid: String,
    pub sessionid: String,
    pub channel: Channel,
    /// The updater's version, a 32-bit float carried as its bit pattern.
    pub updaterversion: u32,
}

/// What the engine reads of a request: the two tokens and the channel.
pub ghost struct RequestView {
    pub sessionid: Seq<char>,
    pub requestid: Seq<char>,
    pub channel: Channel,
}

impl View for Request {
    type V = RequestView;

    open spec fn view(&self) -> RequestView {
        RequestView {
            sessionid: self.sessionid@,
            requestid: self.requestid@,
            channel: self.channel,
        }
    }
}

/// The bit pattern of the float `1.0`, the protocol version that a request
/// without a body is taken to speak.
pub const PROTOCOL_ONE: u32 = 0x3f80_0000;

/// The message of a client's report on how an action went.
#[derive(Clone, Debug, PartialEq, Eq)]
pub struct StatusRequest {
    pub request: Request,
    pub eventtype: EventType,
    pub action: Action,
    /// `0` for an error, `1` for success, `2` for a cancelled action.
    pub result: i32,
}

/// What the engine reads of a report: of its request, and the reported
/// action and result.
pub ghost struct StatusRequestView {
    pub request: RequestView,
    pub action: Action,
    pub result: i32,
}

impl View for StatusRequest {
    type V = StatusRequestView;

    open spec fn view(&self) -> StatusRequestView {
        StatusRequestView { request: self.request@, action: self.action, result: self.result }
    }
}

/// What the engine reads of the request that stands in for a missing body.
pub open spec fn default_request_view() -> RequestView {
    RequestView {
        sessionid: Seq::<char>::empty(),
        requestid: Seq::<char>::empty(),
        channel: Channel::Dev,
    }
}

/// What the engine reads of the report that stands in for a missing body.
pub open spec fn default_status_request_view() -> StatusRequestView {
    StatusRequestView { request: default_request_view(), action: Action::retry, result: 1 }
}

/// Whether `request` is the request that stands in for a missing body:
/// nothing known of the client, no identifiers, the `Dev` channel.
pub open spec fn is_default_request(request: Request) -> bool {
    &&& request.updater@ == Seq::<char>::empty()
    &&& request.acceptformat@ == Seq::<char>::empty()
    &&& request.hw.sse == -1
    &&& request.hw.sse2 == -1
    &&& request.hw.sse41 == -1
    &&& request.hw.sse42 == -1
    &&& request.hw.sse3 == -1
    &&& request.hw.avx == -1
    &&& request.hw.physmemory == -1
    &&& request.ismachine == 0
    &&& request.os.platform@ == Seq::<char>::empty()
    &&& request.os.sp@ == Seq::<char>::empty()
    &&& request.os.arch@ == Seq::<char>::empty()
    &&& request.os.dedup@ == Seq::<char>::empty()
    &&& request.protocol == PROTOCOL_ONE
    &&& request.requestid@ == Seq::<char>::empty()
    &&& request.sessionid@ == Seq::<char>::empty()
    &&& request.channel == Channel::Dev
    &&& request.updaterversion == 0
}

/// The request that stands in for a missing body.
pub fn default_request() -> (request: Request)
    ensures
        is_default_request(request),
        request@ == default_request_view(),
{
    Request {
        updater: String::new(),
        acceptformat: String::new(),
        hw: Hardware { sse: -1, sse2: -1, sse41: -1, sse42: -1, sse3: -1, avx: -1, physmemory: -1 },
        ismachine: 0,
        os: OperatingSystem {
            platform: String::new(),
            sp: String::new(),
            arch: String::new(),
            dedup: String::new(),
        },
        protocol: PROTOCOL_ONE,
        requestid: String::new(),
        sessionid: String::new(),
        channel: Channel::Dev,
        updaterversion: 0,
    }
}

/// Whether `report` is the report that stands in for a missing body: the
/// default request, no event, a `retry` that succeeded.
pub open spec fn is_default_status_request(report: StatusRequest) -> bool {
    &&& is_default_request(report.request)
    &&& report.eventtype == EventType::Idle
    &&& report.action == Action::retry
    &&& report.result == 1
}

/// The report that stands in for a missing body.
pub fn default_status_request() -> (report: StatusRequest)
    ensures
        is_default_status_request(report),
        report@ == default_status_request_view(),
{
    StatusRequest {
        request: default_request(),
        eventtype: EventType::Idle,
        action: Action::retry,
        result: 1,
    }
}

} // verus!
