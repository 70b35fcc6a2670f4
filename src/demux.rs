//! The transport session's messages and decisions: outer request ids, the
//! requests and pushes the client sends, what a reply means, and what to do
//! with each frame while a virtual connection waits for its data.

use vstd::prelude::*;

use crate::error::AuthError;
use crate::framing::{frame_of, inner_result, unwrap_inner, wrap_inner, wrap_result};

verus! {

/// A data message of a virtual connection: the connection's handle and an
/// inner frame.
#[derive(Clone, Debug)]
pub struct DataMessage {
    pub connection_id: u32,
    pub data: Vec<u8>,
}

/// What a client request asks of the transport server.
#[derive(Clone, Debug)]
pub enum RequestBody {
    /// Ask for the latest client version of a patch track.
    GetPatchInfo { patch_track_id: String, test_config: bool, track_type: u32 },
    /// Authenticate the session with an identity ticket.
    Authenticate { ticket: String, send_keep_alive: bool, client_id: String },
    /// Open a virtual connection to a named service.
    OpenConnection { service_name: String },
}

/// A client request with its outer request id.
#[derive(Clone, Debug)]
pub struct Request {
    pub request_id: u32,
    pub body: RequestBody,
}

/// A push that the client sends; no reply is awaited.
#[derive(Clone, Debug)]
pub enum ClientPush {
    ClientVersion(u32),
    KeepAlive,
    Data(DataMessage),
}

/// One outer message from client to server: a request or a push.
#[derive(Clone, Debug)]
pub enum Upstream {
    Request(Request),
    Push(ClientPush),
}

/// The server's answer to an open-connection request.
#[derive(Clone, Copy, Debug)]
pub struct OpenConnectionRsp {
    pub success: bool,
    pub connection_id: u32,
}

/// The parts of a server reply that the client reads.
#[derive(Clone, Debug)]
pub struct Response {
    pub authenticate_success: Option<bool>,
    pub open_connection: Option<OpenConnectionRsp>,
    pub latest_version: Option<u32>,
}

/// The parts of a server push that the client reads.
#[derive(Clone, Debug)]
pub struct ServerPush {
    pub data: Option<DataMessage>,
    pub connection_closed: bool,
    pub keep_alive: bool,
    pub client_outdated: bool,
}

/// One outer message from server to client.
#[derive(Clone, Debug)]
pub struct Downstream {
    pub response: Option<Response>,
    pub push: Option<ServerPush>,
}

/// Client id that the session announces when it authenticates.
pub open spec fn client_id_text() -> Seq<char> {
    "uplay_pc"@
}

/// Patch track whose latest version the client asks for.
pub open spec fn patch_track_text() -> Seq<char> {
    "DEFAULT"@
}

/// `u` asks for the latest version, under request id `id`.
pub open spec fn is_patch_info_request(u: Upstream, id: u32) -> bool {
    match u {
        Upstream::Request(q) => q.request_id == id && match q.body {
            RequestBody::GetPatchInfo { patch_track_id, test_config, track_type } => {
                patch_track_id@ == patch_track_text() && !test_config && track_type == 0
            },
            _ => false,
        },
        _ => false,
    }
}

/// `u` authenticates with `ticket`, under request id `id`.
pub open spec fn is_authenticate_request(
    u: Upstream,
    id: u32,
    ticket: Seq<char>,
    keep_alive: bool,
) -> bool {
    match u {
        Upstream::Request(q) => q.request_id == id && match q.body {
            RequestBody::Authenticate { ticket: t, send_keep_alive, client_id } => {
                t@ == ticket && send_keep_alive == keep_alive && client_id@ == client_id_text()
            },
            _ => false,
        },
        _ => false,
    }
}

/// `u` opens a connection to `service`, under request id `id`.
pub open spec fn is_open_connection_request(u: Upstream, id: u32, service: Seq<char>) -> bool {
    match u {
        Upstream::Request(q) => q.request_id == id && match q.body {
            RequestBody::OpenConnection { service_name } => service_name@ == service,
            _ => false,
        },
        _ => false,
    }
}

/// `u` is a data push to connection `c` whose data is the inner frame of
/// `message`.
pub open spec fn is_data_push(u: Upstream, c: u32, message: Seq<u8>) -> bool {
    match u {
        Upstream::Push(ClientPush::Data(m)) => m.connection_id == c && m.data@ == frame_of(
            message,
        ),
        _ => false,
    }
}

/// The outer request counter of a transport session.
#[derive(Clone, Copy, Debug)]
pub struct DemuxState {
    /// The id that the next request takes; the first is 1.
    pub next_id: u32,
}

impl DemuxState {
    /// A fresh session's counter.
    pub fn new() -> (r: DemuxState)
        ensures
            r.next_id == 1,
    {
        DemuxState { next_id: 1 }
    }

    /// Takes the next outer request id.
    pub fn next_request_id(&mut self) -> (r: u32)
        requires
            old(self).next_id < u32::MAX,
        ensures
            r == old(self).next_id,
            final(self).next_id == old(self).next_id + 1,
    {
        let id = self.next_id;
        self.next_id = id + 1;
        id
    }

    /// The request for the latest client version.
    pub fn latest_version_request(&mut self) -> (r: Upstream)
        requires
            old(self).next_id < u32::MAX,
        ensures
            final(self).next_id == old(self).next_id + 1,
            is_patch_info_request(r, old(self).next_id),
    {
        let id = self.next_request_id();
        Upstream::Request(
            Request {
                request_id: id,
                body: RequestBody::GetPatchInfo {
                    patch_track_id: "DEFAULT".to_string(),
                    test_config: false,
                    track_type: 0,
                },
            },
        )
    }

    /// The request that authenticates the session with `ticket`.
    pub fn authenticate_request(&mut self, ticket: &str, keep_alive: bool) -> (r: Upstream)
        requires
            old(self).next_id < u32::MAX,
        ensures
            final(self).next_id == old(self).next_id + 1,
            is_authenticate_request(r, old(self).next_id, ticket@, keep_alive),
    {
        let id = self.next_request_id();
        Upstream::Request(
            Request {
                request_id: id,
                body: RequestBody::Authenticate {
                    ticket: ticket.to_string(),
                    send_keep_alive: keep_alive,
                    client_id: "uplay_pc".to_string(),
                },
            },
        )
    }

    /// The request that opens a virtual connection to `service_name`.
    pub fn open_connection_request(&mut self, service_name: &str) -> (r: Upstream)
        requires
            old(self).next_id < u32::MAX,
        ensures
            final(self).next_id == old(self).next_id + 1,
            is_open_connection_request(r, old(self).next_id, service_name@),
    {
        let id = self.next_request_id();
        Upstream::Request(
            Request {
                request_id: id,
                body: RequestBody::OpenConnection { service_name: service_name.to_string() },
            },
        )
    }
}

/// The push that announces the client's version.
pub fn version_push(version: u32) -> (r: Upstream)
    ensures
        r == Upstream::Push(ClientPush::ClientVersion(version)),
{
    Upstream::Push(ClientPush::ClientVersion(version))
}

/// The push that acknowledges a keep-alive.
pub fn keep_alive_push() -> (r: Upstream)
    ensures
        r == Upstream::Push(ClientPush::KeepAlive),
{
    Upstream::Push(ClientPush::KeepAlive)
}

/// The data push that carries `message` to connection `connection_id`,
/// inside an inner frame.
pub fn service_data_push(connection_id: u32, message: &[u8]) -> (r: Result<Upstream, AuthError>)
    ensures
        wrap_result(message@) matches Err(e) ==> r == Err::<Upstream, AuthError>(
            AuthError::ProtocolViolation(e),
        ),
        wrap_result(message@) is Ok ==> (r matches Ok(u) && is_data_push(
            u,
            connection_id,
            message@,
        )),
{
    match wrap_inner(message) {
        Err(e) => Err(AuthError::ProtocolViolation(e)),
        Ok(data) => Ok(Upstream::Push(ClientPush::Data(DataMessage { connection_id, data }))),
    }
}

/// What a reply to the version request gives.
pub open spec fn latest_version_result(d: Downstream) -> Result<u32, AuthError> {
    match d.response {
        Some(rsp) => match rsp.latest_version {
            Some(v) => Ok(v),
            None => Err(AuthError::UnexpectedResponse),
        },
        None => Err(AuthError::UnexpectedResponse),
    }
}

/// What a reply to the authenticate request gives: the server's flag.
pub open spec fn authenticate_reply_result(d: Downstream) -> Result<bool, AuthError> {
    match d.response {
        Some(rsp) => match rsp.authenticate_success {
            Some(ok) => Ok(ok),
            None => Err(AuthError::UnexpectedResponse),
        },
        None => Err(AuthError::UnexpectedResponse),
    }
}

/// What a reply to the open-connection request gives: the handle, or a
/// refusal that is told apart from a reply of the wrong kind.
pub open spec fn open_connection_result(d: Downstream) -> Result<u32, AuthError> {
    match d.response {
        Some(rsp) => match rsp.open_connection {
            Some(o) => if o.success {
                Ok(o.connection_id)
            } else {
                Err(AuthError::ConnectionRefused)
            },
            None => Err(AuthError::UnexpectedResponse),
        },
        None => Err(AuthError::UnexpectedResponse),
    }
}

/// Reads the latest version out of a reply.
pub fn latest_version_of(d: &Downstream) -> (r: Result<u32, AuthError>)
    ensures
        r == latest_version_result(*d),
{
    match &d.response {
        Some(rsp) => match rsp.latest_version {
            Some(v) => Ok(v),
            None => Err(AuthError::UnexpectedResponse),
        },
        None => Err(AuthError::UnexpectedResponse),
    }
}

/// Reads the authentication flag out of a reply. A `false` flag is a
/// result, not an error: the caller decides.
pub fn authenticate_reply(d: &Downstream) -> (r: Result<bool, AuthError>)
    ensures
        r == authenticate_reply_result(*d),
{
    match &d.response {
        Some(rsp) => match rsp.authenticate_success {
            Some(ok) => Ok(ok),
            None => Err(AuthError::UnexpectedResponse),
        },
        None => Err(AuthError::UnexpectedResponse),
    }
}

/// Reads the new connection's handle out of a reply.
pub fn opened_connection(d: &Downstream) -> (r: Result<u32, AuthError>)
    ensures
        r == open_connection_result(*d),
{
    match &d.response {
        Some(rsp) => match rsp.open_connection {
            Some(o) => if o.success {
                Ok(o.connection_id)
            } else {
                Err(AuthError::ConnectionRefused)
            },
            None => Err(AuthError::UnexpectedResponse),
        },
        None => Err(AuthError::UnexpectedResponse),
    }
}

/// What to do with a frame that arrives while waiting for data.
#[derive(Clone, Debug)]
pub enum WaitAction {
    /// Send a keep-alive acknowledgement and keep waiting.
    AckKeepAlive,
    /// The wait is over: here is the service's message.
    Deliver(Vec<u8>),
    /// Not for this wait: keep waiting.
    Skip,
    /// The wait is over and has failed.
    Fail(AuthError),
}

/// `r` is the right answer to frame `d` while waiting for data on
/// connection `c`. A closed connection and an outdated client end every
/// wait; a keep-alive is acknowledged; data for `c` ends the wait with the
/// message of its inner frame; anything else is passed over.
pub open spec fn wait_action_ok(c: u32, d: Downstream, r: WaitAction) -> bool {
    match d.push {
        None => r is Skip,
        Some(p) => if p.connection_closed {
            r == WaitAction::Fail(AuthError::ConnectionClosed)
        } else if p.client_outdated {
            r == WaitAction::Fail(AuthError::ClientOutdated)
        } else if p.keep_alive {
            r is AckKeepAlive
        } else {
            match p.data {
                Some(m) => if m.connection_id == c {
                    match inner_result(m.data@) {
                        Ok(msg) => (r matches WaitAction::Deliver(v) && v@ == msg),
                        Err(e) => r == WaitAction::Fail(AuthError::ProtocolViolation(e)),
                    }
                } else {
                    r is Skip
                },
                None => r is Skip,
            }
        },
    }
}

/// Decides what to do with frame `d` while waiting for data on connection
/// `connection_id`.
pub fn wait_step(connection_id: u32, d: &Downstream) -> (r: WaitAction)
    ensures
        wait_action_ok(connection_id, *d, r),
{
    match &d.push {
        None => WaitAction::Skip,
        Some(p) => {
            if p.connection_closed {
                WaitAction::Fail(AuthError::ConnectionClosed)
            } else if p.client_outdated {
                WaitAction::Fail(AuthError::ClientOutdated)
            } else if p.keep_alive {
                WaitAction::AckKeepAlive
            } else {
                match &p.data {
                    Some(m) => {
                        if m.connection_id == connection_id {
                            match unwrap_inner(m.data.as_slice()) {
                                Ok(v) => WaitAction::Deliver(v),
                                Err(e) => WaitAction::Fail(AuthError::ProtocolViolation(e)),
                            }
                        } else {
                            WaitAction::Skip
                        }
                    },
                    None => WaitAction::Skip,
                }
            }
        },
    }
}

/// One wait for data on a virtual connection, with the number of keep-alive
/// acknowledgements it has asked for.
#[derive(Clone, Copy, Debug)]
pub struct DataWait {
    pub connection_id: u32,
    pub acks_sent: u64,
}

/// The effect of one frame on a wait: `after` and `r` follow from `before`
/// and `d`.
pub open spec fn wait_transition(before: DataWait, d: Downstream, after: DataWait, r: WaitAction) -> bool {
    &&& after.connection_id == before.connection_id
    &&& wait_action_ok(before.connection_id, d, r)
    &&& after.acks_sent == before.acks_sent + if r is AckKeepAlive { 1int } else { 0int }
}

impl DataWait {
    /// A wait for data on `connection_id` that has acknowledged nothing yet.
    pub fn new(connection_id: u32) -> (r: DataWait)
        ensures
            r.connection_id == connection_id,
            r.acks_sent == 0,
    {
        DataWait { connection_id, acks_sent: 0 }
    }

    /// Takes one frame; the caller sends an acknowledgement when told to.
    pub fn on_downstream(&mut self, d: &Downstream) -> (r: WaitAction)
        requires
            old(self).acks_sent < u64::MAX,
        ensures
            wait_transition(*old(self), *d, *final(self), r),
    {
        let r = wait_step(self.connection_id, d);
        if let WaitAction::AckKeepAlive = r {
            self.acks_sent = self.acks_sent + 1;
        }
        r
    }
}

/// `d` is a push that only asks for a keep-alive acknowledgement.
pub open spec fn is_keep_alive_only(d: Downstream) -> bool {
    d.push matches Some(p) && p.keep_alive && !p.connection_closed && !p.client_outdated
}

/// `d` is a plain data push to connection `c` carrying `message` in an inner
/// frame.
pub open spec fn is_data_for(d: Downstream, c: u32, message: Seq<u8>) -> bool {
    &&& d.push matches Some(p)
    &&& !p.keep_alive && !p.connection_closed && !p.client_outdated
    &&& p.data matches Some(m)
    &&& m.connection_id == c
    &&& m.data@ == frame_of(message)
}

/// While a wait is on, a keep-alive followed by a data push for the awaited
/// connection yields the data's message, after exactly one acknowledgement.
pub proof fn lemma_keep_alive_transparent(
    w0: DataWait,
    keep_alive: Downstream,
    w1: DataWait,
    a1: WaitAction,
    data: Downstream,
    w2: DataWait,
    a2: WaitAction,
    message: Seq<u8>,
)
    requires
        message.len() <= u32::MAX,
        is_keep_alive_only(keep_alive),
        is_data_for(data, w0.connection_id, message),
        wait_transition(w0, keep_alive, w1, a1),
        wait_transition(w1, data, w2, a2),
    ensures
        a1 is AckKeepAlive,
        a2 matches WaitAction::Deliver(v) && v@ == message,
        w2.acks_sent == w0.acks_sent + 1,
{
    let f = frame_of(message);
    crate::framing::lemma_be_round_trip(message.len() as u32);
    assert(f.subrange(4, 4 + message.len() as int) =~= message);
}

/// A closed connection ends every wait with a failure, whatever connection
/// is awaited and whatever else the push carries.
pub proof fn lemma_connection_closed_ends_wait(c: u32, d: Downstream, r: WaitAction)
    requires
        d.push matches Some(p) && p.connection_closed,
        wait_action_ok(c, d, r),
    ensures
        r == WaitAction::Fail(AuthError::ConnectionClosed),
{
}

} // verus!
