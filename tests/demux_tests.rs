use uplay_auth::demux::{
    authenticate_reply, keep_alive_push, latest_version_of, opened_connection,
    service_data_push, version_push, wait_step, ClientPush, DataMessage, DataWait, DemuxState,
    Downstream, OpenConnectionRsp, RequestBody, Response, ServerPush, Upstream, WaitAction,
};
use uplay_auth::error::AuthError;
use uplay_auth::framing::FrameError;

fn push(data: Option<DataMessage>, closed: bool, keep_alive: bool, outdated: bool) -> Downstream {
    Downstream {
        response: None,
        push: Some(ServerPush { data, connection_closed: closed, keep_alive, client_outdated: outdated }),
    }
}

fn data_for(connection_id: u32, data: Vec<u8>) -> Downstream {
    push(Some(DataMessage { connection_id, data }), false, false, false)
}

fn reply(r: Response) -> Downstream {
    Downstream { response: Some(r), push: None }
}

fn empty_response() -> Response {
    Response { authenticate_success: None, open_connection: None, latest_version: None }
}

#[test]
fn request_ids_count_from_one() {
    let mut s = DemuxState::new();
    assert_eq!(s.next_request_id(), 1);
    assert_eq!(s.next_request_id(), 2);
    match s.authenticate_request("tkt", true) {
        Upstream::Request(q) => {
            assert_eq!(q.request_id, 3);
            match q.body {
                RequestBody::Authenticate { ticket, send_keep_alive, client_id } => {
                    assert_eq!(ticket, "tkt");
                    assert!(send_keep_alive);
                    assert_eq!(client_id, "uplay_pc");
                }
                _ => panic!("wrong body"),
            }
        }
        _ => panic!("not a request"),
    }
    assert_eq!(s.next_id, 4);
}

#[test]
fn version_and_open_requests() {
    let mut s = DemuxState::new();
    match s.latest_version_request() {
        Upstream::Request(q) => match q.body {
            RequestBody::GetPatchInfo { patch_track_id, test_config, track_type } => {
                assert_eq!(q.request_id, 1);
                assert_eq!(patch_track_id, "DEFAULT");
                assert!(!test_config);
                assert_eq!(track_type, 0);
            }
            _ => panic!("wrong body"),
        },
        _ => panic!("not a request"),
    }
    match s.open_connection_request("ownership_service") {
        Upstream::Request(q) => match q.body {
            RequestBody::OpenConnection { service_name } => {
                assert_eq!(q.request_id, 2);
                assert_eq!(service_name, "ownership_service");
            }
            _ => panic!("wrong body"),
        },
        _ => panic!("not a request"),
    }
    assert!(matches!(version_push(42), Upstream::Push(ClientPush::ClientVersion(42))));
    assert!(matches!(keep_alive_push(), Upstream::Push(ClientPush::KeepAlive)));
}

#[test]
fn data_push_carries_inner_frame() {
    match service_data_push(9, &[1, 2, 3]).unwrap() {
        Upstream::Push(ClientPush::Data(m)) => {
            assert_eq!(m.connection_id, 9);
            assert_eq!(m.data, vec![0, 0, 0, 3, 1, 2, 3]);
        }
        _ => panic!("not a data push"),
    }
}

#[test]
fn replies_are_read() {
    let mut r = empty_response();
    r.latest_version = Some(11);
    r.authenticate_success = Some(false);
    let d = reply(r);
    assert_eq!(latest_version_of(&d), Ok(11));
    assert_eq!(authenticate_reply(&d), Ok(false));
    assert_eq!(opened_connection(&d), Err(AuthError::UnexpectedResponse));
    let mut r = empty_response();
    r.open_connection = Some(OpenConnectionRsp { success: true, connection_id: 77 });
    assert_eq!(opened_connection(&reply(r)), Ok(77));
    let mut r = empty_response();
    r.open_connection = Some(OpenConnectionRsp { success: false, connection_id: 77 });
    assert_eq!(opened_connection(&reply(r)), Err(AuthError::ConnectionRefused));
    let none = Downstream { response: None, push: None };
    assert_eq!(latest_version_of(&none), Err(AuthError::UnexpectedResponse));
    assert_eq!(authenticate_reply(&none), Err(AuthError::UnexpectedResponse));
}

#[test]
fn keep_alive_then_data_is_delivered_after_one_ack() {
    let mut w = DataWait::new(5);
    let a1 = w.on_downstream(&push(None, false, true, false));
    assert!(matches!(a1, WaitAction::AckKeepAlive));
    assert_eq!(w.acks_sent, 1);
    let a2 = w.on_downstream(&data_for(5, vec![0, 0, 0, 2, 0x10, 0x20]));
    match a2 {
        WaitAction::Deliver(v) => assert_eq!(v, vec![0x10, 0x20]),
        other => panic!("unexpected {:?}", other),
    }
    assert_eq!(w.acks_sent, 1);
}

#[test]
fn data_for_other_connection_is_skipped() {
    assert!(matches!(wait_step(5, &data_for(6, vec![0, 0, 0, 0])), WaitAction::Skip));
    assert!(matches!(wait_step(5, &reply(empty_response())), WaitAction::Skip));
    assert!(matches!(wait_step(5, &push(None, false, false, false)), WaitAction::Skip));
}

#[test]
fn connection_closed_ends_wait() {
    assert!(matches!(
        wait_step(5, &push(None, true, false, false)),
        WaitAction::Fail(AuthError::ConnectionClosed)
    ));
    let d = push(Some(DataMessage { connection_id: 5, data: vec![0, 0, 0, 0] }), true, true, false);
    assert!(matches!(wait_step(5, &d), WaitAction::Fail(AuthError::ConnectionClosed)));
}

#[test]
fn client_outdated_ends_wait() {
    assert!(matches!(
        wait_step(1, &push(None, false, false, true)),
        WaitAction::Fail(AuthError::ClientOutdated)
    ));
}

#[test]
fn truncated_service_data_fails_wait() {
    assert!(matches!(
        wait_step(5, &data_for(5, vec![0, 0, 0, 9, 1])),
        WaitAction::Fail(AuthError::ProtocolViolation(FrameError::Truncated))
    ));
    assert!(matches!(
        wait_step(5, &data_for(5, vec![0, 0])),
        WaitAction::Fail(AuthError::ProtocolViolation(FrameError::Truncated))
    ));
}
