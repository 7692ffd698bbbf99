use ferrisland::auth::AuthDecision;
use ferrisland::command::confirm_plan;
use ferrisland::handler::ConnectionHandler;
use ferrisland::relay::{
    FlushPolicy, RelayAction, RelaySession, FRAMING_ERROR_STATUS, SPAWN_FAILURE_STATUS,
};
use ferrisland::resolve::ResolverConfig;

fn bytes(s: &str) -> Vec<u8> {
    s.as_bytes().to_vec()
}

#[test]
fn advertisement_round_trip_forwards_every_byte_and_flushes_once() {
    // two pkt-lines formatted per the framing (the header counts itself),
    // then the flush marker
    let stream = bytes("0007ab\n0009hello0000");
    let mut session = RelaySession::new(FlushPolicy::AdvertisementOnly);
    let (actions, consumed) = session.on_subprocess_output(&stream);
    assert_eq!(consumed, stream.len());
    assert_eq!(
        actions,
        vec![
            RelayAction::Forward(stream.clone()),
            RelayAction::TerminateSubprocess,
            RelayAction::CloseChannel(0),
        ]
    );
    assert!(session.is_done());
    // a finished session answers every later event with nothing
    let (actions, consumed) = session.on_subprocess_output(&bytes("0000"));
    assert!(actions.is_empty());
    assert_eq!(consumed, 0);

    // the shortest data pkt-line: a header of five counts one body byte
    let stream = bytes("0005a0000");
    let mut session = RelaySession::new(FlushPolicy::AdvertisementOnly);
    let (actions, consumed) = session.on_subprocess_output(&stream);
    assert_eq!(consumed, stream.len());
    assert_eq!(
        actions,
        vec![
            RelayAction::Forward(stream),
            RelayAction::TerminateSubprocess,
            RelayAction::CloseChannel(0),
        ]
    );
}

#[test]
fn advertisement_stops_at_flush_and_keeps_order_across_chunks() {
    let mut session = RelaySession::new(FlushPolicy::AdvertisementOnly);
    // the same stream, delivered in chunks that split headers and bodies
    let chunks = ["00", "07a", "b\n00", "09hel", "lo00", "00"];
    let mut forwarded: Vec<u8> = Vec::new();
    let mut closed_with: Option<u32> = None;
    for chunk in chunks {
        let (actions, _) = session.on_subprocess_output(&bytes(chunk));
        for action in actions {
            match action {
                RelayAction::Forward(data) => forwarded.extend_from_slice(&data),
                RelayAction::CloseChannel(status) => closed_with = Some(status),
                RelayAction::TerminateSubprocess => {}
                RelayAction::SendToSubprocess(_) => panic!("nothing owed to the subprocess"),
            }
        }
    }
    assert_eq!(forwarded, bytes("0007ab\n0009hello0000"));
    assert_eq!(closed_with, Some(0));
    assert!(session.is_done());
}

#[test]
fn full_stream_keeps_relaying_past_flush_markers() {
    let mut session = RelaySession::new(FlushPolicy::FullStream);
    let stream = bytes("0007ab\n00000008pack0000");
    let (actions, consumed) = session.on_subprocess_output(&stream);
    assert_eq!(consumed, stream.len());
    assert_eq!(actions, vec![RelayAction::Forward(stream)]);
    assert!(!session.is_done());
    // the subprocess's exit status becomes the channel's exit status
    let actions = session.on_subprocess_exit(0);
    assert_eq!(actions, vec![RelayAction::CloseChannel(0)]);
    assert!(session.is_done());
}

#[test]
fn nonzero_exit_status_is_reported() {
    let mut session = RelaySession::new(FlushPolicy::FullStream);
    let actions = session.on_subprocess_exit(2);
    assert_eq!(actions, vec![RelayAction::CloseChannel(2)]);
}

#[test]
fn framing_error_tears_the_session_down() {
    // a length of three counts less than its own header: a framing error
    let mut session = RelaySession::new(FlushPolicy::AdvertisementOnly);
    let (actions, _) = session.on_subprocess_output(&bytes("0003"));
    assert_eq!(
        actions,
        vec![
            RelayAction::TerminateSubprocess,
            RelayAction::CloseChannel(FRAMING_ERROR_STATUS),
        ]
    );
    assert!(session.is_done());
    // a header that is not hex fails too
    let mut session = RelaySession::new(FlushPolicy::AdvertisementOnly);
    let (actions, _) = session.on_subprocess_output(&bytes("00zz"));
    assert_eq!(
        actions,
        vec![
            RelayAction::TerminateSubprocess,
            RelayAction::CloseChannel(FRAMING_ERROR_STATUS),
        ]
    );
}

#[test]
fn client_data_is_owed_verbatim_to_the_subprocess() {
    let mut session = RelaySession::new(FlushPolicy::FullStream);
    let actions = session.on_client_data(bytes("0032want deadbeef\n"));
    assert_eq!(actions, vec![RelayAction::SendToSubprocess(bytes("0032want deadbeef\n"))]);
    assert!(!session.is_done());
}

#[test]
fn disconnect_mid_stream_terminates_the_subprocess() {
    let mut session = RelaySession::new(FlushPolicy::AdvertisementOnly);
    // half a pkt-line has arrived when the client goes away
    let (_, consumed) = session.on_subprocess_output(&bytes("0007a"));
    assert_eq!(consumed, 5);
    let actions = session.on_client_disconnect();
    assert_eq!(actions, vec![RelayAction::TerminateSubprocess]);
    assert!(session.is_done());
    // and nothing happens twice
    assert!(session.on_client_disconnect().is_empty());
}

#[test]
fn spawn_failure_is_a_failed_command_not_a_crash() {
    let mut session = RelaySession::new(FlushPolicy::AdvertisementOnly);
    let actions = session.on_spawn_failure();
    assert_eq!(actions, vec![RelayAction::CloseChannel(SPAWN_FAILURE_STATUS)]);
    assert!(session.is_done());
}

#[test]
fn empty_chunk_yields_no_action() {
    let mut session = RelaySession::new(FlushPolicy::FullStream);
    let (actions, consumed) = session.on_subprocess_output(&Vec::new());
    assert!(actions.is_empty());
    assert_eq!(consumed, 0);
}

#[test]
fn empty_pkt_line_is_a_boundary_not_an_error() {
    // a header of exactly four counts an empty line
    let mut session = RelaySession::new(FlushPolicy::AdvertisementOnly);
    let stream = bytes("00040007ab\n0000");
    let (actions, consumed) = session.on_subprocess_output(&stream);
    assert_eq!(consumed, stream.len());
    assert_eq!(
        actions,
        vec![
            RelayAction::Forward(stream),
            RelayAction::TerminateSubprocess,
            RelayAction::CloseChannel(0),
        ]
    );
}

#[test]
fn fetch_scenario_walks_the_whole_pipeline() {
    // authenticate, route, confirm, then relay the advertisement
    let mut handler =
        ConnectionHandler::new(ResolverConfig { root: "/srv/git".to_string(), allow_push: false });
    assert_eq!(handler.auth_none("git"), AuthDecision::Accept);
    let plan = handler.exec_request("git-upload-pack repo-a").unwrap();
    assert_eq!(plan.repository.absolute_path, "/srv/git/repo-a");
    let plan = confirm_plan(plan, true).unwrap();

    // what a ref advertisement looks like on the wire: pkt-lines, flush
    let advertisement = bytes("003ddeadbeefdeadbeefdeadbeefdeadbeefdeadbeef refs/heads/main\n0000");
    let mut session = RelaySession::new(FlushPolicy::AdvertisementOnly);
    let (actions, consumed) = session.on_subprocess_output(&advertisement);
    assert_eq!(consumed, advertisement.len());
    assert_eq!(
        actions,
        vec![
            RelayAction::Forward(advertisement),
            RelayAction::TerminateSubprocess,
            RelayAction::CloseChannel(0),
        ]
    );
    let _ = plan;
}
