use discord_rich_presence::activity::{Activity, Button};
use discord_rich_presence::client::{DiscordIpcClient, State};
use discord_rich_presence::endpoint::Environment;
use discord_rich_presence::error::IpcError;
use discord_rich_presence::frame::decode_frame;

fn runtime_env() -> Environment {
    let mut env = Environment::new();
    env.set("XDG_RUNTIME_DIR", "/run/user/1000");
    env
}

/// Runs the scan as a caller would, with `listening` standing for the
/// endpoints that accept, and gives back the endpoints that were tried.
fn scan(client: &mut DiscordIpcClient, listening: &[&str]) -> (Vec<String>, Result<(), IpcError>) {
    let mut tried = Vec::new();
    while let Some(path) = client.next_endpoint() {
        tried.push(path.clone());
        if listening.contains(&path.as_str()) {
            return (tried, client.endpoint_accepted());
        }
        if let Err(e) = client.endpoint_refused() {
            return (tried, Err(e));
        }
    }
    (tried, Err(IpcError::NotConnected))
}

fn ready_client() -> DiscordIpcClient {
    let mut client = DiscordIpcClient::new("1234").unwrap();
    client.begin_connect(&runtime_env()).unwrap();
    client.endpoint_accepted().unwrap();
    client.handshake_frame().unwrap();
    client.frame_written(true).unwrap();
    client
}

#[test]
fn a_new_client_is_idle() {
    let client = DiscordIpcClient::new("1234").unwrap();
    assert_eq!(client.get_client_id(), "1234");
    assert_eq!(client.state(), State::Idle);
    assert!(!client.is_connected());
    assert_eq!(client.next_endpoint(), None);
}

#[test]
fn connecting_starts_the_scan_at_the_first_candidate() {
    let mut client = DiscordIpcClient::new("1234").unwrap();
    assert_eq!(client.begin_connect(&runtime_env()), Ok(()));
    assert_eq!(client.state(), State::Handshaking);
    assert!(!client.is_connected());
    assert_eq!(
        client.next_endpoint(),
        Some("/run/user/1000/discord-ipc-0".to_string())
    );
}

#[test]
fn the_seventh_candidate_is_used_when_only_it_listens() {
    let mut client = DiscordIpcClient::new("1234").unwrap();
    client.begin_connect(&runtime_env()).unwrap();
    let seventh = "/run/user/1000/snap.discord-canary/discord-ipc-1";
    let (tried, result) = scan(&mut client, &[seventh]);
    assert_eq!(result, Ok(()));
    assert_eq!(tried.len(), 7);
    assert_eq!(tried[6], seventh);
    assert_eq!(tried[0], "/run/user/1000/discord-ipc-0");
    assert!(client.is_connected());
    assert_eq!(client.state(), State::Handshaking);
    assert_eq!(client.next_endpoint(), None);
}

#[test]
fn the_first_of_several_listening_candidates_wins() {
    let mut client = DiscordIpcClient::new("1234").unwrap();
    client.begin_connect(&runtime_env()).unwrap();
    let (tried, result) = scan(
        &mut client,
        &[
            "/run/user/1000/snap.discord/discord-ipc-9",
            "/run/user/1000/snap.discord/discord-ipc-0",
        ],
    );
    assert_eq!(result, Ok(()));
    assert_eq!(tried.len(), 4);
    assert_eq!(tried[3], "/run/user/1000/snap.discord/discord-ipc-0");
}

#[test]
fn no_listening_candidate_is_endpoint_unreachable() {
    let mut client = DiscordIpcClient::new("1234").unwrap();
    client.begin_connect(&runtime_env()).unwrap();
    let (tried, result) = scan(&mut client, &[]);
    assert_eq!(result, Err(IpcError::EndpointUnreachable));
    assert_eq!(tried.len(), 40);
    assert!(!client.is_connected());
    assert_eq!(client.state(), State::Idle);
    assert_eq!(client.next_endpoint(), None);
    assert_eq!(client.check_connected(), Err(IpcError::NotConnected));
}

#[test]
fn connecting_can_be_tried_again_after_a_failed_scan() {
    let mut client = DiscordIpcClient::new("1234").unwrap();
    client.begin_connect(&runtime_env()).unwrap();
    assert_eq!(scan(&mut client, &[]).1, Err(IpcError::EndpointUnreachable));
    assert_eq!(client.begin_connect(&runtime_env()), Ok(()));
    let (tried, result) = scan(&mut client, &["/run/user/1000/discord-ipc-0"]);
    assert_eq!(result, Ok(()));
    assert_eq!(tried.len(), 1);
}

#[test]
fn only_an_idle_client_begins_to_connect() {
    let mut client = DiscordIpcClient::new("1234").unwrap();
    client.begin_connect(&runtime_env()).unwrap();
    assert_eq!(client.begin_connect(&runtime_env()), Err(IpcError::NotConnected));
    assert_eq!(client.state(), State::Handshaking);
    let mut ready = ready_client();
    assert_eq!(ready.begin_connect(&runtime_env()), Err(IpcError::NotConnected));
    assert_eq!(ready.state(), State::Ready);
    ready.close();
    assert_eq!(ready.begin_connect(&runtime_env()), Err(IpcError::NotConnected));
    assert_eq!(ready.state(), State::Closed);
}

#[test]
fn reports_outside_a_scan_are_refused() {
    let mut client = DiscordIpcClient::new("1234").unwrap();
    assert_eq!(client.endpoint_refused(), Err(IpcError::NotConnected));
    assert_eq!(client.endpoint_accepted(), Err(IpcError::NotConnected));
    assert_eq!(client.state(), State::Idle);
    assert!(!client.is_connected());
    let mut ready = ready_client();
    assert_eq!(ready.endpoint_refused(), Err(IpcError::NotConnected));
    assert_eq!(ready.endpoint_accepted(), Err(IpcError::NotConnected));
    assert_eq!(ready.state(), State::Ready);
    assert!(ready.is_connected());
}

#[test]
fn the_handshake_frame_is_golden() {
    let mut client = DiscordIpcClient::new("1234").unwrap();
    client.begin_connect(&runtime_env()).unwrap();
    client.endpoint_accepted().unwrap();
    let frame = client.handshake_frame().unwrap();
    let mut expected = vec![0u8, 0, 0, 0, 26, 0, 0, 0];
    expected.extend_from_slice(b"{\"client_id\":\"1234\",\"v\":1}");
    assert_eq!(frame, expected);
}

#[test]
fn the_handshake_is_due_only_once_connected() {
    let mut client = DiscordIpcClient::new("1234").unwrap();
    assert_eq!(client.handshake_frame(), Err(IpcError::NotConnected));
    client.begin_connect(&runtime_env()).unwrap();
    assert_eq!(client.handshake_frame(), Err(IpcError::NotConnected));
    client.endpoint_accepted().unwrap();
    assert!(client.handshake_frame().is_ok());
    client.frame_written(true).unwrap();
    assert_eq!(client.handshake_frame(), Err(IpcError::NotConnected));
}

#[test]
fn the_written_handshake_makes_the_client_ready() {
    let mut client = DiscordIpcClient::new("1234").unwrap();
    client.begin_connect(&runtime_env()).unwrap();
    client.endpoint_accepted().unwrap();
    assert_eq!(client.frame_written(true), Ok(()));
    assert_eq!(client.state(), State::Ready);
    assert!(client.is_connected());
    assert_eq!(client.check_connected(), Ok(()));
    assert_eq!(client.frame_written(true), Ok(()));
    assert_eq!(client.state(), State::Ready);
}

#[test]
fn handshake_then_set_activity_is_golden() {
    let mut client = DiscordIpcClient::new("1234").unwrap();
    client.begin_connect(&runtime_env()).unwrap();
    client.endpoint_accepted().unwrap();
    let mut stream = client.handshake_frame().unwrap();
    client.frame_written(true).unwrap();
    let activity = Activity::new().state("playing").details("level 1");
    stream.extend_from_slice(&client.activity_frame(4321, "nonce-1", &activity).unwrap());

    let mut expected = vec![0u8, 0, 0, 0, 26, 0, 0, 0];
    expected.extend_from_slice(b"{\"client_id\":\"1234\",\"v\":1}");
    expected.extend_from_slice(&[1, 0, 0, 0, 111, 0, 0, 0]);
    expected.extend_from_slice(
        b"{\"args\":{\"activity\":{\"details\":\"level 1\",\"state\":\"playing\"},\"pid\":4321},\
          \"cmd\":\"SET_ACTIVITY\",\"nonce\":\"nonce-1\"}",
    );
    assert_eq!(stream, expected);

    let (first, used) = decode_frame(&stream).unwrap();
    assert_eq!(first.opcode, 0);
    assert_eq!(first.payload, b"{\"client_id\":\"1234\",\"v\":1}");
    let (second, rest) = decode_frame(&stream[used..]).unwrap();
    assert_eq!(second.opcode, 1);
    assert_eq!(used + rest, stream.len());
}

#[test]
fn activities_are_sent_only_when_ready() {
    let activity = Activity::new().state("playing");
    let mut client = DiscordIpcClient::new("1234").unwrap();
    assert_eq!(client.activity_frame(1, "n", &activity), Err(IpcError::NotConnected));
    client.begin_connect(&runtime_env()).unwrap();
    assert_eq!(client.activity_frame(1, "n", &activity), Err(IpcError::NotConnected));
    client.endpoint_accepted().unwrap();
    assert_eq!(client.activity_frame(1, "n", &activity), Err(IpcError::NotConnected));
    client.frame_written(true).unwrap();
    assert!(client.activity_frame(1, "n", &activity).is_ok());
    client.close();
    assert_eq!(client.activity_frame(1, "n", &activity), Err(IpcError::NotConnected));
}

#[test]
fn an_activity_with_three_buttons_is_not_sent() {
    let client = ready_client();
    let button = || Button::new("Label", "https://example.com");
    let three = Activity::new().buttons(vec![button(), button(), button()]);
    assert_eq!(client.activity_frame(1, "n", &three), Err(IpcError::Serialization));
    let two = Activity::new().buttons(vec![button(), button()]);
    assert!(client.activity_frame(1, "n", &two).is_ok());
}

#[test]
fn a_failed_write_closes_the_session() {
    let mut client = ready_client();
    assert_eq!(client.frame_written(false), Err(IpcError::Io));
    assert_eq!(client.state(), State::Closed);
    assert!(!client.is_connected());
    assert_eq!(client.check_connected(), Err(IpcError::NotConnected));
    assert_eq!(client.frame_written(true), Err(IpcError::NotConnected));
    assert_eq!(client.state(), State::Closed);
}

#[test]
fn a_failed_handshake_write_closes_the_session() {
    let mut client = DiscordIpcClient::new("1234").unwrap();
    client.begin_connect(&runtime_env()).unwrap();
    client.endpoint_accepted().unwrap();
    assert_eq!(client.frame_written(false), Err(IpcError::Io));
    assert_eq!(client.state(), State::Closed);
    assert_eq!(client.handshake_frame(), Err(IpcError::NotConnected));
}

#[test]
fn a_write_without_a_connection_is_not_connected() {
    let mut client = DiscordIpcClient::new("1234").unwrap();
    assert_eq!(client.check_connected(), Err(IpcError::NotConnected));
    assert_eq!(client.frame_written(true), Err(IpcError::NotConnected));
    assert_eq!(client.frame_written(false), Err(IpcError::NotConnected));
    assert_eq!(client.state(), State::Idle);
}

#[test]
fn after_close_a_write_is_not_connected() {
    let mut client = ready_client();
    assert_eq!(client.check_connected(), Ok(()));
    client.close();
    assert_eq!(client.state(), State::Closed);
    assert!(!client.is_connected());
    assert_eq!(client.check_connected(), Err(IpcError::NotConnected));
    assert_eq!(client.frame_written(true), Err(IpcError::NotConnected));
}

#[test]
fn closing_a_live_connection_asks_for_the_courtesy_frame() {
    let mut client = ready_client();
    let plan = client.close();
    assert!(plan.shutdown);
    assert_eq!(plan.courtesy, Some(vec![2, 0, 0, 0, 2, 0, 0, 0, b'{', b'}']));
}

#[test]
fn closing_without_a_connection_asks_for_nothing() {
    let mut client = DiscordIpcClient::new("1234").unwrap();
    let plan = client.close();
    assert!(!plan.shutdown);
    assert_eq!(plan.courtesy, None);
    assert_eq!(client.state(), State::Closed);
}

#[test]
fn closing_twice_asks_for_nothing_the_second_time() {
    let mut client = ready_client();
    assert!(client.close().shutdown);
    let again = client.close();
    assert!(!again.shutdown);
    assert_eq!(again.courtesy, None);
    assert_eq!(client.state(), State::Closed);
}

#[test]
fn closing_during_the_scan_gives_up_the_candidates() {
    let mut client = DiscordIpcClient::new("1234").unwrap();
    client.begin_connect(&runtime_env()).unwrap();
    client.endpoint_refused().unwrap();
    let plan = client.close();
    assert!(!plan.shutdown);
    assert_eq!(client.next_endpoint(), None);
    assert_eq!(client.endpoint_accepted(), Err(IpcError::NotConnected));
    assert_eq!(client.state(), State::Closed);
}

#[test]
fn only_a_failed_flush_fails_the_close() {
    for courtesy in [false, true] {
        for shut_down in [false, true] {
            assert_eq!(DiscordIpcClient::close_outcome(courtesy, true, shut_down), Ok(()));
            assert_eq!(
                DiscordIpcClient::close_outcome(courtesy, false, shut_down),
                Err(IpcError::Io)
            );
        }
    }
}

#[test]
fn a_failed_read_closes_the_session() {
    let mut client = ready_client();
    assert_eq!(client.frame_read(true), Ok(()));
    assert_eq!(client.state(), State::Ready);
    assert!(client.is_connected());
    assert_eq!(client.frame_read(false), Err(IpcError::Io));
    assert_eq!(client.state(), State::Closed);
    assert!(!client.is_connected());
    assert_eq!(client.check_connected(), Err(IpcError::NotConnected));
    assert_eq!(client.frame_read(true), Err(IpcError::NotConnected));
    assert_eq!(client.state(), State::Closed);
}

#[test]
fn a_read_without_a_connection_is_not_connected() {
    let mut client = DiscordIpcClient::new("1234").unwrap();
    assert_eq!(client.frame_read(true), Err(IpcError::NotConnected));
    assert_eq!(client.frame_read(false), Err(IpcError::NotConnected));
    assert_eq!(client.state(), State::Idle);
    client.begin_connect(&runtime_env()).unwrap();
    assert_eq!(client.frame_read(false), Err(IpcError::NotConnected));
    assert_eq!(client.state(), State::Handshaking);
    assert_eq!(
        client.next_endpoint(),
        Some("/run/user/1000/discord-ipc-0".to_string())
    );
}

#[test]
fn a_read_does_not_make_the_client_ready() {
    let mut client = DiscordIpcClient::new("1234").unwrap();
    client.begin_connect(&runtime_env()).unwrap();
    client.endpoint_accepted().unwrap();
    assert_eq!(client.frame_read(true), Ok(()));
    assert_eq!(client.state(), State::Handshaking);
}

#[test]
fn every_frame_of_a_session_is_owed() {
    let mut client = DiscordIpcClient::new("1234").unwrap();
    client.begin_connect(&runtime_env()).unwrap();
    client.endpoint_accepted().unwrap();
    assert!(client.handshake_frame().is_ok());
    client.frame_written(true).unwrap();
    let activity = Activity::new().state(&"s".repeat(10_000));
    let frame = client.activity_frame(1, "n", &activity).unwrap();
    assert_eq!(frame[0..4], [1, 0, 0, 0]);
    assert_eq!(
        u32::from_le_bytes([frame[4], frame[5], frame[6], frame[7]]) as usize,
        frame.len() - 8
    );
    let plan = client.close();
    assert_eq!(plan.courtesy, Some(vec![2, 0, 0, 0, 2, 0, 0, 0, 123, 125]));
    assert!(plan.shutdown);
}
