use netpong::game::GameState;
use netpong::game::LocalInput;
use netpong::game::PADDLE_SPEED;
use netpong::protocol::PaddleCommand;
use netpong::protocol::decode_datagram;
use netpong::protocol::encode_command;
use netpong::session::HostAction;
use netpong::session::HostEvent;
use netpong::session::HostPhase;
use netpong::session::JoinerAction;
use netpong::session::JoinerEvent;
use netpong::session::JoinerPhase;
use netpong::session::Role;
use netpong::session::Session;
use netpong::session::TICK_NANOS;
use netpong::session::ack_payload;
use netpong::session::host_step;
use netpong::session::is_valid_ack;
use netpong::session::joiner_step;
use netpong::session::pace_delay;
use netpong::session::role_for_address;
use netpong::session::udp_target;

#[test]
fn ack_payload_is_exactly_ack() {
    assert_eq!(ack_payload(), b"ack".to_vec());
}

#[test]
fn ack_verification_accepts_only_the_exact_bytes() {
    assert!(is_valid_ack(b"ack"));
    assert!(!is_valid_ack(b"ACK"));
    assert!(!is_valid_ack(b"ac"));
    assert!(!is_valid_ack(b"ackk"));
    assert!(!is_valid_ack(b""));
    assert!(!is_valid_ack(b"nak"));
}

#[test]
fn empty_address_hosts_nonempty_address_joins() {
    assert_eq!(role_for_address(""), Role::Host);
    assert_eq!(role_for_address("127.0.0.1:4595"), Role::Joiner);
}

#[test]
fn session_keeps_its_fields() {
    let s = Session::new(
        String::from("127.0.0.1:4595"),
        String::from("10.0.0.2:4595"),
        Role::Host,
    );
    assert_eq!(s.local_addr, "127.0.0.1:4595");
    assert_eq!(s.peer_addr, "10.0.0.2:4595");
    assert_eq!(s.role, Role::Host);
}

#[test]
fn joiner_retries_forever_on_dial_failure() {
    let (phase, action) = joiner_step(JoinerPhase::Dialing, JoinerEvent::DialErr);
    assert_eq!(phase, JoinerPhase::Dialing);
    assert_eq!(action, JoinerAction::WaitAndRedial);
    // Still dialing after any number of failures.
    let (phase, action) = joiner_step(phase, JoinerEvent::DialErr);
    assert_eq!(phase, JoinerPhase::Dialing);
    assert_eq!(action, JoinerAction::WaitAndRedial);
}

#[test]
fn joiner_reads_ack_after_connecting() {
    let (phase, action) = joiner_step(JoinerPhase::Dialing, JoinerEvent::DialOk);
    assert_eq!(phase, JoinerPhase::AwaitingAck);
    assert_eq!(action, JoinerAction::ReadAck);
}

#[test]
fn joiner_begins_on_valid_ack() {
    let (phase, action) = joiner_step(
        JoinerPhase::AwaitingAck,
        JoinerEvent::AckRead(b"ack".to_vec()),
    );
    assert_eq!(phase, JoinerPhase::Established);
    assert_eq!(action, JoinerAction::Begin);
}

#[test]
fn joiner_aborts_on_malformed_ack() {
    let (phase, action) = joiner_step(
        JoinerPhase::AwaitingAck,
        JoinerEvent::AckRead(b"nak".to_vec()),
    );
    assert_eq!(phase, JoinerPhase::Failed);
    assert_eq!(action, JoinerAction::Abort);
}

#[test]
fn joiner_aborts_on_read_error() {
    let (phase, action) = joiner_step(JoinerPhase::AwaitingAck, JoinerEvent::AckReadErr);
    assert_eq!(phase, JoinerPhase::Failed);
    assert_eq!(action, JoinerAction::Abort);
}

#[test]
fn joiner_ignores_events_outside_their_phase() {
    let (phase, action) = joiner_step(JoinerPhase::Established, JoinerEvent::DialErr);
    assert_eq!(phase, JoinerPhase::Established);
    assert_eq!(action, JoinerAction::Ignore);
}

#[test]
fn host_accepts_after_binding() {
    let (phase, action) = host_step(HostPhase::Binding, HostEvent::BindOk);
    assert_eq!(phase, HostPhase::Accepting);
    assert_eq!(action, HostAction::AwaitConnection);
}

#[test]
fn host_bind_failure_is_fatal() {
    let (phase, action) = host_step(HostPhase::Binding, HostEvent::BindErr);
    assert_eq!(phase, HostPhase::Failed);
    assert_eq!(action, HostAction::Abort);
}

#[test]
fn host_sends_ack_once_a_peer_connects() {
    let (phase, action) = host_step(HostPhase::Accepting, HostEvent::Accepted);
    assert_eq!(phase, HostPhase::Established);
    assert_eq!(action, HostAction::SendAckAndBegin);
}

#[test]
fn host_accept_failure_is_fatal() {
    let (phase, action) = host_step(HostPhase::Accepting, HostEvent::AcceptErr);
    assert_eq!(phase, HostPhase::Failed);
    assert_eq!(action, HostAction::Abort);
}

#[test]
fn udp_target_replaces_the_ephemeral_port() {
    assert_eq!(udp_target(b"192.168.1.7:51423"), b"192.168.1.7:4595".to_vec());
    assert_eq!(udp_target(b"127.0.0.1:60001"), b"127.0.0.1:4595".to_vec());
}

#[test]
fn udp_target_appends_port_when_there_is_none() {
    assert_eq!(udp_target(b"localhost"), b"localhost:4595".to_vec());
    assert_eq!(udp_target(b""), b":4595".to_vec());
}

#[test]
fn udp_target_cuts_at_the_last_colon() {
    assert_eq!(udp_target(b"[::1]:9999"), b"[::1]:4595".to_vec());
}

#[test]
fn pace_delay_fills_the_rest_of_the_tick() {
    assert_eq!(TICK_NANOS, 16_666_666);
    assert_eq!(pace_delay(0), TICK_NANOS);
    assert_eq!(pace_delay(10_000_000), 6_666_666);
    assert_eq!(pace_delay(TICK_NANOS), 0);
    assert_eq!(pace_delay(u64::MAX), 0);
}

#[test]
fn handshake_then_five_left_ticks() {
    // Host side: bind on the well-known port, accept, send the ack.
    assert_eq!(role_for_address(""), Role::Host);
    let (hp, _) = host_step(HostPhase::Binding, HostEvent::BindOk);
    let (hp, ha) = host_step(hp, HostEvent::Accepted);
    assert_eq!(hp, HostPhase::Established);
    assert_eq!(ha, HostAction::SendAckAndBegin);
    let host_session = Session::new(
        String::from("127.0.0.1:4595"),
        String::from_utf8(udp_target(b"127.0.0.1:54321")).unwrap(),
        Role::Host,
    );
    assert_eq!(host_session.peer_addr, "127.0.0.1:4595");

    // Joiner side: dial 127.0.0.1:4595, then verify the host's ack.
    assert_eq!(role_for_address("127.0.0.1:4595"), Role::Joiner);
    let (jp, _) = joiner_step(JoinerPhase::Dialing, JoinerEvent::DialOk);
    let (jp, ja) = joiner_step(jp, JoinerEvent::AckRead(ack_payload()));
    assert_eq!(jp, JoinerPhase::Established);
    assert_eq!(ja, JoinerAction::Begin);

    // The joiner holds LEFT for 5 consecutive ticks; each tick its
    // command crosses the wire and the host's drain applies it.
    let mut joiner = GameState::new(800, 600);
    let mut host = GameState::new(800, 600);
    let initial_x = host.top_paddle_x;
    for _ in 0..5 {
        let cmd = joiner.update(LocalInput { left_held: true, right_held: false });
        assert_eq!(cmd, PaddleCommand::Left);
        let wire = encode_command(cmd);
        host.update(LocalInput { left_held: false, right_held: false });
        let arrived = decode_datagram(&wire).command().expect("command word");
        host.apply_commands(&vec![arrived]);
    }
    assert_eq!(host.top_paddle_x, initial_x - 5 * PADDLE_SPEED);
    assert_eq!(host.top_paddle_x, initial_x - 25);
}
