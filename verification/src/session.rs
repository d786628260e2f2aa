//! Session establishment and pacing.
//!
//! One peer hosts (binds a listener on the well-known port and waits
//! for exactly one connection), the other joins (dials the user-typed
//! address, retrying forever on a fixed backoff).  The host confirms
//! the pairing by writing a fixed 3-byte acknowledgment; any other
//! content, or a read failure, is fatal on the joiner's side.  Both
//! sides of that exchange are modeled here as step functions from phase
//! and transport event to next phase and action; the surrounding code
//! performs the actions and feeds the events back.

use vstd::prelude::*;

verus! {

/// The well-known port both peers use, for the rendezvous listener and
/// for the ongoing datagram exchange.
pub const SESSION_PORT: u16 = 4595;

/// Fixed backoff between a joiner's dial attempts, in milliseconds.
pub const RETRY_BACKOFF_MILLIS: u64 = 1000;

/// Target interval of the fixed-rate simulation loop, in nanoseconds:
/// one sixtieth of a second, rounded down.
pub const TICK_NANOS: u64 = 1_000_000_000 / 60;

/// The 3-byte handshake acknowledgment, `ack` in ASCII.
pub open spec fn spec_ack() -> Seq<u8> {
    seq![97u8, 99u8, 107u8]
}

/// The acknowledgment payload the host writes to a freshly accepted
/// connection.
pub fn ack_payload() -> (r: Vec<u8>)
    ensures
        r@ == spec_ack(),
{
    let v: Vec<u8> = vec![97u8, 99u8, 107u8];
    proof {
        assert(v@ =~= spec_ack());
    }
    v
}

/// Whether the bytes a joiner read are exactly the expected
/// acknowledgment.
pub fn is_valid_ack(buf: &[u8]) -> (r: bool)
    ensures
        r == (buf@ == spec_ack()),
{
    if buf.len() == 3 && buf[0] == 97 && buf[1] == 99 && buf[2] == 107 {
        proof {
            assert(buf@ =~= spec_ack());
        }
        true
    } else {
        false
    }
}

/// Which side of the session this peer is.
#[derive(Clone, Copy, PartialEq, Eq, Structural, Debug)]
pub enum Role {
    /// Listens for the one incoming connection.
    Host,
    /// Dials the host.
    Joiner,
}

/// Role selection: an empty user-entered peer address selects hosting,
/// a non-empty one selects joining that address.
pub open spec fn spec_role_for(addr: Seq<char>) -> Role {
    if addr.len() == 0 {
        Role::Host
    } else {
        Role::Joiner
    }
}

/// Pick this peer's role from the user-entered address string.
pub fn role_for_address(addr: &str) -> (r: Role)
    ensures
        r == spec_role_for(addr@),
{
    if addr.is_empty() {
        Role::Host
    } else {
        Role::Joiner
    }
}

/// An established pairing with the remote peer.  Created once the
/// handshake is done and never changed afterwards: there is no
/// re-handshake and no peer-address change once the game loop runs.
pub struct Session {
    /// The address this peer's datagram socket is bound on.
    pub local_addr: String,
    /// The resolved remote address, the destination of every outbound
    /// command datagram.
    pub peer_addr: String,
    pub role: Role,
}

impl Session {
    /// A session always names a concrete remote peer.
    pub open spec fn wf(self) -> bool {
        self.peer_addr@.len() > 0
    }

    pub fn new(local_addr: String, peer_addr: String, role: Role) -> (s: Session)
        requires
            peer_addr@.len() > 0,
        ensures
            s.local_addr == local_addr,
            s.peer_addr == peer_addr,
            s.role == role,
            s.wf(),
    {
        Session { local_addr, peer_addr, role }
    }
}

/// Phases of the joiner's side of the handshake.
#[derive(Clone, Copy, PartialEq, Eq, Structural, Debug)]
pub enum JoinerPhase {
    /// Trying to reach the host.
    Dialing,
    /// Connected; the acknowledgment has not arrived yet.
    AwaitingAck,
    /// Acknowledgment verified; the game may start.
    Established,
    /// Fatal handshake failure; the process aborts.
    Failed,
}

/// What the transport reported to the joiner.
#[derive(Debug)]
pub enum JoinerEvent {
    /// The dial attempt failed.
    DialErr,
    /// The dial attempt connected.
    DialOk,
    /// Exactly the first 3 bytes of the connection were read.
    AckRead(Vec<u8>),
    /// Reading the acknowledgment failed.
    AckReadErr,
}

/// What the joiner must do next.
#[derive(Clone, Copy, PartialEq, Eq, Structural, Debug)]
pub enum JoinerAction {
    /// Sleep for the fixed backoff, then dial again; retries are
    /// unbounded by design.
    WaitAndRedial,
    /// Read the 3-byte acknowledgment from the connection.
    ReadAck,
    /// Handshake done; start the game loop.
    Begin,
    /// Fatal: give up and terminate.
    Abort,
    /// The event does not belong to this phase; do nothing.
    Ignore,
}

/// The joiner's handshake transition function.
pub open spec fn spec_joiner_step(phase: JoinerPhase, ev: JoinerEvent) -> (JoinerPhase,
    JoinerAction) {
    match (phase, ev) {
        (JoinerPhase::Dialing, JoinerEvent::DialErr) => (
            JoinerPhase::Dialing,
            JoinerAction::WaitAndRedial,
        ),
        (JoinerPhase::Dialing, JoinerEvent::DialOk) => (
            JoinerPhase::AwaitingAck,
            JoinerAction::ReadAck,
        ),
        (JoinerPhase::AwaitingAck, JoinerEvent::AckRead(buf)) => if buf@ == spec_ack() {
            (JoinerPhase::Established, JoinerAction::Begin)
        } else {
            (JoinerPhase::Failed, JoinerAction::Abort)
        },
        (JoinerPhase::AwaitingAck, JoinerEvent::AckReadErr) => (
            JoinerPhase::Failed,
            JoinerAction::Abort,
        ),
        (p, _) => (p, JoinerAction::Ignore),
    }
}

/// Advance the joiner's handshake by one transport event.
pub fn joiner_step(phase: JoinerPhase, ev: JoinerEvent) -> (r: (JoinerPhase, JoinerAction))
    ensures
        r == spec_joiner_step(phase, ev),
{
    match (phase, ev) {
        (JoinerPhase::Dialing, JoinerEvent::DialErr) => (
            JoinerPhase::Dialing,
            JoinerAction::WaitAndRedial,
        ),
        (JoinerPhase::Dialing, JoinerEvent::DialOk) => (
            JoinerPhase::AwaitingAck,
            JoinerAction::ReadAck,
        ),
        (JoinerPhase::AwaitingAck, JoinerEvent::AckRead(buf)) => if is_valid_ack(
            buf.as_slice(),
        ) {
            (JoinerPhase::Established, JoinerAction::Begin)
        } else {
            (JoinerPhase::Failed, JoinerAction::Abort)
        },
        (JoinerPhase::AwaitingAck, JoinerEvent::AckReadErr) => (
            JoinerPhase::Failed,
            JoinerAction::Abort,
        ),
        (p, _) => (p, JoinerAction::Ignore),
    }
}

/// Phases of the host's side of the handshake.
#[derive(Clone, Copy, PartialEq, Eq, Structural, Debug)]
pub enum HostPhase {
    /// About to bind the listener on the well-known port.
    Binding,
    /// Listener bound; waiting for the one incoming connection.
    Accepting,
    /// A peer connected; the game may start.
    Established,
    /// Fatal handshake failure; the process aborts.
    Failed,
}

/// What the transport reported to the host.
#[derive(Clone, Copy, PartialEq, Eq, Structural, Debug)]
pub enum HostEvent {
    BindOk,
    /// Binding failed (for instance, the port is in use); fatal, there
    /// is no fallback port.
    BindErr,
    /// A connection was accepted.
    Accepted,
    AcceptErr,
}

/// What the host must do next.
#[derive(Clone, Copy, PartialEq, Eq, Structural, Debug)]
pub enum HostAction {
    /// Block until one connection arrives.
    AwaitConnection,
    /// Write the acknowledgment to the accepted connection, record the
    /// peer's address, and start the game loop.  A failed write is
    /// logged and otherwise ignored.
    SendAckAndBegin,
    /// Fatal: give up and terminate.
    Abort,
    /// The event does not belong to this phase; do nothing.
    Ignore,
}

/// The host's handshake transition function.
pub open spec fn spec_host_step(phase: HostPhase, ev: HostEvent) -> (HostPhase, HostAction) {
    match (phase, ev) {
        (HostPhase::Binding, HostEvent::BindOk) => (
            HostPhase::Accepting,
            HostAction::AwaitConnection,
        ),
        (HostPhase::Binding, HostEvent::BindErr) => (HostPhase::Failed, HostAction::Abort),
        (HostPhase::Accepting, HostEvent::Accepted) => (
            HostPhase::Established,
            HostAction::SendAckAndBegin,
        ),
        (HostPhase::Accepting, HostEvent::AcceptErr) => (HostPhase::Failed, HostAction::Abort),
        (p, _) => (p, HostAction::Ignore),
    }
}

/// Advance the host's handshake by one transport event.
pub fn host_step(phase: HostPhase, ev: HostEvent) -> (r: (HostPhase, HostAction))
    ensures
        r == spec_host_step(phase, ev),
{
    match (phase, ev) {
        (HostPhase::Binding, HostEvent::BindOk) => (
            HostPhase::Accepting,
            HostAction::AwaitConnection,
        ),
        (HostPhase::Binding, HostEvent::BindErr) => (HostPhase::Failed, HostAction::Abort),
        (HostPhase::Accepting, HostEvent::Accepted) => (
            HostPhase::Established,
            HostAction::SendAckAndBegin,
        ),
        (HostPhase::Accepting, HostEvent::AcceptErr) => (HostPhase::Failed, HostAction::Abort),
        (p, _) => (p, HostAction::Ignore),
    }
}

/// Index of the last `:` in an address's bytes, `-1` if there is none.
pub open spec fn last_colon(a: Seq<u8>) -> int
    decreases a.len(),
{
    if a.len() == 0 {
        -1
    } else if a.last() == 58 {
        a.len() - 1
    } else {
        last_colon(a.drop_last())
    }
}

/// The host portion of `host:port` address text: everything before the
/// last `:`, or the whole text when it has no `:`.
pub open spec fn spec_host_part(a: Seq<u8>) -> Seq<u8> {
    if last_colon(a) >= 0 {
        a.take(last_colon(a))
    } else {
        a
    }
}

/// The decimal digits of a number, as ASCII bytes, most significant
/// first.
pub open spec fn spec_decimal(n: nat) -> Seq<u8>
    decreases n,
{
    if n < 10 {
        seq![(48 + n) as u8]
    } else {
        spec_decimal(n / 10).push((48 + n % 10) as u8)
    }
}

/// Append the decimal digits of `n` to `out`.
pub fn push_decimal(out: &mut Vec<u8>, n: u64)
    ensures
        final(out)@ == old(out)@ + spec_decimal(n as nat),
    decreases n,
{
    if n < 10 {
        out.push((48 + n) as u8);
        proof {
            assert(out@ =~= old(out)@ + spec_decimal(n as nat));
        }
    } else {
        push_decimal(out, n / 10);
        out.push((48 + (n % 10)) as u8);
        proof {
            assert(out@ =~= old(out)@ + spec_decimal(n as nat));
        }
    }
}

/// The datagram destination derived from the remote peer's connection
/// address: its host followed by `:` and the well-known port's decimal
/// digits, since the connection's own port is ephemeral.
pub open spec fn spec_udp_target(a: Seq<u8>) -> Seq<u8> {
    spec_host_part(a) + seq![58u8] + spec_decimal(SESSION_PORT as nat)
}

/// Derive the datagram destination from the address text of the
/// accepted connection.
pub fn udp_target(tcp_peer: &[u8]) -> (r: Vec<u8>)
    ensures
        r@ == spec_udp_target(tcp_peer@),
{
    let n: usize = tcp_peer.len();
    let mut k: usize = 0;
    let mut last: usize = 0;
    let mut found: bool = false;
    proof {
        assert(tcp_peer@.take(0) =~= Seq::<u8>::empty());
    }
    while k < n
        invariant
            k <= n,
            n == tcp_peer@.len(),
            found ==> last < k && last_colon(tcp_peer@.take(k as int)) == last as int,
            !found ==> last_colon(tcp_peer@.take(k as int)) == -1,
        decreases n - k,
    {
        proof {
            assert(tcp_peer@.take(k + 1).drop_last() =~= tcp_peer@.take(k as int));
            assert(tcp_peer@.take(k + 1).last() == tcp_peer@[k as int]);
        }
        if tcp_peer[k] == 58 {
            last = k;
            found = true;
        }
        k += 1;
    }
    proof {
        assert(tcp_peer@.take(n as int) =~= tcp_peer@);
    }
    let cut: usize = if found {
        last
    } else {
        n
    };
    let mut out: Vec<u8> = Vec::new();
    let mut j: usize = 0;
    while j < cut
        invariant
            j <= cut,
            cut <= n,
            n == tcp_peer@.len(),
            out@ == tcp_peer@.take(j as int),
        decreases cut - j,
    {
        out.push(tcp_peer[j]);
        proof {
            assert(tcp_peer@.take(j + 1) =~= tcp_peer@.take(j as int).push(
                tcp_peer@[j as int],
            ));
        }
        j += 1;
    }
    out.push(58);
    push_decimal(&mut out, SESSION_PORT as u64);
    proof {
        assert(out@ =~= spec_udp_target(tcp_peer@));
    }
    out
}

/// How long the loop must still block before the next tick may start:
/// the unspent remainder of the fixed tick interval, or nothing when
/// the tick overran it.
pub fn pace_delay(elapsed_nanos: u64) -> (d: u64)
    ensures
        d == (if elapsed_nanos < TICK_NANOS {
            (TICK_NANOS - elapsed_nanos) as u64
        } else {
            0u64
        }),
{
    if elapsed_nanos < TICK_NANOS {
        TICK_NANOS - elapsed_nanos
    } else {
        0
    }
}

} // verus!
