//! The single-request client state machine.
//!
//! One command is driven through
//! `Idle -> Resolved -> Connected -> Handshaken -> Sent -> ReceivedAll`
//! to a terminal `Done` or `Failed` state.  The machine only decides:
//! each step consumes the outcome of the previous outside action (TCP
//! connect, TLS handshake, stream write, read to end of stream) and
//! returns the next action for the caller to perform.  The first error
//! is terminal; no state is revisited and the machine is single-use.

use vstd::prelude::*;
use vstd::string::*;
use crate::codec::{
    decode_response, encode_spec, is_success_wire, starts_with, str_starts_with, success_payload,
    ClipboardCmd, Response,
};

verus! {

/// The decimal digit character for `d`.
pub open spec fn digit_char(d: nat) -> char {
    if d == 0 {
        '0'
    } else if d == 1 {
        '1'
    } else if d == 2 {
        '2'
    } else if d == 3 {
        '3'
    } else if d == 4 {
        '4'
    } else if d == 5 {
        '5'
    } else if d == 6 {
        '6'
    } else if d == 7 {
        '7'
    } else if d == 8 {
        '8'
    } else {
        '9'
    }
}

/// The decimal rendering of `n`, without leading zeros (a single `0`
/// for zero itself).
pub open spec fn dec_of(n: nat) -> Seq<char>
    decreases n,
{
    if n < 10 {
        seq![digit_char(n)]
    } else {
        dec_of(n / 10).push(digit_char(n % 10))
    }
}

/// The one-character string for a decimal digit.
fn digit_str(d: u16) -> (r: &'static str)
    requires
        d < 10,
    ensures
        r@ == seq![digit_char(d as nat)],
{
    proof {
        reveal_strlit("0");
        reveal_strlit("1");
        reveal_strlit("2");
        reveal_strlit("3");
        reveal_strlit("4");
        reveal_strlit("5");
        reveal_strlit("6");
        reveal_strlit("7");
        reveal_strlit("8");
        reveal_strlit("9");
    }
    let r: &'static str = match d {
        0 => "0",
        1 => "1",
        2 => "2",
        3 => "3",
        4 => "4",
        5 => "5",
        6 => "6",
        7 => "7",
        8 => "8",
        _ => "9",
    };
    proof {
        assert(r@ =~= seq![digit_char(d as nat)]);
    }
    r
}

/// Append the decimal rendering of `n` to `out`.
pub fn append_dec(n: u16, out: &mut String)
    ensures
        final(out)@ == old(out)@ + dec_of(n as nat),
    decreases n,
{
    if n >= 10 {
        proof {
            assert(n / 10 < n) by (nonlinear_arith)
                requires
                    n >= 10,
            ;
        }
        append_dec(n / 10, out);
        out.append(digit_str(n % 10));
        proof {
            assert(out@ =~= old(out)@ + dec_of(n as nat));
        }
    } else {
        out.append(digit_str(n));
        proof {
            assert(out@ =~= old(out)@ + dec_of(n as nat));
        }
    }
}

/// The connection target composed from host and port.
pub open spec fn target_spec(host: Seq<char>, port: u16) -> Seq<char> {
    host + ":"@ + dec_of(port as nat)
}

/// Compose `host:port` into the connection target text.
pub fn resolve_target(host: &str, port: u16) -> (r: String)
    ensures
        r@ == target_spec(host@, port),
{
    let mut s = String::from_str(host);
    s.append(":");
    append_dec(port, &mut s);
    s
}

/// The error taxonomy of one invocation, each variant carrying its
/// human-readable message.
pub enum ClientError {
    /// The pinned certificate file is missing or unreadable.
    Precondition(String),
    /// The TCP connection could not be established.
    Connect(String),
    /// TLS negotiation failed, including pinning rejection.
    Handshake(String),
    /// Writing the request or reading the response failed.
    TransportIO(String),
    /// The server answered without the success marker.
    ProtocolFailure(String),
    /// The local clipboard could not be read or written.
    Clipboard(String),
}

/// The states of one request, in the order they are passed through.
pub enum ClientState {
    Idle,
    Resolved,
    Connected,
    Handshaken,
    Sent,
    ReceivedAll(String),
    Done(String),
    Failed(ClientError),
}

/// The outcome of the previous outside action, fed back to the machine.
pub enum ClientEvent {
    Proceed,
    ConnectOk,
    ConnectFailed(String),
    HandshakeOk,
    HandshakeFailed(String),
    SendOk,
    SendFailed(String),
    ReceiveOk(String),
    ReceiveFailed(String),
}

/// The next action the caller must perform.
pub enum ClientAction {
    /// Open a blocking TCP connection to the target.
    Connect(String),
    /// Run the TLS handshake, verifying the server certificate by
    /// pinning.
    Handshake,
    /// Write this wire message to the encrypted stream in one write.
    Send(String),
    /// Read from the encrypted stream until the peer closes its side.
    Receive,
    /// No outside work: feed `Proceed` back to decode the response.
    Decode,
    /// Terminal: the state is `Done` or `Failed`.
    Stop,
}

/// Which event a state can consume; terminal states consume none.
pub open spec fn event_fits(s: ClientState, e: ClientEvent) -> bool {
    match s {
        ClientState::Idle => e is Proceed,
        ClientState::Resolved => e is ConnectOk || e is ConnectFailed,
        ClientState::Connected => e is HandshakeOk || e is HandshakeFailed,
        ClientState::Handshaken => e is SendOk || e is SendFailed,
        ClientState::Sent => e is ReceiveOk || e is ReceiveFailed,
        ClientState::ReceivedAll(_) => e is Proceed,
        ClientState::Done(_) => false,
        ClientState::Failed(_) => false,
    }
}

/// Drives exactly one command over one connection and one TLS session;
/// discarded after reaching a terminal state.
pub struct SecureCommandClient {
    pub host: String,
    pub port: u16,
    pub command: ClipboardCmd,
    pub state: ClientState,
}

impl SecureCommandClient {
    /// A fresh single-use client for one command.
    pub fn new(host: String, port: u16, command: ClipboardCmd) -> (r: Self)
        ensures
            r.host@ == host@,
            r.port == port,
            r.command == command,
            r.state is Idle,
    {
        SecureCommandClient { host, port, command, state: ClientState::Idle }
    }

    /// Whether the machine can consume this event in its current state.
    pub fn accepts(&self, event: &ClientEvent) -> (r: bool)
        ensures
            r == event_fits(self.state, *event),
    {
        match (&self.state, event) {
            (ClientState::Idle, ClientEvent::Proceed) => true,
            (ClientState::Resolved, ClientEvent::ConnectOk) => true,
            (ClientState::Resolved, ClientEvent::ConnectFailed(_)) => true,
            (ClientState::Connected, ClientEvent::HandshakeOk) => true,
            (ClientState::Connected, ClientEvent::HandshakeFailed(_)) => true,
            (ClientState::Handshaken, ClientEvent::SendOk) => true,
            (ClientState::Handshaken, ClientEvent::SendFailed(_)) => true,
            (ClientState::Sent, ClientEvent::ReceiveOk(_)) => true,
            (ClientState::Sent, ClientEvent::ReceiveFailed(_)) => true,
            (ClientState::ReceivedAll(_), ClientEvent::Proceed) => true,
            _ => false,
        }
    }

    /// Advance one state.  The transition table: resolution composes
    /// the target, a successful connect leads to the handshake, a
    /// successful handshake sends the encoded command, a successful
    /// send reads the response, and the received text is decoded into
    /// the success payload or a protocol failure.  Every failure event
    /// moves to the matching terminal error, first error wins.
    pub fn step(&mut self, event: ClientEvent) -> (a: ClientAction)
        requires
            event_fits(old(self).state, event),
        ensures
            final(self).host == old(self).host,
            final(self).port == old(self).port,
            final(self).command == old(self).command,
            match old(self).state {
                ClientState::Idle => {
                    &&& final(self).state is Resolved
                    &&& a matches ClientAction::Connect(t) && t@ == target_spec(
                        old(self).host@,
                        old(self).port,
                    )
                },
                ClientState::Resolved => match event {
                    ClientEvent::ConnectOk => final(self).state is Connected && a is Handshake,
                    ClientEvent::ConnectFailed(m) => {
                        &&& final(self).state matches ClientState::Failed(e)
                            && e matches ClientError::Connect(mm) && mm@ == m@
                        &&& a is Stop
                    },
                    _ => true,
                },
                ClientState::Connected => match event {
                    ClientEvent::HandshakeOk => {
                        &&& final(self).state is Handshaken
                        &&& a matches ClientAction::Send(w) && w@ == encode_spec(old(self).command)
                    },
                    ClientEvent::HandshakeFailed(m) => {
                        &&& final(self).state matches ClientState::Failed(e)
                            && e matches ClientError::Handshake(mm) && mm@ == m@
                        &&& a is Stop
                    },
                    _ => true,
                },
                ClientState::Handshaken => match event {
                    ClientEvent::SendOk => final(self).state is Sent && a is Receive,
                    ClientEvent::SendFailed(m) => {
                        &&& final(self).state matches ClientState::Failed(e)
                            && e matches ClientError::TransportIO(mm) && mm@ == m@
                        &&& a is Stop
                    },
                    _ => true,
                },
                ClientState::Sent => match event {
                    ClientEvent::ReceiveOk(t) => {
                        &&& final(self).state matches ClientState::ReceivedAll(tt) && tt@ == t@
                        &&& a is Decode
                    },
                    ClientEvent::ReceiveFailed(m) => {
                        &&& final(self).state matches ClientState::Failed(e)
                            && e matches ClientError::TransportIO(mm) && mm@ == m@
                        &&& a is Stop
                    },
                    _ => true,
                },
                ClientState::ReceivedAll(t) => {
                    &&& a is Stop
                    &&& if is_success_wire(t@) {
                        final(self).state matches ClientState::Done(p) && p@ == success_payload(t@)
                    } else {
                        final(self).state matches ClientState::Failed(e)
                            && e matches ClientError::ProtocolFailure(m) && m@ == t@
                    }
                },
                ClientState::Done(_) => true,
                ClientState::Failed(_) => true,
            },
    {
        let (next, action): (ClientState, ClientAction) = match (&self.state, event) {
            (ClientState::Idle, ClientEvent::Proceed) => {
                let t = resolve_target(self.host.as_str(), self.port);
                (ClientState::Resolved, ClientAction::Connect(t))
            },
            (ClientState::Resolved, ClientEvent::ConnectOk) => {
                (ClientState::Connected, ClientAction::Handshake)
            },
            (ClientState::Resolved, ClientEvent::ConnectFailed(m)) => {
                (ClientState::Failed(ClientError::Connect(m)), ClientAction::Stop)
            },
            (ClientState::Connected, ClientEvent::HandshakeOk) => {
                let w = self.command.encode();
                (ClientState::Handshaken, ClientAction::Send(w))
            },
            (ClientState::Connected, ClientEvent::HandshakeFailed(m)) => {
                (ClientState::Failed(ClientError::Handshake(m)), ClientAction::Stop)
            },
            (ClientState::Handshaken, ClientEvent::SendOk) => {
                (ClientState::Sent, ClientAction::Receive)
            },
            (ClientState::Handshaken, ClientEvent::SendFailed(m)) => {
                (ClientState::Failed(ClientError::TransportIO(m)), ClientAction::Stop)
            },
            (ClientState::Sent, ClientEvent::ReceiveOk(t)) => {
                (ClientState::ReceivedAll(t), ClientAction::Decode)
            },
            (ClientState::Sent, ClientEvent::ReceiveFailed(m)) => {
                (ClientState::Failed(ClientError::TransportIO(m)), ClientAction::Stop)
            },
            (ClientState::ReceivedAll(t), ClientEvent::Proceed) => {
                match decode_response(t.as_str()) {
                    Response::Success(p) => (ClientState::Done(p), ClientAction::Stop),
                    Response::Failure(m) => {
                        (ClientState::Failed(ClientError::ProtocolFailure(m)), ClientAction::Stop)
                    },
                }
            },
            _ => {
                vstd::pervasive::unreached()
            },
        };
        self.state = next;
        action
    }
}

/// Law: terminal states consume no further event.  Once a step has
/// failed — a pinning rejection included — no later send, receive or
/// decode can happen, so no protocol outcome can follow a failure.
pub proof fn lemma_terminal_states_consume_nothing(s: ClientState, e: ClientEvent)
    requires
        s is Done || s is Failed,
    ensures
        !event_fits(s, e),
{
}

/// True when the wire message was a read or clear, whose successful
/// payload is forwarded to the local clipboard.
pub open spec fn forwards_payload(wire: Seq<char>) -> bool {
    starts_with(wire, "READ:"@) || starts_with(wire, "CLEAR:"@)
}

/// The command-specific post-processing rule: only a read or clear
/// forwards its payload to the clipboard.  On a platform whose
/// clipboard cannot represent explicit emptiness (`empty_quirk`), an
/// empty payload is replaced by a single null placeholder character.
pub fn clipboard_update(wire: &str, payload: &str, empty_quirk: bool) -> (r: Option<String>)
    ensures
        match r {
            Some(t) => forwards_payload(wire@) && t@ == (
            if payload@.len() == 0 && empty_quirk {
                seq!['\0']
            } else {
                payload@
            }),
            None => !forwards_payload(wire@),
        },
{
    if str_starts_with(wire, "READ:") || str_starts_with(wire, "CLEAR:") {
        if payload.unicode_len() == 0 && empty_quirk {
            let mut s = String::new();
            s.append("\0");
            proof {
                reveal_strlit("\0");
                assert(s@ =~= seq!['\0']);
            }
            Some(s)
        } else {
            Some(String::from_str(payload))
        }
    } else {
        None
    }
}

} // verus!
