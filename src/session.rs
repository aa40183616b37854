//! The decisions of a connection: which phase it is in, what each event from
//! the transport does to it, and what the transport must do next. The
//! transport itself (sockets, TLS, timers) lies outside and reports events.

use vstd::prelude::*;

verus! {

/// Why a connection or a request failed.
#[derive(Clone, Copy, Debug, PartialEq, Eq, Structural)]
pub enum SessionError {
    /// The TCP connection could not be made in time.
    ConnectError,
    /// The TLS handshake failed or did not select `h2`.
    TlsError,
    /// A request failed after the connection was ready.
    StreamError,
}

/// The phase of a connection.
#[derive(Clone, Copy, Debug, PartialEq, Eq, Structural)]
pub enum Phase {
    Idle,
    Connecting,
    TlsHandshaking,
    H2Negotiating,
    /// Ready with no request in flight.
    Ready,
    /// Ready with at least one request in flight.
    Streaming,
    Closed,
    Failed(SessionError),
}

/// What the transport reports.
#[derive(Clone, Copy, Debug, PartialEq, Eq, Structural)]
pub enum Event {
    /// The caller asks to open the connection.
    Open,
    TcpConnected,
    TcpFailed,
    /// The connect deadline passed.
    ConnectTimeout,
    /// The TLS handshake completed; `alpn_h2` tells whether `h2` was chosen.
    TlsEstablished { alpn_h2: bool },
    TlsFailed,
    /// The handshake deadline passed.
    HandshakeTimeout,
    /// The SETTINGS exchange completed.
    SettingsExchanged,
    /// The caller issues a request.
    Request,
    /// A request in flight received its whole response.
    StreamFinished,
    /// A request in flight failed on its own.
    StreamFailed,
    /// The underlying connection broke.
    ConnectionLost,
    /// The caller shuts the connection down.
    Close,
    /// The connection stayed unused past its idle deadline.
    IdleTimeout,
}

/// What the transport must do next.
#[derive(Clone, Copy, Debug, PartialEq, Eq, Structural)]
pub enum Action {
    Nothing,
    /// Open a TCP connection to the target.
    Connect,
    /// Send the profile's ClientHello.
    SendClientHello,
    /// Send the profile's HTTP/2 connection preface.
    SendPreface,
    /// Send a request on a new stream with this id.
    SendRequest { stream_id: u32 },
    /// Refuse the request with this error; the connection is unaffected.
    RejectRequest(SessionError),
    /// Report the failed request to its caller; the connection is unaffected.
    ReportStreamError,
    /// Release the socket; requests still in flight fail with `StreamError`.
    ReleaseSocket,
}

/// The largest HTTP/2 stream id.
pub const MAX_STREAM_ID: u32 = 0x7fff_ffff;

/// One logical connection.
#[derive(Clone, Copy, Debug, PartialEq, Eq, Structural)]
pub struct Session {
    pub phase: Phase,
    /// Requests in flight.
    pub open_streams: u32,
    /// The id the next request's stream gets (client streams are odd).
    pub next_stream_id: u32,
}

/// Closed and failed connections take no further part.
pub open spec fn is_terminal(p: Phase) -> bool {
    p == Phase::Closed || p is Failed
}

/// A phase in which a socket is held.
pub open spec fn holds_socket(p: Phase) -> bool {
    !(p == Phase::Idle || is_terminal(p))
}

/// The phase once the connection breaks while in `p`.
pub open spec fn failure_of(p: Phase) -> Phase {
    match p {
        Phase::Connecting => Phase::Failed(SessionError::ConnectError),
        Phase::TlsHandshaking => Phase::Failed(SessionError::TlsError),
        _ => Phase::Failed(SessionError::StreamError),
    }
}

impl Session {
    /// A connection that has not started.
    pub open spec fn idle() -> Session {
        Session { phase: Phase::Idle, open_streams: 0, next_stream_id: 1 }
    }

    /// Stream ids are odd and stay in range, and requests are in flight
    /// exactly in the `Streaming` phase.
    pub open spec fn wf(&self) -> bool {
        &&& self.next_stream_id % 2 == 1
        &&& self.next_stream_id <= MAX_STREAM_ID
        &&& self.open_streams as int <= (self.next_stream_id as int) / 2
        &&& (self.phase == Phase::Streaming <==> self.open_streams > 0)
    }

    /// `self` with phase `p`.
    pub open spec fn with_phase(self, p: Phase) -> Session {
        Session { phase: p, ..self }
    }

    /// The next connection and the action that `e` leads to.
    pub open spec fn transition(self, e: Event) -> (Session, Action) {
        let ph = self.phase;
        if is_terminal(ph) {
            if e == Event::Request {
                (self, Action::RejectRequest(SessionError::StreamError))
            } else {
                (self, Action::Nothing)
            }
        } else {
            match e {
                Event::Open => if ph == Phase::Idle {
                    (self.with_phase(Phase::Connecting), Action::Connect)
                } else {
                    (self, Action::Nothing)
                },
                Event::TcpConnected => if ph == Phase::Connecting {
                    (self.with_phase(Phase::TlsHandshaking), Action::SendClientHello)
                } else {
                    (self, Action::Nothing)
                },
                Event::TcpFailed | Event::ConnectTimeout => if ph == Phase::Connecting {
                    (
                        self.with_phase(Phase::Failed(SessionError::ConnectError)),
                        Action::ReleaseSocket,
                    )
                } else {
                    (self, Action::Nothing)
                },
                Event::TlsEstablished { alpn_h2 } => if ph == Phase::TlsHandshaking {
                    if alpn_h2 {
                        (self.with_phase(Phase::H2Negotiating), Action::SendPreface)
                    } else {
                        (
                            self.with_phase(Phase::Failed(SessionError::TlsError)),
                            Action::ReleaseSocket,
                        )
                    }
                } else {
                    (self, Action::Nothing)
                },
                Event::TlsFailed | Event::HandshakeTimeout => if ph == Phase::TlsHandshaking {
                    (
                        self.with_phase(Phase::Failed(SessionError::TlsError)),
                        Action::ReleaseSocket,
                    )
                } else {
                    (self, Action::Nothing)
                },
                Event::SettingsExchanged => if ph == Phase::H2Negotiating {
                    (self.with_phase(Phase::Ready), Action::Nothing)
                } else {
                    (self, Action::Nothing)
                },
                Event::Request => if (ph == Phase::Ready || ph == Phase::Streaming)
                    && self.next_stream_id < MAX_STREAM_ID {
                    (
                        Session {
                            phase: Phase::Streaming,
                            open_streams: (self.open_streams + 1) as u32,
                            next_stream_id: (self.next_stream_id + 2) as u32,
                        },
                        Action::SendRequest { stream_id: self.next_stream_id },
                    )
                } else {
                    (self, Action::RejectRequest(SessionError::StreamError))
                },
                Event::StreamFinished | Event::StreamFailed => if ph == Phase::Streaming {
                    let n = (self.open_streams - 1) as u32;
                    (
                        Session {
                            phase: if n == 0 {
                                Phase::Ready
                            } else {
                                Phase::Streaming
                            },
                            open_streams: n,
                            next_stream_id: self.next_stream_id,
                        },
                        if e == Event::StreamFailed {
                            Action::ReportStreamError
                        } else {
                            Action::Nothing
                        },
                    )
                } else {
                    (self, Action::Nothing)
                },
                Event::ConnectionLost => if ph == Phase::Idle {
                    (self, Action::Nothing)
                } else {
                    (
                        Session { phase: failure_of(ph), open_streams: 0, ..self },
                        Action::ReleaseSocket,
                    )
                },
                Event::Close => (
                    Session { phase: Phase::Closed, open_streams: 0, ..self },
                    if ph == Phase::Idle {
                        Action::Nothing
                    } else {
                        Action::ReleaseSocket
                    },
                ),
                Event::IdleTimeout => if ph == Phase::Ready {
                    (self.with_phase(Phase::Closed), Action::ReleaseSocket)
                } else {
                    (self, Action::Nothing)
                },
            }
        }
    }

    /// A connection that has not started.
    pub fn new() -> (r: Session)
        ensures
            r == Session::idle(),
            r.wf(),
    {
        Session { phase: Phase::Idle, open_streams: 0, next_stream_id: 1 }
    }

    /// Applies `e` and returns what the transport must do next.
    pub fn handle(&mut self, e: Event) -> (r: Action)
        requires
            old(self).wf(),
        ensures
            (*final(self), r) == old(self).transition(e),
            final(self).wf(),
    {
        let ph = self.phase;
        let terminal = match ph {
            Phase::Closed | Phase::Failed(_) => true,
            _ => false,
        };
        if terminal {
            return match e {
                Event::Request => Action::RejectRequest(SessionError::StreamError),
                _ => Action::Nothing,
            };
        }
        match e {
            Event::Open => {
                if ph == Phase::Idle {
                    self.phase = Phase::Connecting;
                    return Action::Connect;
                }
            },
            Event::TcpConnected => {
                if ph == Phase::Connecting {
                    self.phase = Phase::TlsHandshaking;
                    return Action::SendClientHello;
                }
            },
            Event::TcpFailed | Event::ConnectTimeout => {
                if ph == Phase::Connecting {
                    self.phase = Phase::Failed(SessionError::ConnectError);
                    return Action::ReleaseSocket;
                }
            },
            Event::TlsEstablished { alpn_h2 } => {
                if ph == Phase::TlsHandshaking {
                    if alpn_h2 {
                        self.phase = Phase::H2Negotiating;
                        return Action::SendPreface;
                    }
                    self.phase = Phase::Failed(SessionError::TlsError);
                    return Action::ReleaseSocket;
                }
            },
            Event::TlsFailed | Event::HandshakeTimeout => {
                if ph == Phase::TlsHandshaking {
                    self.phase = Phase::Failed(SessionError::TlsError);
                    return Action::ReleaseSocket;
                }
            },
            Event::SettingsExchanged => {
                if ph == Phase::H2Negotiating {
                    self.phase = Phase::Ready;
                }
            },
            Event::Request => {
                if (ph == Phase::Ready || ph == Phase::Streaming) && self.next_stream_id
                    < MAX_STREAM_ID {
                    let id = self.next_stream_id;
                    self.phase = Phase::Streaming;
                    self.open_streams = self.open_streams + 1;
                    self.next_stream_id = id + 2;
                    return Action::SendRequest { stream_id: id };
                }
                return Action::RejectRequest(SessionError::StreamError);
            },
            Event::StreamFinished | Event::StreamFailed => {
                if ph == Phase::Streaming {
                    self.open_streams = self.open_streams - 1;
                    if self.open_streams == 0 {
                        self.phase = Phase::Ready;
                    }
                    if e == Event::StreamFailed {
                        return Action::ReportStreamError;
                    }
                }
            },
            Event::ConnectionLost => {
                if ph != Phase::Idle {
                    self.phase = match ph {
                        Phase::Connecting => Phase::Failed(SessionError::ConnectError),
                        Phase::TlsHandshaking => Phase::Failed(SessionError::TlsError),
                        _ => Phase::Failed(SessionError::StreamError),
                    };
                    self.open_streams = 0;
                    return Action::ReleaseSocket;
                }
            },
            Event::Close => {
                self.phase = Phase::Closed;
                self.open_streams = 0;
                if ph != Phase::Idle {
                    return Action::ReleaseSocket;
                }
            },
            Event::IdleTimeout => {
                if ph == Phase::Ready {
                    self.phase = Phase::Closed;
                    return Action::ReleaseSocket;
                }
            },
        }
        Action::Nothing
    }

    /// Whether the connection can carry requests.
    pub fn is_ready(&self) -> (r: bool)
        ensures
            r == (self.phase == Phase::Ready || self.phase == Phase::Streaming),
    {
        self.phase == Phase::Ready || self.phase == Phase::Streaming
    }
}

/// A closed or failed connection stays as it is whatever happens, and never
/// connects or sends again: a new connection needs a new session.
pub proof fn lemma_terminal_is_final(s: Session, e: Event)
    requires
        is_terminal(s.phase),
    ensures
        s.transition(e).0 == s,
        s.transition(e).1 == Action::Nothing || s.transition(e).1 == Action::RejectRequest(
            SessionError::StreamError,
        ),
{
}

/// Every step from a phase that holds a socket to a closed or failed phase
/// releases the socket.
pub proof fn lemma_socket_released_on_exit(s: Session, e: Event)
    requires
        holds_socket(s.phase),
        is_terminal(s.transition(e).0.phase),
    ensures
        s.transition(e).1 == Action::ReleaseSocket,
{
}

/// Failures while connecting or handshaking end the connection with the
/// matching error and release the socket; there is no retry.
pub proof fn lemma_setup_failures(s: Session, e: Event)
    requires
        (s.phase == Phase::Connecting && (e == Event::TcpFailed || e == Event::ConnectTimeout))
            || (s.phase == Phase::TlsHandshaking && (e == Event::TlsFailed || e
            == Event::HandshakeTimeout || e == (Event::TlsEstablished { alpn_h2: false }))),
    ensures
        s.transition(e).0.phase == (if s.phase == Phase::Connecting {
            Phase::Failed(SessionError::ConnectError)
        } else {
            Phase::Failed(SessionError::TlsError)
        }),
        s.transition(e).1 == Action::ReleaseSocket,
{
}

/// Two requests issued one after the other on a ready connection are sent
/// on two different streams, unless the second is refused.
pub proof fn lemma_requests_use_distinct_streams(s: Session)
    requires
        s.wf(),
        s.phase == Phase::Ready || s.phase == Phase::Streaming,
    ensures
        ({
            let (s1, a1) = s.transition(Event::Request);
            let (s2, a2) = s1.transition(Event::Request);
            a1 is SendRequest && a2 is SendRequest ==> a1->stream_id != a2->stream_id
        }),
{
}

/// A failed request leaves the connection ready for others.
pub proof fn lemma_stream_failure_keeps_session(s: Session)
    requires
        s.wf(),
        s.phase == Phase::Streaming,
    ensures
        s.transition(Event::StreamFailed).1 == Action::ReportStreamError,
        s.transition(Event::StreamFailed).0.phase == Phase::Ready
            || s.transition(Event::StreamFailed).0.phase == Phase::Streaming,
{
}

} // verus!
