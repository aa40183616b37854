use tlsplus::session::{Action, Event, Phase, Session, SessionError};

fn ready() -> Session {
    let mut s = Session::new();
    assert_eq!(s.handle(Event::Open), Action::Connect);
    assert_eq!(s.handle(Event::TcpConnected), Action::SendClientHello);
    assert_eq!(s.handle(Event::TlsEstablished { alpn_h2: true }), Action::SendPreface);
    assert_eq!(s.handle(Event::SettingsExchanged), Action::Nothing);
    assert!(s.is_ready());
    s
}

#[test]
fn connect_timeout_fails_and_releases() {
    let mut s = Session::new();
    assert_eq!(s.handle(Event::Open), Action::Connect);
    assert_eq!(s.handle(Event::ConnectTimeout), Action::ReleaseSocket);
    assert_eq!(s.phase, Phase::Failed(SessionError::ConnectError));
    assert_eq!(s.handle(Event::Open), Action::Nothing);
    assert_eq!(s.phase, Phase::Failed(SessionError::ConnectError));
}

#[test]
fn concurrent_requests_get_own_streams() {
    let mut s = ready();
    assert_eq!(s.handle(Event::Request), Action::SendRequest { stream_id: 1 });
    assert_eq!(s.handle(Event::Request), Action::SendRequest { stream_id: 3 });
    assert_eq!(s.phase, Phase::Streaming);
    assert_eq!(s.open_streams, 2);
    assert_eq!(s.handle(Event::StreamFinished), Action::Nothing);
    assert_eq!(s.handle(Event::StreamFailed), Action::ReportStreamError);
    assert_eq!(s.phase, Phase::Ready);
}

#[test]
fn tls_without_h2_fails() {
    let mut s = Session::new();
    s.handle(Event::Open);
    s.handle(Event::TcpConnected);
    assert_eq!(s.handle(Event::TlsEstablished { alpn_h2: false }), Action::ReleaseSocket);
    assert_eq!(s.phase, Phase::Failed(SessionError::TlsError));
}

#[test]
fn handshake_timeout_fails() {
    let mut s = Session::new();
    s.handle(Event::Open);
    s.handle(Event::TcpConnected);
    assert_eq!(s.handle(Event::HandshakeTimeout), Action::ReleaseSocket);
    assert_eq!(s.phase, Phase::Failed(SessionError::TlsError));
}

#[test]
fn lost_connection_fails_streams() {
    let mut s = ready();
    s.handle(Event::Request);
    assert_eq!(s.handle(Event::ConnectionLost), Action::ReleaseSocket);
    assert_eq!(s.phase, Phase::Failed(SessionError::StreamError));
    assert_eq!(s.open_streams, 0);
    assert_eq!(s.handle(Event::Request), Action::RejectRequest(SessionError::StreamError));
}

#[test]
fn request_before_ready_is_rejected() {
    let mut s = Session::new();
    assert_eq!(s.handle(Event::Request), Action::RejectRequest(SessionError::StreamError));
    assert_eq!(s.phase, Phase::Idle);
}

#[test]
fn close_and_idle_timeout() {
    let mut s = ready();
    assert_eq!(s.handle(Event::IdleTimeout), Action::ReleaseSocket);
    assert_eq!(s.phase, Phase::Closed);
    let mut t = Session::new();
    assert_eq!(t.handle(Event::Close), Action::Nothing);
    assert_eq!(t.phase, Phase::Closed);
}
