use neqo_client::endpoint::{lookup_target, Endpoint, IpAddress, TargetError};
use neqo_client::handler::{EventAction, Mode, StreamEvent};
use neqo_client::headers::Headers;
use neqo_client::session::{raw_alpn, raw_request_line, HandshakeOutcome, Session, SessionStage};
use neqo_client::state::SessionState;

#[test]
fn handshake_failure_ends_session() {
    let mut s = Session::new(Mode::Framed);
    assert_eq!(s.stage, SessionStage::Handshake);
    let out = s.handshake_ended(SessionState::Closed(3));
    assert_eq!(out, HandshakeOutcome::End { state: SessionState::Closed(3) });
    assert_eq!(s.stage, SessionStage::Ended);
}

#[test]
fn connected_session_tracks_its_one_request() {
    let mut s = Session::new(Mode::Raw);
    assert_eq!(s.handshake_ended(SessionState::Connected), HandshakeOutcome::OpenRequest);
    let h = s.request_opened(4);
    assert_eq!(s.stage, SessionStage::Exchanging);
    assert_eq!(h.mode, Mode::Raw);
    assert!(h.interest.contains(4));
    assert!(!h.interest.contains(0));
    assert_eq!(
        h.on_event(&StreamEvent::DataReadable { stream_id: 4 }),
        EventAction::ReadData { stream_id: 4 }
    );
    assert_eq!(s.exchange_ended(SessionState::Closing), SessionState::Closing);
    assert_eq!(s.stage, SessionStage::Ended);
}

#[test]
fn raw_mode_constants() {
    assert_eq!(raw_alpn(), "http/0.9");
    assert_eq!(raw_request_line(), "GET /10\r\n");
}

#[test]
fn local_endpoint_matches_family() {
    let v4 = Endpoint { ip: IpAddress::V4(0x0a00_0001), port: 443 };
    assert_eq!(v4.unspecified_like(), Endpoint { ip: IpAddress::V4(0), port: 0 });
    let v6 = Endpoint { ip: IpAddress::V6(1), port: 4433 };
    assert_eq!(v6.unspecified_like(), Endpoint { ip: IpAddress::V6(0), port: 0 });
}

#[test]
fn lookup_target_needs_a_port() {
    assert_eq!(lookup_target(Some("example.com"), None), Err(TargetError::InvalidPort));
    assert_eq!(
        lookup_target(Some("example.com"), Some(443)),
        Ok(("example.com".to_string(), 443))
    );
    assert_eq!(lookup_target(None, Some(80)), Ok(("localhost".to_string(), 80)));
}

fn pairs(h: &Headers) -> Vec<(&str, &str)> {
    h.h.iter().map(|(a, b)| (a.as_str(), b.as_str())).collect()
}

#[test]
fn headers_parse_pairs() {
    let h = Headers::parse("[(a, b), (c, d)]");
    assert_eq!(pairs(&h), vec![("a", "b"), ("c", "d")]);
}

#[test]
fn headers_parse_empty_list() {
    assert!(Headers::parse("[]").h.is_empty());
    assert!(Headers::parse("").h.is_empty());
}

#[test]
fn headers_drop_malformed_pieces() {
    let h = Headers::parse("[(a), (b, c, d), ( x-key ,  some value ), (e, f)]");
    assert_eq!(pairs(&h), vec![("x-key", "some value"), ("e", "f")]);
}

#[test]
fn headers_trim_unicode_space() {
    let h = Headers::parse("[(\u{3000}k\t, v\u{a0})]");
    assert_eq!(pairs(&h), vec![("k", "v")]);
}
