//! The PROXY switchboard and header parsers: reservation, rendezvous,
//! expiry, exhaustion, and both header grammars.

use libunftp::chancomms::{Event, InternalMsg};
use libunftp::command::Command;
use libunftp::controlchan::{handle_command, handle_event, Effect, HandlerCtx};
use libunftp::ftpserver::{classify_proxy_connection, ProxyConnClass, ProxyParams};
use libunftp::outcome::proxy_pasv_apply;
use libunftp::proxy_protocol::{parse_proxy_v1, parse_proxy_v2, ConnectionTuple, Ipv4Addr};
use libunftp::reply::ReplyCode;
use libunftp::session::Session;
use libunftp::switchboard::ProxyProtocolSwitchboard;

const CLIENT: Ipv4Addr = Ipv4Addr { a: 10, b: 0, c: 0, d: 5 };
const OTHER: Ipv4Addr = Ipv4Addr { a: 10, b: 9, c: 9, d: 9 };

#[test]
fn reserve_and_rendezvous() {
    let mut sb = ProxyProtocolSwitchboard::new(50000, 50010);
    let port = sb.reserve_next_free_port(0, 7, CLIENT).expect("a free port");
    assert!((50000..=50010).contains(&port));
    assert_eq!(sb.get_session_by_incoming_data_connection(CLIENT, port), Some(7));
    // A mismatched source does not pair (and does not disturb the entry).
    assert_eq!(sb.get_session_by_incoming_data_connection(OTHER, port), None);
    assert_eq!(sb.get_session_by_incoming_data_connection(CLIENT, port), Some(7));
    sb.unregister(CLIENT, port);
    assert_eq!(sb.get_session_by_incoming_data_connection(CLIENT, port), None);
}

#[test]
fn reservations_rotate_and_stay_distinct() {
    let mut sb = ProxyProtocolSwitchboard::new(50000, 50010);
    let p1 = sb.reserve_next_free_port(0, 1, CLIENT).unwrap();
    let p2 = sb.reserve_next_free_port(0, 2, CLIENT).unwrap();
    let p3 = sb.reserve_next_free_port(0, 3, CLIENT).unwrap();
    assert_ne!(p1, p2);
    assert_ne!(p2, p3);
    assert_ne!(p1, p3);
    assert_eq!(sb.get_session_by_incoming_data_connection(CLIENT, p2), Some(2));
}

#[test]
fn exhaustion_and_lazy_expiry() {
    let mut sb = ProxyProtocolSwitchboard::new(50000, 50001);
    assert!(sb.reserve_next_free_port(0, 1, CLIENT).is_some());
    assert!(sb.reserve_next_free_port(0, 2, CLIENT).is_some());
    assert_eq!(sb.reserve_next_free_port(0, 3, CLIENT), None);
    // After the TTL lapses, the ports are reclaimed on allocation.
    assert!(sb.reserve_next_free_port(60001, 4, CLIENT).is_some());
}

#[test]
fn proxy_mode_pasv_rendezvous() {
    let ctx = HandlerCtx {
        tls_configured: false,
        passive_ports_start: 50000,
        passive_ports_end: 50010,
        local_ip: Ipv4Addr { a: 10, b: 0, c: 0, d: 1 },
        storage_features: 0,
        proxy_mode: true,
    };
    let mut session = Session::new();
    session.state = libunftp::session::SessionState::WaitCmd;
    session.user = Some("u".to_string());

    // PASV defers; the switchboard reserves; the deferred 227 names a
    // port of the range, advertised under the external IP.
    let out = handle_command(Command::Pasv, &mut session, &ctx);
    assert!(matches!(out.effect, Some(Effect::ProxyAssignPort)));
    let mut sb = ProxyProtocolSwitchboard::new(50000, 50010);
    let port = sb.reserve_next_free_port(0, 7, CLIENT).unwrap();
    let external = Ipv4Addr { a: 10, b: 0, c: 0, d: 1 };
    let msg = proxy_pasv_apply(&mut session, external, Some(port));
    assert!(session.data_conn);
    match &msg {
        InternalMsg::CommandChannelReply { code, msg } => {
            assert_eq!(*code, ReplyCode::EnteringPassiveMode);
            let inner = msg
                .strip_prefix("Entering Passive Mode (")
                .and_then(|m| m.strip_suffix(")"))
                .expect("well-formed 227 text");
            let parts: Vec<u32> = inner.split(',').map(|p| p.parse().unwrap()).collect();
            assert_eq!(&parts[0..4], &[10, 0, 0, 1]);
            let advertised = parts[4] * 256 + parts[5];
            assert_eq!(advertised, port as u32);
            assert!((50000..=50010).contains(&(advertised as u16)));
        }
        _ => panic!("the deferred reply must be a command-channel reply"),
    }
    let out = handle_event(Event::InternalMsg { msg }, &mut session, &ctx);
    assert_eq!(out.reply.code(), Some(ReplyCode::EnteringPassiveMode));

    // The matching data connection pairs; a mismatched source does not.
    assert_eq!(sb.get_session_by_incoming_data_connection(CLIENT, port), Some(7));
    assert_eq!(sb.get_session_by_incoming_data_connection(OTHER, port), None);
    sb.unregister(CLIENT, port);
    assert_eq!(sb.get_session_by_incoming_data_connection(CLIENT, port), None);
}

#[test]
fn switchboard_exhaustion_defers_425() {
    let mut session = Session::new();
    let msg = proxy_pasv_apply(&mut session, CLIENT, None);
    assert!(!session.data_conn);
    match msg {
        InternalMsg::CommandChannelReply { code, msg } => {
            assert_eq!(code, ReplyCode::CantOpenDataConnection);
            assert_eq!(msg, "No data ports available");
        }
        _ => panic!("exhaustion must carry a deferred 425"),
    }
}

#[test]
fn classify_connections() {
    let params = ProxyParams::new(Ipv4Addr { a: 10, b: 0, c: 0, d: 1 }, 2121);
    let mk = |to_port: u16| ConnectionTuple {
        from_ip: CLIENT,
        from_port: 56324,
        to_ip: Ipv4Addr { a: 10, b: 0, c: 0, d: 1 },
        to_port,
    };
    assert_eq!(
        classify_proxy_connection(&mk(2121), &params, 50000, 50010),
        ProxyConnClass::Control
    );
    assert_eq!(
        classify_proxy_connection(&mk(50005), &params, 50000, 50010),
        ProxyConnClass::Data
    );
    assert_eq!(
        classify_proxy_connection(&mk(80), &params, 50000, 50010),
        ProxyConnClass::Reject
    );
}

#[test]
fn v1_header_parses() {
    let line = b"PROXY TCP4 10.0.0.5 10.0.0.1 56324 2121\r\n";
    let t = parse_proxy_v1(line).expect("a well-formed header");
    assert_eq!(t.from_ip, CLIENT);
    assert_eq!(t.from_port, 56324);
    assert_eq!(t.to_ip, Ipv4Addr { a: 10, b: 0, c: 0, d: 1 });
    assert_eq!(t.to_port, 2121);
}

#[test]
fn v1_header_rejects_malformed_lines() {
    // Leading zeroes are not allowed.
    assert!(parse_proxy_v1(b"PROXY TCP4 01.0.0.5 10.0.0.1 56324 2121\r\n").is_none());
    // Octets and ports must stay in range.
    assert!(parse_proxy_v1(b"PROXY TCP4 256.0.0.5 10.0.0.1 56324 2121\r\n").is_none());
    assert!(parse_proxy_v1(b"PROXY TCP4 10.0.0.5 10.0.0.1 70000 2121\r\n").is_none());
    // Only TCP over IPv4 is accepted.
    assert!(parse_proxy_v1(b"PROXY UNKNOWN\r\n").is_none());
    assert!(parse_proxy_v1(b"PROXY TCP6 ::1 ::1 1 2\r\n").is_none());
    // The line must end right after the header.
    assert!(parse_proxy_v1(b"PROXY TCP4 10.0.0.5 10.0.0.1 56324 2121").is_none());
    assert!(parse_proxy_v1(b"PROXY TCP4 10.0.0.5 10.0.0.1 56324 2121\r\nmore").is_none());
    // Missing fields.
    assert!(parse_proxy_v1(b"PROXY TCP4 10.0.0.5 10.0.0.1 56324\r\n").is_none());
}

fn v2_header(len_extra: u8) -> Vec<u8> {
    let mut h: Vec<u8> = vec![13, 10, 13, 10, 0, 13, 10, 81, 85, 73, 84, 10];
    h.push(0x21);
    h.push(0x11);
    h.push(0);
    h.push(12 + len_extra);
    h.extend_from_slice(&[10, 0, 0, 5]); // source address
    h.extend_from_slice(&[10, 0, 0, 1]); // destination address
    h.extend_from_slice(&[0xDC, 0x04]); // source port 56324
    h.extend_from_slice(&[0x08, 0x49]); // destination port 2121
    for _ in 0..len_extra {
        h.push(0xAA);
    }
    h
}

#[test]
fn v2_header_parses() {
    let h = v2_header(0);
    let (t, consumed) = parse_proxy_v2(&h).expect("a well-formed header");
    assert_eq!(consumed, 28);
    assert_eq!(t.from_ip, CLIENT);
    assert_eq!(t.from_port, 56324);
    assert_eq!(t.to_ip, Ipv4Addr { a: 10, b: 0, c: 0, d: 1 });
    assert_eq!(t.to_port, 2121);
}

#[test]
fn v2_header_skips_vendor_bytes() {
    let mut h = v2_header(3);
    h.extend_from_slice(b"payload after the header");
    let (t, consumed) = parse_proxy_v2(&h).expect("a well-formed header");
    assert_eq!(consumed, 31);
    assert_eq!(t.to_port, 2121);
}

#[test]
fn v2_header_rejects_malformed_input() {
    // Truncated.
    assert!(parse_proxy_v2(&v2_header(0)[..20]).is_none());
    // Wrong signature.
    let mut h = v2_header(0);
    h[0] = 0;
    assert!(parse_proxy_v2(&h).is_none());
    // Wrong version or family.
    let mut h = v2_header(0);
    h[12] = 0x20;
    assert!(parse_proxy_v2(&h).is_none());
    let mut h = v2_header(0);
    h[13] = 0x21; // IPv6
    assert!(parse_proxy_v2(&h).is_none());
    // Declared length shorter than the address block.
    let mut h = v2_header(0);
    h[15] = 11;
    assert!(parse_proxy_v2(&h).is_none());
    // Declared length past the available bytes.
    let mut h = v2_header(0);
    h[15] = 13;
    assert!(parse_proxy_v2(&h).is_none());
}

#[test]
fn v1_header_extreme_values() {
    let t = parse_proxy_v1(b"PROXY TCP4 255.255.255.255 0.0.0.0 65535 1\r\n").unwrap();
    assert_eq!(t.from_ip, Ipv4Addr { a: 255, b: 255, c: 255, d: 255 });
    assert_eq!(t.from_port, 65535);
    assert_eq!(t.to_ip, Ipv4Addr { a: 0, b: 0, c: 0, d: 0 });
    assert_eq!(t.to_port, 1);
    // One past the top of the port range, and an over-long digit run.
    assert!(parse_proxy_v1(b"PROXY TCP4 1.2.3.4 5.6.7.8 65536 1\r\n").is_none());
    assert!(parse_proxy_v1(b"PROXY TCP4 1.2.3.4 5.6.7.8 123456 1\r\n").is_none());
    // Port zero spelled with a leading zero.
    assert!(parse_proxy_v1(b"PROXY TCP4 1.2.3.4 5.6.7.8 01 1\r\n").is_none());
}
