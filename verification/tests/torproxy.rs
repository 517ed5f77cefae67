use torproxy::PoolError;
use torproxy::RelayAction;
use torproxy::RelayConn;
use torproxy::RotationAction;
use torproxy::RotationEvent;
use torproxy::RotationState;
use torproxy::TorProxyManager;
use torproxy::TorProxyPort;

fn pool_with_ports(count: u16, ports: &[u16]) -> TorProxyManager {
    let mut manager = TorProxyManager::new(Some(count));
    let supplied: Vec<u16> = ports.to_vec();
    manager
        .set_ports(&supplied)
        .expect("enough ports were supplied");
    manager
}

#[test]
fn new_defaults_to_recommended_count() {
    let manager = TorProxyManager::new(None);
    assert_eq!(manager.count(), 5);
    assert_eq!(manager.range_start(), 9000);
    assert_eq!(manager.range_end(), 9100);
    assert!(!manager.exceeds_recommended_count());
    let big = TorProxyManager::new(Some(6));
    assert!(big.exceeds_recommended_count());
}

#[test]
fn validate_range_rejects_reversed_bounds() {
    let manager = TorProxyManager::new(Some(2));
    assert_eq!(
        manager.set_ports_range(9004, 9000),
        Err(PoolError::StartAfterEnd)
    );
}

#[test]
fn validate_range_rejects_equal_bounds() {
    let manager = TorProxyManager::new(Some(2));
    assert_eq!(
        manager.set_ports_range(9000, 9000),
        Err(PoolError::EqualBounds)
    );
}

#[test]
fn validate_range_rejects_short_span() {
    let manager = TorProxyManager::new(Some(2));
    assert_eq!(
        manager.set_ports_range(9000, 9003),
        Err(PoolError::InsufficientSpan)
    );
    assert_eq!(manager.set_ports_range(9000, 9004), Ok(()));
}

#[test]
fn set_ports_pairs_in_scan_order() {
    let manager = pool_with_ports(2, &[9000, 9001, 9002, 9003]);
    assert_eq!(manager.ports.len(), 2);
    assert_eq!(manager.ports[0].control_port, 9000);
    assert_eq!(manager.ports[0].proxy_port, 9001);
    assert_eq!(manager.ports[1].control_port, 9002);
    assert_eq!(manager.ports[1].proxy_port, 9003);
    assert!(manager.ports[0].is_used_by_proxy);
    assert!(!manager.ports[0].use_in_progress);
}

#[test]
fn set_ports_fails_on_too_few_ports() {
    let mut manager = TorProxyManager::new(Some(2));
    let supplied: Vec<u16> = vec![9000, 9001, 9002];
    assert_eq!(
        manager.set_ports(&supplied),
        Err(PoolError::InsufficientPorts)
    );
    assert!(manager.ports.is_empty());
}

#[test]
fn capacity_error_when_three_of_four_ports_available() {
    // Configured range 9000..9004 where the scan found only three of
    // the four ports free: capacity for two backends needs four.
    let mut manager = TorProxyManager::new(Some(2));
    let available: Vec<u16> = vec![9000, 9002, 9003];
    assert_eq!(
        manager.set_ports(&available),
        Err(PoolError::InsufficientPorts)
    );
}

#[test]
fn round_robin_visits_every_backend_once_then_wraps() {
    let mut manager = pool_with_ports(3, &[9000, 9001, 9002, 9003, 9004, 9005]);
    let mut seen: Vec<u16> = Vec::new();
    for _ in 0..3 {
        seen.push(manager.get_next_port().unwrap().control_port);
    }
    seen.sort();
    assert_eq!(seen, vec![9000, 9002, 9004]);
    // The fourth call returns the same backend as the first.
    assert_eq!(manager.get_next_port().unwrap().control_port, 9000);
}

#[test]
fn three_connections_select_backends_in_order() {
    let mut manager = pool_with_ports(2, &[9000, 9001, 9002, 9003]);
    let first = manager.get_next_port().unwrap();
    let second = manager.get_next_port().unwrap();
    let third = manager.get_next_port().unwrap();
    assert_eq!(first.control_port, 9000);
    assert_eq!(second.control_port, 9002);
    assert_eq!(third.control_port, 9000);
}

#[test]
fn get_next_port_on_empty_pool_returns_none() {
    let mut manager = TorProxyManager::new(Some(0));
    assert_eq!(manager.get_next_port(), None);
}

#[test]
fn scan_stays_in_range_without_duplicates() {
    let manager = TorProxyManager::new(Some(2));
    let found = manager.search_available_ports(4);
    assert!(found.len() <= 4);
    for (i, port) in found.iter().enumerate() {
        assert!((9000..9100).contains(port));
        if i > 0 {
            assert!(found[i - 1] < *port);
        }
    }
}

#[test]
fn scan_returns_at_most_max_needed() {
    let manager = TorProxyManager::new(Some(2));
    assert!(manager.search_available_ports(0).is_empty());
    let found = manager.search_available_ports(1);
    assert!(found.len() <= 1);
}

#[test]
fn start_fills_pool_from_scanned_range() {
    let mut manager = TorProxyManager::new(Some(2));
    match manager.start() {
        Ok(()) => {
            assert_eq!(manager.ports.len(), 2);
            for pair in manager.ports.iter() {
                assert!((9000..9100).contains(&pair.control_port));
                assert!((9000..9100).contains(&pair.proxy_port));
                assert!(pair.control_port < pair.proxy_port);
            }
            assert!(manager.ports[0].proxy_port < manager.ports[1].control_port);
        }
        Err(e) => {
            // Only a capacity shortage may stop startup, and then the
            // pool must stay empty rather than half-built.
            assert_eq!(e, PoolError::InsufficientPorts);
            assert!(manager.ports.is_empty());
        }
    }
}

#[test]
fn auth_line_bytes_are_exact() {
    assert_eq!(torproxy::auth_line(), b"authenticate \"tor\"\n".to_vec());
}

#[test]
fn signal_line_bytes_are_exact() {
    assert_eq!(torproxy::signal_line(), b"SIGNAL NEWNYM\n".to_vec());
}

#[test]
fn rotation_happy_path_sends_auth_then_signal() {
    let (s1, a1) = torproxy::rotation_step(RotationState::Connecting, RotationEvent::Connected);
    assert_eq!(s1, RotationState::Authenticating);
    assert_eq!(
        a1,
        RotationAction::SendLine(b"authenticate \"tor\"\n".to_vec())
    );
    let (s2, a2) = torproxy::rotation_step(s1, RotationEvent::WriteOk);
    assert_eq!(s2, RotationState::Signaling);
    assert_eq!(a2, RotationAction::SendLine(b"SIGNAL NEWNYM\n".to_vec()));
    let (s3, a3) = torproxy::rotation_step(s2, RotationEvent::WriteOk);
    assert_eq!(s3, RotationState::Done);
    assert_eq!(a3, RotationAction::Idle);
}

#[test]
fn rotation_failures_only_log() {
    let (s, a) = torproxy::rotation_step(RotationState::Connecting, RotationEvent::ConnectFailed);
    assert_eq!(s, RotationState::Done);
    assert_eq!(a, RotationAction::LogConnectError);
    let (s, a) = torproxy::rotation_step(RotationState::Authenticating, RotationEvent::WriteFailed);
    assert_eq!(s, RotationState::Done);
    assert_eq!(a, RotationAction::LogAuthError);
    let (s, a) = torproxy::rotation_step(RotationState::Signaling, RotationEvent::WriteFailed);
    assert_eq!(s, RotationState::Done);
    assert_eq!(a, RotationAction::LogSignalError);
    let (s, a) = torproxy::rotation_step(RotationState::Done, RotationEvent::Connected);
    assert_eq!(s, RotationState::Done);
    assert_eq!(a, RotationAction::Idle);
}

fn backend(control_port: u16, proxy_port: u16) -> TorProxyPort {
    TorProxyPort {
        control_port,
        proxy_port,
        is_used_by_proxy: true,
        use_in_progress: false,
    }
}

#[test]
fn relay_forwards_every_client_chunk_verbatim() {
    let mut conn = RelayConn::accept();
    conn.choose_backend(backend(9000, 9001));
    assert_eq!(conn.connect_backend(), RelayAction::OpenBackend(9001));
    assert_eq!(conn.on_connect_result(true), RelayAction::Idle);
    let chunks: [&[u8]; 3] = [b"GET ", b"/ HTTP/1.0", b"\r\n\r\n"];
    for chunk in chunks {
        let action = conn.on_client_bytes(chunk.to_vec());
        assert_eq!(action, RelayAction::ForwardToBackend(chunk.to_vec()));
    }
    let reply: &[u8] = b"HTTP/1.0 200 OK\r\n";
    assert_eq!(
        conn.on_backend_bytes(reply.to_vec()),
        RelayAction::ForwardToClient(reply.to_vec())
    );
}

#[test]
fn relay_rotates_exactly_once_on_completion() {
    let mut conn = RelayConn::accept();
    conn.choose_backend(backend(9000, 9001));
    let mut rotations = 0;
    let mut actions: Vec<RelayAction> = Vec::new();
    actions.push(conn.connect_backend());
    actions.push(conn.on_connect_result(true));
    actions.push(conn.on_client_bytes(vec![1, 2, 3]));
    actions.push(conn.on_client_dir_done());
    actions.push(conn.on_backend_dir_done());
    for action in &actions {
        if let RelayAction::Rotate(port) = action {
            assert_eq!(*port, 9000);
            rotations += 1;
        }
    }
    assert_eq!(rotations, 1);
    // The rotation comes with the transition that completed the relay.
    assert_eq!(actions.last().unwrap(), &RelayAction::Rotate(9000));
}

#[test]
fn relay_rotates_once_when_backend_errors() {
    let mut conn = RelayConn::accept();
    conn.choose_backend(backend(9002, 9003));
    conn.connect_backend();
    conn.on_connect_result(true);
    // The backend side fails first; the client side then ends too.
    assert_eq!(conn.on_backend_dir_done(), RelayAction::Idle);
    assert_eq!(conn.on_client_dir_done(), RelayAction::Rotate(9002));
}

#[test]
fn relay_rotates_when_backend_is_unreachable() {
    let mut conn = RelayConn::accept();
    conn.choose_backend(backend(9004, 9005));
    conn.connect_backend();
    assert_eq!(conn.on_connect_result(false), RelayAction::Rotate(9004));
}

#[test]
fn failed_rotation_does_not_stop_the_next_connection() {
    // The control port refuses the connection: the rotation attempt
    // ends in a log entry and nothing else.
    let (state, action) =
        torproxy::rotation_step(RotationState::Connecting, RotationEvent::ConnectFailed);
    assert_eq!(state, RotationState::Done);
    assert_eq!(action, RotationAction::LogConnectError);
    // The accept loop is unaffected: the next accepted connection
    // still selects a backend and relays.
    let mut manager = pool_with_ports(2, &[9000, 9001, 9002, 9003]);
    let next = manager.get_next_port().unwrap();
    let mut conn = RelayConn::accept();
    conn.choose_backend(next);
    assert_eq!(conn.connect_backend(), RelayAction::OpenBackend(9001));
    assert_eq!(conn.on_connect_result(true), RelayAction::Idle);
    assert_eq!(
        conn.on_client_bytes(b"ping".to_vec()),
        RelayAction::ForwardToBackend(b"ping".to_vec())
    );
}

#[test]
fn single_backend_pool_always_selects_it() {
    let mut manager = pool_with_ports(1, &[9000, 9001]);
    for _ in 0..4 {
        let selected = manager.get_next_port().unwrap();
        assert_eq!(selected.control_port, 9000);
        assert_eq!(selected.proxy_port, 9001);
    }
}

#[test]
fn set_ports_uses_only_the_first_pairs() {
    let manager = pool_with_ports(1, &[9000, 9001, 9002, 9003]);
    assert_eq!(manager.ports.len(), 1);
    assert_eq!(manager.ports[0].control_port, 9000);
    assert_eq!(manager.ports[0].proxy_port, 9001);
}

#[test]
fn zero_backends_build_an_empty_pool() {
    let mut manager = TorProxyManager::new(Some(0));
    let supplied: Vec<u16> = Vec::new();
    assert_eq!(manager.set_ports(&supplied), Ok(()));
    assert!(manager.ports.is_empty());
    assert_eq!(manager.get_next_port(), None);
}
