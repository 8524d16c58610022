use rustproxy::pool::ConnectionPool;
use rustproxy::proxy_config::{load_config, Address, ProxyConfig};
use rustproxy::raw_echo::echo_chunk;
use rustproxy::relay::{
    connect_verdict, idle_expired, session_result, ConnectVerdict, CopyCounter, SessionResult,
    TransferOutcome, UpstreamOutcome,
};
use rustproxy::upstream::{recycle_verdict, ReadProbe, TcpConnectionManager};

#[test]
fn address_to_string() {
    let a = Address { address: "10.0.0.1".to_string(), port: 65535 };
    assert_eq!(a.to_string(), "10.0.0.1:65535");
    let b = Address { address: "localhost".to_string(), port: 0 };
    assert_eq!(b.to_string(), "localhost:0");
}

#[test]
fn proxy_defaults() {
    let c = ProxyConfig::default();
    assert_eq!(c.listen.to_string(), "127.0.0.1:8080");
    assert_eq!(c.upstream.to_string(), "127.0.0.1:9090");
}

#[test]
fn load_config_prefers_parsed() {
    let parsed = ProxyConfig {
        listen: Address { address: "0.0.0.0".to_string(), port: 1 },
        upstream: Address { address: "example".to_string(), port: 2 },
    };
    let c = load_config(Some(parsed));
    assert_eq!(c.listen.to_string(), "0.0.0.0:1");
    assert_eq!(c.upstream.to_string(), "example:2");
    let d = load_config(None);
    assert_eq!(d.upstream.to_string(), "127.0.0.1:9090");
}

#[test]
fn pool_hands_back_last_released() {
    let mut p: ConnectionPool<u32> = ConnectionPool::new("127.0.0.1:9090", 2);
    assert_eq!(p.upstream_addr(), "127.0.0.1:9090");
    assert_eq!(p.reserve(), None);
    p.release(1);
    p.release(2);
    assert_eq!(p.size(), 2);
    assert_eq!(p.reserve(), Some(2));
    assert_eq!(p.reserve(), Some(1));
    assert_eq!(p.reserve(), None);
}

#[test]
fn full_pool_drops_connections() {
    let mut p: ConnectionPool<u32> = ConnectionPool::new("up", 1);
    p.release(1);
    p.release(2);
    assert_eq!(p.size(), 1);
    assert_eq!(p.reserve(), Some(1));
    let mut z: ConnectionPool<u32> = ConnectionPool::new("up", 0);
    z.release(3);
    assert_eq!(z.size(), 0);
}

#[test]
fn manager_numbers_connections() {
    let m = TcpConnectionManager::new("127.0.0.1:9090".to_string());
    assert_eq!(m.upstream_addr(), "127.0.0.1:9090");
    assert_eq!(m.connection_number(), 1);
    assert_eq!(m.connection_number(), 1);
}

#[test]
fn recycle_verdicts() {
    assert_eq!(recycle_verdict(&ReadProbe::WouldBlock), Ok(()));
    assert_eq!(recycle_verdict(&ReadProbe::Read(0)), Err("Connection closed".to_string()));
    assert_eq!(
        recycle_verdict(&ReadProbe::Read(1)),
        Err("Unexpected data from upstream".to_string())
    );
    assert_eq!(
        recycle_verdict(&ReadProbe::Failed("reset".to_string())),
        Err("Connection Error: reset".to_string())
    );
}

#[test]
fn echo_chunks() {
    let buf = [1u8, 2, 3, 4];
    assert_eq!(echo_chunk(&buf, 0), None);
    assert_eq!(echo_chunk(&buf, 3), Some(vec![1, 2, 3]));
    assert_eq!(echo_chunk(&buf, 4), Some(vec![1, 2, 3, 4]));
}

#[test]
fn copy_counter() {
    let mut c = CopyCounter::new();
    assert!(c.on_read(5));
    assert!(c.on_read(7));
    assert!(!c.on_read(0));
    assert_eq!(c.total(), 12);
}

#[test]
fn idle_limit() {
    assert!(!idle_expired(60, 60));
    assert!(idle_expired(61, 60));
}

#[test]
fn connect_verdicts() {
    assert!(matches!(connect_verdict(&UpstreamOutcome::Connected), ConnectVerdict::Relay));
    match connect_verdict(&UpstreamOutcome::Failed("refused".to_string())) {
        ConnectVerdict::NotConnected { notice } => {
            assert_eq!(notice, "Failed to connecto to upstream: refused")
        }
        _ => panic!("expected NotConnected"),
    }
    match connect_verdict(&UpstreamOutcome::TimedOut) {
        ConnectVerdict::TimedOut { message } => assert_eq!(message, "upstream connection timeout"),
        _ => panic!("expected TimedOut"),
    }
}

#[test]
fn session_results() {
    assert!(matches!(session_result(TransferOutcome::Done(3, 4)), SessionResult::Complete(3, 4)));
    assert!(matches!(session_result(TransferOutcome::Failed), SessionResult::CopyError));
    match session_result(TransferOutcome::IdleTimeout) {
        SessionResult::TimedOut { message } => assert_eq!(message, "idle timeout"),
        _ => panic!("expected TimedOut"),
    }
}
