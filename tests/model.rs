use capsicum_net::adapter::{plan_socket, SockType, SocketKind, SocketPlan};
use capsicum_net::address::{AddressFamily, Ipv4Endpoint, Ipv6Endpoint, SocketAddress};
use capsicum_net::error::{status_result, Error, ENOTCAPABLE};
use capsicum_net::fallback::{Resolution, Step};
use capsicum_net::limit::{Limit, LimitFlags, Operation, CAPNET_BIND, CAPNET_CONNECT};
use capsicum_net::policy::Policy;

const EAFNOSUPPORT: i32 = 47;
const EADDRINUSE: i32 = 48;
const EADDRNOTAVAIL: i32 = 49;

fn v4(a: u8, b: u8, c: u8, d: u8, port: u16) -> SocketAddress {
    SocketAddress::V4(Ipv4Endpoint::new(a, b, c, d, port))
}

fn path(p: &str) -> SocketAddress {
    SocketAddress::Unix(p.as_bytes().to_vec())
}

#[test]
fn ipv4_endpoint_bits() {
    assert_eq!(Ipv4Endpoint::new(127, 0, 0, 1, 8086).addr, 0x7f00_0001);
    assert_eq!(Ipv4Endpoint::new(127, 100, 0, 1, 80).addr, 0x7f64_0001);
    assert_eq!(Ipv4Endpoint::new(255, 255, 255, 255, 0).addr, u32::MAX);
    assert_eq!(Ipv4Endpoint::new(127, 0, 0, 1, 8086).port, 8086);
}

#[test]
fn address_families() {
    assert_eq!(v4(127, 0, 0, 1, 1).family(), AddressFamily::Inet);
    let six = SocketAddress::V6(Ipv6Endpoint { addr: 1, port: 1, flowinfo: 0, scope_id: 0 });
    assert_eq!(six.family(), AddressFamily::Inet6);
    assert!(!six.is_ipv4());
    assert_eq!(path("/tmp/sock").family(), AddressFamily::Unix);
}

#[test]
fn address_comparison() {
    assert!(v4(127, 0, 0, 1, 8000).same_as(&v4(127, 0, 0, 1, 8000)));
    assert!(!v4(127, 0, 0, 1, 8000).same_as(&v4(127, 0, 0, 1, 8001)));
    assert!(!v4(127, 0, 0, 1, 8000).same_as(&v4(127, 0, 0, 2, 8000)));
    assert!(path("/tmp/a/sock").same_as(&path("/tmp/a/sock")));
    assert!(!path("/tmp/a/sock").same_as(&path("/tmp/b/sock")));
    assert!(!path("/tmp/a/sock").same_as(&path("/tmp/a/sockx")));
    let a = SocketAddress::V6(Ipv6Endpoint { addr: 1, port: 9, flowinfo: 0, scope_id: 0 });
    let b = SocketAddress::V6(Ipv6Endpoint { addr: 1, port: 9, flowinfo: 0, scope_id: 2 });
    assert!(!a.same_as(&b));
    assert!(!a.same_as(&v4(0, 0, 0, 1, 9)));
    let copy = path("/var/run/foo.sock").duplicate();
    assert!(copy.same_as(&path("/var/run/foo.sock")));
}

#[test]
fn status_codes() {
    assert_eq!(status_result(0, 0), Ok(()));
    assert_eq!(status_result(0, EADDRINUSE), Ok(()));
    assert_eq!(status_result(-1, EADDRINUSE), Err(Error::Os(EADDRINUSE)));
    assert_eq!(status_result(-1, EAFNOSUPPORT), Err(Error::Os(EAFNOSUPPORT)));
    assert_eq!(Error::Os(EADDRNOTAVAIL).raw_os_error(), Some(EADDRNOTAVAIL));
    assert_eq!(Error::NoAddresses.raw_os_error(), None);
    assert!(!Error::Os(EADDRINUSE).is_invalid_input());
}

#[test]
fn limit_flag_bits() {
    assert_eq!(CAPNET_BIND, 0x20);
    assert_eq!(CAPNET_CONNECT, 0x10);
    assert_eq!(LimitFlags::of(Operation::Bind).bits(), 0x20);
    assert_eq!(LimitFlags::of(Operation::Connect).bits(), 0x10);
    let both = LimitFlags::of(Operation::Bind).union(LimitFlags::of(Operation::Connect));
    assert_eq!(both.bits(), 0x30);
    assert_eq!(LimitFlags::empty().bits(), 0);
    assert_eq!(LimitFlags::from_bits_truncate(0x31), both);
    assert_eq!(LimitFlags::from_bits_truncate(0x01), LimitFlags::empty());
    assert!(both.contains(Operation::Bind) && both.contains(Operation::Connect));
    assert!(!LimitFlags::of(Operation::Bind).contains(Operation::Connect));
}

#[test]
fn limit_builder_keeps_order() {
    let mut limit = Limit::new(LimitFlags::of(Operation::Bind));
    limit.bind(&v4(127, 0, 0, 1, 1)).bind(&v4(127, 0, 0, 1, 2));
    limit.connect(&v4(10, 0, 0, 1, 3));
    assert_eq!(limit.bind_addresses().len(), 2);
    assert!(limit.bind_addresses()[0].same_as(&v4(127, 0, 0, 1, 1)));
    assert!(limit.bind_addresses()[1].same_as(&v4(127, 0, 0, 1, 2)));
    assert_eq!(limit.connect_addresses().len(), 1);
    assert_eq!(limit.flags(), LimitFlags::of(Operation::Bind));
    assert!(limit.permits(Operation::Bind, &v4(127, 0, 0, 1, 2)));
    assert!(!limit.permits(Operation::Bind, &v4(127, 0, 0, 1, 3)));
    assert!(!limit.permits(Operation::Connect, &v4(10, 0, 0, 1, 3)));
}

#[test]
fn empty_allow_list_permits_no_address() {
    let mut policy = Policy::new();
    policy.install(Limit::new(LimitFlags::of(Operation::Bind)), 0, 0).unwrap();
    assert_eq!(policy.check(Operation::Bind, &v4(0, 0, 0, 0, 1)), Err(Error::Os(ENOTCAPABLE)));
    assert_eq!(policy.check(Operation::Connect, &v4(0, 0, 0, 0, 1)), Err(Error::Os(ENOTCAPABLE)));
}

#[test]
fn bind_list_does_not_allow_connect() {
    let a = v4(127, 0, 0, 1, 8025);
    let mut policy = Policy::new();
    let mut limit = Limit::new(LimitFlags::of(Operation::Bind).union(LimitFlags::of(Operation::Connect)));
    limit.bind(&a);
    policy.install(limit, 0, 0).unwrap();
    assert_eq!(policy.check(Operation::Bind, &a), Ok(()));
    assert_eq!(policy.check(Operation::Connect, &a), Err(Error::Os(ENOTCAPABLE)));
}

#[test]
fn limits_stack_and_only_narrow() {
    let a = v4(127, 0, 0, 1, 8020);
    let b = v4(127, 0, 0, 1, 8021);
    let mut policy = Policy::new();
    let mut first = Limit::new(LimitFlags::of(Operation::Bind));
    first.bind(&a).bind(&b);
    policy.install(first, 0, 0).unwrap();
    assert_eq!(policy.check(Operation::Bind, &a), Ok(()));
    assert_eq!(policy.check(Operation::Bind, &b), Ok(()));
    let mut second = Limit::new(LimitFlags::of(Operation::Bind).union(LimitFlags::of(Operation::Connect)));
    second.bind(&b);
    policy.install(second, 0, 0).unwrap();
    assert_eq!(policy.len(), 2);
    assert_eq!(policy.check(Operation::Bind, &a), Err(Error::Os(ENOTCAPABLE)));
    assert_eq!(policy.check(Operation::Bind, &b), Ok(()));
    assert_eq!(policy.check(Operation::Connect, &b), Err(Error::Os(ENOTCAPABLE)));
}

#[test]
fn refused_limit_is_not_installed() {
    let a = v4(127, 0, 0, 1, 8030);
    let mut policy = Policy::new();
    let mut limit = Limit::new(LimitFlags::of(Operation::Connect));
    limit.connect(&a);
    assert_eq!(policy.install(limit, -1, ENOTCAPABLE), Err(Error::Os(ENOTCAPABLE)));
    assert_eq!(policy.len(), 0);
    assert_eq!(policy.check(Operation::Bind, &a), Ok(()));
}

#[test]
fn fallback_first_success_ends_run() {
    let mut run = Resolution::new(vec![v4(127, 0, 0, 1, 1), v4(127, 0, 0, 1, 2), v4(127, 0, 0, 1, 3)]);
    assert_eq!(run.len(), 3);
    assert_eq!(run.step(), Step::Attempt(0));
    run.record(Err(Error::Os(EADDRINUSE)));
    assert_eq!(run.step(), Step::Attempt(1));
    assert!(run.candidate(1).same_as(&v4(127, 0, 0, 1, 2)));
    run.record(Ok(()));
    assert_eq!(run.step(), Step::Succeeded(1));
}

#[test]
fn fallback_all_fail_gives_last_error() {
    let mut run = Resolution::new(vec![v4(127, 0, 0, 1, 1), v4(127, 0, 0, 1, 2)]);
    assert_eq!(run.step(), Step::Attempt(0));
    run.record(Err(Error::Os(EADDRINUSE)));
    assert_eq!(run.step(), Step::Attempt(1));
    run.record(Err(Error::Os(EADDRNOTAVAIL)));
    assert_eq!(run.step(), Step::Failed(Error::Os(EADDRNOTAVAIL)));
}

#[test]
fn fallback_single_success() {
    let mut run = Resolution::new(vec![v4(127, 0, 0, 1, 1)]);
    assert_eq!(run.step(), Step::Attempt(0));
    run.record(Ok(()));
    assert_eq!(run.step(), Step::Succeeded(0));
}

#[test]
fn udp_bind_in_capability_mode() {
    let want = v4(127, 0, 0, 1, 8086);
    let policy = Policy::new();
    assert_eq!(policy.check(Operation::Bind, &want), Ok(()));
    let plan = plan_socket(SocketKind::UdpSocket, &want).unwrap();
    assert_eq!(plan, SocketPlan { family: AddressFamily::Inet, sock_type: SockType::Datagram, listen: false });
    let mut run = Resolution::new(vec![want.duplicate()]);
    assert_eq!(run.step(), Step::Attempt(0));
    run.record(status_result(0, 0));
    assert_eq!(run.step(), Step::Succeeded(0));
    assert!(run.candidate(0).same_as(&want));
}

#[test]
fn socket_plans() {
    let six = SocketAddress::V6(Ipv6Endpoint { addr: 1, port: 8040, flowinfo: 0, scope_id: 0 });
    assert_eq!(
        plan_socket(SocketKind::TcpListener, &six),
        Some(SocketPlan { family: AddressFamily::Inet6, sock_type: SockType::Stream, listen: true })
    );
    assert_eq!(
        plan_socket(SocketKind::TcpStream, &v4(127, 0, 0, 1, 8041)),
        Some(SocketPlan { family: AddressFamily::Inet, sock_type: SockType::Stream, listen: false })
    );
    assert_eq!(
        plan_socket(SocketKind::UnixListener, &path("/tmp/x/sock")),
        Some(SocketPlan { family: AddressFamily::Unix, sock_type: SockType::Stream, listen: true })
    );
    assert_eq!(
        plan_socket(SocketKind::UnixDatagram, &path("/tmp/x/sock")),
        Some(SocketPlan { family: AddressFamily::Unix, sock_type: SockType::Datagram, listen: false })
    );
    assert_eq!(plan_socket(SocketKind::UnixDatagram, &v4(127, 0, 0, 1, 1)), None);
    assert_eq!(plan_socket(SocketKind::UdpSocket, &path("/tmp/x/sock")), None);
}
