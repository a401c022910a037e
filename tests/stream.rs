use std::cell::Cell;
use std::time::Duration;

use connected_udp::{timeval_of, AddrFamily, ConnectedSocket, Error, SetTimeout, Timeval};

struct Recorder {
    installed: Cell<Option<Timeval>>,
}

impl SetTimeout for Recorder {
    fn set_receive_timeout(&self, tv: Timeval) {
        self.installed.set(Some(tv));
    }
}

fn recorder() -> Recorder {
    Recorder { installed: Cell::new(None) }
}

#[test]
fn connect_succeeds_only_on_zero() {
    match ConnectedSocket::connected(7u32, 0) {
        Ok(c) => {
            assert_eq!(*c.get_ref(), 7);
            assert_eq!(c.into_inner(), 7);
        },
        Err(_) => panic!("connect returning zero is success"),
    }
    for ret in [-1, 1] {
        match ConnectedSocket::connected(7u32, ret) {
            Err(e) => assert_eq!(e, Error::ConnectFailed),
            Ok(_) => panic!("connect returning {} accepted", ret),
        }
    }
}

#[test]
fn read_outcomes() {
    let c = ConnectedSocket::connected((), 0).ok().unwrap();
    assert_eq!(c.read(4, 0), Ok(4));
    assert_eq!(c.read(3, 0), Ok(3));
    assert_eq!(c.read(0, 0), Err(Error::Closed));
    assert_eq!(c.read(-1, 11), Err(Error::Os(11)));
}

#[test]
fn write_outcomes() {
    let mut c = ConnectedSocket::connected((), 0).ok().unwrap();
    assert_eq!(c.write(4, 4, 0), Ok(4));
    assert_eq!(c.write(3, 4, 90), Err(Error::Os(90)));
    assert_eq!(c.write(-1, 4, 111), Err(Error::Os(111)));
    assert_eq!(c.write(0, 0, 0), Ok(0));
    assert_eq!(c.flush(), Ok(()));
}

#[test]
fn timeval_splits_seconds_and_microseconds() {
    assert_eq!(timeval_of(2, 500_000_000), Timeval { tv_sec: 2, tv_usec: 500_000 });
    assert_eq!(timeval_of(0, 999), Timeval { tv_sec: 0, tv_usec: 0 });
    assert_eq!(timeval_of(0, 999_999_999), Timeval { tv_sec: 0, tv_usec: 999_999 });
    assert_eq!(timeval_of(u64::MAX, 0).tv_sec, -1);
}

#[test]
fn set_timeout_installs_the_converted_duration() {
    let r = recorder();
    r.set_timeout(Duration::from_millis(1500));
    assert_eq!(r.installed.get(), Some(Timeval { tv_sec: 1, tv_usec: 500_000 }));
}

#[test]
fn set_timeout_reaches_a_connected_handle() {
    let c = ConnectedSocket::connected(recorder(), 0).ok().unwrap();
    c.set_timeout(Duration::new(3, 250_000));
    assert_eq!(c.get_ref().installed.get(), Some(Timeval { tv_sec: 3, tv_usec: 250 }));
}

#[test]
fn errors_describe_themselves() {
    assert_eq!(Error::NoAddresses.message(), "no addresses to connect to");
    assert_eq!(Error::AddrConversion(AddrFamily::Inet6).message(), "calling inet_pton() for ipv6");
    assert_eq!(Error::ConnectFailed.message(), "error calling connect()");
    assert_eq!(Error::Closed.message(), "connection is closed");
}
