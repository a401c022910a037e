use vstd::prelude::*;

use std::time::Duration;

use crate::socket::ConnectedSocket;

verus! {

/// The OS's receive-timeout value: whole seconds and microseconds.
#[derive(Clone, Copy, Debug, PartialEq, Eq, Structural)]
pub struct Timeval {
    pub tv_sec: i64,
    pub tv_usec: i64,
}

/// Relies on `Duration::as_secs`: the whole seconds of the duration.
pub assume_specification[ core::time::Duration::as_secs ](d: &Duration) -> u64;

/// Relies on `Duration::subsec_nanos`: the fractional part in nanoseconds,
/// which the documentation gives as always less than one billion.
pub assume_specification[ core::time::Duration::subsec_nanos ](d: &Duration) -> (r: u32)
    ensures
        r < 1_000_000_000,
;

/// The timeout of `secs` seconds and `nanos` nanoseconds, with the
/// nanoseconds cut down to whole microseconds. The seconds are carried
/// into the signed field bit for bit.
pub fn timeval_of(secs: u64, nanos: u32) -> (r: Timeval)
    ensures
        r.tv_sec == secs as i64,
        secs <= i64::MAX ==> r.tv_sec == secs,
        r.tv_usec == nanos / 1000,
{
    Timeval { tv_sec: secs as i64, tv_usec: (nanos / 1000) as i64 }
}

/// A receive timeout that can be put on a socket handle, connected or not.
pub trait SetTimeout {
    /// Installs `tv` as the handle's receive timeout, at the socket level.
    fn set_receive_timeout(&self, tv: Timeval);

    /// Makes receives on the handle fail once `timeout` has passed without
    /// a datagram.
    fn set_timeout(&self, timeout: Duration) {
        let tv = timeval_of(timeout.as_secs(), timeout.subsec_nanos());
        self.set_receive_timeout(tv);
    }
}

impl<S: SetTimeout> SetTimeout for ConnectedSocket<S> {
    fn set_receive_timeout(&self, tv: Timeval) {
        self.get_ref().set_receive_timeout(tv);
    }
}

} // verus!
