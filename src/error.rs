use vstd::prelude::*;

use crate::addr::AddrFamily;

verus! {

/// Why an operation on a connected datagram socket failed.
#[derive(Clone, Copy, Debug, PartialEq, Eq, Structural)]
pub enum Error {
    /// Address resolution gave no address to connect to.
    NoAddresses,
    /// The textual address could not be converted to network form.
    AddrConversion(AddrFamily),
    /// The OS refused to fix the socket's default peer.
    ConnectFailed,
    /// The OS reported this error number.
    Os(i32),
    /// A receive returned no bytes: the peer is taken to be gone.
    Closed,
}

impl Error {
    /// A human-readable description of the error.
    pub fn message(&self) -> (r: &'static str)
        ensures
            *self == Error::NoAddresses ==> r@ == "no addresses to connect to"@,
            *self == Error::AddrConversion(AddrFamily::Inet) ==> r@ == "calling inet_pton() for ipv4"@,
            *self == Error::AddrConversion(AddrFamily::Inet6) ==> r@ == "calling inet_pton() for ipv6"@,
            *self == Error::ConnectFailed ==> r@ == "error calling connect()"@,
            *self is Os ==> r@ == "operating system error"@,
            *self == Error::Closed ==> r@ == "connection is closed"@,
    {
        match self {
            Error::NoAddresses => "no addresses to connect to",
            Error::AddrConversion(AddrFamily::Inet) => "calling inet_pton() for ipv4",
            Error::AddrConversion(AddrFamily::Inet6) => "calling inet_pton() for ipv6",
            Error::ConnectFailed => "error calling connect()",
            Error::Os(_) => "operating system error",
            Error::Closed => "connection is closed",
        }
    }
}

} // verus!
