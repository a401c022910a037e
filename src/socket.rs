use vstd::prelude::*;

use crate::addr::{into_sockaddr_in, translation, Endpoint, RawAddress};
use crate::error::Error;

verus! {

/// A datagram socket whose default peer the OS has fixed. It owns the
/// handle `S`; reads and writes through it reach only that peer.
pub struct ConnectedSocket<S> {
    sock: S,
}

impl<S> ConnectedSocket<S> {
    /// The handle this socket owns.
    pub closed spec fn handle(&self) -> S {
        self.sock
    }

    /// Wraps `sock` once the OS's connect call on it returned `ret`:
    /// zero means the peer is fixed, anything else is a failure.
    pub fn connected(sock: S, ret: i32) -> (r: Result<ConnectedSocket<S>, Error>)
        ensures
            ret == 0 <==> r is Ok,
            r is Ok ==> r->Ok_0.handle() == sock,
            r is Err ==> r->Err_0 == Error::ConnectFailed,
    {
        if ret == 0 {
            Ok(ConnectedSocket { sock })
        } else {
            Err(Error::ConnectFailed)
        }
    }

    /// The handle this socket owns.
    pub fn get_ref(&self) -> (r: &S)
        ensures
            *r == self.handle(),
    {
        &self.sock
    }

    /// Gives up the connected socket, returning its handle.
    pub fn into_inner(self) -> (r: S)
        ensures
            r == self.handle(),
    {
        self.sock
    }

    /// Decides a read: a failed receive reports the OS's error, an empty one
    /// reports the peer gone, and otherwise the byte count received.
    pub fn read(&self, ret: isize, errno: i32) -> (r: Result<usize, Error>)
        ensures
            r == read_result(ret, errno),
    {
        if ret < 0 {
            Err(Error::Os(errno))
        } else if ret == 0 {
            Err(Error::Closed)
        } else {
            Ok(ret as usize)
        }
    }

    /// Decides a write: it succeeds only where the whole buffer went out as
    /// one datagram.
    pub fn write(&self, ret: isize, requested: usize, errno: i32) -> (r: Result<usize, Error>)
        ensures
            r == write_result(ret, requested, errno),
    {
        if ret >= 0 && ret as usize == requested {
            Ok(requested)
        } else {
            Err(Error::Os(errno))
        }
    }

    /// Nothing is buffered on this side, so there is nothing to flush.
    pub fn flush(&mut self) -> (r: Result<(), Error>)
        ensures
            r is Ok,
            final(self).handle() == old(self).handle(),
    {
        Ok(())
    }
}

/// The address to connect to: the first that resolution gave.
pub fn first_address(addrs: &Vec<Endpoint>) -> (r: Result<Endpoint, Error>)
    ensures
        addrs@.len() == 0 <==> r is Err,
        r is Err ==> r->Err_0 == Error::NoAddresses,
        r is Ok ==> r->Ok_0 == addrs@[0],
{
    if addrs.len() == 0 {
        Err(Error::NoAddresses)
    } else {
        Ok(addrs[0])
    }
}

/// The raw address to hand the OS's connect call, from what resolution gave
/// and what converting the first address's text reported.
pub fn connect_target(addrs: &Vec<Endpoint>, status: i32) -> (r: Result<RawAddress, Error>)
    ensures
        addrs@.len() == 0 ==> r == Err::<RawAddress, Error>(Error::NoAddresses),
        addrs@.len() > 0 ==> translation(r, addrs@[0], status),
{
    let ep = first_address(addrs)?;
    into_sockaddr_in(&ep, status)
}

/// What a read yields, where the OS's receive call returned `ret` and the
/// OS's last error number is `errno`.
pub open spec fn read_result(ret: isize, errno: i32) -> Result<usize, Error> {
    if ret < 0 {
        Err(Error::Os(errno))
    } else if ret == 0 {
        Err(Error::Closed)
    } else {
        Ok(ret as usize)
    }
}

/// What a write of `requested` bytes yields, where the OS's send call
/// returned `ret` and the OS's last error number is `errno`.
pub open spec fn write_result(ret: isize, requested: usize, errno: i32) -> Result<usize, Error> {
    if ret >= 0 && ret == requested {
        Ok(requested)
    } else {
        Err(Error::Os(errno))
    }
}

} // verus!
