//! Connected datagram sockets: fixing a datagram socket's default peer,
//! reading and writing through it with datagram framing kept, and a
//! receive timeout on any socket handle.
//!
//! The operating-system calls are made by the caller; this crate computes
//! what is handed to them and decides what their outcomes mean.

mod addr;
mod error;
mod socket;
mod timeout;

pub use addr::{
    be_bytes, conversion_succeeded, into_sockaddr_in, lemma_translation_deterministic,
    new_sockaddr_in, new_sockaddr_in6, raw_address_of, to_be, translation, AddrFamily, Endpoint,
    RawAddress, SockaddrV4, SockaddrV6, SOCKADDR_IN6_LEN, SOCKADDR_IN_LEN,
};
pub use error::Error;
pub use socket::{connect_target, first_address, read_result, write_result, ConnectedSocket};
pub use timeout::{timeval_of, SetTimeout, Timeval};
