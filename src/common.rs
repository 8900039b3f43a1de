//! The codes of the SOCKS protocol messages.

use vstd::prelude::*;

verus! {

#[derive(Debug, Clone, Copy, PartialEq, Eq, Structural)]
pub enum VersionType {
    Socks4,
    Socks5,
    SocksReply,
}

impl VersionType {
    /// The version byte on the wire.
    pub fn code(&self) -> (r: u8)
        ensures
            r == match *self {
                VersionType::Socks4 => 4u8,
                VersionType::Socks5 => 5u8,
                VersionType::SocksReply => 0u8,
            },
    {
        match self {
            VersionType::Socks4 => 4,
            VersionType::Socks5 => 5,
            VersionType::SocksReply => 0,
        }
    }
}

#[derive(Debug, Clone, Copy, PartialEq, Eq, Structural)]
pub enum RequestType {
    Unknown,
    Connect,
    Bind,
}

/// The request named by a command byte; any byte but 1 and 2 is unknown.
pub open spec fn request_of(v: u8) -> RequestType {
    if v == 1 {
        RequestType::Connect
    } else if v == 2 {
        RequestType::Bind
    } else {
        RequestType::Unknown
    }
}

impl RequestType {
    /// The command byte on the wire.
    pub fn code(&self) -> (r: u8)
        ensures
            r == match *self {
                RequestType::Unknown => 0u8,
                RequestType::Connect => 1u8,
                RequestType::Bind => 2u8,
            },
            *self != RequestType::Unknown ==> request_of(r) == *self,
    {
        match self {
            RequestType::Unknown => 0,
            RequestType::Connect => 1,
            RequestType::Bind => 2,
        }
    }
}

impl From<u8> for RequestType {
    fn from(v: u8) -> (r: Self)
        ensures
            r == request_of(v),
    {
        match v {
            1 => RequestType::Connect,
            2 => RequestType::Bind,
            _ => RequestType::Unknown,
        }
    }
}

impl vstd::std_specs::convert::FromSpecImpl<u8> for RequestType {
    open spec fn obeys_from_spec() -> bool {
        true
    }

    open spec fn from_spec(v: u8) -> RequestType {
        request_of(v)
    }
}

#[derive(Debug, Clone, Copy, PartialEq, Eq, Structural)]
pub enum ReplyType {
    Granted,
    Rejected,
    NoIndented,
    InvalidUser,
}

impl ReplyType {
    /// The reply byte on the wire.
    pub fn code(&self) -> (r: u8)
        ensures
            r == match *self {
                ReplyType::Granted => 90u8,
                ReplyType::Rejected => 91u8,
                ReplyType::NoIndented => 92u8,
                ReplyType::InvalidUser => 93u8,
            },
    {
        match self {
            ReplyType::Granted => 90,
            ReplyType::Rejected => 91,
            ReplyType::NoIndented => 92,
            ReplyType::InvalidUser => 93,
        }
    }
}

} // verus!
