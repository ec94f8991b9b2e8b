//! Who may change data: only clients on the loopback interface.

use vstd::prelude::*;

verus! {

/// The IP address of a client: four octets, or eight 16-bit segments.
#[derive(Clone, Copy, Debug, PartialEq)]
pub enum IpAddress {
    V4([u8; 4]),
    V6([u16; 8]),
}

impl IpAddress {
    /// Loopback: 127.0.0.0/8 for IPv4, `::1` alone for IPv6.
    pub open spec fn loopback(self) -> bool {
        match self {
            IpAddress::V4(o) => o@[0] == 127,
            IpAddress::V6(s) => s@ == seq![0u16, 0u16, 0u16, 0u16, 0u16, 0u16, 0u16, 1u16],
        }
    }

    pub fn is_loopback(&self) -> (r: bool)
        ensures
            r == self.loopback(),
            self matches IpAddress::V4(o) ==> (r <==> o[0] == 127u8),
            self matches IpAddress::V6(g) ==> (r <==> (g[0] == 0u16 && g[1] == 0u16 && g[2] == 0u16
                && g[3] == 0u16 && g[4] == 0u16 && g[5] == 0u16 && g[6] == 0u16 && g[7] == 1u16)),
    {
        match self {
            IpAddress::V4(o) => o[0] == 127,
            IpAddress::V6(s) => {
                let r = s[0] == 0 && s[1] == 0 && s[2] == 0 && s[3] == 0 && s[4] == 0 && s[5] == 0
                    && s[6] == 0 && s[7] == 1;
                assert(r == (s@ =~= seq![0u16, 0u16, 0u16, 0u16, 0u16, 0u16, 0u16, 1u16]));
                r
            },
        }
    }
}

/// The HTTP statuses the dashboard answers with.
#[derive(Clone, Copy, PartialEq, Eq, Debug, Structural)]
pub enum HttpStatus {
    Success,
    Created,
    NoContent,
    SeeOther,
    Forbidden,
    NotFound,
    InternalServerError,
}

impl HttpStatus {
    pub open spec fn number(self) -> u16 {
        match self {
            HttpStatus::Success => 200,
            HttpStatus::Created => 201,
            HttpStatus::NoContent => 204,
            HttpStatus::SeeOther => 303,
            HttpStatus::Forbidden => 403,
            HttpStatus::NotFound => 404,
            HttpStatus::InternalServerError => 500,
        }
    }

    /// The numeric status code.
    pub fn code(&self) -> (r: u16)
        ensures
            r == self.number(),
    {
        match self {
            HttpStatus::Success => 200,
            HttpStatus::Created => 201,
            HttpStatus::NoContent => 204,
            HttpStatus::SeeOther => 303,
            HttpStatus::Forbidden => 403,
            HttpStatus::NotFound => 404,
            HttpStatus::InternalServerError => 500,
        }
    }
}

/// Admits loopback clients; refuses every other client with 403 Forbidden.
pub fn guard(addr: &IpAddress) -> (r: Result<(), HttpStatus>)
    ensures
        r is Ok <==> addr.loopback(),
        r matches Err(e) ==> e == HttpStatus::Forbidden,
        addr matches IpAddress::V4(o) ==> (r is Ok <==> o[0] == 127u8),
        addr matches IpAddress::V6(g) ==> (r is Ok <==> (g[0] == 0u16 && g[1] == 0u16 && g[2] == 0u16
            && g[3] == 0u16 && g[4] == 0u16 && g[5] == 0u16 && g[6] == 0u16 && g[7] == 1u16)),
{
    if addr.is_loopback() {
        Ok(())
    } else {
        Err(HttpStatus::Forbidden)
    }
}

} // verus!
