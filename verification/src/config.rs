//! Start-up configuration: the listening port, the database location.

use vstd::prelude::*;
use crate::text::{decimal, parse_u16, parse_u16_spec, push_decimal, str_eq};

verus! {

/// Port used when neither the command line nor the environment names one.
pub const DEFAULT_PORT: u16 = 3000;

/// Whether a command-line argument asks for a port: `-p` or `--port`.
pub open spec fn is_port_flag(a: Seq<char>) -> bool {
    a == "-p"@ || a == "--port"@
}

/// The port given on the command line: the argument after the first `-p` or
/// `--port`, when there is one and it parses as a `u16`.
pub fn parse_port_flag(args: &Vec<String>) -> (r: Option<u16>)
    ensures
        (forall|i: int| 0 <= i < args@.len() ==> !is_port_flag(#[trigger] args@[i]@)) ==> r
            is None,
        forall|i: int|
            0 <= i < args@.len() && is_port_flag(#[trigger] args@[i]@) && (forall|j: int|
                0 <= j < i ==> !is_port_flag(args@[j]@)) ==> r == (if i + 1 < args@.len() {
                parse_u16_spec(args@[i + 1]@)
            } else {
                None
            }),
{
    let n = args.len();
    let mut i: usize = 0;
    while i < n
        invariant
            n == args@.len(),
            i <= n,
            forall|j: int| 0 <= j < i ==> !is_port_flag(#[trigger] args@[j]@),
        decreases n - i,
    {
        let a = args[i].as_str();
        if str_eq(a, "-p") || str_eq(a, "--port") {
            if i + 1 < n {
                return parse_u16(args[i + 1].as_str());
            } else {
                return None;
            }
        }
        i = i + 1;
    }
    None
}

/// The port to listen on: the command-line flag, else the `PORT` variable's
/// value when it parses as a `u16`, else 3000.
pub open spec fn chosen_port(flag: Option<u16>, env: Option<Seq<char>>) -> u16 {
    match flag {
        Some(p) => p,
        None => match env {
            Some(v) => match parse_u16_spec(v) {
                Some(p) => p,
                None => DEFAULT_PORT,
            },
            None => DEFAULT_PORT,
        },
    }
}

pub fn listen_port(flag: Option<u16>, env: Option<&str>) -> (r: u16)
    ensures
        r == chosen_port(
            flag,
            match env {
                Some(v) => Some(v@),
                None => None,
            },
        ),
{
    match flag {
        Some(p) => p,
        None => match env {
            Some(v) => match parse_u16(v) {
                Some(p) => p,
                None => DEFAULT_PORT,
            },
            None => DEFAULT_PORT,
        },
    }
}

/// The address the server binds: all interfaces, on `port`.
pub fn listen_address(port: u16) -> (r: String)
    ensures
        r@ == "0.0.0.0:"@ + decimal(port as nat),
{
    let mut s = String::from_str("0.0.0.0:");
    push_decimal(&mut s, port as u64);
    s
}

/// The database URL: `DATABASE_URL` when set, else a file under `./data`.
pub fn database_url(env: Option<String>) -> (r: String)
    ensures
        r@ == (match env {
            Some(v) => v@,
            None => "sqlite://./data/co2.db"@,
        }),
{
    match env {
        Some(v) => v,
        None => String::from_str("sqlite://./data/co2.db"),
    }
}

/// The file path of a `sqlite://` URL; `None` for any other URL.
pub fn sqlite_file_path(url: &str) -> (r: Option<&str>)
    ensures
        r is Some <==> (url@.len() >= 9 && url@.subrange(0, 9) == "sqlite://"@),
        r matches Some(p) ==> p@ == url@.subrange(9, url@.len() as int),
{
    let len = url.unicode_len();
    if len < 9 {
        proof {
            reveal_strlit("sqlite://");
        }
        return None;
    }
    let head = url.substring_char(0, 9);
    if str_eq(head, "sqlite://") {
        Some(url.substring_char(9, len))
    } else {
        None
    }
}

} // verus!
