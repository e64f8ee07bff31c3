//! The two sockets of a connection and the requests made on it directly.

use vstd::prelude::*;

use crate::items::{Method, ToastRequest};

verus! {

/// A connection to the GUI service: `main` carries requests and their
/// replies, `event` carries the events that the service sends.
#[derive(Debug, Clone, Copy, PartialEq, Eq, Structural)]
pub struct Connection {
    pub main: i32,
    pub event: i32,
}

/// The byte that asks the service to speak protobuf on a new connection.
pub const PROTOCOL_PROTOBUF: u8 = 0;

/// The length of the random names of the two sockets.
pub const SOCKET_NAME_LEN: usize = 50;

/// A letter `A`-`Z` or `a`-`z`, or a digit `0`-`9`.
pub open spec fn is_ascii_alphanumeric(c: char) -> bool {
    ('A' <= c && c <= 'Z') || ('a' <= c && c <= 'z') || ('0' <= c && c <= '9')
}

/// `len` random characters, by `rand`'s `Alphanumeric::sample_string` on the
/// thread's generator: each is drawn from `A`-`Z`, `a`-`z` and `0`-`9`.
/// Which ones are drawn is left open.
#[verifier::external_body]
fn random_alphanumeric(len: usize) -> (s: String)
    ensures
        s@.len() == len,
        forall|i: int| 0 <= i < len ==> is_ascii_alphanumeric(#[trigger] s@[i]),
{
    rand::distributions::DistString::sample_string(
        &rand::distributions::Alphanumeric,
        &mut rand::thread_rng(),
        len,
    )
}

impl Connection {
    /// A fresh random name for one of the connection's sockets: fifty
    /// letters and digits.
    pub fn socket_name() -> (s: String)
        ensures
            s@.len() == SOCKET_NAME_LEN,
            forall|i: int| 0 <= i < s@.len() ==> is_ascii_alphanumeric(#[trigger] s@[i]),
    {
        random_alphanumeric(SOCKET_NAME_LEN)
    }

    /// The arguments of `am` that ask the service to connect to the
    /// sockets named `main_addr` and `event_addr`.
    pub fn broadcast_args(main_addr: &str, event_addr: &str) -> (args: Vec<String>)
        ensures
            args@.len() == 9,
            args@[0]@ == "broadcast"@,
            args@[1]@ == "-n"@,
            args@[2]@ == "com.termux.gui/.GUIReceiver"@,
            args@[3]@ == "--es"@,
            args@[4]@ == "mainSocket"@,
            args@[5]@ == main_addr@,
            args@[6]@ == "--es"@,
            args@[7]@ == "eventSocket"@,
            args@[8]@ == event_addr@,
    {
        let mut args: Vec<String> = Vec::new();
        args.push(String::from_str("broadcast"));
        args.push(String::from_str("-n"));
        args.push(String::from_str("com.termux.gui/.GUIReceiver"));
        args.push(String::from_str("--es"));
        args.push(String::from_str("mainSocket"));
        args.push(String::from_str(main_addr));
        args.push(String::from_str("--es"));
        args.push(String::from_str("eventSocket"));
        args.push(String::from_str(event_addr));
        args
    }

    /// The request that shows `text` as a notice, a long one where `long`.
    pub fn toast_request(text: String, long: bool) -> (m: Method)
        ensures
            m == Method::Toast(ToastRequest { text, long }),
    {
        Method::Toast(ToastRequest { text, long })
    }
}

} // verus!
