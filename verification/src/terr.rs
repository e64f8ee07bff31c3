//! The error type of the library.

use vstd::prelude::*;

verus! {

/// What a protocol operation can fail with.
#[derive(Debug)]
pub enum TguiErr {
    /// A refusal of the other side or a failed step, with its description.
    Msg(&'static str),
    /// A message body that did not decode.
    Decode(prost::DecodeError),
    /// An error of the operating system while starting the connection.
    IoError(std::io::Error),
    /// An error of a socket call.
    Errno(nix::errno::Errno),
    /// A length prefix of zero.
    ProtoZeroLen,
}

/// The result of a protocol operation.
pub type Res<T> = Result<T, TguiErr>;

/// `prost::DecodeError`, carried through opaquely.
#[verifier::external_type_specification]
#[verifier::external_body]
pub struct ExDecodeError(prost::DecodeError);

/// `std::io::Error`, carried through opaquely.
#[verifier::external_type_specification]
#[verifier::external_body]
pub struct ExIoError(std::io::Error);

/// `nix::errno::Errno`, carried through opaquely.
#[verifier::external_type_specification]
#[verifier::external_body]
pub struct ExErrno(nix::errno::Errno);

impl From<&'static str> for TguiErr {
    fn from(error: &'static str) -> (r: Self) {
        TguiErr::Msg(error)
    }
}

impl vstd::std_specs::convert::FromSpecImpl<&'static str> for TguiErr {
    open spec fn obeys_from_spec() -> bool {
        true
    }

    open spec fn from_spec(error: &'static str) -> Self {
        TguiErr::Msg(error)
    }
}

impl From<prost::DecodeError> for TguiErr {
    fn from(error: prost::DecodeError) -> (r: Self) {
        TguiErr::Decode(error)
    }
}

impl vstd::std_specs::convert::FromSpecImpl<prost::DecodeError> for TguiErr {
    open spec fn obeys_from_spec() -> bool {
        true
    }

    open spec fn from_spec(error: prost::DecodeError) -> Self {
        TguiErr::Decode(error)
    }
}

impl From<nix::errno::Errno> for TguiErr {
    fn from(error: nix::errno::Errno) -> (r: Self) {
        TguiErr::Errno(error)
    }
}

impl vstd::std_specs::convert::FromSpecImpl<nix::errno::Errno> for TguiErr {
    open spec fn obeys_from_spec() -> bool {
        true
    }

    open spec fn from_spec(error: nix::errno::Errno) -> Self {
        TguiErr::Errno(error)
    }
}

impl From<std::io::Error> for TguiErr {
    fn from(error: std::io::Error) -> (r: Self) {
        TguiErr::IoError(error)
    }
}

impl vstd::std_specs::convert::FromSpecImpl<std::io::Error> for TguiErr {
    open spec fn obeys_from_spec() -> bool {
        true
    }

    open spec fn from_spec(error: std::io::Error) -> Self {
        TguiErr::IoError(error)
    }
}

/// The text that prost's `Display` impl gives a decode error: the words
/// `failed to decode Protobuf message: `, then where in the message and what
/// went wrong. It is a function of the error alone.
pub uninterp spec fn decode_error_display(error: prost::DecodeError) -> Seq<char>;

/// The text of a decode error, by its `Display` impl in prost
/// (`to_string`), which writes `failed to decode Protobuf message: ` first.
#[verifier::external_body]
fn decode_error_text(error: &prost::DecodeError) -> (t: String)
    ensures
        t@ == decode_error_display(*error),
        exists|rest: Seq<char>| t@ == "failed to decode Protobuf message: "@ + rest,
{
    error.to_string()
}

/// The text of an I/O error, by its `Display` impl in std. What it says is
/// left open.
#[verifier::external_body]
fn io_error_text(error: &std::io::Error) -> (t: String) {
    error.to_string()
}

/// The text that nix's `Display` impl gives an errno value: its name, a
/// colon and a space, and its fixed description. It is a function of the
/// value alone.
pub uninterp spec fn errno_display(error: nix::errno::Errno) -> Seq<char>;

/// The text of an errno value, by its `Display` impl in nix (`to_string`).
#[verifier::external_body]
fn errno_text(error: &nix::errno::Errno) -> (t: String)
    ensures
        t@ == errno_display(*error),
{
    error.to_string()
}

/// The text of an error with an underlying cause: `prefix`, which says
/// where the error came from, followed by the text of the cause.
pub fn with_cause(prefix: &str, inner: &str) -> (r: String)
    ensures
        r@ == prefix@ + inner@,
{
    let mut s = String::from_str(prefix);
    s.append(inner);
    s
}

impl TguiErr {
    /// The error as text for people: the message of `Msg`, the name
    /// `ProtoZeroLen`, or, by `with_cause`, a word on where the error came
    /// from followed by the whole text of the underlying error. The text of
    /// an I/O error comes from the operating system and is left open.
    pub fn to_string(&self) -> (r: String)
        ensures
            self matches TguiErr::Msg(m) ==> r@ == m@,
            self is ProtoZeroLen ==> r@ == "ProtoZeroLen"@,
            self matches TguiErr::Decode(d) ==> r@ == "Prost Decode failed: "@ + decode_error_display(*d),
            self is Decode ==> exists|t: Seq<char>|
                r@ == "Prost Decode failed: "@ + "failed to decode Protobuf message: "@ + t,
            self is IoError ==> exists|t: Seq<char>| r@ == "IO Error: "@ + t,
            self matches TguiErr::Errno(e) ==> r@ == "nix error: "@ + errno_display(*e),
    {
        match self {
            TguiErr::Msg(m) => String::from_str(m),
            TguiErr::Decode(e) => {
                let t = decode_error_text(e);
                let s = with_cause("Prost Decode failed: ", t.as_str());
                let ghost rest = choose|rest: Seq<char>| t@ == "failed to decode Protobuf message: "@ + rest;
                assert(s@ == "Prost Decode failed: "@ + "failed to decode Protobuf message: "@ + rest);
                s
            },
            TguiErr::IoError(e) => {
                let t = io_error_text(e);
                with_cause("IO Error: ", t.as_str())
            },
            TguiErr::Errno(e) => {
                let t = errno_text(e);
                with_cause("nix error: ", t.as_str())
            },
            TguiErr::ProtoZeroLen => String::from_str("ProtoZeroLen"),
        }
    }
}

} // verus!
