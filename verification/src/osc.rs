//! What goes out over the wire: the messages that move the console's keys.

use rosc::{OscError, OscMessage, OscPacket, OscType};
use vstd::prelude::*;
use vstd::string::*;
use vstd::utf8::encode_utf8;

verus! {

/// The port on which the console's messages arrive.
pub const LOCAL_PORT: u16 = 9000;

/// The port on which the console listens.
pub const REMOTE_PORT: u16 = 8000;

/// Seconds between two pings, which keep the session with the console alive.
pub const PING_INTERVAL_SECS: u64 = 10;

/// An outbound message: an address and at most one argument, a boolean.
#[derive(Debug, PartialEq, Eq)]
pub struct WireMessage {
    pub addr: String,
    pub arg: Option<bool>,
}

/// The address of the ping that keeps the session alive.
pub open spec fn ping_address() -> Seq<char> {
    "/ping"@
}

/// One to four zero bytes, which bring a text of `len` bytes to a multiple of four.
pub open spec fn padding(len: nat) -> Seq<u8> {
    Seq::new((4 - len % 4) as nat, |i: int| 0u8)
}

/// A text on the wire: its bytes in UTF-8, ended and padded with zero bytes.
pub open spec fn osc_string(text: Seq<char>) -> Seq<u8> {
    encode_utf8(text) + padding(encode_utf8(text).len())
}

/// The type tags of a message on the wire: a comma, then `f` for the one
/// argument if there is one, ended and padded with zero bytes.
pub open spec fn type_tags(arg: Option<bool>) -> Seq<u8> {
    match arg {
        Some(_) => seq![0x2cu8, 0x66u8, 0u8, 0u8],
        None => seq![0x2cu8, 0u8, 0u8, 0u8],
    }
}

/// The argument of a message on the wire: the boolean as a 32-bit float,
/// big-endian, one for `true` and zero for `false`.
pub open spec fn argument_bytes(arg: Option<bool>) -> Seq<u8> {
    match arg {
        Some(true) => seq![0x3fu8, 0x80u8, 0u8, 0u8],
        Some(false) => seq![0u8, 0u8, 0u8, 0u8],
        None => Seq::empty(),
    }
}

/// A message on the wire: address, type tags, argument.
pub open spec fn wire_bytes(addr: Seq<char>, arg: Option<bool>) -> Seq<u8> {
    osc_string(addr) + type_tags(arg) + argument_bytes(arg)
}

/// Every message on the wire is a whole number of 32-bit words.
pub proof fn lemma_wire_bytes_aligned(addr: Seq<char>, arg: Option<bool>)
    ensures
        wire_bytes(addr, arg).len() % 4 == 0,
        wire_bytes(addr, arg).len() >= 8,
{
}

impl WireMessage {
    /// The message that sends `value` to `addr`.
    pub fn toggle(addr: String, value: bool) -> (message: WireMessage)
        ensures
            message.addr == addr,
            message.arg == Some(value),
    {
        WireMessage { addr, arg: Some(value) }
    }

    /// The message that goes to `addr` without arguments.
    pub fn trigger(addr: String) -> (message: WireMessage)
        ensures
            message.addr == addr,
            message.arg.is_none(),
    {
        WireMessage { addr, arg: None }
    }

    /// The ping that keeps the session alive.
    pub fn ping() -> (message: WireMessage)
        ensures
            message.addr@ == ping_address(),
            message.arg.is_none(),
    {
        WireMessage { addr: String::from_str("/ping"), arg: None }
    }
}

/// `rosc::OscError`, the error of the codec. It is carried, never read.
#[verifier::external_type_specification]
#[verifier::external_body]
pub struct ExOscError(OscError);

/// `rosc::encoder::encode` on a message with the given address and, for
/// `Some`, the one float argument that the boolean converts to.
///
/// The encoder writes the address as an OSC string, then the type tags,
/// then the float in big-endian; writing into a vector, it does not fail.
#[verifier::external_body]
fn encode_message(addr: &str, arg: Option<bool>) -> (encoded: Result<Vec<u8>, OscError>)
    ensures
        encoded.is_ok(),
        encoded.unwrap()@ == wire_bytes(addr@, arg),
{
    let args = match arg {
        Some(value) => vec![OscType::Float(value.into())],
        None => vec![],
    };
    rosc::encoder::encode(&OscPacket::Message(OscMessage { addr: addr.to_string(), args }))
}

/// The bytes that carry the message over the wire.
pub fn encode(message: &WireMessage) -> (bytes: Vec<u8>)
    ensures
        bytes@ == wire_bytes(message.addr@, message.arg),
{
    encode_message(message.addr.as_str(), message.arg).unwrap()
}

} // verus!
