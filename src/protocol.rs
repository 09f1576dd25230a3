//! The messages of the process transport, and the kinds of script.

use crate::codec::{encode_str, encode_u32, decode_u32, parse_str, parse_u32, str_frame, u32_frame};
use crate::codec::{lemma_str_round_trip, lemma_u32_round_trip};
use vstd::prelude::*;
use vstd::utf8::*;

verus! {

/// What the host sends a process script before anything else.
#[derive(PartialEq, Eq, Structural, Clone, Copy, Debug)]
pub enum Message {
    /// Asks the script for its `ScriptInfo`; sent once, at discovery.
    Greeting,
    /// Announces a hook call: the hook name and the hook's input follow.
    Execute,
}

/// How a script is run.
#[derive(PartialEq, Eq, Structural, Clone, Copy, Debug)]
pub enum ScriptType {
    /// An executable spawned anew for every hook call.
    OneShot,
    /// An executable kept running, which answers hook calls in turn.
    Daemon,
    /// A dynamic library loaded into the host process.
    DynamicLib,
}

impl Message {
    /// The variant index that stands for the message on the wire.
    pub open spec fn tag(self) -> u32 {
        match self {
            Message::Greeting => 0,
            Message::Execute => 1,
        }
    }

    /// The message whose variant index is `t`, if any.
    pub open spec fn of_tag(t: u32) -> Option<Message> {
        if t == 0 {
            Some(Message::Greeting)
        } else if t == 1 {
            Some(Message::Execute)
        } else {
            None
        }
    }

    /// Encodes the message as its frame.
    pub fn encode(&self) -> (r: Vec<u8>)
        ensures
            r@ == message_frame(*self),
    {
        let tag: u32 = match self {
            Message::Greeting => 0,
            Message::Execute => 1,
        };
        encode_u32(tag)
    }

    /// Decodes the message at the front of `bytes`; `None` when fewer than
    /// four bytes are there or they hold no known variant index.
    pub fn decode(bytes: &[u8]) -> (r: Option<Message>)
        ensures
            r == parse_message(bytes@),
    {
        match decode_u32(bytes) {
            Some(0) => Some(Message::Greeting),
            Some(1) => Some(Message::Execute),
            _ => None,
        }
    }
}

/// The frame of a message: its variant index as a `u32`.
pub open spec fn message_frame(m: Message) -> Seq<u8> {
    u32_frame(m.tag())
}

/// The message at the front of `b`.
pub open spec fn parse_message(b: Seq<u8>) -> Option<Message> {
    match parse_u32(b) {
        Some(t) => Message::of_tag(t),
        None => None,
    }
}

/// The frame of a hook call's header: the `Execute` message, then the hook
/// name as a string. The hook's input follows it on the wire.
pub open spec fn execute_header(hook_name: Seq<char>) -> Seq<u8> {
    message_frame(Message::Execute) + str_frame(hook_name)
}

/// Encodes the header of a call of the hook named `hook_name`.
pub fn encode_execute_header(hook_name: &str) -> (r: Vec<u8>)
    ensures
        r@ == execute_header(hook_name@),
{
    let mut r = Message::Execute.encode();
    let mut name = encode_str(hook_name);
    r.append(&mut name);
    r
}

/// A message frame decodes to the message it encodes, whatever follows it.
pub proof fn lemma_message_round_trip(m: Message, rest: Seq<u8>)
    ensures
        parse_message(message_frame(m) + rest) == Some(m),
{
    lemma_u32_round_trip(m.tag(), rest);
}

/// A hook call's header decodes to `Execute` and then to the hook name,
/// whatever follows it.
pub proof fn lemma_execute_header_round_trip(hook_name: Seq<char>, rest: Seq<u8>)
    requires
        encode_utf8(hook_name).len() <= usize::MAX,
    ensures
        parse_message(execute_header(hook_name) + rest) == Some(Message::Execute),
        parse_str((execute_header(hook_name) + rest).subrange(4, (execute_header(hook_name) + rest).len() as int))
            == Some(hook_name),
{
    let b = execute_header(hook_name) + rest;
    assert(b =~= message_frame(Message::Execute) + (str_frame(hook_name) + rest));
    lemma_message_round_trip(Message::Execute, str_frame(hook_name) + rest);
    vstd::bytes::lemma_auto_spec_u32_to_from_le_bytes();
    assert(b.subrange(4, b.len() as int) =~= str_frame(hook_name) + rest);
    lemma_str_round_trip(hook_name, rest);
}

} // verus!
