//! The command relay between the application and its privileged service:
//! the messages, their framing on the wire and the check of the sender's
//! token. Sockets and the privileged calls themselves are the caller's.

use vstd::prelude::*;
use vstd::string::{StrSliceExecFns, StringExecFns};

verus! {

/// The byte that ends a message on the wire.
pub const END_OF_BLOCK: u8 = 0x17;

/// A privileged action that the service performs for the application.
#[derive(Clone, Copy, Debug, PartialEq, Eq, Structural)]
pub enum SvcAction {
    Stop,
    SetStartup(bool),
    ShowWindow { hwnd: isize, command: i32 },
    ShowWindowAsync { hwnd: isize, command: i32 },
    SetWindowPosition { hwnd: isize, x: i32, y: i32, width: i32, height: i32, flags: u32 },
    SetForeground(isize),
}

/// An action together with the token that authorises it.
#[derive(Debug)]
pub struct SvcMessage {
    pub token: String,
    pub action: SvcAction,
}

/// Why the service could not perform an action.
#[derive(Clone, Copy, Debug, PartialEq, Eq, Structural)]
pub enum ServiceError {
    /// The connection failed.
    Io,
    /// The platform refused the action.
    Platform,
}

/// Where the first end-of-block byte stands in `bytes` at or after `from`,
/// or the length of `bytes` if there is none.
pub open spec fn block_end(bytes: Seq<u8>, from: int) -> int
    decreases bytes.len() - from,
{
    if from < 0 || from >= bytes.len() {
        bytes.len() as int
    } else if bytes[from] == END_OF_BLOCK {
        from
    } else {
        block_end(bytes, from + 1)
    }
}

/// The bytes that answer a message whose action ended in `result`: the
/// answer's text in UTF-8 on success, nothing on failure, and the end-of-block
/// byte.
pub open spec fn reply_bytes(result: Result<String, ServiceError>) -> Seq<u8> {
    match result {
        Ok(text) => vstd::utf8::encode_utf8(text@).push(END_OF_BLOCK),
        Err(_) => seq![END_OF_BLOCK],
    }
}

/// The text that answers an action, given how performing it ended: the empty
/// text on success, the failure itself otherwise.
pub fn process_action(command: SvcAction, performed: Result<(), ServiceError>) -> (res: Result<
    String,
    ServiceError,
>)
    ensures
        performed.is_ok() ==> res.is_ok() && res.unwrap()@ == Seq::<char>::empty(),
        performed.is_err() ==> res.is_err() && res.unwrap_err() == performed.unwrap_err(),
{
    match performed {
        Ok(_) => Ok(String::new()),
        Err(e) => Err(e),
    }
}

/// The service's end of the relay.
pub struct TcpService;

impl TcpService {
    /// The address of the loopback socket at `port`.
    pub fn address(port: &str) -> (address: String)
        ensures
            address@ == "127.0.0.1:"@ + port@,
    {
        "127.0.0.1:".to_owned().concat(port)
    }

    /// The bytes of one message as they are sent: the payload, then the
    /// end-of-block byte.
    pub fn frame(payload: Vec<u8>) -> (framed: Vec<u8>)
        ensures
            framed@ == payload@.push(END_OF_BLOCK),
    {
        let mut framed = payload;
        framed.push(END_OF_BLOCK);
        framed
    }

    /// The payload of the first message in `bytes`: what stands before the
    /// first end-of-block byte, or all of `bytes` if there is none.
    pub fn read_buffer(bytes: &Vec<u8>) -> (payload: Vec<u8>)
        ensures
            payload@ == bytes@.subrange(0, block_end(bytes@, 0)),
            forall|i: int| 0 <= i < payload@.len() ==> payload@[i] != END_OF_BLOCK,
    {
        let mut payload: Vec<u8> = Vec::new();
        let mut i: usize = 0;
        while i < bytes.len() && bytes[i] != END_OF_BLOCK
            invariant
                i <= bytes@.len(),
                payload@ == bytes@.subrange(0, i as int),
                block_end(bytes@, 0) == block_end(bytes@, i as int),
                forall|j: int| 0 <= j < i ==> bytes@[j] != END_OF_BLOCK,
            decreases bytes@.len() - i,
        {
            payload.push(bytes[i]);
            assert(payload@ =~= bytes@.subrange(0, i + 1));
            i += 1;
        }
        payload
    }

    /// The bytes sent back for a message that was acted on.
    pub fn reply(result: &Result<String, ServiceError>) -> (framed: Vec<u8>)
        ensures
            framed@ == reply_bytes(*result),
    {
        match result {
            Ok(text) => Self::frame(text.as_str().as_bytes_vec()),
            Err(_) => Self::frame(Vec::new()),
        }
    }

    /// Whether a message may be acted on: its token must be the service's.
    pub fn authorized(expected: &str, message: &SvcMessage) -> (allowed: bool)
        ensures
            allowed == (message.token@ == expected@),
    {
        message.token == expected.to_owned()
    }

    /// The message that asks the service to stop.
    pub fn emit_stop_signal(token: &str) -> (message: SvcMessage)
        ensures
            message.token@ == token@,
            message.action == SvcAction::Stop,
    {
        SvcMessage { token: token.to_owned(), action: SvcAction::Stop }
    }
}

/// The application's end of the relay.
pub struct TcpBgApp;

impl TcpBgApp {
    /// The address of the loopback socket at `port`.
    pub fn address(port: &str) -> (address: String)
        ensures
            address@ == "127.0.0.1:"@ + port@,
    {
        TcpService::address(port)
    }
}

} // verus!
