//! Commands to a running session, and how they travel over its socket.
//!
//! A command is one message: the index of the command in four bytes and, for a
//! file to open, the length of its path in eight bytes and the path. The session
//! reads a message into a buffer of [`IPC_BUFFER_LEN`] zero bytes and decodes the
//! buffer whole, so what follows the message is zeros and is not looked at.

use vstd::prelude::*;
use vstd::utf8::*;

use crate::file_path::FilePath;

verus! {

/// The size of the buffer that the session reads a message into.
pub const IPC_BUFFER_LEN: usize = 65535;

/// What a running session can be asked from outside.
#[derive(Clone, Debug, PartialEq, Eq)]
pub enum ApiCommand {
    OpenFile(FilePath),
    SplitHorizontally,
    SplitVertically,
    MoveFocus,
}

/// An [`ApiCommand`] with its path as a sequence of bytes.
pub enum ApiCommandView {
    OpenFile(Seq<u8>),
    SplitHorizontally,
    SplitVertically,
    MoveFocus,
}

impl View for ApiCommand {
    type V = ApiCommandView;

    open spec fn view(&self) -> ApiCommandView {
        match self {
            ApiCommand::OpenFile(path) => ApiCommandView::OpenFile(path@),
            ApiCommand::SplitHorizontally => ApiCommandView::SplitHorizontally,
            ApiCommand::SplitVertically => ApiCommandView::SplitVertically,
            ApiCommand::MoveFocus => ApiCommandView::MoveFocus,
        }
    }
}

/// Why a command cannot be put into a message.
#[derive(Clone, Copy, Debug, PartialEq, Eq, Structural)]
pub enum EncodeError {
    /// The path to open is not UTF-8.
    PathNotUtf8,
}

/// Why a buffer holds no command.
#[derive(Clone, Copy, Debug, PartialEq, Eq, Structural)]
pub enum DecodeError {
    /// The message ends early, or its path is not UTF-8.
    Malformed,
    /// No command has this index.
    UnknownCommand(u32),
}

/// The index in four bytes.
pub open spec fn index_message(index: u32) -> Seq<u8> {
    crate::little_endian::le_bytes(index as nat, 4)
}

/// The index in four bytes, the length of the text in eight, and the text.
pub open spec fn index_and_text_message(index: u32, text: Seq<u8>) -> Seq<u8> {
    crate::little_endian::le_bytes(index as nat, 4) + crate::little_endian::le_bytes(text.len(), 8) + text
}

/// The message that `command` travels as, or why there is none.
pub open spec fn message_of(command: ApiCommandView) -> Result<Seq<u8>, EncodeError> {
    match command {
        ApiCommandView::OpenFile(path) => if valid_utf8(path) {
            Ok(index_and_text_message(0, path))
        } else {
            Err(EncodeError::PathNotUtf8)
        },
        ApiCommandView::SplitHorizontally => Ok(index_message(1)),
        ApiCommandView::SplitVertically => Ok(index_message(2)),
        ApiCommandView::MoveFocus => Ok(index_message(3)),
    }
}

/// The index at the front of `buffer`, where four bytes are there.
pub open spec fn leading_index(buffer: Seq<u8>) -> Option<nat> {
    if buffer.len() < 4 {
        None
    } else {
        Some(crate::little_endian::le_value(buffer.subrange(0, 4)))
    }
}

/// The text behind an index at the front of `buffer`, where it is there whole
/// and is UTF-8.
pub open spec fn text_behind_index(buffer: Seq<u8>) -> Option<Seq<u8>> {
    if buffer.len() < 12 {
        None
    } else {
        let end = 12 + crate::little_endian::le_value(buffer.subrange(4, 12));
        if buffer.len() < end || !valid_utf8(buffer.subrange(12, end as int)) {
            None
        } else {
            Some(buffer.subrange(12, end as int))
        }
    }
}

/// The command that `buffer` holds, or why it holds none.
pub open spec fn command_in(buffer: Seq<u8>) -> Result<ApiCommandView, DecodeError> {
    match leading_index(buffer) {
        None => Err(DecodeError::Malformed),
        Some(index) => if index == 0 {
            match text_behind_index(buffer) {
                Some(path) => Ok(ApiCommandView::OpenFile(path)),
                None => Err(DecodeError::Malformed),
            }
        } else if index == 1 {
            Ok(ApiCommandView::SplitHorizontally)
        } else if index == 2 {
            Ok(ApiCommandView::SplitVertically)
        } else if index == 3 {
            Ok(ApiCommandView::MoveFocus)
        } else {
            Err(DecodeError::UnknownCommand(index as u32))
        },
    }
}

/// `bincode::ErrorKind`, why bincode refused something: not looked into.
#[verifier::external_type_specification]
#[verifier::external_body]
pub struct ExErrorKind(bincode::ErrorKind);

/// `bincode::serialize` of a `u32`: its four bytes, least significant first.
#[verifier::external_body]
fn serialize_index(index: u32) -> (message: Result<Vec<u8>, Box<bincode::ErrorKind>>)
    ensures
        message is Ok && message->Ok_0@ == index_message(index),
{
    bincode::serialize(&index)
}

/// `bincode::serialize` of a `u32` and a text: the four bytes of the integer, the
/// length of the text as eight bytes, each least significant first, and the UTF-8
/// bytes of the text. All of it has to fit into one `Vec`.
#[verifier::external_body]
fn serialize_index_and_text(index: u32, text: &str) -> (message: Result<
    Vec<u8>,
    Box<bincode::ErrorKind>,
>)
    requires
        encode_utf8(text@).len() + 12 <= isize::MAX,
    ensures
        message is Ok && message->Ok_0@ == index_and_text_message(index, encode_utf8(text@)),
{
    bincode::serialize(&(index, text))
}

/// `bincode::deserialize` of a `u32`: reads four bytes, least significant first,
/// and fails only where they are not there. What follows them is ignored.
#[verifier::external_body]
fn deserialize_index(buffer: &[u8]) -> (index: Result<u32, Box<bincode::ErrorKind>>)
    ensures
        match leading_index(buffer@) {
            Some(value) => index matches Ok(read) && read == value,
            None => index is Err,
        },
{
    bincode::deserialize(buffer)
}

/// `bincode::deserialize` of a `u32` and a text: reads the integer, the length of
/// the text from the eight bytes behind it, and that many bytes as UTF-8. It fails
/// only where one of them is not there or the text is not UTF-8. What follows is
/// ignored.
#[verifier::external_body]
fn deserialize_index_and_text(buffer: &[u8]) -> (message: Result<
    (u32, String),
    Box<bincode::ErrorKind>,
>)
    ensures
        match text_behind_index(buffer@) {
            Some(text) => message matches Ok(read) && Some(read.0 as nat) == leading_index(buffer@)
                && encode_utf8(read.1@) == text,
            None => message is Err,
        },
{
    bincode::deserialize(buffer)
}

/// `std::str::Utf8Error`, where bytes cease to be UTF-8: not looked into.
#[verifier::external_type_specification]
#[verifier::external_body]
pub struct ExUtf8Error(std::str::Utf8Error);

/// `std::str::from_utf8`: the bytes as a text, exactly where they are UTF-8.
#[verifier::external_body]
fn text_of(bytes: &[u8]) -> (text: Result<&str, std::str::Utf8Error>)
    ensures
        match text {
            Ok(read) => valid_utf8(bytes@) && encode_utf8(read@) == bytes@,
            Err(_) => !valid_utf8(bytes@),
        },
{
    std::str::from_utf8(bytes)
}

/// The message that asks a session for `command`.
pub fn encode(command: &ApiCommand) -> (message: Result<Vec<u8>, EncodeError>)
    requires
        command matches ApiCommand::OpenFile(path) ==> path@.len() + 12 <= isize::MAX,
    ensures
        match message_of(command@) {
            Ok(bytes) => message matches Ok(written) && written@ == bytes,
            Err(reason) => message == Err::<Vec<u8>, EncodeError>(reason),
        },
{
    let serialized = match command {
        ApiCommand::OpenFile(path) => match text_of(path.bytes.as_slice()) {
            Ok(text) => serialize_index_and_text(0, text),
            Err(_) => {
                return Err(EncodeError::PathNotUtf8);
            },
        },
        ApiCommand::SplitHorizontally => serialize_index(1),
        ApiCommand::SplitVertically => serialize_index(2),
        ApiCommand::MoveFocus => serialize_index(3),
    };
    match serialized {
        Ok(bytes) => Ok(bytes),
        Err(_) => vstd::pervasive::unreached(),
    }
}

/// The command in a buffer that a message was read into.
pub fn decode(buffer: &[u8]) -> (command: Result<ApiCommand, DecodeError>)
    ensures
        match command_in(buffer@) {
            Ok(view) => command matches Ok(read) && read@ == view,
            Err(reason) => command == Err::<ApiCommand, DecodeError>(reason),
        },
{
    match deserialize_index(buffer) {
        Err(_) => Err(DecodeError::Malformed),
        Ok(0) => match deserialize_index_and_text(buffer) {
            Ok((_, text)) => {
                let bytes: Vec<u8> = vstd::slice::slice_to_vec(text.as_str().as_bytes());
                Ok(ApiCommand::OpenFile(FilePath { bytes }))
            },
            Err(_) => Err(DecodeError::Malformed),
        },
        Ok(1) => Ok(ApiCommand::SplitHorizontally),
        Ok(2) => Ok(ApiCommand::SplitVertically),
        Ok(3) => Ok(ApiCommand::MoveFocus),
        Ok(index) => Err(DecodeError::UnknownCommand(index)),
    }
}

} // verus!
