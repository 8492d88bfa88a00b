use mosaic::file_path::FilePath;
use mosaic::ipc::{decode, encode, ApiCommand, DecodeError, EncodeError, IPC_BUFFER_LEN};
use serde::ser::{Serialize, Serializer};

fn open(bytes: &[u8]) -> ApiCommand {
    ApiCommand::OpenFile(FilePath { bytes: bytes.to_vec() })
}

fn buffered(received: &[u8]) -> Vec<u8> {
    let mut buffer = vec![0u8; IPC_BUFFER_LEN];
    let read = received.len().min(IPC_BUFFER_LEN);
    buffer[..read].copy_from_slice(&received[..read]);
    buffer
}

/// The commands as an enum that serializes itself, variant by variant.
enum Described {
    OpenFile(std::path::PathBuf),
    SplitHorizontally,
    SplitVertically,
    MoveFocus,
}

impl Serialize for Described {
    fn serialize<S: Serializer>(&self, serializer: S) -> Result<S::Ok, S::Error> {
        match self {
            Described::OpenFile(path) => {
                serializer.serialize_newtype_variant("ApiCommand", 0, "OpenFile", path)
            }
            Described::SplitHorizontally => {
                serializer.serialize_unit_variant("ApiCommand", 1, "SplitHorizontally")
            }
            Described::SplitVertically => {
                serializer.serialize_unit_variant("ApiCommand", 2, "SplitVertically")
            }
            Described::MoveFocus => serializer.serialize_unit_variant("ApiCommand", 3, "MoveFocus"),
        }
    }
}

#[test]
fn messages_have_these_bytes() {
    assert_eq!(encode(&ApiCommand::SplitHorizontally), Ok(vec![1, 0, 0, 0]));
    assert_eq!(encode(&ApiCommand::SplitVertically), Ok(vec![2, 0, 0, 0]));
    assert_eq!(encode(&ApiCommand::MoveFocus), Ok(vec![3, 0, 0, 0]));
    assert_eq!(
        encode(&open(b"/a")),
        Ok(vec![0, 0, 0, 0, 2, 0, 0, 0, 0, 0, 0, 0, b'/', b'a'])
    );
    assert_eq!(encode(&open(b"")), Ok(vec![0; 12]));
}

#[test]
fn messages_are_those_of_the_enum_serialized_whole() {
    let pairs = [
        (open("/tmp/\u{e9}t\u{e9}".as_bytes()), Described::OpenFile("/tmp/\u{e9}t\u{e9}".into())),
        (ApiCommand::SplitHorizontally, Described::SplitHorizontally),
        (ApiCommand::SplitVertically, Described::SplitVertically),
        (ApiCommand::MoveFocus, Described::MoveFocus),
    ];
    for (command, described) in &pairs {
        assert_eq!(encode(command).unwrap(), bincode::serialize(described).unwrap());
    }
}

#[test]
fn path_that_is_not_utf8_has_no_message() {
    assert_eq!(encode(&open(&[b'/', 0xff])), Err(EncodeError::PathNotUtf8));
}

#[test]
fn commands_survive_the_socket() {
    let long = vec![b'x'; IPC_BUFFER_LEN - 12];
    let commands = [
        open(b"/home/notes.txt"),
        open("/tmp/\u{1f980}".as_bytes()),
        open(b""),
        open(&long),
        ApiCommand::SplitHorizontally,
        ApiCommand::SplitVertically,
        ApiCommand::MoveFocus,
    ];
    for command in &commands {
        let message = encode(command).unwrap();
        assert_eq!(decode(&buffered(&message)), Ok(command.clone()));
        assert_eq!(decode(&message), Ok(command.clone()));
    }
}

#[test]
fn message_is_read_whatever_follows_it() {
    let mut bytes = encode(&open(b"/a")).unwrap();
    bytes.extend_from_slice(&[0xff, 0xfe, 7]);
    assert_eq!(decode(&bytes), Ok(open(b"/a")));
}

#[test]
fn message_that_does_not_fit_is_refused() {
    let long = vec![b'x'; IPC_BUFFER_LEN - 11];
    let message = encode(&open(&long)).unwrap();
    assert_eq!(message.len(), IPC_BUFFER_LEN + 1);
    assert_eq!(decode(&buffered(&message)), Err(DecodeError::Malformed));
}

#[test]
fn client_that_sends_nothing_opens_an_unnamed_file() {
    assert_eq!(decode(&buffered(&[])), Ok(open(b"")));
}

#[test]
fn what_is_no_command_is_refused() {
    assert_eq!(decode(&[]), Err(DecodeError::Malformed));
    assert_eq!(decode(&[1, 0, 0]), Err(DecodeError::Malformed));
    assert_eq!(decode(&[4, 0, 0, 0]), Err(DecodeError::UnknownCommand(4)));
    assert_eq!(decode(&[1, 0, 0, 1]), Err(DecodeError::UnknownCommand(0x0100_0001)));
    // The length of the path is cut off, or promises more than there is.
    assert_eq!(decode(&[0, 0, 0, 0, 2, 0, 0]), Err(DecodeError::Malformed));
    assert_eq!(
        decode(&[0, 0, 0, 0, 3, 0, 0, 0, 0, 0, 0, 0, b'/', b'a']),
        Err(DecodeError::Malformed)
    );
    assert_eq!(
        decode(&[0, 0, 0, 0, 255, 255, 255, 255, 255, 255, 255, 255, b'/', b'a']),
        Err(DecodeError::Malformed)
    );
    // The path is not UTF-8.
    assert_eq!(
        decode(&[0, 0, 0, 0, 1, 0, 0, 0, 0, 0, 0, 0, 0xff]),
        Err(DecodeError::Malformed)
    );
}
