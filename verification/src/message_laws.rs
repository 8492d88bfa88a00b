//! What holds of the messages to a session, byte by byte.

use vstd::prelude::*;
use vstd::utf8::*;

use crate::file_path::FilePath;
use crate::ipc::{ApiCommand, ApiCommandView, DecodeError, EncodeError};

verus! {

/// What four bytes amount to, the first counting least.
pub open spec fn four(a: u8, b: u8, c: u8, d: u8) -> int {
    a + 256 * (b + 256 * (c + 256 * d))
}

/// A path is the bytes that it is made of.
pub proof fn law_path_is_its_bytes(path: FilePath)
    ensures
        path@ == path.bytes@,
{
}

/// In contracts a command is what it is, with every byte of its path.
pub proof fn law_command_is_seen_whole(command: ApiCommand)
    ensures
        command@ is SplitHorizontally <==> command is SplitHorizontally,
        command@ is SplitVertically <==> command is SplitVertically,
        command@ is MoveFocus <==> command is MoveFocus,
        command@ is OpenFile <==> command is OpenFile,
        command matches ApiCommand::OpenFile(path) ==> command@->OpenFile_0 == path.bytes@,
{
}

/// A command has a message exactly where it is not to open a file whose path is not
/// UTF-8. Splits and moving the focus always have one, and so has every path that is
/// UTF-8, however long.
pub proof fn law_when_there_is_a_message(command: ApiCommandView)
    ensures
        command !is OpenFile ==> crate::ipc::message_of(command) is Ok,
        forall|path: Seq<u8>|
            (#[trigger] crate::ipc::message_of(ApiCommandView::OpenFile(path))) is Ok <==> valid_utf8(
                path,
            ),
        crate::ipc::message_of(command) is Err ==> crate::ipc::message_of(command) == Err::<
            Seq<u8>,
            EncodeError,
        >(EncodeError::PathNotUtf8),
{
}

/// A command without a path travels as its number in four bytes.
pub proof fn law_bytes_of_a_plain_message(command: ApiCommandView)
    requires
        command !is OpenFile,
    ensures
        ({
            let message = crate::ipc::message_of(command)->Ok_0;
            &&& message.len() == 4
            &&& four(message[0], message[1], message[2], message[3]) == match command {
                ApiCommandView::SplitHorizontally => 1int,
                ApiCommandView::SplitVertically => 2int,
                _ => 3int,
            }
        }),
{
    reveal_with_fuel(crate::little_endian::le_bytes, 5);
}

/// The path to open travels unchanged, behind the number of the command, which is
/// zero, and the length of the path.
pub proof fn law_bytes_of_a_file_message(path: Seq<u8>)
    requires
        valid_utf8(path),
        path.len() <= u64::MAX,
    ensures
        ({
            let message = crate::ipc::message_of(ApiCommandView::OpenFile(path))->Ok_0;
            &&& message.len() == 12 + path.len()
            &&& four(message[0], message[1], message[2], message[3]) == 0
            &&& path.len() == four(message[4], message[5], message[6], message[7]) + 0x1_0000_0000
                * four(message[8], message[9], message[10], message[11])
            &&& forall|i: int| 0 <= i < path.len() ==> #[trigger] message[12 + i] == path[i]
        }),
{
    let message = crate::ipc::message_of(ApiCommandView::OpenFile(path))->Ok_0;
    let written = crate::little_endian::le_bytes(path.len(), 8);
    crate::little_endian::lemma_le_bytes_len(path.len(), 8);
    crate::little_endian::lemma_le_limits();
    crate::little_endian::lemma_le_round_trip(path.len(), 8);
    lemma_eight_bytes(written);
    assert(crate::little_endian::le_bytes(0, 4) =~= seq![0u8, 0u8, 0u8, 0u8]) by {
        reveal_with_fuel(crate::little_endian::le_bytes, 5);
    }
    assert(forall|i: int| 0 <= i < 8 ==> message[4 + i] == #[trigger] written[i]);
    assert(message[4] == written[0] && message[5] == written[1] && message[6] == written[2]
        && message[7] == written[3]);
    assert(message[8] == written[4] && message[9] == written[5] && message[10] == written[6]
        && message[11] == written[7]);
}

proof fn lemma_four_bytes(bytes: Seq<u8>)
    requires
        bytes.len() == 4,
    ensures
        crate::little_endian::le_value(bytes) == four(bytes[0], bytes[1], bytes[2], bytes[3]),
{
    let three = bytes.drop_first();
    let two = three.drop_first();
    let one = two.drop_first();
    assert(one.drop_first().len() == 0);
    reveal_with_fuel(crate::little_endian::le_value, 5);
}

proof fn lemma_eight_bytes(bytes: Seq<u8>)
    requires
        bytes.len() == 8,
    ensures
        crate::little_endian::le_value(bytes) == four(bytes[0], bytes[1], bytes[2], bytes[3])
            + 0x1_0000_0000 * four(bytes[4], bytes[5], bytes[6], bytes[7]),
{
    let one = bytes.drop_first();
    let two = one.drop_first();
    let three = two.drop_first();
    let upper = three.drop_first();
    assert(upper =~= bytes.subrange(4, 8));
    lemma_four_bytes(upper);
    reveal_with_fuel(crate::little_endian::le_value, 5);
}

/// A buffer holds a command exactly where it begins with the message of that
/// command. In particular nothing is read that nobody could have sent.
pub proof fn law_only_messages_are_read(buffer: Seq<u8>, command: ApiCommandView)
    requires
        command matches ApiCommandView::OpenFile(path) ==> path.len() <= u64::MAX,
    ensures
        crate::ipc::command_in(buffer) == Ok::<ApiCommandView, DecodeError>(command) <==> {
            &&& crate::ipc::message_of(command) is Ok
            &&& crate::ipc::message_of(command)->Ok_0.is_prefix_of(buffer)
        },
{
    if crate::ipc::message_of(command) is Ok && crate::ipc::message_of(
        command,
    )->Ok_0.is_prefix_of(buffer) {
        let message = crate::ipc::message_of(command)->Ok_0;
        let rest = buffer.skip(message.len() as int);
        assert(message + rest =~= buffer);
        crate::laws::law_command_is_read_back(command, rest);
    }
    if crate::ipc::command_in(buffer) == Ok::<ApiCommandView, DecodeError>(command) {
        let index = buffer.subrange(0, 4);
        crate::little_endian::lemma_le_bytes_round_trip(index);
        if let ApiCommandView::OpenFile(path) = command {
            let length = buffer.subrange(4, 12);
            crate::little_endian::lemma_le_bytes_round_trip(length);
            let message = crate::ipc::message_of(command)->Ok_0;
            assert(message =~= index + length + path);
            assert(message =~= buffer.subrange(0, 12int + path.len()));
        } else {
            let message = crate::ipc::message_of(command)->Ok_0;
            assert(message =~= index);
        }
    }
}

/// A buffer is refused for a number that no command has exactly where its first four
/// bytes are such a number, and that number is named.
pub proof fn law_unknown_numbers_are_named(buffer: Seq<u8>, number: u32)
    ensures
        crate::ipc::command_in(buffer) == Err::<ApiCommandView, DecodeError>(
            DecodeError::UnknownCommand(number),
        ) <==> {
            &&& buffer.len() >= 4
            &&& four(buffer[0], buffer[1], buffer[2], buffer[3]) == number
            &&& number >= 4
        },
{
    if buffer.len() >= 4 {
        let index = buffer.subrange(0, 4);
        lemma_four_bytes(index);
        crate::little_endian::lemma_le_bytes_round_trip(index);
        crate::little_endian::lemma_le_limits();
    }
}

/// A buffer is refused as malformed only where it is too short for a number, or asks
/// to open a file and the path is not there whole or not UTF-8.
pub proof fn law_malformed_buffers(buffer: Seq<u8>)
    requires
        crate::ipc::command_in(buffer) == Err::<ApiCommandView, DecodeError>(
            DecodeError::Malformed,
        ),
    ensures
        buffer.len() < 4 || four(buffer[0], buffer[1], buffer[2], buffer[3]) == 0,
        buffer.len() >= 12 ==> {
            let length = four(buffer[4], buffer[5], buffer[6], buffer[7]) + 0x1_0000_0000 * four(
                buffer[8],
                buffer[9],
                buffer[10],
                buffer[11],
            );
            buffer.len() < 12 + length || !valid_utf8(buffer.subrange(12, 12 + length))
        },
{
    if buffer.len() >= 4 {
        lemma_four_bytes(buffer.subrange(0, 4));
    }
    if buffer.len() >= 12 {
        lemma_eight_bytes(buffer.subrange(4, 12));
    }
}

} // verus!
