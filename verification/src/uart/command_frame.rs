use vstd::prelude::*;

use super::command::Command;
use super::utils::{checksum, spec_checksum};

verus! {

/// The first byte of every command frame.
pub const COMMAND_FRAME_START_CODE: u8 = 0x05;

/// The byte by which the leading controller names itself.
pub const LEADER_BM_ID: u8 = 0x01;

/// The bytes that ask the module for `command`: start code, leader id, the
/// command's code, a data count of zero, and the checksum of these four.
pub open spec fn command_frame_bytes(command: Command) -> Seq<u8> {
    let head = seq![COMMAND_FRAME_START_CODE, LEADER_BM_ID, command.spec_code(), 0x00u8];
    head.push(spec_checksum(head))
}

/// A request to the module, ready to be sent.
#[derive(Debug)]
pub struct CommandFrame {
    request_command: Command,
    buf: Vec<u8>,
}

impl View for CommandFrame {
    type V = Seq<u8>;

    /// The bytes of the frame, in the order in which they are sent.
    closed spec fn view(&self) -> Seq<u8> {
        self.buf@
    }
}

impl CommandFrame {
    #[verifier::type_invariant]
    spec fn well_formed(&self) -> bool {
        self.buf@ == command_frame_bytes(self.request_command)
    }

    /// The command that the frame asks for.
    pub closed spec fn spec_request_command(&self) -> Command {
        self.request_command
    }

    /// The frame that asks for `request_command`.
    pub fn new(request_command: Command) -> (frame: Self)
        ensures
            frame.spec_request_command() == request_command,
            frame@ == command_frame_bytes(request_command),
    {
        let number_of_data = request_command.number_of_data_in_command();
        let mut buf = vec![
            COMMAND_FRAME_START_CODE,
            LEADER_BM_ID,
            request_command.code(),
            number_of_data as u8,
        ];
        let sum = checksum(buf.as_slice());
        buf.push(sum);
        Self { request_command, buf }
    }

    /// The command that the frame asks for.
    #[verifier::when_used_as_spec(spec_request_command)]
    pub fn request_command(&self) -> (command: Command)
        ensures
            command == self.spec_request_command(),
    {
        self.request_command
    }

    /// The bytes of the frame, in the order in which they are sent.
    pub fn as_ref(&self) -> (bytes: &[u8])
        ensures
            bytes@ == self@,
            bytes@ == command_frame_bytes(self.spec_request_command()),
    {
        proof {
            use_type_invariant(self);
        }
        self.buf.as_slice()
    }
}

/// The checksum of a command frame is its command's code with one bit
/// flipped: the start code and the leader id fold to `0x04`.
pub proof fn lemma_command_frame_checksum(command: Command)
    ensures
        command_frame_bytes(command).len() == 5,
        command_frame_bytes(command)[4] == 0x04u8 ^ command.spec_code(),
{
    let code = command.spec_code();
    let head = seq![COMMAND_FRAME_START_CODE, LEADER_BM_ID, code, 0x00u8];
    reveal_with_fuel(spec_checksum, 5);
    assert(head.drop_last() == seq![COMMAND_FRAME_START_CODE, LEADER_BM_ID, code]);
    assert(head.drop_last().drop_last() == seq![COMMAND_FRAME_START_CODE, LEADER_BM_ID]);
    assert(head.drop_last().drop_last().drop_last() == seq![COMMAND_FRAME_START_CODE]);
    assert(head.drop_last().drop_last().drop_last().drop_last() == Seq::<u8>::empty());
    assert((((0u8 ^ 0x05u8) ^ 0x01u8) ^ code) ^ 0x00u8 == 0x04u8 ^ code) by (bit_vector);
}

} // verus!
