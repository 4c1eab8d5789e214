use vstd::prelude::*;
use vstd::slice::slice_to_vec;
use vstd::string::StringExecFns;

use super::command::Command;
use super::command_frame::LEADER_BM_ID;
use super::utils::{checksum, lemma_checksum_detects_bit_flip, spec_checksum};
use crate::error::{Error, ErrorView};
use crate::text::{push_decimal, spec_decimal};

verus! {

/// The first byte of every data frame.
pub const DATA_FRAME_START_CODE: u8 = 0x02;

/// Where a data frame holds its start code.
const START_CODE_INDEX: usize = 0;

/// Where a data frame holds the leader's id.
const BM_ID_INDEX: usize = 1;

/// Where a data frame holds the code of the command that it answers.
const RESPONSE_COMMAND_INDEX: usize = 2;

/// Where a data frame holds the number of its data bytes.
const NUMBER_OF_DATA_INDEX: usize = 3;

/// Where the data bytes of a data frame start.
pub const DATA_OFFSET: usize = 4;

/// The bytes of a data frame that are no data: start code, leader id,
/// response command, number of data, checksum and one reserved byte.
pub const NUMBER_OF_BYTES_EXCEPT_FOR_DATA: usize = 6;

/// The framing rule that a data frame breaks.
pub enum FrameFault {
    /// The first byte is not the start code.
    StartCode { received: u8 },
    /// The second byte is not the leader's id.
    BmId { received: u8 },
    /// The third byte is not the code of the command that was asked.
    ResponseCommand { expected: u8, received: u8 },
    /// The fourth byte is not the number of data bytes of that command.
    NumberOfData { expected: u8, received: u8 },
    /// The byte behind the data is not the checksum of all bytes before it.
    Checksum { expected: u8, received: u8 },
}

/// The text that names a broken rule, with the byte that the rule asks for
/// and the byte that was found.
pub open spec fn mismatch_text(rule: Seq<char>, expected: u8, received: u8) -> Seq<char> {
    rule + " (must be: "@ + spec_decimal(expected as nat) + ", received "@ + spec_decimal(
        received as nat,
    ) + ")"@
}

impl FrameFault {
    /// The text that reports this fault.
    pub open spec fn message(self) -> Seq<char> {
        match self {
            FrameFault::StartCode { received } => mismatch_text(
                "Invalid start code"@,
                DATA_FRAME_START_CODE,
                received,
            ),
            FrameFault::BmId { received } => mismatch_text(
                "Invalid BM ID"@,
                LEADER_BM_ID,
                received,
            ),
            FrameFault::ResponseCommand { expected, received } => mismatch_text(
                "Response command mismatch"@,
                expected,
                received,
            ),
            FrameFault::NumberOfData { expected, received } => mismatch_text(
                "Invalid number of data"@,
                expected,
                received,
            ),
            FrameFault::Checksum { expected, received } => mismatch_text(
                "Invalid checksum"@,
                expected,
                received,
            ),
        }
    }
}

/// The first framing rule that `bytes` break as the answer to `command`, or
/// `None` where they keep all five. The rules are tried in the order of the
/// bytes they speak of: start code, leader id, response command, number of
/// data, checksum.
pub open spec fn frame_fault(command: Command, bytes: Seq<u8>) -> Option<FrameFault>
    recommends
        bytes.len() == NUMBER_OF_BYTES_EXCEPT_FOR_DATA + command.spec_number_of_data(),
{
    let number_of_data = command.spec_number_of_data();
    let sum = spec_checksum(bytes.take(DATA_OFFSET + number_of_data));
    if bytes[0] != DATA_FRAME_START_CODE {
        Some(FrameFault::StartCode { received: bytes[0] })
    } else if bytes[1] != LEADER_BM_ID {
        Some(FrameFault::BmId { received: bytes[1] })
    } else if bytes[2] != command.spec_code() {
        Some(FrameFault::ResponseCommand { expected: command.spec_code(), received: bytes[2] })
    } else if bytes[3] != number_of_data {
        Some(FrameFault::NumberOfData { expected: number_of_data as u8, received: bytes[3] })
    } else if bytes[DATA_OFFSET + number_of_data] != sum {
        Some(
            FrameFault::Checksum {
                expected: sum,
                received: bytes[DATA_OFFSET + number_of_data],
            },
        )
    } else {
        None
    }
}

/// A frame whose checksum byte is the checksum of what stands before it
/// keeps the checksum rule whatever else it holds, and keeps every rule
/// where its four head bytes are right.
pub proof fn lemma_fresh_checksum_validates(command: Command, body: Seq<u8>, reserved: u8)
    requires
        body.len() == DATA_OFFSET + command.spec_number_of_data(),
    ensures
        !(frame_fault(command, body.push(spec_checksum(body)).push(reserved)) matches Some(
            FrameFault::Checksum { .. },
        )),
        body[0] == DATA_FRAME_START_CODE && body[1] == LEADER_BM_ID && body[2]
            == command.spec_code() && body[3] == command.spec_number_of_data() ==> frame_fault(
            command,
            body.push(spec_checksum(body)).push(reserved),
        ) is None,
{
    let frame = body.push(spec_checksum(body)).push(reserved);
    assert(frame.take(body.len() as int) == body);
}

/// The rules are tried in the order of the bytes: a frame with a wrong
/// start code is reported for its start code, whatever else is wrong with
/// it, its checksum included.
pub proof fn lemma_start_code_is_tried_first(command: Command, bytes: Seq<u8>)
    requires
        bytes[0] != DATA_FRAME_START_CODE,
    ensures
        frame_fault(command, bytes) == Some(FrameFault::StartCode { received: bytes[0] }),
{
}

/// A fault is reported for a rule exactly where the frame keeps every rule
/// before it and breaks that one.
pub proof fn lemma_faults_come_in_order(command: Command, bytes: Seq<u8>)
    ensures
        frame_fault(command, bytes) matches Some(FrameFault::StartCode { .. }) <==> bytes[0]
            != DATA_FRAME_START_CODE,
        frame_fault(command, bytes) matches Some(FrameFault::BmId { .. }) <==> bytes[0]
            == DATA_FRAME_START_CODE && bytes[1] != LEADER_BM_ID,
        frame_fault(command, bytes) matches Some(FrameFault::ResponseCommand { .. }) <==> bytes[0]
            == DATA_FRAME_START_CODE && bytes[1] == LEADER_BM_ID && bytes[2]
            != command.spec_code(),
        frame_fault(command, bytes) matches Some(FrameFault::NumberOfData { .. }) <==> bytes[0]
            == DATA_FRAME_START_CODE && bytes[1] == LEADER_BM_ID && bytes[2] == command.spec_code()
            && bytes[3] != command.spec_number_of_data(),
{
}

/// One flipped bit anywhere before the checksum byte makes a valid frame
/// invalid, and the frame then breaks the checksum rule. Where the bit is
/// one of a data byte, the checksum rule is the one reported.
pub proof fn lemma_bit_flip_invalidates(command: Command, bytes: Seq<u8>, index: int, bit: u8)
    requires
        bytes.len() == NUMBER_OF_BYTES_EXCEPT_FOR_DATA + command.spec_number_of_data(),
        frame_fault(command, bytes) is None,
        0 <= index < DATA_OFFSET + command.spec_number_of_data(),
        bit < 8,
    ensures
        ({
            let end = DATA_OFFSET + command.spec_number_of_data();
            let flipped = bytes.update(index, bytes[index] ^ (1u8 << bit));
            &&& frame_fault(command, flipped) is Some
            &&& flipped[end] != spec_checksum(flipped.take(end))
            &&& index >= DATA_OFFSET ==> frame_fault(command, flipped) == Some(
                FrameFault::Checksum {
                    expected: spec_checksum(flipped.take(end)),
                    received: bytes[end],
                },
            )
        }),
{
    let end = DATA_OFFSET + command.spec_number_of_data();
    let flipped = bytes.update(index, bytes[index] ^ (1u8 << bit));
    let body = bytes.take(end);
    assert(flipped.take(end) == body.update(index, body[index] ^ (1u8 << bit)));
    lemma_checksum_detects_bit_flip(body, index, bit);
}

fn mismatch(rule: &str, expected: u8, received: u8) -> (text: String)
    ensures
        text@ == mismatch_text(rule@, expected, received),
{
    let mut text = String::from_str(rule);
    text.append(" (must be: ");
    push_decimal(&mut text, expected);
    text.append(", received ");
    push_decimal(&mut text, received);
    text.append(")");
    text
}

/// The answer of the module to one command: a buffer of the length that
/// the command's answer has, to be filled with the bytes received.
#[derive(Debug)]
pub struct DataFrame {
    response_command: Command,
    buf: Vec<u8>,
}

impl View for DataFrame {
    type V = Seq<u8>;

    /// The bytes of the frame, in the order in which they were received.
    closed spec fn view(&self) -> Seq<u8> {
        self.buf@
    }
}

impl DataFrame {
    #[verifier::type_invariant]
    spec fn well_formed(&self) -> bool {
        self.buf@.len() == NUMBER_OF_BYTES_EXCEPT_FOR_DATA
            + self.response_command.spec_number_of_data()
    }

    /// The command that the frame is expected to answer.
    pub closed spec fn spec_response_command(&self) -> Command {
        self.response_command
    }

    /// The data bytes of the frame: what stands between the four bytes of
    /// the head and the checksum.
    pub open spec fn spec_data(&self) -> Seq<u8> {
        self@.subrange(
            DATA_OFFSET as int,
            DATA_OFFSET + self.spec_response_command().spec_number_of_data(),
        )
    }

    /// The first framing rule that the frame breaks, if any.
    pub open spec fn spec_fault(&self) -> Option<FrameFault> {
        frame_fault(self.spec_response_command(), self@)
    }

    /// A frame for the answer to `response_command`, every byte zero.
    pub fn new(response_command: Command) -> (frame: Self)
        ensures
            frame.spec_response_command() == response_command,
            frame@.len() == NUMBER_OF_BYTES_EXCEPT_FOR_DATA
                + response_command.spec_number_of_data(),
            forall|i: int| 0 <= i < frame@.len() ==> frame@[i] == 0,
    {
        let frame_length = response_command.number_of_data() + NUMBER_OF_BYTES_EXCEPT_FOR_DATA;
        let buf = vec![0u8; frame_length];
        Self { response_command, buf }
    }

    /// The data bytes of the frame. They mean something once the frame is
    /// valid.
    pub fn data(&self) -> (data: &[u8])
        ensures
            data@ == self.spec_data(),
            data@.len() == self.spec_response_command().spec_number_of_data(),
    {
        proof {
            use_type_invariant(self);
        }
        let number_of_data = self.response_command.number_of_data();
        let bytes = self.buf.as_slice();
        &bytes[DATA_OFFSET..DATA_OFFSET + number_of_data]
    }

    /// Checks the five framing rules in their order and reports the first
    /// that the frame breaks.
    pub fn is_valid(&self) -> (valid: Result<(), Error>)
        ensures
            match valid {
                Ok(_) => self.spec_fault() is None,
                Err(e) => self.spec_fault() matches Some(fault) && e@
                    == ErrorView::InvalidUartDataFrame(fault.message()),
            },
    {
        proof {
            use_type_invariant(self);
        }
        let number_of_data = self.response_command.number_of_data();
        if self.buf[START_CODE_INDEX] != DATA_FRAME_START_CODE {
            Err(
                Error::InvalidUartDataFrame(
                    mismatch(
                        "Invalid start code",
                        DATA_FRAME_START_CODE,
                        self.buf[START_CODE_INDEX],
                    ),
                ),
            )
        } else if self.buf[BM_ID_INDEX] != LEADER_BM_ID {
            Err(
                Error::InvalidUartDataFrame(
                    mismatch("Invalid BM ID", LEADER_BM_ID, self.buf[BM_ID_INDEX]),
                ),
            )
        } else if self.buf[RESPONSE_COMMAND_INDEX] != self.response_command.code() {
            Err(
                Error::InvalidUartDataFrame(
                    mismatch(
                        "Response command mismatch",
                        self.response_command.code(),
                        self.buf[RESPONSE_COMMAND_INDEX],
                    ),
                ),
            )
        } else if self.buf[NUMBER_OF_DATA_INDEX] != number_of_data as u8 {
            Err(
                Error::InvalidUartDataFrame(
                    mismatch(
                        "Invalid number of data",
                        number_of_data as u8,
                        self.buf[NUMBER_OF_DATA_INDEX],
                    ),
                ),
            )
        } else {
            let received_checksum = self.buf[DATA_OFFSET + number_of_data];
            let bytes = self.buf.as_slice();
            let calculated_checksum = checksum(&bytes[0..DATA_OFFSET + number_of_data]);
            if received_checksum != calculated_checksum {
                Err(
                    Error::InvalidUartDataFrame(
                        mismatch("Invalid checksum", calculated_checksum, received_checksum),
                    ),
                )
            } else {
                Ok(())
            }
        }
    }

    /// The command that the frame is expected to answer.
    #[verifier::when_used_as_spec(spec_response_command)]
    pub fn response_command(&self) -> (command: Command)
        ensures
            command == self.spec_response_command(),
    {
        self.response_command
    }

    /// How many bytes the frame holds: the data bytes of its command and
    /// six more.
    pub fn len(&self) -> (len: usize)
        ensures
            len == self@.len(),
            len == NUMBER_OF_BYTES_EXCEPT_FOR_DATA
                + self.spec_response_command().spec_number_of_data(),
    {
        proof {
            use_type_invariant(self);
        }
        self.buf.len()
    }

    /// Overwrites the frame with `bytes`, the bytes received, where they are
    /// as many as the frame holds. Other lengths leave the frame as it is.
    pub fn fill(&mut self, bytes: &[u8]) -> (filled: bool)
        ensures
            filled == (bytes@.len() == old(self)@.len()),
            filled ==> final(self)@ == bytes@,
            !filled ==> final(self)@ == old(self)@,
            final(self).spec_response_command() == old(self).spec_response_command(),
    {
        proof {
            use_type_invariant(&*self);
        }
        if bytes.len() == self.buf.len() {
            self.buf = slice_to_vec(bytes);
            true
        } else {
            false
        }
    }
}

} // verus!
