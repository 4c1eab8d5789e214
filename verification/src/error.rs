use vstd::prelude::*;
use vstd::string::StringExecFns;

use crate::uart::Command;

verus! {

/// What can go wrong between opening the serial link and reading a value out
/// of a frame.
#[derive(Debug)]
pub enum Error {
    /// The serial device at `path` could not be opened.
    UartFailedToOpen { path: String, cause: String },
    /// A command frame could not be written to the link.
    UartFailedToSend(String),
    /// A data frame could not be read from the link, a timeout included.
    UartFailedToReceive(String),
    /// A data frame broke one of the framing rules; the text says which.
    InvalidUartDataFrame(String),
    /// The frame answers a command that does not carry the value asked for.
    NoAppropriateData { response_command: Command, must_be_any_of: Vec<Command> },
    /// Fewer bytes were at hand than the value asked for takes.
    DataBytesShortage(String),
}

/// An [`Error`] with its texts as character sequences and its command list
/// as a sequence.
pub enum ErrorView {
    UartFailedToOpen { path: Seq<char>, cause: Seq<char> },
    UartFailedToSend(Seq<char>),
    UartFailedToReceive(Seq<char>),
    InvalidUartDataFrame(Seq<char>),
    NoAppropriateData { response_command: Command, must_be_any_of: Seq<Command> },
    DataBytesShortage(Seq<char>),
}

impl View for Error {
    type V = ErrorView;

    open spec fn view(&self) -> ErrorView {
        match *self {
            Error::UartFailedToOpen { path, cause } => ErrorView::UartFailedToOpen {
                path: path@,
                cause: cause@,
            },
            Error::UartFailedToSend(cause) => ErrorView::UartFailedToSend(cause@),
            Error::UartFailedToReceive(cause) => ErrorView::UartFailedToReceive(cause@),
            Error::InvalidUartDataFrame(text) => ErrorView::InvalidUartDataFrame(text@),
            Error::NoAppropriateData { response_command, must_be_any_of } => {
                ErrorView::NoAppropriateData { response_command, must_be_any_of: must_be_any_of@ }
            },
            Error::DataBytesShortage(text) => ErrorView::DataBytesShortage(text@),
        }
    }
}

/// `text` between two double quotes, with nothing in it changed.
pub open spec fn quoted(text: Seq<char>) -> Seq<char> {
    "\""@ + text + "\""@
}

/// The names of `commands`, with a comma and a space between each two.
pub open spec fn command_names(commands: Seq<Command>) -> Seq<char>
    decreases commands.len(),
{
    if commands.len() == 0 {
        Seq::empty()
    } else if commands.len() == 1 {
        commands[0].spec_name()
    } else {
        command_names(commands.drop_last()) + ", "@ + commands.last().spec_name()
    }
}

impl ErrorView {
    /// The line that describes the error.
    pub open spec fn message(self) -> Seq<char> {
        match self {
            ErrorView::UartFailedToOpen { path, cause } => "fortelion: Failed to open: path("@
                + quoted(path) + ") Error("@ + cause + ")"@,
            ErrorView::UartFailedToSend(cause) => "fortelion: Failed to send: Error("@ + cause
                + ")"@,
            ErrorView::UartFailedToReceive(cause) => "fortelion: Failed to receive: Error("@
                + cause + ")"@,
            ErrorView::InvalidUartDataFrame(text) => "fortelion: Invalid data frame "@ + quoted(
                text,
            ),
            ErrorView::NoAppropriateData { response_command, must_be_any_of } => {
                "fortelion: Uart Data frame has no appropriate data: response command is `"@
                    + response_command.spec_name() + "`, must be any of ["@ + command_names(
                    must_be_any_of,
                ) + "]"@
            },
            ErrorView::DataBytesShortage(text) => "fortelion: Data bytes shortage "@ + quoted(
                text,
            ),
        }
    }
}

fn push_quoted(line: &mut String, text: &str)
    ensures
        final(line)@ == old(line)@ + quoted(text@),
{
    line.append("\"");
    line.append(text);
    line.append("\"");
}

fn push_command_names(line: &mut String, commands: &Vec<Command>)
    ensures
        final(line)@ == old(line)@ + command_names(commands@),
{
    let mut index: usize = 0;
    while index < commands.len()
        invariant
            index <= commands@.len(),
            line@ == old(line)@ + command_names(commands@.take(index as int)),
        decreases commands@.len() - index,
    {
        assert(commands@.take(index + 1).drop_last() == commands@.take(index as int));
        if index > 0 {
            line.append(", ");
        }
        line.append(commands[index].name());
        index += 1;
    }
    assert(commands@.take(index as int) == commands@);
}

impl Error {
    /// The line that describes the error. Texts stand between double
    /// quotes as they are: nothing in them is escaped.
    pub fn message(&self) -> (line: String)
        ensures
            line@ == self@.message(),
    {
        match self {
            Error::UartFailedToOpen { path, cause } => {
                let mut line = String::from_str("fortelion: Failed to open: path(");
                push_quoted(&mut line, path.as_str());
                line.append(") Error(");
                line.append(cause.as_str());
                line.append(")");
                line
            },
            Error::UartFailedToSend(cause) => {
                let mut line = String::from_str("fortelion: Failed to send: Error(");
                line.append(cause.as_str());
                line.append(")");
                line
            },
            Error::UartFailedToReceive(cause) => {
                let mut line = String::from_str("fortelion: Failed to receive: Error(");
                line.append(cause.as_str());
                line.append(")");
                line
            },
            Error::InvalidUartDataFrame(text) => {
                let mut line = String::from_str("fortelion: Invalid data frame ");
                push_quoted(&mut line, text.as_str());
                line
            },
            Error::NoAppropriateData { response_command, must_be_any_of } => {
                let mut line = String::from_str(
                    "fortelion: Uart Data frame has no appropriate data: response command is `",
                );
                line.append(response_command.name());
                line.append("`, must be any of [");
                push_command_names(&mut line, must_be_any_of);
                line.append("]");
                line
            },
            Error::DataBytesShortage(text) => {
                let mut line = String::from_str("fortelion: Data bytes shortage ");
                push_quoted(&mut line, text.as_str());
                line
            },
        }
    }
}

} // verus!
