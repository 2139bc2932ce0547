//! The errors of the library, and the messages that they are reported with.

use vstd::prelude::*;

verus! {

/// An error that can occur in the MiniRedis library.
#[derive(Debug, PartialEq)]
pub enum MiniRedisError {
    /// The key value store is locked.
    StoreLocked,
    /// The command is invalid.
    InvalidCommand { command: String },
    /// The arguments are invalid.
    InvalidArguments { arguments: Vec<String> },
    /// The stream is closed.
    StreamClosed,
    /// The stream is not readable.
    StreamNotReadable,
    /// The stream is not writable.
    StreamNotWritable,
    /// The stream is not connected.
    StreamNotConnected { address: String },
    /// The stream is not flushed.
    StreamNotFlushed,
    /// The address could not be bound.
    AddressNotBound,
}

/// The mathematical value of a [`MiniRedisError`]: the same cases, with each
/// text as its sequence of characters.
pub enum ErrorView {
    StoreLocked,
    InvalidCommand { command: Seq<char> },
    InvalidArguments { arguments: Seq<Seq<char>> },
    StreamClosed,
    StreamNotReadable,
    StreamNotWritable,
    StreamNotConnected { address: Seq<char> },
    StreamNotFlushed,
    AddressNotBound,
}

impl View for MiniRedisError {
    type V = ErrorView;

    open spec fn view(&self) -> ErrorView {
        match *self {
            MiniRedisError::StoreLocked => ErrorView::StoreLocked,
            MiniRedisError::InvalidCommand { command } => ErrorView::InvalidCommand {
                command: command@,
            },
            MiniRedisError::InvalidArguments { arguments } => ErrorView::InvalidArguments {
                arguments: arguments.deep_view(),
            },
            MiniRedisError::StreamClosed => ErrorView::StreamClosed,
            MiniRedisError::StreamNotReadable => ErrorView::StreamNotReadable,
            MiniRedisError::StreamNotWritable => ErrorView::StreamNotWritable,
            MiniRedisError::StreamNotConnected { address } => ErrorView::StreamNotConnected {
                address: address@,
            },
            MiniRedisError::StreamNotFlushed => ErrorView::StreamNotFlushed,
            MiniRedisError::AddressNotBound => ErrorView::AddressNotBound,
        }
    }
}

/// What `{:?}` prints for a list of strings: the strings between square
/// brackets, each between double quotes and with its special characters
/// escaped, a comma and a space between one and the next.
pub uninterp spec fn debug_text(items: Seq<Seq<char>>) -> Seq<char>;

/// `format!` with `{:?}` on a list of strings, which prints it through the
/// impls of `Debug` that std has for `Vec` and `String`. What they print
/// depends on the strings alone, and `debug_text` is the name of it.
#[verifier::external_body]
fn debug_list(items: &Vec<String>) -> (text: String)
    ensures
        text@ == debug_text(items.deep_view()),
{
    format!("{:?}", items)
}

/// The message for invalid arguments that are listed as `listed`.
pub open spec fn invalid_arguments_text(listed: Seq<char>) -> Seq<char> {
    "Invalid arguments: "@ + listed + ". Run 'miniredis --help' for more information."@
}

/// The message for invalid arguments that are listed as `listed`.
pub fn invalid_arguments_message(listed: &str) -> (text: String)
    ensures
        text@ == invalid_arguments_text(listed@),
{
    String::from_str("Invalid arguments: ").concat(listed).concat(
        ". Run 'miniredis --help' for more information.",
    )
}

impl ErrorView {
    /// The message that the error is reported with.
    pub open spec fn message(self) -> Seq<char> {
        match self {
            ErrorView::StoreLocked => "Could not access the key value store as it is locked."@,
            ErrorView::InvalidCommand { command } => "Invalid command: "@ + command
                + ". Run 'miniredis --help' for more information."@,
            ErrorView::InvalidArguments { arguments } => invalid_arguments_text(
                debug_text(arguments),
            ),
            ErrorView::StreamClosed => "The stream is closed."@,
            ErrorView::StreamNotReadable => "Could not read from the stream."@,
            ErrorView::StreamNotWritable => "Could not write to the stream."@,
            ErrorView::StreamNotConnected { address } => "Could not connect to the stream at "@
                + address + "."@,
            ErrorView::StreamNotFlushed => "Could not flush the stream."@,
            ErrorView::AddressNotBound => "Could not bind to the address."@,
        }
    }
}

impl MiniRedisError {
    /// The message that the error is reported with.
    pub fn message(&self) -> (text: String)
        ensures
            text@ == self@.message(),
    {
        match self {
            MiniRedisError::StoreLocked => String::from_str(
                "Could not access the key value store as it is locked.",
            ),
            MiniRedisError::InvalidCommand { command } => String::from_str(
                "Invalid command: ",
            ).concat(command.as_str()).concat(". Run 'miniredis --help' for more information."),
            MiniRedisError::InvalidArguments { arguments } => {
                let listed = debug_list(arguments);
                invalid_arguments_message(listed.as_str())
            },
            MiniRedisError::StreamClosed => String::from_str("The stream is closed."),
            MiniRedisError::StreamNotReadable => String::from_str(
                "Could not read from the stream.",
            ),
            MiniRedisError::StreamNotWritable => String::from_str("Could not write to the stream."),
            MiniRedisError::StreamNotConnected { address } => String::from_str(
                "Could not connect to the stream at ",
            ).concat(address.as_str()).concat("."),
            MiniRedisError::StreamNotFlushed => String::from_str("Could not flush the stream."),
            MiniRedisError::AddressNotBound => String::from_str("Could not bind to the address."),
        }
    }
}

} // verus!
