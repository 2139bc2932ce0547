//! The client's side of the protocol: what to do with a line that the user
//! typed, and the bytes that carry it to the server.

use crate::error::MiniRedisError;
use crate::text::{content, frame, line_bytes, trim_line_end};
use vstd::prelude::*;

verus! {

/// A client that connects to a server and sends requests.
pub struct Client {
    /// The address of the server to connect to.
    pub address: String,
}

/// What the client does with a line of input.
#[derive(Debug, PartialEq, Eq, Structural, Clone, Copy)]
pub enum Decision {
    /// Nothing was read: ask again.
    Again,
    /// The user asked to leave: stop, and send nothing.
    Quit,
    /// Send what the line holds to the server and show the answer.
    Forward,
}

impl Client {
    /// Creates a new client for the server at `address`.
    pub fn new(address: &str) -> (client: Self)
        ensures
            client.address@ == address@,
    {
        Client { address: address.to_owned() }
    }

    /// Creates a new client from command line arguments: it connects to the
    /// first argument after the program's name, or to `127.0.0.1:6379`.
    pub fn from_args(args: &[String]) -> (client: Self)
        ensures
            client.address@ == if args@.len() > 1 {
                args@[1]@
            } else {
                "127.0.0.1:6379"@
            },
    {
        if args.len() > 1 {
            Self::new(args[1].as_str())
        } else {
            Self::new("127.0.0.1:6379")
        }
    }

    /// Decides what to do with `input`, a line as it was read, with its line
    /// terminator if it had one. Nothing at all is answered by asking again.
    /// A line that holds `quit` and nothing else asks to leave, and is not
    /// sent. Every other line is forwarded.
    pub fn decide(input: &str) -> (decision: Decision)
        ensures
            decision == if input@.len() == 0 {
                Decision::Again
            } else if content(input@) == "quit"@ {
                Decision::Quit
            } else {
                Decision::Forward
            },
    {
        if input.is_empty() {
            Decision::Again
        } else if trim_line_end(input).eq("quit") {
            Decision::Quit
        } else {
            Decision::Forward
        }
    }

    /// Makes the bytes that go to the server for `input`, a line as it was
    /// read: what the line holds, as one line.
    pub fn outgoing(input: &str) -> (bytes: Vec<u8>)
        ensures
            bytes@ == line_bytes(content(input@)),
    {
        frame(trim_line_end(input))
    }

    /// Appends to `writer` the bytes that carry `input` to the server as one
    /// line. This never fails.
    pub fn send_input(&self, input: &str, writer: &mut Vec<u8>) -> (sent: Result<
        (),
        MiniRedisError,
    >)
        ensures
            sent is Ok,
            final(writer)@ == old(writer)@ + line_bytes(input@),
    {
        let mut bytes = frame(input);
        writer.append(&mut bytes);
        Ok(())
    }
}

} // verus!
