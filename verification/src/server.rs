//! The server's side of the protocol: from a line of text to a command, from
//! a command to the line that answers it, and what the listener and the
//! handler of a connection do next.

use crate::command::{lemma_fits_some_pairs, request_of, step, Pairs, Request, RequestView};
use crate::error::{ErrorView, MiniRedisError};
use crate::kv_store::KVStore;
use crate::text::{frame, line_bytes, split_words, uppercase, words};
use std::sync::Arc;
use vstd::prelude::*;

verus! {

/// A server that listens for client connections and handles requests.
pub struct Server {
    /// The address to listen on.
    pub address: String,
    /// The store that all connections share.
    pub store: Arc<KVStore>,
}

/// What happened at the listener.
#[derive(Debug, PartialEq)]
pub enum ListenerEvent {
    /// The address could not be bound.
    BindFailed,
    /// A client connected.
    Accepted,
    /// A connection could not be accepted.
    AcceptFailed,
}

/// What the listener does next.
#[derive(Debug, PartialEq)]
pub enum ListenerAction {
    /// Give up: the server ends with this error.
    Stop(MiniRedisError),
    /// Hand the connection to a handler of its own, which shares the
    /// server's store, and accept the next one.
    Serve,
    /// Report this error and accept the next connection.
    Report(MiniRedisError),
}

/// What happened on the connection to one client.
#[derive(Debug, PartialEq)]
pub enum Event {
    /// The stream could not be set up for reading and writing.
    Unusable,
    /// A line was read, with its line terminator if it had one.
    Line(String),
    /// The stream ended: a read brought no bytes.
    End,
    /// A read failed.
    ReadFailed,
    /// A write failed.
    WriteFailed,
}

/// What the handler of a connection does next.
#[derive(Debug, PartialEq)]
pub enum Action {
    /// Read the next line.
    Read,
    /// Write these bytes, then read the next line.
    Write(Vec<u8>),
    /// Close the connection: the handler ends with this result.
    Close(Result<(), MiniRedisError>),
}

/// The command that a line holds: the upper-case form of its first word, and
/// its other words as the arguments. A line without words holds none.
pub open spec fn parse(line: Seq<char>) -> Option<(Seq<char>, Seq<Seq<char>>)> {
    if words(line).len() == 0 {
        None
    } else {
        Some((uppercase(words(line)[0]), words(line).skip(1)))
    }
}

/// The value of the outcome of a command.
pub open spec fn outcome_view(outcome: Result<String, MiniRedisError>) -> Result<
    Seq<char>,
    ErrorView,
> {
    match outcome {
        Ok(line) => Ok(line@),
        Err(error) => Err(error@),
    }
}

/// Whether `outcome` can be what comes of `request` on a shared store. The
/// one error is that of a lock that cannot be taken. A request that changes
/// the store is answered with `OK`; the answer to a request for a value
/// depends on what the store holds, and may be any line.
pub open spec fn may_come_of(request: RequestView, outcome: Result<Seq<char>, ErrorView>) -> bool {
    match outcome {
        Ok(line) => request is Get || line == "OK"@,
        Err(error) => error == ErrorView::StoreLocked,
    }
}

/// The line that is sent back for the outcome of a command: the answer, or
/// the message of the error.
pub open spec fn response_text(outcome: Result<Seq<char>, ErrorView>) -> Seq<char> {
    match outcome {
        Ok(line) => line,
        Err(error) => error.message(),
    }
}

/// What a command comes to on a store that holds `pairs`: the pairs that it
/// leaves, and its outcome. A command that is refused leaves the pairs as
/// they were.
pub open spec fn answer(pairs: Pairs, command: Seq<char>, args: Seq<Seq<char>>) -> (
    Pairs,
    Result<Seq<char>, ErrorView>,
) {
    match request_of(command, args) {
        Ok(request) => (step(pairs, request).0, Ok(step(pairs, request).1.text())),
        Err(refusal) => (pairs, Err(refusal)),
    }
}

/// What a line comes to on a store that holds `pairs`: the pairs that it
/// leaves, and the line that is sent back, if one is.
pub open spec fn serve(pairs: Pairs, line: Seq<char>) -> (Pairs, Option<Seq<char>>) {
    match parse(line) {
        Some((command, args)) => (
            answer(pairs, command, args).0,
            Some(response_text(answer(pairs, command, args).1)),
        ),
        None => (pairs, None),
    }
}

/// Whether a line holds a command that the store is asked to carry out.
pub open spec fn reaches_store(line: Seq<char>) -> bool {
    parse(line) matches Some((command, args)) && request_of(command, args) is Ok
}

/// Whether `action` is what the handler does for a line that is answered
/// with `sent`, or with nothing.
pub open spec fn sends(action: Action, sent: Option<Seq<char>>) -> bool {
    match sent {
        Some(text) => action matches Action::Write(bytes) && bytes@ == line_bytes(text),
        None => action == Action::Read,
    }
}

impl Server {
    /// Creates a new server, with a store of its own that holds no key.
    pub fn new(address: &str) -> (server: Self)
        ensures
            server.address@ == address@,
    {
        Server { address: address.to_owned(), store: Arc::new(KVStore::new()) }
    }

    /// Creates a new server from command line arguments: it listens on the
    /// first argument after the program's name, or on `127.0.0.1:6379` if
    /// there is none.
    pub fn from_args(args: &[String]) -> (server: Self)
        ensures
            server.address@ == if args@.len() > 1 {
                args@[1]@
            } else {
                "127.0.0.1:6379"@
            },
    {
        if args.len() > 1 {
            Self::new(args[1].as_str())
        } else {
            Self::new("127.0.0.1:6379")
        }
    }

    /// Parses the command that a line holds, if it holds one.
    pub fn parse_command(line: &str) -> (parsed: Option<(String, Vec<String>)>)
        ensures
            match parsed {
                Some((command, args)) => parse(line@) == Some((command@, args.deep_view())),
                None => parse(line@) is None,
            },
    {
        let mut parts = split_words(line);
        if parts.len() == 0 {
            return None;
        }
        let first = parts.remove(0);
        assert(parts.deep_view() =~= words(line@).skip(1));
        Some((first.as_str().to_uppercase(), parts))
    }

    /// Handles a command: checks its name and the number of its arguments,
    /// has the store carry it out, and gives the line that answers it.
    ///
    /// A command that is refused does not reach the store. One that reaches
    /// it is carried out on the pairs that the store holds when its lock is
    /// taken; it fails only if the lock cannot be taken.
    pub fn handle_command(command: &str, args: Vec<String>, store: &Arc<KVStore>) -> (outcome:
        Result<String, MiniRedisError>)
        ensures
            match request_of(command@, args.deep_view()) {
                Ok(request) => may_come_of(request, outcome_view(outcome)),
                Err(refusal) => outcome_view(outcome) == Err::<Seq<char>, ErrorView>(refusal),
            },
            outcome matches Err(MiniRedisError::StoreLocked) || exists|pairs: Pairs|
                outcome_view(outcome) == (#[trigger] answer(
                    pairs,
                    command@,
                    args.deep_view(),
                )).1,
    {
        let request = Request::from_parts(command, args)?;
        let reply = store.execute(request)?;
        proof {
            lemma_fits_some_pairs(request@, reply@);
            let pairs = choose|pairs: Pairs| reply@ == (#[trigger] step(pairs, request@)).1;
            assert(answer(pairs, command@, args.deep_view()).1 == Ok::<Seq<char>, ErrorView>(
                reply@.text(),
            ));
        }
        Ok(reply.text())
    }

    /// Gives the line that is sent back for the outcome of a command.
    pub fn response(outcome: Result<String, MiniRedisError>) -> (line: String)
        ensures
            line@ == response_text(outcome_view(outcome)),
    {
        match outcome {
            Ok(answer) => answer,
            Err(error) => error.message(),
        }
    }

    /// Decides what the listener does after `event`.
    ///
    /// Only an address that cannot be bound stops the listener. A connection
    /// that cannot be accepted is reported, and the listener goes on.
    pub fn handle_listener_event(&self, event: ListenerEvent) -> (action: ListenerAction)
        ensures
            match event {
                ListenerEvent::BindFailed => action == ListenerAction::Stop(
                    MiniRedisError::AddressNotBound,
                ),
                ListenerEvent::Accepted => action == ListenerAction::Serve,
                ListenerEvent::AcceptFailed => action matches ListenerAction::Report(error)
                    && error@ == (ErrorView::StreamNotConnected { address: self.address@ }),
            },
    {
        match event {
            ListenerEvent::BindFailed => ListenerAction::Stop(MiniRedisError::AddressNotBound),
            ListenerEvent::Accepted => ListenerAction::Serve,
            ListenerEvent::AcceptFailed => ListenerAction::Report(
                MiniRedisError::StreamNotConnected { address: self.address.clone() },
            ),
        }
    }

    /// Decides what the handler of a connection does after `event`.
    ///
    /// A line without a command is passed over: nothing is sent, and the
    /// connection stays open. A line with a command is answered with one line:
    /// the answer to the command on the pairs that the store holds when its
    /// lock is taken, or the message of its error. No line closes the
    /// connection. The end of the stream closes it without an error; a stream
    /// that cannot be used, read or written closes it with one.
    pub fn handle_event(event: Event, store: &Arc<KVStore>) -> (action: Action)
        ensures
            match event {
                Event::Unusable => action == Action::Close(Err(MiniRedisError::StreamClosed)),
                Event::Line(line) => {
                    ||| reaches_store(line@) && sends(
                        action,
                        Some(ErrorView::StoreLocked.message()),
                    )
                    ||| exists|pairs: Pairs| sends(action, (#[trigger] serve(pairs, line@)).1)
                },
                Event::End => action == Action::Close(Ok(())),
                Event::ReadFailed => action == Action::Close(
                    Err(MiniRedisError::StreamNotReadable),
                ),
                Event::WriteFailed => action == Action::Close(
                    Err(MiniRedisError::StreamNotWritable),
                ),
            },
            event is Line ==> !(action is Close),
    {
        match event {
            Event::Unusable => Action::Close(Err(MiniRedisError::StreamClosed)),
            Event::Line(line) => match Self::parse_command(line.as_str()) {
                Some((command, args)) => {
                    let outcome = Self::handle_command(command.as_str(), args, store);
                    let ghost came = outcome_view(outcome);
                    let text = Self::response(outcome);
                    let action = Action::Write(frame(text.as_str()));
                    proof {
                        if came != Err::<Seq<char>, ErrorView>(ErrorView::StoreLocked) {
                            let pairs = choose|pairs: Pairs|
                                came == (#[trigger] answer(pairs, command@, args.deep_view())).1;
                            assert(sends(action, serve(pairs, line@).1));
                        }
                    }
                    action
                },
                None => {
                    assert(serve(Pairs::empty(), line@).1 is None);
                    Action::Read
                },
            },
            Event::End => Action::Close(Ok(())),
            Event::ReadFailed => Action::Close(Err(MiniRedisError::StreamNotReadable)),
            Event::WriteFailed => Action::Close(Err(MiniRedisError::StreamNotWritable)),
        }
    }
}

} // verus!
