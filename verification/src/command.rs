//! Commands as the store carries them out: what a client may ask for, and
//! what it is told.

use crate::error::{ErrorView, MiniRedisError};
use vstd::prelude::*;

verus! {

/// The pairs that a store holds, as a mapping from each key that has a value
/// to that value.
pub type Pairs = Map<Seq<char>, Seq<char>>;

/// A command whose name is known and whose arguments are of the right number.
#[derive(Debug, PartialEq)]
pub enum Request {
    /// Asks for the value stored under `key`.
    Get { key: String },
    /// Stores `value` under `key`: the command `SET`.
    Put { key: String, value: String },
    /// Removes `key`.
    Del { key: String },
}

/// The mathematical value of a [`Request`].
pub enum RequestView {
    Get { key: Seq<char> },
    Put { key: Seq<char>, value: Seq<char> },
    Del { key: Seq<char> },
}

impl View for Request {
    type V = RequestView;

    open spec fn view(&self) -> RequestView {
        match *self {
            Request::Get { key } => RequestView::Get { key: key@ },
            Request::Put { key, value } => RequestView::Put { key: key@, value: value@ },
            Request::Del { key } => RequestView::Del { key: key@ },
        }
    }
}

/// What a request is answered with.
#[derive(Debug, PartialEq)]
pub enum Reply {
    /// The value that was asked for.
    Value(String),
    /// The key that was asked for holds no value.
    Nil,
    /// The store was changed as asked.
    Done,
}

/// The mathematical value of a [`Reply`].
pub enum ReplyView {
    Value(Seq<char>),
    Nil,
    Done,
}

impl View for Reply {
    type V = ReplyView;

    open spec fn view(&self) -> ReplyView {
        match *self {
            Reply::Value(value) => ReplyView::Value(value@),
            Reply::Nil => ReplyView::Nil,
            Reply::Done => ReplyView::Done,
        }
    }
}

impl ReplyView {
    /// The line that the reply is sent as.
    pub open spec fn text(self) -> Seq<char> {
        match self {
            ReplyView::Value(value) => value,
            ReplyView::Nil => "nil"@,
            ReplyView::Done => "OK"@,
        }
    }
}

/// The request that a command name and its arguments stand for. A name other
/// than `GET`, `SET` and `DEL` is an invalid command; a known name with the
/// wrong number of arguments has invalid arguments.
pub open spec fn request_of(command: Seq<char>, args: Seq<Seq<char>>) -> Result<
    RequestView,
    ErrorView,
> {
    if command == "GET"@ {
        if args.len() == 1 {
            Ok(RequestView::Get { key: args[0] })
        } else {
            Err(ErrorView::InvalidArguments { arguments: args })
        }
    } else if command == "SET"@ {
        if args.len() == 2 {
            Ok(RequestView::Put { key: args[0], value: args[1] })
        } else {
            Err(ErrorView::InvalidArguments { arguments: args })
        }
    } else if command == "DEL"@ {
        if args.len() == 1 {
            Ok(RequestView::Del { key: args[0] })
        } else {
            Err(ErrorView::InvalidArguments { arguments: args })
        }
    } else {
        Err(ErrorView::InvalidCommand { command })
    }
}

/// What carrying out `request` on the pairs `pairs` leaves, and what it is
/// answered with.
pub open spec fn step(pairs: Pairs, request: RequestView) -> (Pairs, ReplyView) {
    match request {
        RequestView::Get { key } => (
            pairs,
            if pairs.contains_key(key) {
                ReplyView::Value(pairs[key])
            } else {
                ReplyView::Nil
            },
        ),
        RequestView::Put { key, value } => (pairs.insert(key, value), ReplyView::Done),
        RequestView::Del { key } => (pairs.remove(key), ReplyView::Done),
    }
}

/// Whether `reply` can be the reply to `request`: a request for a value is
/// answered with a value or with none, every other request by `Done`.
pub open spec fn fits(request: RequestView, reply: ReplyView) -> bool {
    match request {
        RequestView::Get { .. } => reply != ReplyView::Done,
        _ => reply == ReplyView::Done,
    }
}

/// A reply fits a request exactly if, on some pairs, it is the reply to it.
pub proof fn lemma_fits_some_pairs(request: RequestView, reply: ReplyView)
    ensures
        fits(request, reply) <==> exists|pairs: Pairs|
            reply == (#[trigger] step(pairs, request)).1,
{
    if fits(request, reply) {
        let pairs = match (request, reply) {
            (RequestView::Get { key }, ReplyView::Value(value)) => Pairs::empty().insert(
                key,
                value,
            ),
            _ => Pairs::empty(),
        };
        assert(reply == step(pairs, request).1);
    }
}

impl Reply {
    /// The line that the reply is sent as.
    pub fn text(self) -> (line: String)
        ensures
            line@ == self@.text(),
    {
        match self {
            Reply::Value(value) => value,
            Reply::Nil => String::from_str("nil"),
            Reply::Done => String::from_str("OK"),
        }
    }
}

/// The value of a request, or of the error that it was refused with.
pub open spec fn checked_view(checked: Result<Request, MiniRedisError>) -> Result<
    RequestView,
    ErrorView,
> {
    match checked {
        Ok(request) => Ok(request@),
        Err(error) => Err(error@),
    }
}

impl Request {
    /// Makes the request that a command name and its arguments stand for, or
    /// refuses them. The names are known in upper case only.
    pub fn from_parts(command: &str, args: Vec<String>) -> (checked: Result<
        Request,
        MiniRedisError,
    >)
        ensures
            checked_view(checked) == request_of(command@, args.deep_view()),
    {
        let mut args = args;
        if command.eq("GET") {
            if args.len() != 1 {
                return Err(MiniRedisError::InvalidArguments { arguments: args });
            }
            let key = args.pop().unwrap();
            Ok(Request::Get { key })
        } else if command.eq("SET") {
            if args.len() != 2 {
                return Err(MiniRedisError::InvalidArguments { arguments: args });
            }
            let value = args.pop().unwrap();
            let key = args.pop().unwrap();
            Ok(Request::Put { key, value })
        } else if command.eq("DEL") {
            if args.len() != 1 {
                return Err(MiniRedisError::InvalidArguments { arguments: args });
            }
            let key = args.pop().unwrap();
            Ok(Request::Del { key })
        } else {
            Err(MiniRedisError::InvalidCommand { command: command.to_owned() })
        }
    }
}

} // verus!
