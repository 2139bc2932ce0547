//! What clients observe: laws of the commands, carried out one after another
//! on the pairs of a store.
//!
//! A command holds the store's lock while it reads or changes the pairs. So
//! whatever the connections ask for at the same time, the store carries out
//! one request after another, each as a whole, in some order. The laws on
//! sequences of requests hold of every such order.

use crate::command::{request_of, step, Pairs, ReplyView, RequestView};
use crate::error::ErrorView;
use crate::server::{answer, may_come_of, parse, response_text, serve};
use crate::text::{
    is_blank, is_solid, lemma_no_words_iff_blank, lemma_words_are_solid, uppercase, words,
};
use vstd::prelude::*;

verus! {

/// The three command names differ from one another.
pub proof fn lemma_command_names_differ()
    ensures
        "GET"@ != "SET"@,
        "GET"@ != "DEL"@,
        "SET"@ != "DEL"@,
{
    reveal_strlit("GET");
    reveal_strlit("SET");
    reveal_strlit("DEL");
    assert("GET"@[0] == 'G');
    assert("SET"@[0] == 'S');
    assert("DEL"@[0] == 'D');
}

/// What a command comes to on given pairs is among the outcomes that it may
/// have on a shared store.
pub proof fn lemma_answer_may_come(pairs: Pairs, command: Seq<char>, args: Seq<Seq<char>>)
    ensures
        match request_of(command, args) {
            Ok(request) => may_come_of(request, answer(pairs, command, args).1),
            Err(refusal) => answer(pairs, command, args).1 == Err::<Seq<char>, ErrorView>(
                refusal,
            ),
        },
{
}

/// Every answer that a command may get on a shared store is its answer on
/// some pairs.
pub proof fn lemma_answer_comes_of_some_pairs(
    command: Seq<char>,
    args: Seq<Seq<char>>,
    line: Seq<char>,
)
    requires
        request_of(command, args) matches Ok(request) && may_come_of(
            request,
            Ok::<Seq<char>, ErrorView>(line),
        ),
    ensures
        exists|pairs: Pairs|
            (#[trigger] answer(pairs, command, args)).1 == Ok::<Seq<char>, ErrorView>(line),
{
    let pairs = match request_of(command, args)->Ok_0 {
        RequestView::Get { key } => Pairs::empty().insert(key, line),
        _ => Pairs::empty(),
    };
    assert(answer(pairs, command, args).1 == Ok::<Seq<char>, ErrorView>(line));
}

/// `GET` changes nothing, whatever it is given and whatever it gives.
pub proof fn lemma_get_changes_nothing(pairs: Pairs, args: Seq<Seq<char>>)
    ensures
        answer(pairs, "GET"@, args).0 == pairs,
{
}

/// `GET` of a key that holds no value gives `nil`.
pub proof fn lemma_get_of_absent_key(pairs: Pairs, key: Seq<char>)
    requires
        !pairs.contains_key(key),
    ensures
        answer(pairs, "GET"@, seq![key]) == (pairs, Ok::<Seq<char>, ErrorView>("nil"@)),
{
}

/// After `SET key value`, which is answered with `OK`, `GET key` gives
/// `value`.
pub proof fn lemma_set_then_get(pairs: Pairs, key: Seq<char>, value: Seq<char>)
    ensures
        answer(pairs, "SET"@, seq![key, value]).1 == Ok::<Seq<char>, ErrorView>("OK"@),
        answer(answer(pairs, "SET"@, seq![key, value]).0, "GET"@, seq![key]).1 == Ok::<
            Seq<char>,
            ErrorView,
        >(value),
{
    lemma_command_names_differ();
}

/// Of two `SET`s of one key, the later one decides what `GET` gives.
pub proof fn lemma_last_set_wins(pairs: Pairs, key: Seq<char>, first: Seq<char>, second: Seq<char>)
    ensures
        ({
            let once = answer(pairs, "SET"@, seq![key, first]).0;
            let twice = answer(once, "SET"@, seq![key, second]).0;
            answer(twice, "GET"@, seq![key]) == (twice, Ok::<Seq<char>, ErrorView>(second))
        }),
{
    lemma_command_names_differ();
}

/// `DEL key` is answered with `OK` whether or not the key held a value, and
/// after it `GET key` gives `nil`.
pub proof fn lemma_del_then_get(pairs: Pairs, key: Seq<char>)
    ensures
        answer(pairs, "DEL"@, seq![key]).1 == Ok::<Seq<char>, ErrorView>("OK"@),
        answer(answer(pairs, "DEL"@, seq![key]).0, "GET"@, seq![key]).1 == Ok::<
            Seq<char>,
            ErrorView,
        >("nil"@),
{
    lemma_command_names_differ();
}

/// What a command, given `times` times in a row, leaves of the pairs.
pub open spec fn repeated(
    pairs: Pairs,
    command: Seq<char>,
    args: Seq<Seq<char>>,
    times: nat,
) -> Pairs
    decreases times,
{
    if times == 0 {
        pairs
    } else {
        answer(repeated(pairs, command, args, (times - 1) as nat), command, args).0
    }
}

/// `GET` and `DEL` are idempotent: given again, whatever their arguments,
/// they leave the same pairs and have the same outcome as the first time.
pub proof fn lemma_get_and_del_idempotent(pairs: Pairs, command: Seq<char>, args: Seq<Seq<char>>)
    requires
        command == "GET"@ || command == "DEL"@,
    ensures
        answer(answer(pairs, command, args).0, command, args) == answer(pairs, command, args),
{
    lemma_command_names_differ();
    if let Ok(request) = request_of(command, args) {
        let once = step(pairs, request).0;
        assert(step(once, request).0 =~= once);
    }
}

/// `GET` and `DEL`, given any number of times in a row and at least once,
/// leave the pairs that they leave when given once.
pub proof fn lemma_get_and_del_any_number_of_times(
    pairs: Pairs,
    command: Seq<char>,
    args: Seq<Seq<char>>,
    times: nat,
)
    requires
        command == "GET"@ || command == "DEL"@,
        times >= 1,
    ensures
        repeated(pairs, command, args, times) == answer(pairs, command, args).0,
    decreases times,
{
    if times == 1 {
        assert(repeated(pairs, command, args, 0) == pairs);
    } else {
        lemma_get_and_del_any_number_of_times(pairs, command, args, (times - 1) as nat);
        lemma_get_and_del_idempotent(pairs, command, args);
    }
}

/// A known command with the wrong number of arguments is refused for its
/// arguments, which the error holds. It leaves the pairs as they were, and
/// the client is sent the message of the error.
pub proof fn lemma_wrong_number_of_arguments(pairs: Pairs, command: Seq<char>, args: Seq<Seq<char>>)
    requires
        (command == "GET"@ && args.len() != 1) || (command == "SET"@ && args.len() != 2) || (
        command == "DEL"@ && args.len() != 1),
    ensures
        answer(pairs, command, args) == (
            pairs,
            Err::<Seq<char>, ErrorView>(ErrorView::InvalidArguments { arguments: args }),
        ),
        response_text(answer(pairs, command, args).1) == (ErrorView::InvalidArguments {
            arguments: args,
        }).message(),
{
    lemma_command_names_differ();
}

/// A command of another name than `GET`, `SET` and `DEL` is refused, and
/// leaves the pairs as they were. The error holds the name, and its message
/// shows the name, right after the words `Invalid command: `.
pub proof fn lemma_unknown_command(pairs: Pairs, command: Seq<char>, args: Seq<Seq<char>>)
    requires
        command != "GET"@,
        command != "SET"@,
        command != "DEL"@,
    ensures
        answer(pairs, command, args) == (
            pairs,
            Err::<Seq<char>, ErrorView>(ErrorView::InvalidCommand { command }),
        ),
        ({
            let shown = response_text(answer(pairs, command, args).1);
            let start = "Invalid command: "@.len() as int;
            shown.subrange(start, start + command.len()) == command
        }),
{
    let shown = (ErrorView::InvalidCommand { command }).message();
    let start = "Invalid command: "@.len() as int;
    assert(shown.subrange(start, start + command.len()) =~= command);
}

/// A line that is empty or all white space holds no command: nothing is sent
/// back for it, and the pairs stay as they were. Every other line is
/// answered.
pub proof fn lemma_blank_line_is_passed_over(pairs: Pairs, line: Seq<char>)
    ensures
        is_blank(line) ==> serve(pairs, line) == (pairs, None::<Seq<char>>),
        !is_blank(line) ==> serve(pairs, line).1 is Some,
{
    lemma_no_words_iff_blank(line);
}

/// The arguments of the command that a line holds are words: each holds at
/// least one character, and no white space.
pub proof fn lemma_arguments_are_words(line: Seq<char>)
    ensures
        parse(line) matches Some((_, args)) ==> forall|i: int|
            0 <= i < args.len() ==> (#[trigger] args[i]).len() > 0 && is_solid(args[i]),
{
    lemma_words_are_solid(line);
    if let Some((_, args)) = parse(line) {
        assert forall|i: int| 0 <= i < args.len() implies (#[trigger] args[i]).len() > 0
            && is_solid(args[i]) by {
            assert(args[i] == words(line)[i + 1]);
        }
    }
}

/// The name of a command is read without regard to case: two lines whose
/// first words have the same upper-case form, and whose other words are the
/// same, hold the same command, and come to the same.
pub proof fn lemma_command_name_ignores_case(pairs: Pairs, first: Seq<char>, second: Seq<char>)
    ensures
        words(first).len() > 0 && words(second).len() > 0 && uppercase(words(first)[0])
            == uppercase(words(second)[0]) && words(first).skip(1) == words(second).skip(1)
            ==> parse(first) == parse(second) && serve(pairs, first) == serve(pairs, second),
{
}

/// What a sequence of requests, carried out in order, leaves of the pairs.
pub open spec fn replay(pairs: Pairs, requests: Seq<RequestView>) -> Pairs
    decreases requests.len(),
{
    if requests.len() == 0 {
        pairs
    } else {
        step(replay(pairs, requests.drop_last()), requests.last()).0
    }
}

/// The reply to the request at position `at` of a sequence of requests that
/// are carried out in order.
pub open spec fn reply_at(pairs: Pairs, requests: Seq<RequestView>, at: int) -> ReplyView {
    step(replay(pairs, requests.take(at)), requests[at]).1
}

/// Whether `request` stores a value under `key`.
pub open spec fn sets(request: RequestView, key: Seq<char>) -> bool {
    request matches RequestView::Put { key: set, .. } && set == key
}

/// Whether `request` removes `key`.
pub open spec fn deletes(request: RequestView, key: Seq<char>) -> bool {
    request matches RequestView::Del { key: deleted } && deleted == key
}

/// A key that no request has set holds no value, whatever else was asked of
/// a store that was empty at first: it reads as `nil`.
pub proof fn lemma_key_never_set_reads_nil(requests: Seq<RequestView>, key: Seq<char>)
    requires
        forall|i: int| 0 <= i < requests.len() ==> !sets(#[trigger] requests[i], key),
    ensures
        !replay(Pairs::empty(), requests).contains_key(key),
        step(replay(Pairs::empty(), requests), RequestView::Get { key }).1 == ReplyView::Nil,
    decreases requests.len(),
{
    if requests.len() > 0 {
        let before = requests.drop_last();
        assert forall|i: int| 0 <= i < before.len() implies !sets(#[trigger] before[i], key) by {
            assert(before[i] == requests[i]);
        }
        lemma_key_never_set_reads_nil(before, key);
        assert(!sets(requests.last(), key));
    }
}

/// A value that was set stays under its key until a request sets or removes
/// that key.
proof fn lemma_value_stays(
    pairs: Pairs,
    requests: Seq<RequestView>,
    set_at: int,
    upto: int,
    key: Seq<char>,
    value: Seq<char>,
)
    requires
        0 <= set_at < upto <= requests.len(),
        requests[set_at] == (RequestView::Put { key, value }),
        forall|i: int|
            set_at < i < upto ==> !sets(#[trigger] requests[i], key) && !deletes(requests[i], key),
    ensures
        replay(pairs, requests.take(upto)).contains_key(key),
        replay(pairs, requests.take(upto))[key] == value,
    decreases upto - set_at,
{
    let done = requests.take(upto);
    assert(done.drop_last() =~= requests.take(upto - 1));
    assert(done.last() == requests[upto - 1]);
    if upto > set_at + 1 {
        lemma_value_stays(pairs, requests, set_at, upto - 1, key, value);
        assert(!sets(requests[upto - 1], key) && !deletes(requests[upto - 1], key));
    }
}

/// No crosstalk between keys: a connection that sets a key and then reads it
/// gets its own value back, whatever the requests of other connections that
/// are carried out in between, as long as none of them sets or removes that
/// key.
pub proof fn lemma_own_value_is_read_back(
    pairs: Pairs,
    requests: Seq<RequestView>,
    set_at: int,
    get_at: int,
    key: Seq<char>,
    value: Seq<char>,
)
    requires
        0 <= set_at < get_at < requests.len(),
        requests[set_at] == (RequestView::Put { key, value }),
        requests[get_at] == (RequestView::Get { key }),
        forall|i: int|
            set_at < i < get_at ==> !sets(#[trigger] requests[i], key) && !deletes(
                requests[i],
                key,
            ),
    ensures
        reply_at(pairs, requests, get_at) == ReplyView::Value(value),
{
    lemma_value_stays(pairs, requests, set_at, get_at, key, value);
}

/// Finds a request that set the value which a key holds after the first
/// `upto` requests, when one of them set the key and none removed it.
proof fn lemma_value_was_set(
    pairs: Pairs,
    requests: Seq<RequestView>,
    upto: int,
    key: Seq<char>,
) -> (set_at: int)
    requires
        0 <= upto <= requests.len(),
        exists|i: int| 0 <= i < upto && sets(#[trigger] requests[i], key),
        forall|i: int| 0 <= i < upto ==> !deletes(#[trigger] requests[i], key),
    ensures
        0 <= set_at < upto,
        replay(pairs, requests.take(upto)).contains_key(key),
        requests[set_at] == (RequestView::Put {
            key,
            value: replay(pairs, requests.take(upto))[key],
        }),
    decreases upto,
{
    let done = requests.take(upto);
    assert(done.drop_last() =~= requests.take(upto - 1));
    assert(done.last() == requests[upto - 1]);
    if sets(requests[upto - 1], key) {
        upto - 1
    } else {
        assert(!deletes(requests[upto - 1], key));
        lemma_value_was_set(pairs, requests, upto - 1, key)
    }
}

/// Writers of one key do not garble it: when connections set the same key
/// and none removes it, a connection that reads the key after at least one
/// of them has set it gets a value that one of them set, whole.
pub proof fn lemma_read_gets_a_value_that_was_set(
    pairs: Pairs,
    requests: Seq<RequestView>,
    get_at: int,
    key: Seq<char>,
)
    requires
        0 <= get_at < requests.len(),
        requests[get_at] == (RequestView::Get { key }),
        exists|i: int| 0 <= i < get_at && sets(#[trigger] requests[i], key),
        forall|i: int| 0 <= i < get_at ==> !deletes(#[trigger] requests[i], key),
    ensures
        exists|i: int|
            0 <= i < get_at && (#[trigger] requests[i] matches RequestView::Put {
                key: set,
                value,
            } && set == key && reply_at(pairs, requests, get_at) == ReplyView::Value(value)),
{
    let set_at = lemma_value_was_set(pairs, requests, get_at, key);
    assert(sets(requests[set_at], key));
}

} // verus!
