//! Requests drawn at random, to exercise a store from several threads.

use crate::command::{Request, RequestView};
use rand::rngs::ThreadRng;
use rand::Rng;
use vstd::prelude::*;

verus! {

/// `rand::rngs::ThreadRng`, a handle to the random number generator of the
/// current thread.
#[verifier::external_type_specification]
#[verifier::external_body]
pub struct ExThreadRng(ThreadRng);

/// `Rng::random_range` on the range from 0 up to `bound`, without `bound`:
/// draws a number of that range. It panics on an empty range.
#[verifier::external_body]
fn random_below(rng: &mut ThreadRng, bound: usize) -> (pick: usize)
    requires
        bound > 0,
    ensures
        pick < bound,
{
    rng.random_range(0..bound)
}

/// The digit that stands for `value`, which is less than ten.
pub open spec fn digit(value: nat) -> char {
    "0123456789"@[value as int]
}

/// The decimal form of `number`.
pub open spec fn decimal(number: nat) -> Seq<char>
    decreases number,
{
    if number < 10 {
        seq![digit(number)]
    } else {
        decimal(number / 10).push(digit(number % 10))
    }
}

/// The digit that stands for `value`.
fn digit_of(value: usize) -> (c: char)
    requires
        value < 10,
    ensures
        c == digit(value as nat),
{
    proof {
        reveal_strlit("0123456789");
    }
    "0123456789".get_char(value)
}

/// Appends the decimal form of `number` to `text`.
fn push_decimal(text: &mut String, number: usize)
    ensures
        final(text)@ == old(text)@ + decimal(number as nat),
    decreases number,
{
    if number >= 10 {
        push_decimal(text, number / 10);
    }
    text.push(digit_of(number % 10));
}

/// The name with the given number: `prefix`, then the number in decimal.
pub fn numbered(prefix: &str, number: usize) -> (name: String)
    ensures
        name@ == prefix@ + decimal(number as nat),
{
    let mut name = prefix.to_owned();
    push_decimal(&mut name, number);
    name
}

/// The request that three numbers stand for. The first picks what to do: 0 a
/// `GET`, 1 a `SET`, any other number a `DEL`. The second picks the key and
/// the third the value, which only a `SET` has.
pub open spec fn request_for(action: nat, key: nat, value: nat) -> RequestView {
    if action == 0 {
        RequestView::Get { key: "key_"@ + decimal(key) }
    } else if action == 1 {
        RequestView::Put { key: "key_"@ + decimal(key), value: "value_"@ + decimal(value) }
    } else {
        RequestView::Del { key: "key_"@ + decimal(key) }
    }
}

/// Makes the request that three numbers stand for.
pub fn make_request(action: usize, key: usize, value: usize) -> (request: Request)
    ensures
        request@ == request_for(action as nat, key as nat, value as nat),
{
    if action == 0 {
        Request::Get { key: numbered("key_", key) }
    } else if action == 1 {
        Request::Put { key: numbered("key_", key), value: numbered("value_", value) }
    } else {
        Request::Del { key: numbered("key_", key) }
    }
}

/// Draws a request at random: a `GET`, a `SET` or a `DEL`, on one of five
/// keys, and for a `SET` with one of five values.
pub fn random_request(rng: &mut ThreadRng) -> (request: Request)
    ensures
        exists|action: nat, key: nat, value: nat|
            action < 3 && key < 5 && value < 5 && request@ == #[trigger] request_for(
                action,
                key,
                value,
            ),
{
    let key = random_below(rng, 5);
    let action = random_below(rng, 3);
    let value = if action == 1 {
        random_below(rng, 5)
    } else {
        0
    };
    let drawn = make_request(action, key, value);
    drawn
}

} // verus!
