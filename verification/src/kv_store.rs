//! The store: the key-value pairs, and the lock that lets threads share them.

use crate::command::{fits, step, Pairs, Reply, Request};
use crate::error::{ErrorView, MiniRedisError};
use std::ops::{Deref, DerefMut};
use std::sync::{LockResult, Mutex, MutexGuard, PoisonError};
use vstd::hash_map::StringHashMap;
use vstd::prelude::*;

verus! {

/// The key-value pairs of a store: a mapping from key to value, in which each
/// key has at most one value.
pub struct Keyspace {
    entries: StringHashMap<String>,
}

impl View for Keyspace {
    type V = Pairs;

    closed spec fn view(&self) -> Pairs {
        self.entries@.map_values(|value: String| value@)
    }
}

impl Keyspace {
    /// Creates a keyspace that holds no key.
    pub fn new() -> (keyspace: Keyspace)
        ensures
            keyspace@ == Pairs::empty(),
    {
        Keyspace { entries: StringHashMap::new() }
    }

    /// Gets the value stored under `key`, or `None` if there is none.
    pub fn get(&self, key: &str) -> (value: Option<String>)
        ensures
            match value {
                Some(text) => self@.contains_key(key@) && text@ == self@[key@],
                None => !self@.contains_key(key@),
            },
    {
        match self.entries.get(key) {
            Some(text) => Some(text.clone()),
            None => None,
        }
    }

    /// Stores `value` under `key`, in place of the value that the key had, if
    /// it had one.
    pub fn set(&mut self, key: &str, value: &str)
        ensures
            final(self)@ == old(self)@.insert(key@, value@),
    {
        self.entries.insert(key.to_owned(), value.to_owned());
    }

    /// Removes `key` and its value. A key that has no value stays without.
    pub fn del(&mut self, key: &str)
        ensures
            final(self)@ == old(self)@.remove(key@),
    {
        self.entries.remove(key);
    }

    /// Carries out `request`, and gives the reply to it.
    pub fn execute(&mut self, request: Request) -> (reply: Reply)
        ensures
            (final(self)@, reply@) == step(old(self)@, request@),
    {
        match request {
            Request::Get { key } => match self.get(key.as_str()) {
                Some(value) => Reply::Value(value),
                None => Reply::Nil,
            },
            Request::Put { key, value } => {
                self.entries.insert(key, value);
                Reply::Done
            },
            Request::Del { key } => {
                self.del(key.as_str());
                Reply::Done
            },
        }
    }
}

/// `std::sync::Mutex`, a lock around a value of type `T`. The value that it
/// guards is no part of what Verus knows of the lock: other threads may
/// change it whenever the lock is free.
#[verifier::external_type_specification]
#[verifier::external_body]
#[verifier::reject_recursive_types(T)]
pub struct ExMutex<T: ?Sized>(Mutex<T>);

/// `std::sync::MutexGuard`, which keeps a `Mutex` locked until it is dropped.
#[verifier::external_type_specification]
#[verifier::external_body]
#[verifier::reject_recursive_types(T)]
pub struct ExMutexGuard<'a, T: ?Sized + 'a>(MutexGuard<'a, T>);

/// `std::sync::PoisonError`, the error of a lock whose holder panicked.
#[verifier::external_type_specification]
#[verifier::external_body]
#[verifier::reject_recursive_types(T)]
pub struct ExPoisonError<T>(PoisonError<T>);

/// `Mutex::new`, which makes a lock, free, around `value`.
pub assume_specification<T>[ Mutex::<T>::new ](value: T) -> (mutex: Mutex<T>);

/// `Mutex::lock`, which waits until the lock is free and takes it. It fails
/// if a thread panicked while it held the lock. A thread must not call it
/// while it holds the lock itself: in this library only [`KVStore`] takes its
/// lock, in one place, and each of its operations gives the lock back before
/// it returns and takes it once.
pub assume_specification<T: ?Sized>[ Mutex::<T>::lock ](mutex: &Mutex<T>) -> (result: LockResult<
    MutexGuard<'_, T>,
>);

/// `Deref::deref` of a `MutexGuard`, which gives the value that the lock
/// guards, to read it.
pub assume_specification<'a, 'b, T: ?Sized>[ <MutexGuard<'a, T> as Deref>::deref ](
    guard: &'b MutexGuard<'a, T>,
) -> (value: &'b T);

/// `DerefMut::deref_mut` of a `MutexGuard`, which gives the value that the
/// lock guards, to change it.
pub assume_specification<'a, 'b, T: ?Sized>[ <MutexGuard<'a, T> as DerefMut>::deref_mut ](
    guard: &'b mut MutexGuard<'a, T>,
) -> (value: &'b mut T);

/// A key-value store that can be shared between threads.
///
/// The pairs lie behind one lock. Each operation takes the lock, does to the
/// pairs what the operation of [`Keyspace`] with the same name does, and gives
/// the lock back. So each operation sees and leaves the pairs whole; but other
/// threads may change them between two operations, and nothing is known here
/// of the pairs that an operation finds.
pub struct KVStore {
    store: Mutex<Keyspace>,
}

impl KVStore {
    /// Creates a new store, which holds no key.
    pub fn new() -> Self {
        KVStore { store: Mutex::new(Keyspace::new()) }
    }

    /// Gets the value stored under `key`, or `None` if there is none.
    ///
    /// The one error is `StoreLocked`, for a lock that cannot be taken.
    pub fn get(&self, key: &str) -> (outcome: Result<Option<String>, MiniRedisError>)
        ensures
            outcome matches Err(error) ==> error@ == ErrorView::StoreLocked,
    {
        let store = self.get_store()?;
        Ok(store.deref().get(key))
    }

    /// Stores `value` under `key`.
    ///
    /// The one error is `StoreLocked`, for a lock that cannot be taken.
    pub fn set(&self, key: &str, value: &str) -> (outcome: Result<(), MiniRedisError>)
        ensures
            outcome matches Err(error) ==> error@ == ErrorView::StoreLocked,
    {
        let mut store = self.get_store()?;
        store.deref_mut().set(key, value);
        Ok(())
    }

    /// Removes `key`. It is no error if the key has no value.
    ///
    /// The one error is `StoreLocked`, for a lock that cannot be taken.
    pub fn del(&self, key: &str) -> (outcome: Result<(), MiniRedisError>)
        ensures
            outcome matches Err(error) ==> error@ == ErrorView::StoreLocked,
    {
        let mut store = self.get_store()?;
        store.deref_mut().del(key);
        Ok(())
    }

    /// Carries out `request` while holding the lock, and gives the reply to it.
    ///
    /// The one error is `StoreLocked`, for a lock that cannot be taken. The
    /// reply is the one that [`Keyspace::execute`] gives on the pairs that the
    /// store holds when the lock is taken, so it fits the request.
    pub fn execute(&self, request: Request) -> (outcome: Result<Reply, MiniRedisError>)
        ensures
            match outcome {
                Ok(reply) => fits(request@, reply@),
                Err(error) => error@ == ErrorView::StoreLocked,
            },
    {
        let mut store = self.get_store()?;
        Ok(store.deref_mut().execute(request))
    }

    /// Takes the lock, and gives the guard through which the pairs are
    /// reached while it is held.
    fn get_store(&self) -> (taken: Result<MutexGuard<'_, Keyspace>, MiniRedisError>)
        ensures
            taken matches Err(error) ==> error@ == ErrorView::StoreLocked,
    {
        match self.store.lock() {
            Ok(guard) => Ok(guard),
            Err(_) => Err(MiniRedisError::StoreLocked),
        }
    }
}

} // verus!
