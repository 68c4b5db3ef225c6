use std::collections::HashMap;
use vstd::prelude::*;

use crate::store::{lookup, Storage};

verus! {

broadcast use vstd::std_specs::hash::group_hash_axioms;

/// Why an in-memory store refused an operation.
#[derive(Debug, Clone, Copy, PartialEq, Eq, Structural)]
pub enum StorageError {
    /// The store was closed and takes no more operations.
    Closed,
}

/// Dialogue records held in memory, one per chat.
///
/// Once closed, the store keeps its records but refuses every operation.
pub struct InMemStorage<D> {
    map: HashMap<i64, D>,
    closed: bool,
}

impl<D> InMemStorage<D> {
    /// The records held, by chat.
    pub closed spec fn records(&self) -> Map<i64, D> {
        self.map@
    }

    /// Whether the store has been closed.
    pub closed spec fn spec_closed(&self) -> bool {
        self.closed
    }

    /// An open store with no records.
    pub fn new() -> (r: Self)
        ensures
            r.records() == Map::<i64, D>::empty(),
            !r.spec_closed(),
    {
        InMemStorage { map: HashMap::new(), closed: false }
    }

    /// Whether the store has been closed.
    pub fn is_closed(&self) -> (r: bool)
        ensures
            r == self.spec_closed(),
    {
        self.closed
    }

    /// Closes the store: its records stay, every later operation fails.
    pub fn close(&mut self)
        ensures
            final(self).spec_closed(),
            final(self).records() == old(self).records(),
    {
        self.closed = true;
    }

    /// A copy of the record of `chat_id`, if there is one.
    pub fn get(&self, chat_id: i64) -> (r: Result<Option<D>, StorageError>) where D: Clone
        ensures
            self.spec_closed() ==> r == Err::<Option<D>, StorageError>(StorageError::Closed),
            !self.spec_closed() ==> r is Ok,
            r matches Ok(found) ==> match found {
                Some(d) => self.records().contains_key(chat_id) && cloned(
                    self.records()[chat_id],
                    d,
                ),
                None => !self.records().contains_key(chat_id),
            },
    {
        if self.closed {
            return Err(StorageError::Closed);
        }
        match self.map.get(&chat_id) {
            Some(d) => Ok(Some(d.clone())),
            None => Ok(None),
        }
    }

    /// Replaces the record of `chat_id` and returns the previous one.
    pub fn update(&mut self, chat_id: i64, dialogue: D) -> (r: Result<Option<D>, StorageError>)
        ensures
            final(self).spec_closed() == old(self).spec_closed(),
            old(self).spec_closed() ==> r == Err::<Option<D>, StorageError>(StorageError::Closed)
                && final(self).records() == old(self).records(),
            !old(self).spec_closed() ==> r == Ok::<Option<D>, StorageError>(
                lookup(old(self).records(), chat_id),
            ) && final(self).records() == old(self).records().insert(chat_id, dialogue),
    {
        if self.closed {
            return Err(StorageError::Closed);
        }
        Ok(self.map.insert(chat_id, dialogue))
    }

    /// Deletes the record of `chat_id` and returns it.
    pub fn remove(&mut self, chat_id: i64) -> (r: Result<Option<D>, StorageError>)
        ensures
            final(self).spec_closed() == old(self).spec_closed(),
            old(self).spec_closed() ==> r == Err::<Option<D>, StorageError>(StorageError::Closed)
                && final(self).records() == old(self).records(),
            !old(self).spec_closed() ==> r == Ok::<Option<D>, StorageError>(
                lookup(old(self).records(), chat_id),
            ) && final(self).records() == old(self).records().remove(chat_id),
    {
        if self.closed {
            return Err(StorageError::Closed);
        }
        Ok(self.map.remove(&chat_id))
    }
}

impl<D: Clone> Storage<D> for InMemStorage<D> {
    type Error = StorageError;

    open spec fn dialogues(&self) -> Map<i64, D> {
        self.records()
    }

    open spec fn refusal(&self) -> Option<StorageError> {
        if self.spec_closed() {
            Some(StorageError::Closed)
        } else {
            None
        }
    }

    open spec fn infallible(&self) -> bool {
        !self.spec_closed()
    }

    fn get_dialogue(&self, chat_id: i64) -> (r: Result<Option<D>, StorageError>)
        ensures
            self.spec_closed() ==> r == Err::<Option<D>, StorageError>(StorageError::Closed),
            !self.spec_closed() ==> r is Ok,
    {
        self.get(chat_id)
    }

    fn update_dialogue(&mut self, chat_id: i64, dialogue: D) -> (r: Result<Option<D>, StorageError>)
        ensures
            final(self).spec_closed() == old(self).spec_closed(),
            old(self).spec_closed() ==> r == Err::<Option<D>, StorageError>(StorageError::Closed),
            !old(self).spec_closed() ==> r == Ok::<Option<D>, StorageError>(
                lookup(old(self).records(), chat_id),
            ),
    {
        self.update(chat_id, dialogue)
    }

    fn remove_dialogue(&mut self, chat_id: i64) -> (r: Result<Option<D>, StorageError>)
        ensures
            final(self).spec_closed() == old(self).spec_closed(),
            old(self).spec_closed() ==> r == Err::<Option<D>, StorageError>(StorageError::Closed),
            !old(self).spec_closed() ==> r == Ok::<Option<D>, StorageError>(
                lookup(old(self).records(), chat_id),
            ),
    {
        self.remove(chat_id)
    }
}

} // verus!
