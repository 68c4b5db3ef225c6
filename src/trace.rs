use std::fmt::Debug;
use vstd::prelude::*;

use crate::store::{lookup, outcome, Storage};

verus! {

/// One diagnostic record of a traced store.
#[derive(Debug, Clone, PartialEq, Eq)]
pub enum TraceEvent {
    /// A removal of the chat's record was asked for.
    Removing { chat_id: i64 },
    /// The chat's record was replaced: the renderings of the previous record
    /// and of the new one.
    Updated { chat_id: i64, from: String, to: String },
}

impl TraceEvent {
    /// The chat that the record is about.
    pub open spec fn chat(self) -> i64 {
        match self {
            TraceEvent::Removing { chat_id } => chat_id,
            TraceEvent::Updated { chat_id, .. } => chat_id,
        }
    }
}

/// Relies on std's `format!` with `{:#?}`: the pretty `Debug` rendering of a value.
#[verifier::external_body]
fn render<T: Debug>(value: &T) -> String {
    format!("{:#?}", value)
}

/// A store wrapper for diagnostics.
///
/// Every call is forwarded to the inner store and its result handed back
/// unchanged. While tracing is on, each removal and each successful update
/// also leaves a diagnostic record, to be collected with `take_events`.
pub struct TraceStorage<S> {
    inner: S,
    tracing: bool,
    events: Vec<TraceEvent>,
}

impl<S> TraceStorage<S> {
    /// The wrapped store.
    pub closed spec fn spec_inner(&self) -> S {
        self.inner
    }

    /// Whether diagnostic records are being made.
    pub closed spec fn spec_tracing(&self) -> bool {
        self.tracing
    }

    /// The diagnostic records made and not yet collected, oldest first.
    pub closed spec fn events(&self) -> Seq<TraceEvent> {
        self.events@
    }

    /// Wraps `inner`, with tracing off and no records.
    #[must_use]
    pub fn new(inner: S) -> (r: Self)
        ensures
            r.spec_inner() == inner,
            !r.spec_tracing(),
            r.events() == Seq::<TraceEvent>::empty(),
    {
        TraceStorage { inner, tracing: false, events: Vec::new() }
    }

    /// Unwraps the inner store.
    pub fn into_inner(self) -> (r: S)
        ensures
            r == self.spec_inner(),
    {
        self.inner
    }

    /// The wrapped store.
    pub fn inner(&self) -> (r: &S)
        ensures
            *r == self.spec_inner(),
    {
        &self.inner
    }

    /// Whether diagnostic records are being made.
    pub fn is_tracing(&self) -> (r: bool)
        ensures
            r == self.spec_tracing(),
    {
        self.tracing
    }

    /// Turns the making of diagnostic records on or off.
    pub fn set_tracing(&mut self, on: bool)
        ensures
            final(self).spec_tracing() == on,
            final(self).spec_inner() == old(self).spec_inner(),
            final(self).events() == old(self).events(),
    {
        self.tracing = on;
    }

    /// Hands out the diagnostic records made so far, oldest first, and
    /// forgets them.
    pub fn take_events(&mut self) -> (r: Vec<TraceEvent>)
        ensures
            r@ == old(self).events(),
            final(self).events() == Seq::<TraceEvent>::empty(),
            final(self).spec_inner() == old(self).spec_inner(),
            final(self).spec_tracing() == old(self).spec_tracing(),
    {
        let mut taken: Vec<TraceEvent> = Vec::new();
        std::mem::swap(&mut taken, &mut self.events);
        taken
    }

    /// A copy of the record of `chat_id`: what the inner store returns.
    pub fn get<D: Clone + Debug>(&self, chat_id: i64) -> (r: Result<Option<D>, S::Error>) where
        S: Storage<D>,
        ensures
            r is Err <==> self.spec_inner().refusal() is Some,
            r matches Err(e) ==> self.spec_inner().refusal() == Some(e),
            self.spec_inner().infallible() ==> r is Ok,
            r matches Ok(found) ==> match found {
                Some(d) => self.spec_inner().dialogues().contains_key(chat_id) && cloned(
                    self.spec_inner().dialogues()[chat_id],
                    d,
                ),
                None => !self.spec_inner().dialogues().contains_key(chat_id),
            },
    {
        self.inner.get_dialogue(chat_id)
    }

    /// Replaces the record of `chat_id` in the inner store and returns what
    /// the inner store returned, success or error. While tracing, a success
    /// is recorded with the renderings of the previous and of the new record.
    pub fn update<D: Clone + Debug>(&mut self, chat_id: i64, dialogue: D) -> (r: Result<
        Option<D>,
        S::Error,
    >) where S: Storage<D>,
        ensures
            r == outcome(
                old(self).spec_inner().refusal(),
                lookup(old(self).spec_inner().dialogues(), chat_id),
            ),
            r is Ok ==> final(self).spec_inner().dialogues() == old(
                self,
            ).spec_inner().dialogues().insert(chat_id, dialogue),
            r is Err ==> final(self).spec_inner().dialogues() == old(self).spec_inner().dialogues(),
            old(self).spec_inner().infallible() ==> r is Ok
                && final(self).spec_inner().infallible(),
            final(self).spec_tracing() == old(self).spec_tracing(),
            old(self).spec_tracing() && r is Ok ==> final(self).events().len() == old(
                self,
            ).events().len() + 1 && final(self).events().drop_last() == old(self).events()
                && final(self).events().last() is Updated && final(self).events().last().chat()
                == chat_id,
            !(old(self).spec_tracing() && r is Ok) ==> final(self).events() == old(self).events(),
    {
        if self.tracing {
            let to = render(&dialogue);
            let res = self.inner.update_dialogue(chat_id, dialogue);
            match res {
                Ok(from) => {
                    let event = TraceEvent::Updated { chat_id, from: render(&from), to };
                    self.events.push(event);
                    assert(self.events@.drop_last() =~= old(self).events@);
                    Ok(from)
                },
                Err(e) => Err(e),
            }
        } else {
            self.inner.update_dialogue(chat_id, dialogue)
        }
    }

    /// Deletes the record of `chat_id` in the inner store and returns what
    /// the inner store returned, success or error. While tracing, the request
    /// is recorded first, whatever the inner store then does.
    pub fn remove<D: Clone + Debug>(&mut self, chat_id: i64) -> (r: Result<Option<D>, S::Error>) where
        S: Storage<D>,
        ensures
            r == outcome(
                old(self).spec_inner().refusal(),
                lookup(old(self).spec_inner().dialogues(), chat_id),
            ),
            r is Ok ==> final(self).spec_inner().dialogues() == old(
                self,
            ).spec_inner().dialogues().remove(chat_id),
            r is Err ==> final(self).spec_inner().dialogues() == old(self).spec_inner().dialogues(),
            old(self).spec_inner().infallible() ==> r is Ok
                && final(self).spec_inner().infallible(),
            final(self).spec_tracing() == old(self).spec_tracing(),
            old(self).spec_tracing() ==> final(self).events() == old(self).events().push(
                TraceEvent::Removing { chat_id },
            ),
            !old(self).spec_tracing() ==> final(self).events() == old(self).events(),
    {
        if self.tracing {
            self.events.push(TraceEvent::Removing { chat_id });
        }
        self.inner.remove_dialogue(chat_id)
    }
}

} // verus!

verus! {

impl<S, D: Clone + Debug> Storage<D> for TraceStorage<S> where S: Storage<D> {
    type Error = S::Error;

    open spec fn dialogues(&self) -> Map<i64, D> {
        self.spec_inner().dialogues()
    }

    open spec fn refusal(&self) -> Option<S::Error> {
        self.spec_inner().refusal()
    }

    open spec fn infallible(&self) -> bool {
        self.spec_inner().infallible()
    }

    fn get_dialogue(&self, chat_id: i64) -> (r: Result<Option<D>, S::Error>) {
        self.get(chat_id)
    }

    fn update_dialogue(&mut self, chat_id: i64, dialogue: D) -> (r: Result<Option<D>, S::Error>)
        ensures
            final(self).spec_tracing() == old(self).spec_tracing(),
            old(self).spec_tracing() && r is Ok ==> final(self).events().len() == old(
                self,
            ).events().len() + 1 && final(self).events().drop_last() == old(self).events()
                && final(self).events().last() is Updated && final(self).events().last().chat()
                == chat_id,
            !(old(self).spec_tracing() && r is Ok) ==> final(self).events() == old(self).events(),
    {
        self.update(chat_id, dialogue)
    }

    fn remove_dialogue(&mut self, chat_id: i64) -> (r: Result<Option<D>, S::Error>)
        ensures
            final(self).spec_tracing() == old(self).spec_tracing(),
            old(self).spec_tracing() ==> final(self).events() == old(self).events().push(
                TraceEvent::Removing { chat_id },
            ),
            !old(self).spec_tracing() ==> final(self).events() == old(self).events(),
    {
        self.remove(chat_id)
    }
}

} // verus!
