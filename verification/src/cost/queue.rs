//! The wallet's outstanding obligations.

use crate::cost::intent::{Intent, IntentView};
use std::collections::HashMap;
use std::fmt::Debug;
use std::hash::Hash;
use vstd::prelude::*;
use vstd::std_specs::iter::IteratorSpec;

verus! {

broadcast use vstd::std_specs::hash::group_hash_axioms;

/// All the information the wallet has about what the user wants to do.
pub trait Queue: Sized {
    /// Names one intent in this queue.
    ///
    /// An id for an intent for as long as the queue holds it, and is
    /// never reused for another.
    type Id: Copy + Eq + Hash + Debug;

    /// The intents that the queue holds, by id.
    closed spec fn held(&self) -> Map<Self::Id, IntentView> {
        vstd::pervasive::arbitrary()
    }

    /// Every intent with its id, in no particular order.
    fn iter(&self) -> (intents: Vec<(Self::Id, &Intent)>)
        ensures
            forall|i: int|
                0 <= i < intents@.len() ==> {
                    let (id, intent) = #[trigger] intents@[i];
                    self.held().contains_key(id) && self.held()[id] == intent@
                },
            forall|i: int, j: int|
                0 <= i < j < intents@.len() ==> (#[trigger] intents@[i]).0 != (
                #[trigger] intents@[j]).0,
            forall|id: Self::Id| #[trigger]
                self.held().contains_key(id) ==> exists|i: int|
                    0 <= i < intents@.len() && (#[trigger] intents@[i]).0 == id,
    ;

    /// The intent `id` names, if the queue still holds it.
    fn get(&self, id: Self::Id) -> (intent: Option<&Intent>)
        ensures
            match intent {
                Some(intent) => self.held().contains_key(id) && self.held()[id] == intent@,
                None => !self.held().contains_key(id),
            },
    ;

    /// Drop an intent, because something realized it.
    fn remove(&mut self, id: Self::Id)
        ensures
            final(self).held() == old(self).held().remove(id),
    ;
}

/// What a queue holds, and which id it hands out next.
pub struct QueueState {
    /// The intents that the queue holds, by id.
    pub held: Map<u64, IntentView>,
    /// The id that the next intent will be known by.
    pub next: nat,
}

/// One change to a queue.
pub enum QueueStep {
    /// An intent is added.
    Push(IntentView),
    /// The intent of that id is dropped.
    Remove(u64),
}

impl QueueState {
    /// After one change.
    pub open spec fn after(self, step: QueueStep) -> Self {
        match step {
            QueueStep::Push(intent) => QueueState {
                held: self.held.insert(self.next as u64, intent),
                next: self.next + 1,
            },
            QueueStep::Remove(id) => QueueState { held: self.held.remove(id), ..self },
        }
    }

    /// After some changes.
    pub open spec fn after_all(self, steps: Seq<QueueStep>) -> Self
        decreases steps.len(),
    {
        if steps.len() == 0 {
            self
        } else {
            self.after_all(steps.drop_last()).after(steps.last())
        }
    }
}

/// A queue that lives as long as the process.
#[derive(Debug, PartialEq, Eq)]
pub struct InMemoryQueue {
    intents: HashMap<u64, Intent>,
    next_id: u64,
}

impl InMemoryQueue {
    /// Every id in use has been handed out.
    #[verifier::type_invariant]
    spec fn ids_were_handed_out(self) -> bool {
        forall|id: u64| #[trigger] self.intents@.contains_key(id) ==> id < self.next_id
    }

    /// The id that the next intent will be known by.
    pub closed spec fn next(self) -> u64 {
        self.next_id
    }

    /// What the queue holds, and which id it hands out next.
    pub open spec fn state(self) -> QueueState {
        QueueState { held: self.held(), next: self.next() as nat }
    }

    /// Take intents into a queue, naming each one as it lands.
    pub fn new(intents: Vec<Intent>) -> (queue: Self)
        ensures
            queue.next() == intents@.len(),
            forall|id: u64| #[trigger] queue.held().contains_key(id) <==> id < intents@.len(),
            forall|id: u64|
                id < intents@.len() ==> #[trigger] queue.held()[id] == intents@[id as int]@,
    {
        let count: usize = intents.len();
        let mut queue = InMemoryQueue { intents: HashMap::new(), next_id: 0 };
        for intent in iter: intents
            invariant
                iter.seq() == intents@,
                count == intents@.len(),
                queue.next() == iter.index(),
                forall|id: u64| #[trigger] queue.held().contains_key(id) <==> id < iter.index(),
                forall|id: u64|
                    id < iter.index() ==> #[trigger] queue.held()[id] == intents@[id as int]@,
        {
            queue.push(intent);
        }
        queue
    }

    /// Add an intent, returning the id it will be known by.
    pub fn push(&mut self, intent: Intent) -> (id: u64)
        requires
            old(self).next() < u64::MAX,
        ensures
            id == old(self).next(),
            !old(self).held().contains_key(id),
            final(self).state() == old(self).state().after(QueueStep::Push(intent@)),
            final(self).held() == old(self).held().insert(id, intent@),
            final(self).next() == id + 1,
    {
        proof {
            use_type_invariant(&*self);
        }
        let id: u64 = self.next_id;
        let mut intents = HashMap::new();
        std::mem::swap(&mut intents, &mut self.intents);
        intents.insert(id, intent);
        self.next_id = id + 1;
        self.intents = intents;
        assert(self.held() =~= old(self).held().insert(id, intent@));
        id
    }
}

impl Clone for InMemoryQueue {
    fn clone(&self) -> (queue: Self)
        ensures
            queue.state() == self.state(),
            queue.held() == self.held(),
            queue.next() == self.next(),
    {
        proof {
            use_type_invariant(self);
        }
        InMemoryQueue { intents: self.intents.clone(), next_id: self.next_id }
    }
}

impl Queue for InMemoryQueue {
    type Id = u64;

    closed spec fn held(&self) -> Map<u64, IntentView> {
        self.intents@.map_values(|intent: Intent| intent@)
    }

    fn iter(&self) -> (intents: Vec<(u64, &Intent)>) {
        let mut intents: Vec<(u64, &Intent)> = Vec::new();
        let pairs = self.intents.iter();
        let ghost all = pairs.remaining();
        for (id, intent) in iter: pairs
            invariant
                iter.seq() == all,
                intents@.len() == iter.index(),
                forall|i: int|
                    0 <= i < iter.index() ==> #[trigger] intents@[i] == (
                        *iter.seq()[i].0,
                        iter.seq()[i].1,
                    ),
        {
            intents.push((*id, intent));
        }
        assert forall|i: int, j: int| 0 <= i < j < intents@.len() implies (#[trigger] intents@[i]).0
            != (#[trigger] intents@[j]).0 by {
            assert(all[i] != all[j]);
            assert(self.intents@[*all[i].0] == *all[i].1);
            assert(self.intents@[*all[j].0] == *all[j].1);
        }
        assert forall|id: u64| #[trigger] self.held().contains_key(id) implies exists|i: int|
            0 <= i < intents@.len() && (#[trigger] intents@[i]).0 == id by {
            assert(self.intents@.contains_key(id));
            let i = choose|i: int| 0 <= i < all.len() && all[i] == (&id, &self.intents@[id]);
            assert(intents@[i].0 == id);
        }
        intents
    }

    fn get(&self, id: u64) -> (intent: Option<&Intent>) {
        self.intents.get(&id)
    }

    fn remove(&mut self, id: u64)
        ensures
            final(self).state() == old(self).state().after(QueueStep::Remove(id)),
            final(self).next() == old(self).next(),
    {
        proof {
            use_type_invariant(&*self);
        }
        let mut intents = HashMap::new();
        std::mem::swap(&mut intents, &mut self.intents);
        intents.remove(&id);
        self.intents = intents;
        assert(self.held() =~= old(self).held().remove(id));
    }
}

/// Ids only ever grow, and by no more than one at a time.
proof fn ids_only_grow(state: QueueState, steps: Seq<QueueStep>)
    ensures
        state.next <= state.after_all(steps).next <= state.next + steps.len(),
    decreases steps.len(),
{
    if steps.len() > 0 {
        ids_only_grow(state, steps.drop_last());
    }
}

/// An id is never reused for another intent: whatever is pushed or removed after an
/// intent was taken in, the next one is given another id.
pub proof fn ids_are_never_reused(state: QueueState, intent: IntentView, steps: Seq<QueueStep>)
    ensures
        state.after(QueueStep::Push(intent)).after_all(steps).next != state.next,
{
    ids_only_grow(state.after(QueueStep::Push(intent)), steps);
}

/// An id names its intent for as long as the queue holds it: unless that id is removed,
/// the intent stays under it, whatever else is pushed or removed.
pub proof fn an_id_names_its_intent(state: QueueState, intent: IntentView, steps: Seq<QueueStep>)
    requires
        state.next + steps.len() < u64::MAX,
        forall|i: int|
            0 <= i < steps.len() ==> #[trigger] steps[i] != QueueStep::Remove(state.next as u64),
    ensures
        state.after(QueueStep::Push(intent)).after_all(steps).held.contains_key(state.next as u64),
        state.after(QueueStep::Push(intent)).after_all(steps).held[state.next as u64] == intent,
    decreases steps.len(),
{
    if steps.len() > 0 {
        let earlier = steps.drop_last();
        assert forall|i: int| 0 <= i < earlier.len() implies #[trigger] earlier[i]
            != QueueStep::Remove(state.next as u64) by {
            assert(steps[i] != QueueStep::Remove(state.next as u64));
        }
        an_id_names_its_intent(state, intent, earlier);
        ids_only_grow(state.after(QueueStep::Push(intent)), earlier);
        assert(steps[steps.len() - 1] != QueueStep::Remove(state.next as u64));
    }
}

/// Pushing an intent files it under the next id, moves on to the id after that, and leaves
/// every other intent where it is.
pub proof fn a_push_files_one_intent(state: QueueState, intent: IntentView, id: u64)
    requires
        state.next <= u64::MAX,
    ensures
        ({
            let after = state.after(QueueStep::Push(intent));
            &&& after.next == state.next + 1
            &&& id == state.next ==> after.held.contains_key(id) && after.held[id] == intent
            &&& id != state.next ==> {
                &&& after.held.contains_key(id) <==> state.held.contains_key(id)
                &&& state.held.contains_key(id) ==> after.held[id] == state.held[id]
            }
        }),
{
}

/// Removing an id drops what was filed under it and nothing else, and hands out no id.
pub proof fn a_removal_drops_one_intent(state: QueueState, removed: u64, id: u64)
    ensures
        ({
            let after = state.after(QueueStep::Remove(removed));
            &&& after.next == state.next
            &&& !after.held.contains_key(removed)
            &&& id != removed ==> {
                &&& after.held.contains_key(id) <==> state.held.contains_key(id)
                &&& state.held.contains_key(id) ==> after.held[id] == state.held[id]
            }
        }),
{
}

/// A run of changes is its changes, one after the other.
pub proof fn changes_are_made_one_by_one(state: QueueState, steps: Seq<QueueStep>, step: QueueStep)
    ensures
        state.after_all(Seq::empty()) == state,
        state.after_all(steps.push(step)) == state.after_all(steps).after(step),
{
    assert(steps.push(step).drop_last() =~= steps);
}

/// The state of a queue is what it holds and the id that it hands out next.
pub proof fn the_state_of_a_queue_is_shown_whole(queue: InMemoryQueue)
    ensures
        queue.state().held == queue.held(),
        queue.state().next == queue.next(),
{
}

} // verus!
