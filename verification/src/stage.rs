//! The stage: one performer at a time (the last one to be saved), and the
//! viewers watching them. Media objects are of the media layer's types: `P`
//! for a performer's producer, `C` for a viewer's consumer, which is known by
//! its 128-bit id.

use std::collections::HashMap;

use vstd::prelude::*;

verus! {

broadcast use vstd::std_specs::hash::group_hash_axioms;

/// Why the stage cannot serve a request.
#[derive(Clone, Copy, Debug, PartialEq, Eq, Structural)]
pub enum StageError {
    /// Nobody is performing, so there is nothing to watch.
    NoCurrentProducer,
}

/// The stage as the contracts see it.
pub struct StageModel<P, C> {
    pub producer: Option<P>,
    pub consumers: Map<u128, C>,
}

/// The performer and the viewers of the stage.
pub struct Stage<P, C> {
    producer: Option<P>,
    consumers: HashMap<u128, C>,
}

impl<P, C> View for Stage<P, C> {
    type V = StageModel<P, C>;

    closed spec fn view(&self) -> StageModel<P, C> {
        StageModel { producer: self.producer, consumers: self.consumers@ }
    }
}

impl<P, C> Stage<P, C> {
    /// An empty stage: no performer, no viewer.
    pub fn new() -> (res: Self)
        ensures
            res@.producer is None,
            res@.consumers == Map::<u128, C>::empty(),
    {
        Stage { producer: None, consumers: HashMap::new() }
    }

    /// The current performer, which a new viewer is to watch; an error when
    /// nobody is performing.
    pub fn current_producer(&self) -> (res: Result<&P, StageError>)
        ensures
            res matches Ok(p) ==> self@.producer == Some(*p),
            res matches Err(e) ==> self@.producer is None && e == StageError::NoCurrentProducer,
    {
        match &self.producer {
            Some(p) => Ok(p),
            None => Err(StageError::NoCurrentProducer),
        }
    }

    /// Puts a performer on stage, replacing the previous one, which is
    /// returned.
    pub fn save_producer(&mut self, producer: P) -> (res: Option<P>)
        ensures
            final(self)@.producer == Some(producer),
            final(self)@.consumers == old(self)@.consumers,
            res == old(self)@.producer,
    {
        let previous = self.producer.take();
        self.producer = Some(producer);
        previous
    }

    /// Adds a viewer under its id; a viewer with the same id is replaced and
    /// returned.
    pub fn save_consumer(&mut self, id: u128, consumer: C) -> (res: Option<C>)
        ensures
            final(self)@.consumers == old(self)@.consumers.insert(id, consumer),
            final(self)@.producer == old(self)@.producer,
            res matches Some(c) ==> old(self)@.consumers.contains_key(id) && c == old(self)@.consumers[id],
            res is None ==> !old(self)@.consumers.contains_key(id),
    {
        self.consumers.insert(id, consumer)
    }

    /// The viewer with the given id.
    pub fn consumer(&self, id: u128) -> (res: Option<&C>)
        ensures
            res matches Some(c) ==> self@.consumers.contains_key(id) && *c == self@.consumers[id],
            res is None ==> !self@.consumers.contains_key(id),
    {
        self.consumers.get(&id)
    }

    /// Number of viewers.
    pub fn num_consumers(&self) -> (res: usize)
        ensures
            res == self@.consumers.len(),
    {
        self.consumers.len()
    }
}

} // verus!
