//! The buffer of readiness records that each wait refills in place.
use vstd::prelude::*;
use crate::event::Event;
use vstd::math::min;

verus! {

/// Readiness records filled by the last wait, within a capacity fixed at
/// creation.
pub struct Events {
    records: Vec<Event>,
    cap: usize,
}

impl View for Events {
    type V = Seq<Event>;

    closed spec fn view(&self) -> Seq<Event> {
        self.records@
    }
}

impl Events {
    /// The buffer never holds more records than its capacity.
    #[verifier::type_invariant]
    spec fn within_capacity(self) -> bool {
        self.records@.len() <= self.cap
    }

    /// The capacity fixed at creation.
    pub closed spec fn cap_spec(&self) -> nat {
        self.cap as nat
    }

    /// An empty buffer for up to `capacity` records.
    pub fn with_capacity(capacity: usize) -> (r: Events)
        ensures
            r@ == Seq::<Event>::empty(),
            r.cap_spec() == capacity,
    {
        Events { records: Vec::new(), cap: capacity }
    }

    /// The number of records held.
    pub fn len(&self) -> (r: usize)
        ensures
            r == self@.len(),
            r <= self.cap_spec(),
    {
        proof { use_type_invariant(self); }
        self.records.len()
    }

    /// How many records a wait may fill.
    pub fn capacity(&self) -> (r: usize)
        ensures
            r == self.cap_spec(),
    {
        self.cap
    }

    /// Whether no record is held.
    pub fn is_empty(&self) -> (r: bool)
        ensures
            r == (self@.len() == 0),
    {
        self.records.len() == 0
    }

    /// Drops every record; the capacity stays.
    pub fn clear(&mut self)
        ensures
            final(self)@ == Seq::<Event>::empty(),
            final(self).cap_spec() == old(self).cap_spec(),
    {
        self.records = Vec::new();
    }

    /// The record at position `i`, if there is one.
    pub fn get(&self, i: usize) -> (r: Option<Event>)
        ensures
            i < self@.len() ==> r == Some(self@[i as int]),
            i >= self@.len() ==> r is None,
    {
        if i < self.records.len() {
            Some(self.records[i])
        } else {
            None
        }
    }

    /// The records held, in order.
    pub fn to_vec(&self) -> (r: Vec<Event>)
        ensures
            r@ == self@,
    {
        self.records.clone()
    }

    /// Replaces the records with those the native wait filled, keeping no
    /// more than the capacity.
    pub fn fill(&mut self, filled: &Vec<Event>)
        ensures
            final(self)@ == filled@.take(min(filled@.len() as int, old(self).cap_spec() as int)),
            final(self).cap_spec() == old(self).cap_spec(),
    {
        let n: usize = if filled.len() < self.cap { filled.len() } else { self.cap };
        let mut records: Vec<Event> = Vec::new();
        let mut i: usize = 0;
        while i < n
            invariant
                n <= filled@.len(),
                n <= self.cap,
                i <= n,
                records@ == filled@.take(i as int),
            decreases n - i,
        {
            records.push(filled[i]);
            i = i + 1;
            assert(records@ =~= filled@.take(i as int));
        }
        self.records = records;
    }
}

} // verus!
