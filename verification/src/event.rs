//! The events that describe successful mutations of the registry.

use vstd::prelude::*;

verus! {

/// What an observer of the journal learns of one accepted command.
#[derive(Debug, PartialEq, Eq)]
pub enum Event<A> {
    /// A product was registered under `identifier` by `custodian`.
    ProductRegistered { custodian: A, identifier: Vec<u8> },
    /// A product's location was set to `location`.
    LocationUpdated { location: Vec<u8> },
}

/// The mathematical value of an [`Event`].
pub enum EventView<A> {
    ProductRegistered { custodian: A, identifier: Seq<u8> },
    LocationUpdated { location: Seq<u8> },
}

impl<A> View for Event<A> {
    type V = EventView<A>;

    open spec fn view(&self) -> EventView<A> {
        match *self {
            Event::ProductRegistered { custodian, identifier } => EventView::ProductRegistered {
                custodian,
                identifier: identifier@,
            },
            Event::LocationUpdated { location } => EventView::LocationUpdated {
                location: location@,
            },
        }
    }
}

impl<A: Clone> Clone for Event<A> {
    /// A copy that tells the same, with a clone of the custodian where the
    /// event names one.
    fn clone(&self) -> (copy: Self)
        ensures
            match *self {
                Event::ProductRegistered { custodian, identifier } => {
                    &&& copy matches Event::ProductRegistered {
                        custodian: copied,
                        identifier: same,
                    }
                    &&& cloned(custodian, copied)
                    &&& same@ == identifier@
                },
                Event::LocationUpdated { .. } => copy@ == self@,
            },
    {
        match self {
            Event::ProductRegistered { custodian, identifier } => Event::ProductRegistered {
                custodian: custodian.clone(),
                identifier: identifier.clone(),
            },
            Event::LocationUpdated { location } => Event::LocationUpdated {
                location: location.clone(),
            },
        }
    }
}

} // verus!
