//! The registry module as a host sees it: two commands over one table, with
//! every successful mutation recorded in a journal.

use vstd::prelude::*;

use crate::command::{register_product, update_location, Accepted};
use crate::error::Error;
use crate::event::Event;
use crate::origin::Origin;
use crate::product::Product;
use crate::registry::Registry;
use crate::state::{lemma_empty_is_reachable, lemma_step_keeps_reachable, Command, State};

verus! {

/// What the module needs to know of the runtime that hosts it.
pub trait Config {
    /// The account identity that the host attributes to a signed command. The
    /// module never looks inside. It keeps the account of a registration both
    /// in the registry and in the journal, hence `Copy`.
    type AccountId: Copy;
}

/// The module's state: the registry, and the journal of the events emitted
/// so far.
pub struct Pallet<T: Config> {
    registry: Registry<T::AccountId>,
    journal: Vec<Event<T::AccountId>>,
    accepted: Ghost<Seq<Command<T::AccountId>>>,
}

impl<T: Config> View for Pallet<T> {
    type V = State<T::AccountId>;

    closed spec fn view(&self) -> State<T::AccountId> {
        State {
            registry: self.registry@,
            journal: Seq::new(self.journal@.len(), |i: int| self.journal@[i]@),
            accepted: self.accepted@,
        }
    }
}

impl<T: Config> Pallet<T> {
    /// A module with an empty registry and an empty journal.
    pub fn new() -> (pallet: Self)
        ensures
            pallet@ == State::<T::AccountId>::empty(),
            pallet@.reachable(),
    {
        let pallet = Pallet {
            registry: Registry::new(),
            journal: Vec::new(),
            accepted: Ghost(Seq::empty()),
        };
        proof {
            assert(pallet@.journal =~= Seq::empty());
            lemma_empty_is_reachable::<T::AccountId>();
        }
        pallet
    }

    /// Stores the entry of an accepted command, then appends its event.
    fn commit(&mut self, accepted: Accepted<T::AccountId>, command: Ghost<Command<T::AccountId>>)
        requires
            old(self)@.verdict(command@) == Ok::<_, Error>(accepted@.product),
            accepted@.kind == command@.kind,
            accepted@.identifier == command@.identifier,
        ensures
            final(self)@ == old(self)@.step(command@),
    {
        let product = Product {
            location: accepted.product.location.clone(),
            name: accepted.product.name.clone(),
            custodian: accepted.product.custodian,
        };
        self.registry.put(accepted.identifier.clone(), product);
        self.journal.push(accepted.into_event());
        self.accepted = Ghost(self.accepted@.push(command@));
        assert(self@.journal =~= old(self)@.step(command@).journal);
    }

    /// The register-product command: creates the entry of `productid` with
    /// the given name and location, in the custody of the signer of `origin`,
    /// and records a `ProductRegistered` event.
    ///
    /// Rejected with `BadOrigin` where `origin` is unsigned, else with
    /// `ProductAlreadyExists` where `productid` is registered.
    pub fn add_product(
        &mut self,
        origin: Origin<T::AccountId>,
        productid: Vec<u8>,
        productname: Vec<u8>,
        location: Vec<u8>,
    ) -> (result: Result<(), Error>)
        ensures
            ({
                let command = Command::register(origin, productid@, productname@, location@);
                &&& result == old(self)@.reply(command)
                &&& final(self)@ == old(self)@.step(command)
            }),
            result is Err ==> *final(self) == *old(self),
            old(self)@.reachable() ==> final(self)@.reachable(),
    {
        let ghost command = Command::register(origin, productid@, productname@, location@);
        proof {
            if self@.reachable() {
                lemma_step_keeps_reachable(self@, command);
            }
        }
        let exists = self.registry.contains(productid.as_slice());
        match register_product(origin, productid, productname, location, exists) {
            Ok(accepted) => {
                self.commit(accepted, Ghost(command));
                Ok(())
            },
            Err(reason) => Err(reason),
        }
    }

    /// The update-location command: sets the location of `productid` and
    /// hands its custody to the signer of `origin`, keeping the name, and
    /// records a `LocationUpdated` event.
    ///
    /// Rejected with `BadOrigin` where `origin` is unsigned, else with
    /// `NoSuchProduct` where `productid` is not registered, else with
    /// `NameMismatch` where `productname` is not the stored name.
    #[allow(non_snake_case)]
    pub fn LocationUpdate(
        &mut self,
        origin: Origin<T::AccountId>,
        productid: Vec<u8>,
        productname: Vec<u8>,
        location: Vec<u8>,
    ) -> (result: Result<(), Error>)
        ensures
            ({
                let command = Command::update(origin, productid@, productname@, location@);
                &&& result == old(self)@.reply(command)
                &&& final(self)@ == old(self)@.step(command)
            }),
            result is Err ==> *final(self) == *old(self),
            old(self)@.reachable() ==> final(self)@.reachable(),
    {
        let ghost command = Command::update(origin, productid@, productname@, location@);
        proof {
            if self@.reachable() {
                lemma_step_keeps_reachable(self@, command);
            }
        }
        let stored = self.registry.get(productid.as_slice());
        match update_location(origin, productid, productname, location, stored) {
            Ok(accepted) => {
                self.commit(accepted, Ghost(command));
                Ok(())
            },
            Err(reason) => Err(reason),
        }
    }

    /// Whether a product is registered under `productid`.
    pub fn contains(&self, productid: &[u8]) -> (present: bool)
        ensures
            present == self@.contains(productid@),
    {
        self.registry.contains(productid)
    }

    /// The entry registered under `productid`, if there is one.
    pub fn product_information(&self, productid: &[u8]) -> (entry: Option<&Product<T::AccountId>>)
        ensures
            (match entry {
                Some(product) => Some(product@),
                None => None,
            }) == self@.get(productid@),
    {
        self.registry.get(productid)
    }

    /// The journal: every event emitted so far, oldest first.
    pub fn events(&self) -> (journal: &Vec<Event<T::AccountId>>)
        ensures
            journal@.len() == self@.journal.len(),
            forall|i: int|
                0 <= i < journal@.len() ==> (#[trigger] journal@[i])@ == self@.journal[i],
    {
        &self.journal
    }
}

} // verus!
