//! The entry that the registry keeps for one product.

use vstd::prelude::*;

verus! {

/// One registered product, as stored under its identifier: where it was last
/// seen, what it is called, and the account that last wrote the entry.
#[derive(Debug, PartialEq, Eq)]
pub struct Product<A> {
    /// Last-known location.
    pub location: Vec<u8>,
    /// Human-meaningful label.
    pub name: Vec<u8>,
    /// The account whose command most recently wrote this entry.
    pub custodian: A,
}

/// The mathematical value of a [`Product`].
pub struct ProductView<A> {
    pub location: Seq<u8>,
    pub name: Seq<u8>,
    pub custodian: A,
}

impl<A> View for Product<A> {
    type V = ProductView<A>;

    open spec fn view(&self) -> ProductView<A> {
        ProductView { location: self.location@, name: self.name@, custodian: self.custodian }
    }
}

impl<A> Product<A> {
    /// The entry that a stored triple stands for. A product is stored as
    /// location, name and custodian, in this order; the order is part of the
    /// stored layout.
    pub fn from_stored(stored: (Vec<u8>, Vec<u8>, A)) -> (product: Self)
        ensures
            product.location == stored.0,
            product.name == stored.1,
            product.custodian == stored.2,
    {
        Product { location: stored.0, name: stored.1, custodian: stored.2 }
    }

    /// The triple as which this entry is stored: location, name and
    /// custodian, in this order.
    pub fn as_stored(&self) -> (stored: (&Vec<u8>, &Vec<u8>, &A))
        ensures
            *stored.0 == self.location,
            *stored.1 == self.name,
            *stored.2 == self.custodian,
    {
        (&self.location, &self.name, &self.custodian)
    }
}

impl<A: Clone> Clone for Product<A> {
    /// A copy with the same location and name, and with a clone of the
    /// custodian.
    fn clone(&self) -> (copy: Self)
        ensures
            copy.location@ == self.location@,
            copy.name@ == self.name@,
            cloned(self.custodian, copy.custodian),
    {
        Product {
            location: self.location.clone(),
            name: self.name.clone(),
            custodian: self.custodian.clone(),
        }
    }
}

} // verus!
