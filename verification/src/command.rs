//! The two commands and the rules by which each is accepted or rejected.
//!
//! The functions here decide; they touch no storage. The caller reads what
//! the registry holds, asks for the decision, and on acceptance writes the
//! entry and then emits the event.

use vstd::prelude::*;

use crate::bytes::same_bytes;
use crate::error::Error;
use crate::event::{Event, EventView};
use crate::origin::{ensure_signed, Origin};
use crate::product::{Product, ProductView};

verus! {

/// The commands that change the registry.
#[derive(Debug, Clone, Copy, PartialEq, Eq, Structural)]
pub enum CommandKind {
    /// Create the entry of a product that is not yet registered.
    RegisterProduct,
    /// Set the location of a registered product.
    UpdateLocation,
}

/// The cost that a register-product command declares to the host before it
/// runs.
pub const REGISTER_PRODUCT_WEIGHT: u64 = 1_000;

/// The cost that an update-location command declares to the host before it
/// runs.
pub const UPDATE_LOCATION_WEIGHT: u64 = 10_000;

impl CommandKind {
    /// The cost that a command of this kind declares to the host. The host
    /// treats it as an opaque number.
    pub fn weight(self) -> (cost: u64)
        ensures
            cost == match self {
                CommandKind::RegisterProduct => REGISTER_PRODUCT_WEIGHT,
                CommandKind::UpdateLocation => UPDATE_LOCATION_WEIGHT,
            },
    {
        match self {
            CommandKind::RegisterProduct => REGISTER_PRODUCT_WEIGHT,
            CommandKind::UpdateLocation => UPDATE_LOCATION_WEIGHT,
        }
    }
}

/// The entry that a registration writes, or the reason why it is rejected.
/// `exists` says whether the registry already holds the identifier.
///
/// An unsigned registration is rejected with `BadOrigin`, whatever else
/// holds of it; a signed one for a known identifier with
/// `ProductAlreadyExists`. Empty names and locations are accepted.
pub open spec fn registration<A>(
    origin: Origin<A>,
    name: Seq<u8>,
    location: Seq<u8>,
    exists: bool,
) -> Result<ProductView<A>, Error> {
    match origin {
        Origin::Unsigned => Err(Error::BadOrigin),
        Origin::Signed(who) => if exists {
            Err(Error::ProductAlreadyExists)
        } else {
            Ok(ProductView { location, name, custodian: who })
        },
    }
}

/// The entry that a location update writes, or the reason why it is
/// rejected. `stored` is what the registry holds under the identifier.
///
/// An unsigned update is rejected with `BadOrigin`; a signed one for an
/// unknown identifier with `NoSuchProduct`; one whose name differs from the
/// stored name with `NameMismatch`. An accepted update keeps the name, takes
/// the new location and hands custody to the submitter.
pub open spec fn relocation<A>(
    origin: Origin<A>,
    name: Seq<u8>,
    location: Seq<u8>,
    stored: Option<ProductView<A>>,
) -> Result<ProductView<A>, Error> {
    match origin {
        Origin::Unsigned => Err(Error::BadOrigin),
        Origin::Signed(who) => match stored {
            None => Err(Error::NoSuchProduct),
            Some(entry) => if entry.name != name {
                Err(Error::NameMismatch)
            } else {
                Ok(ProductView { location, name: entry.name, custodian: who })
            },
        },
    }
}

/// An accepted command: the entry to store under `identifier`, and with it
/// the event to emit once the entry is stored.
#[derive(Debug, PartialEq, Eq)]
pub struct Accepted<A> {
    /// The command that was accepted.
    pub kind: CommandKind,
    /// The identifier under which to store `product`.
    pub identifier: Vec<u8>,
    /// The entry to store.
    pub product: Product<A>,
}

/// The mathematical value of an [`Accepted`].
pub struct AcceptedView<A> {
    pub kind: CommandKind,
    pub identifier: Seq<u8>,
    pub product: ProductView<A>,
}

impl<A> AcceptedView<A> {
    /// The event that the accepted command emits: a registration tells who
    /// registered which identifier, an update tells the new location.
    pub open spec fn event(self) -> EventView<A> {
        match self.kind {
            CommandKind::RegisterProduct => EventView::ProductRegistered {
                custodian: self.product.custodian,
                identifier: self.identifier,
            },
            CommandKind::UpdateLocation => EventView::LocationUpdated {
                location: self.product.location,
            },
        }
    }
}

impl<A> View for Accepted<A> {
    type V = AcceptedView<A>;

    open spec fn view(&self) -> AcceptedView<A> {
        AcceptedView { kind: self.kind, identifier: self.identifier@, product: self.product@ }
    }
}

impl<A> Accepted<A> {
    /// Turns the accepted command into its event. Call it after the entry has
    /// been stored: the state write precedes the event.
    pub fn into_event(self) -> (event: Event<A>)
        ensures
            event@ == self@.event(),
    {
        match self.kind {
            CommandKind::RegisterProduct => Event::ProductRegistered {
                custodian: self.product.custodian,
                identifier: self.identifier,
            },
            CommandKind::UpdateLocation => Event::LocationUpdated {
                location: self.product.location,
            },
        }
    }
}

/// Decides a register-product command. `exists` tells whether the registry
/// already holds an entry under `identifier`.
pub fn register_product<A>(
    origin: Origin<A>,
    identifier: Vec<u8>,
    name: Vec<u8>,
    location: Vec<u8>,
    exists: bool,
) -> (outcome: Result<Accepted<A>, Error>)
    ensures
        match registration(origin, name@, location@, exists) {
            Ok(entry) => outcome matches Ok(accepted) && accepted@ == (AcceptedView {
                kind: CommandKind::RegisterProduct,
                identifier: identifier@,
                product: entry,
            }),
            Err(reason) => outcome == Err::<Accepted<A>, Error>(reason),
        },
{
    let who = match ensure_signed(origin) {
        Ok(who) => who,
        Err(reason) => {
            return Err(reason);
        },
    };
    if exists {
        return Err(Error::ProductAlreadyExists);
    }
    Ok(
        Accepted {
            kind: CommandKind::RegisterProduct,
            identifier,
            product: Product { location, name, custodian: who },
        },
    )
}

/// Decides an update-location command. `stored` is the entry that the
/// registry holds under `identifier`, if it holds one.
pub fn update_location<A>(
    origin: Origin<A>,
    identifier: Vec<u8>,
    name: Vec<u8>,
    location: Vec<u8>,
    stored: Option<&Product<A>>,
) -> (outcome: Result<Accepted<A>, Error>)
    ensures
        match relocation(
            origin,
            name@,
            location@,
            match stored {
                Some(entry) => Some(entry@),
                None => None,
            },
        ) {
            Ok(entry) => outcome matches Ok(accepted) && accepted@ == (AcceptedView {
                kind: CommandKind::UpdateLocation,
                identifier: identifier@,
                product: entry,
            }),
            Err(reason) => outcome == Err::<Accepted<A>, Error>(reason),
        },
{
    let who = match ensure_signed(origin) {
        Ok(who) => who,
        Err(reason) => {
            return Err(reason);
        },
    };
    let entry = match stored {
        Some(entry) => entry,
        None => {
            return Err(Error::NoSuchProduct);
        },
    };
    if !same_bytes(entry.name.as_slice(), name.as_slice()) {
        return Err(Error::NameMismatch);
    }
    Ok(
        Accepted {
            kind: CommandKind::UpdateLocation,
            identifier,
            product: Product { location, name, custodian: who },
        },
    )
}

} // verus!
