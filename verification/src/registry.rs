//! The registry store: the one table that maps a product identifier to its
//! entry.
//!
//! The store validates nothing. It keeps at most one entry per identifier and
//! overwrites on request; the command handlers decide what may be written.

use vstd::prelude::*;

use crate::bytes::same_bytes;
use crate::product::{Product, ProductView};

verus! {

/// One stored row: an identifier and the entry kept under it.
struct Row<A> {
    identifier: Vec<u8>,
    product: Product<A>,
}

/// A mapping from product identifier to entry. Identifiers are compared byte
/// for byte.
pub struct Registry<A> {
    rows: Vec<Row<A>>,
}

/// Whether some row of `rows` is kept under `identifier`.
spec fn holds<A>(rows: Seq<Row<A>>, identifier: Seq<u8>) -> bool {
    exists|i: int| 0 <= i < rows.len() && #[trigger] rows[i].identifier@ == identifier
}

/// The index of a row kept under `identifier`.
spec fn index_of<A>(rows: Seq<Row<A>>, identifier: Seq<u8>) -> int {
    choose|i: int| 0 <= i < rows.len() && #[trigger] rows[i].identifier@ == identifier
}

/// No two rows are kept under the same identifier.
spec fn distinct<A>(rows: Seq<Row<A>>) -> bool {
    forall|i: int, j: int|
        0 <= i < rows.len() && 0 <= j < rows.len() && #[trigger] rows[i].identifier@
            == #[trigger] rows[j].identifier@ ==> i == j
}

impl<A> View for Registry<A> {
    type V = Map<Seq<u8>, ProductView<A>>;

    closed spec fn view(&self) -> Map<Seq<u8>, ProductView<A>> {
        Map::new(
            |identifier: Seq<u8>| holds(self.rows@, identifier),
            |identifier: Seq<u8>| self.rows@[index_of(self.rows@, identifier)].product@,
        )
    }
}

impl<A> Registry<A> {
    /// The identifiers of the stored rows, in storage order.
    pub closed spec fn identifiers(&self) -> Seq<Seq<u8>> {
        Seq::new(self.rows@.len(), |i: int| self.rows@[i].identifier@)
    }

    /// The store's invariant: every identifier is stored at most once.
    #[verifier::type_invariant]
    pub closed spec fn wf(&self) -> bool {
        distinct(self.rows@)
    }

    /// No identifier is stored twice.
    pub proof fn lemma_identifiers_are_distinct(&self, i: int, j: int)
        requires
            self.wf(),
            0 <= i < self.identifiers().len(),
            0 <= j < self.identifiers().len(),
            self.identifiers()[i] == self.identifiers()[j],
        ensures
            i == j,
    {
    }

    /// The stored identifiers are the keys of the mapping, no more and no
    /// fewer.
    pub proof fn lemma_identifiers_are_keys(&self, identifier: Seq<u8>)
        ensures
            self@.contains_key(identifier) <==> self.identifiers().contains(identifier),
    {
        if self@.contains_key(identifier) {
            let i = index_of(self.rows@, identifier);
            assert(self.identifiers()[i] == identifier);
        }
        if self.identifiers().contains(identifier) {
            let i = choose|i: int|
                0 <= i < self.identifiers().len() && self.identifiers()[i] == identifier;
            assert(self.rows@[i].identifier@ == identifier);
        }
    }

    /// An empty registry.
    pub fn new() -> (registry: Self)
        ensures
            registry.wf(),
            registry@ == Map::<Seq<u8>, ProductView<A>>::empty(),
    {
        let registry = Registry { rows: Vec::new() };
        assert(registry@ =~= Map::<Seq<u8>, ProductView<A>>::empty());
        registry
    }

    /// Where `identifier` is stored, if it is.
    fn position(&self, identifier: &[u8]) -> (found: Option<usize>)
        ensures
            match found {
                Some(at) => at < self.rows@.len() && self.rows@[at as int].identifier@
                    == identifier@,
                None => !holds(self.rows@, identifier@),
            },
    {
        let mut at: usize = 0;
        while at < self.rows.len()
            invariant
                at <= self.rows@.len(),
                forall|i: int| 0 <= i < at ==> self.rows@[i].identifier@ != identifier@,
            decreases self.rows@.len() - at,
        {
            if same_bytes(self.rows[at].identifier.as_slice(), identifier) {
                return Some(at);
            }
            at += 1;
        }
        None
    }

    /// Whether an entry is stored under `identifier`.
    pub fn contains(&self, identifier: &[u8]) -> (present: bool)
        ensures
            present == self@.contains_key(identifier@),
    {
        self.position(identifier).is_some()
    }

    /// The entry stored under `identifier`, if there is one.
    pub fn get(&self, identifier: &[u8]) -> (entry: Option<&Product<A>>)
        ensures
            match entry {
                Some(product) => self@.contains_key(identifier@) && product@
                    == self@[identifier@],
                None => !self@.contains_key(identifier@),
            },
    {
        proof {
            use_type_invariant(self);
        }
        match self.position(identifier) {
            Some(at) => Some(&self.rows[at].product),
            None => None,
        }
    }

    /// Stores `product` under `identifier`, replacing whatever was stored
    /// there. Every other entry stays as it was.
    pub fn put(&mut self, identifier: Vec<u8>, product: Product<A>)
        ensures
            final(self).wf(),
            final(self)@ == old(self)@.insert(identifier@, product@),
    {
        proof {
            use_type_invariant(&*self);
        }
        let found = self.position(identifier.as_slice());
        let ghost before = self.rows@;
        let ghost key = identifier@;
        let ghost at = match found {
            Some(at) => at as int,
            None => before.len() as int,
        };
        let mut rows: Vec<Row<A>> = Vec::new();
        std::mem::swap(&mut rows, &mut self.rows);
        match found {
            Some(at) => {
                rows.set(at, Row { identifier, product });
            },
            None => {
                rows.push(Row { identifier, product });
            },
        }
        proof {
            // Every row but the one at `at` is as it was, and that one is
            // kept under `key`, where no other row is.
            assert forall|i: int| 0 <= i < rows@.len() && i != at implies rows@[i] == before[i]
                && rows@[i].identifier@ != key by {}
            assert(rows@[at].identifier@ == key);
            assert forall|k: Seq<u8>| holds(rows@, k) <==> (k == key || holds(before, k)) by {
                if holds(before, k) {
                    assert(rows@[index_of(before, k)].identifier@ == k);
                }
            }
        }
        self.rows = rows;
        assert(self@ =~= old(self)@.insert(key, product@));
    }
}

} // verus!
