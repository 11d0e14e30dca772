//! Identities of message kinds: each kind's `TypeId` gets a small number of
//! its own, the same one for the whole life of the table.

use crate::registry::Identity;
use std::any::TypeId;
use vstd::prelude::*;

verus! {

#[verifier::external_type_specification]
#[verifier::external_body]
pub struct ExTypeId(TypeId);

/// Two `TypeId`s compare equal exactly when they are the same value.
pub assume_specification[ <TypeId as PartialEq>::eq ](a: &TypeId, b: &TypeId) -> (r: bool)
    ensures
        r == (*a == *b),
;

/// Identities never collide and never change: in a well-formed table, two
/// positions hold the same kind exactly when they are the same position.
pub proof fn identities_are_unique(table: Identities, i: Identity, j: Identity)
    requires
        table.wf(),
        i < table@.len(),
        j < table@.len(),
    ensures
        (table@[i as int] == table@[j as int]) <==> (i == j),
{
}

/// Interns kinds: the identity of a kind is its position in the table.
pub struct Identities {
    kinds: Vec<TypeId>,
}

impl View for Identities {
    type V = Seq<TypeId>;

    closed spec fn view(&self) -> Seq<TypeId> {
        self.kinds@
    }
}

impl Identities {
    /// No kind is listed twice.
    pub open spec fn wf(&self) -> bool {
        forall|i: int, j: int| 0 <= i < j < self@.len() ==> self@[i] != self@[j]
    }

    /// An empty table.
    pub fn new() -> (r: Self)
        ensures
            r.wf(),
            r@ == Seq::<TypeId>::empty(),
    {
        Identities { kinds: Vec::new() }
    }

    /// The identity of `kind`: the one it already has, or the next free one.
    pub fn identity_of(&mut self, kind: TypeId) -> (r: Identity)
        requires
            old(self).wf(),
        ensures
            final(self).wf(),
            r < final(self)@.len(),
            final(self)@[r as int] == kind,
            old(self)@.contains(kind) ==> final(self)@ == old(self)@,
            !old(self)@.contains(kind) ==> final(self)@ == old(self)@.push(kind),
    {
        let n = self.kinds.len();
        let mut i: usize = 0;
        while i < n
            invariant
                n == self@.len(),
                self@ == old(self)@,
                self.wf(),
                0 <= i <= n,
                forall|j: int| 0 <= j < i ==> self@[j] != kind,
            decreases n - i,
        {
            if self.kinds[i] == kind {
                return i;
            }
            i = i + 1;
        }
        self.kinds.push(kind);
        assert(forall|j: int| 0 <= j < n ==> self@[j] == old(self)@[j]);
        n
    }
}

} // verus!
