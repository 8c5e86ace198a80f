use vstd::prelude::*;

use crate::id_source::IdSource;

verus! {

/// The identifier of a menu item.
#[derive(Debug, Clone, Copy, PartialEq, Eq, Hash, PartialOrd, Ord, Structural)]
pub struct Id(u64);

impl Id {
    /// The key that stands for this identifier.
    pub closed spec fn key(self) -> u64 {
        self.0
    }

    /// Creates a new identifier, different from every identifier that `source`
    /// has handed out before.
    pub fn unique(source: &mut IdSource) -> (id: Id)
        requires
            old(source).can_issue(),
        ensures
            id.key() == old(source).next_key(),
            !old(source).has_issued(id.key()),
            final(source).has_issued(id.key()),
            final(source).next_key() == old(source).next_key() + 1,
    {
        Id(source.issue())
    }

    /// The key that stands for this identifier.
    pub fn value(&self) -> (key: u64)
        ensures
            key == self.key(),
    {
        self.0
    }
}

/// Two menu item identifiers are equal exactly when their keys are.
pub proof fn lemma_key_determines_id(a: Id, b: Id)
    ensures
        a.key() == b.key() <==> a == b,
{
}

/// A menu item identifier fresh from a source differs from every identifier that
/// the source handed out before it.
pub proof fn lemma_fresh_id_differs(source: IdSource, earlier: Id, fresh: Id)
    requires
        source.has_issued(earlier.key()),
        fresh.key() == source.next_key(),
    ensures
        earlier != fresh,
{
}

} // verus!
