use vstd::prelude::*;

verus! {

/// Hands out identifier keys, each one fresh: a key is never handed out twice.
///
/// Keys start at 1 and grow by one on each issue.
pub struct IdSource {
    next: u64,
}

impl IdSource {
    /// Key 0 is never handed out: the next key is at least 1.
    #[verifier::type_invariant]
    spec fn starts_at_one(self) -> bool {
        self.next >= 1
    }

    /// The key that the next issue hands out.
    pub closed spec fn next_key(self) -> u64 {
        self.next
    }

    /// Whether `key` was already handed out by this source.
    pub open spec fn has_issued(self, key: u64) -> bool {
        1 <= key < self.next_key()
    }

    /// Whether one more key can be issued without running out of keys.
    pub open spec fn can_issue(self) -> bool {
        self.next_key() < u64::MAX
    }

    /// A source that has issued nothing yet.
    pub fn new() -> (source: Self)
        ensures
            source.next_key() == 1,
            forall|k: u64| !source.has_issued(k),
    {
        IdSource { next: 1 }
    }

    /// Whether one more key can be issued.
    pub fn has_keys_left(&self) -> (left: bool)
        ensures
            left == self.can_issue(),
    {
        self.next < u64::MAX
    }

    /// Hands out the next key.
    pub(crate) fn issue(&mut self) -> (key: u64)
        requires
            old(self).can_issue(),
        ensures
            key == old(self).next_key(),
            key >= 1,
            final(self).next_key() == old(self).next_key() + 1,
    {
        proof {
            use_type_invariant(&*self);
        }
        let key = self.next;
        self.next = self.next + 1;
        key
    }
}

/// Issuing keeps every key issued before, adds exactly the fresh key,
/// and the fresh key was not issued before.
pub proof fn lemma_issue_fresh(before: IdSource, after: IdSource, key: u64)
    requires
        key >= 1,
        key == before.next_key(),
        after.next_key() == before.next_key() + 1,
    ensures
        !before.has_issued(key),
        after.has_issued(key),
        forall|k: u64| before.has_issued(k) ==> after.has_issued(k),
        forall|k: u64| after.has_issued(k) ==> before.has_issued(k) || k == key,
{
}

} // verus!
