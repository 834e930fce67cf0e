//! The last-position store: positions, in whole seconds, keyed by a stable
//! track identifier (URI or episode URL). One store holds music positions,
//! another podcast positions.
use vstd::prelude::*;

verus! {

/// The stored position for `key`: the most recently recorded one wins.
pub open spec fn lookup(entries: Seq<(String, i64)>, key: Seq<char>) -> Option<i64>
    decreases entries.len(),
{
    if entries.len() == 0 {
        None
    } else if entries.last().0@ == key {
        Some(entries.last().1)
    } else {
        lookup(entries.drop_last(), key)
    }
}

/// An in-memory last-position store; the daemon's surroundings persist it.
pub struct PositionStore {
    pub entries: Vec<(String, i64)>,
}

impl PositionStore {
    /// An empty store.
    pub fn new() -> (r: PositionStore)
        ensures
            r.entries@ == Seq::<(String, i64)>::empty(),
    {
        PositionStore { entries: Vec::new() }
    }

    /// The last position recorded for `key`, when any.
    pub fn get_last_position(&self, key: &str) -> (r: Option<i64>)
        ensures
            r == lookup(self.entries@, key@),
    {
        let key_s = key.to_owned();
        let n = self.entries.len();
        let mut i: usize = n;
        proof {
            assert(self.entries@.take(n as int) =~= self.entries@);
        }
        while i > 0
            invariant
                0 <= i <= n,
                n == self.entries@.len(),
                key_s@ == key@,
                lookup(self.entries@, key@) == lookup(self.entries@.take(i as int), key@),
            decreases i,
        {
            i = i - 1;
            proof {
                assert(self.entries@.take(i + 1).last() == self.entries@[i as int]);
                assert(self.entries@.take(i + 1).drop_last() =~= self.entries@.take(i as int));
            }
            let hit = self.entries[i].0.eq(&key_s);
            proof {
                assert(hit == (self.entries@[i as int].0@ == key_s@));
            }
            if hit {
                return Some(self.entries[i].1);
            }
        }
        proof {
            assert(self.entries@.take(0) =~= Seq::<(String, i64)>::empty());
        }
        None
    }

    /// Records the position for `key`; later reads of `key` see it, and no
    /// other key's position changes.
    pub fn set_last_position(&mut self, key: &str, position: i64)
        ensures
            lookup(final(self).entries@, key@) == Some(position),
            forall|other: Seq<char>|
                other != key@ ==> #[trigger] lookup(final(self).entries@, other) == lookup(
                    old(self).entries@,
                    other,
                ),
            final(self).entries@.len() == old(self).entries@.len() + 1,
            final(self).entries@.drop_last() == old(self).entries@,
            final(self).entries@.last().0@ == key@,
            final(self).entries@.last().1 == position,
    {
        self.entries.push((key.to_owned(), position));
        proof {
            assert(self.entries@.last().0@ == key@);
            assert(self.entries@.drop_last() =~= old(self).entries@);
        }
    }
}

} // verus!
