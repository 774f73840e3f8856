//! The in-memory mirror of the durable listen set.
//!
//! The durable store is the source of truth for which channels the bot
//! listens to; this set mirrors it inside the process. It is rebuilt from
//! the store's full membership on every start, and afterwards only gains
//! elements: no operation removes a channel.

use vstd::prelude::*;
use vstd::hash_set::HashSetWithView;

verus! {

broadcast use vstd::std_specs::hash::group_hash_axioms;

/// The set of channel identifiers the bot observes.
pub struct ListenSet {
    channels: HashSetWithView<u64>,
}

impl View for ListenSet {
    type V = Set<u64>;

    closed spec fn view(&self) -> Set<u64> {
        self.channels@
    }
}

impl ListenSet {
    /// An empty listen set.
    pub fn new() -> (s: Self)
        ensures
            s@ == Set::<u64>::empty(),
    {
        ListenSet { channels: HashSetWithView::new() }
    }

    /// Rebuilds the mirror from the full membership read out of the durable
    /// store, as done once at process start: the mirror then holds exactly
    /// the channels the store reported.
    pub fn from_members(members: &Vec<u64>) -> (s: Self)
        ensures
            s@ == members@.to_set(),
    {
        let ghost all: Seq<u64> = members@;
        let mut s = ListenSet::new();
        let mut i: usize = 0;
        while i < members.len()
            invariant
                i <= members.len(),
                members@ == all,
                s@ == all.take(i as int).to_set(),
            decreases members.len() - i,
        {
            let c = members[i];
            s.channels.insert(c);
            proof {
                broadcast use vstd::seq_lib::lemma_seq_contains_after_push;

                assert(all.take(i + 1) == all.take(i as int).push(c));
                assert(all.take(i + 1).to_set() =~= all.take(i as int).to_set().insert(c));
            }
            i = i + 1;
        }
        proof {
            assert(all.take(members@.len() as int) == all);
        }
        s
    }

    /// Membership check used by the passive handler: is this channel one
    /// the bot listens to?
    pub fn contains(&self, channel_id: u64) -> (b: bool)
        ensures
            b == self@.contains(channel_id),
    {
        self.channels.contains(&channel_id)
    }

    /// Adds a channel to the mirror. Returns true exactly when the channel
    /// was not already present.
    pub fn insert(&mut self, channel_id: u64) -> (newly: bool)
        ensures
            final(self)@ == old(self)@.insert(channel_id),
            newly == !old(self)@.contains(channel_id),
    {
        self.channels.insert(channel_id)
    }

    /// How many channels the bot currently listens to.
    pub fn len(&self) -> (n: usize)
        ensures
            n == self@.len(),
    {
        self.channels.len()
    }
}

} // verus!
