//! The table of a connection's channels: for each channel identifier, the
//! sending half that any number of users may share and the receiving half
//! that one user takes.

use vstd::prelude::*;
use std::collections::HashMap;
use crate::channel::id::ChannelId;
use crate::channel::error::ChannelError;
use vstd::std_specs::iter::IteratorSpec;

verus! {

broadcast use vstd::std_specs::hash::group_hash_axioms;

/// The halves of one channel held by the manager.
pub struct ChannelEntry<S, R> {
    /// The sending half, shared with every user of the channel.
    pub sender: S,
    /// The receiving half, until a user takes it.
    pub receiver: Option<R>,
}

/// The channels of a connection, by identifier.
pub struct ChannelManager<S, R> {
    channels: HashMap<u64, ChannelEntry<S, R>>,
}

impl<S, R> View for ChannelManager<S, R> {
    type V = Map<u64, ChannelEntry<S, R>>;

    /// The channels, by the number of their identifier.
    closed spec fn view(&self) -> Map<u64, ChannelEntry<S, R>> {
        self.channels@
    }
}

/// The entry of a fresh channel: both halves held.
pub open spec fn fresh_entry<S, R>(sender: S, receiver: R) -> ChannelEntry<S, R> {
    ChannelEntry { sender, receiver: Some(receiver) }
}

/// The entry once its receiving half was taken.
pub open spec fn taken_entry<S, R>(e: ChannelEntry<S, R>) -> ChannelEntry<S, R> {
    ChannelEntry { sender: e.sender, receiver: None }
}

impl<S, R> ChannelManager<S, R> {
    /// No channel.
    pub fn new() -> (m: Self)
        ensures
            m@ == Map::<u64, ChannelEntry<S, R>>::empty(),
    {
        ChannelManager { channels: HashMap::new() }
    }

    /// Adds a channel with both of its halves. A channel with the same
    /// identifier must not exist: then nothing changes and the answer is
    /// `AlreadyExists`.
    pub fn create_channel(&mut self, id: ChannelId, sender: S, receiver: R) -> (r: Result<
        (),
        ChannelError,
    >)
        ensures
            old(self)@.contains_key(id.0) ==> r == Err::<(), ChannelError>(
                ChannelError::AlreadyExists { channel_id: id },
            ) && final(self)@ == old(self)@,
            !old(self)@.contains_key(id.0) ==> r is Ok && final(self)@ == old(self)@.insert(
                id.0,
                fresh_entry(sender, receiver),
            ),
    {
        if self.channels.contains_key(&id.0) {
            return Err(ChannelError::AlreadyExists { channel_id: id });
        }
        self.channels.insert(id.0, ChannelEntry { sender, receiver: Some(receiver) });
        Ok(())
    }

    /// The sending half of a channel; `NotFound` where there is no such
    /// channel.
    pub fn get_sender(&self, id: ChannelId) -> (r: Result<&S, ChannelError>)
        ensures
            self@.contains_key(id.0) ==> (r matches Ok(s) && *s == self@[id.0].sender),
            !self@.contains_key(id.0) ==> r == Err::<&S, ChannelError>(
                ChannelError::NotFound { channel_id: id },
            ),
    {
        match self.channels.get(&id.0) {
            Some(entry) => Ok(&entry.sender),
            None => Err(ChannelError::NotFound { channel_id: id }),
        }
    }

    /// Takes the receiving half of a channel: it can be taken once. Where
    /// there is no such channel, or its receiving half was taken already,
    /// the answer is `NotFound` and nothing changes.
    pub fn get_receiver(&mut self, id: ChannelId) -> (r: Result<R, ChannelError>)
        ensures
            match r {
                Ok(rx) => {
                    &&& old(self)@.contains_key(id.0)
                    &&& old(self)@[id.0].receiver == Some(rx)
                    &&& final(self)@ == old(self)@.insert(id.0, taken_entry(old(self)@[id.0]))
                },
                Err(e) => {
                    &&& e == ChannelError::NotFound { channel_id: id }
                    &&& final(self)@ == old(self)@
                },
            },
            r is Err <==> (!old(self)@.contains_key(id.0) || old(self)@[id.0].receiver is None),
    {
        match self.channels.remove(&id.0) {
            None => Err(ChannelError::NotFound { channel_id: id }),
            Some(entry) => {
                let ChannelEntry { sender, receiver } = entry;
                match receiver {
                    None => {
                        self.channels.insert(id.0, ChannelEntry { sender, receiver: None });
                        proof {
                            assert(self.channels@ =~= old(self)@);
                        }
                        Err(ChannelError::NotFound { channel_id: id })
                    },
                    Some(rx) => {
                        self.channels.insert(id.0, ChannelEntry { sender, receiver: None });
                        proof {
                            assert(self.channels@ =~= old(self)@.insert(
                                id.0,
                                taken_entry(old(self)@[id.0]),
                            ));
                        }
                        Ok(rx)
                    },
                }
            },
        }
    }

    /// Removes a channel; `NotFound` where there is no such channel.
    pub fn remove_channel(&mut self, id: ChannelId) -> (r: Result<(), ChannelError>)
        ensures
            final(self)@ == old(self)@.remove(id.0),
            old(self)@.contains_key(id.0) ==> r is Ok,
            !old(self)@.contains_key(id.0) ==> r == Err::<(), ChannelError>(
                ChannelError::NotFound { channel_id: id },
            ),
    {
        match self.channels.remove(&id.0) {
            Some(_) => Ok(()),
            None => Err(ChannelError::NotFound { channel_id: id }),
        }
    }

    /// Whether a channel with this identifier exists.
    pub fn has_channel(&self, id: ChannelId) -> (b: bool)
        ensures
            b == self@.contains_key(id.0),
    {
        self.channels.contains_key(&id.0)
    }

    /// How many channels exist.
    pub fn channel_count(&self) -> (n: usize)
        ensures
            n == self@.len(),
    {
        self.channels.len()
    }

    /// The numbers of the existing channels, each once, in no stated order.
    fn channel_numbers(&self) -> (ns: Vec<u64>)
        ensures
            ns@.no_duplicates(),
            ns@.to_set() == self@.dom(),
            ns@.len() == self@.len(),
    {
        let mut ns: Vec<u64> = Vec::new();
        let ghost keys = vstd::std_specs::hash::spec_keys_iter(&self.channels).remaining();
        for k in it: self.channels.keys()
            invariant
                it.seq() == keys,
                ns@.len() == it.index(),
                forall|i: int| 0 <= i < it.index() ==> ns@[i] == *keys[i],
        {
            ns.push(*k);
        }
        proof {
            assert(ns@ =~= keys.unref());
        }
        ns
    }

    /// The identifiers of the existing channels, each once, in no stated
    /// order.
    pub fn channel_ids(&self) -> (ids: Vec<ChannelId>)
        ensures
            ids@.len() == self@.len(),
            forall|i: int| 0 <= i < ids@.len() ==> self@.contains_key(#[trigger] ids@[i].0),
            forall|k: u64| self@.contains_key(k) ==> exists|i: int|
                0 <= i < ids@.len() && #[trigger] ids@[i].0 == k,
            forall|i: int, j: int| 0 <= i < j < ids@.len() ==> ids@[i] != ids@[j],
    {
        let ns = self.channel_numbers();
        let mut ids: Vec<ChannelId> = Vec::new();
        let mut i: usize = 0;
        while i < ns.len()
            invariant
                i <= ns@.len(),
                ids@.len() == i,
                forall|j: int| 0 <= j < i ==> #[trigger] ids@[j].0 == ns@[j],
            decreases ns@.len() - i,
        {
            ids.push(ChannelId(ns[i]));
            i = i + 1;
        }
        proof {
            assert forall|k: u64| self@.contains_key(k) implies exists|i: int|
                0 <= i < ids@.len() && #[trigger] ids@[i].0 == k by {
                assert(ns@.to_set().contains(k));
                let j = ns@.index_of(k);
                assert(ids@[j].0 == k);
            }
            assert forall|i: int| 0 <= i < ids@.len() implies self@.contains_key(
                #[trigger] ids@[i].0,
            ) by {
                assert(ns@.to_set().contains(ns@[i]));
            }
            assert forall|i: int, j: int| 0 <= i < j < ids@.len() implies ids@[i] != ids@[j] by {
                assert(ids@[i].0 == ns@[i]);
                assert(ids@[j].0 == ns@[j]);
            }
        }
        ids
    }

    /// Removes every channel whose sending half `is_closed` reports closed,
    /// keeps the others as they were, and tells how many went.
    pub fn cleanup_closed_channels<F: Fn(&S) -> bool>(&mut self, is_closed: F) -> (n: usize)
        requires
            forall|s: &S| is_closed.requires((s,)),
        ensures
            forall|k: u64| #[trigger]
                final(self)@.contains_key(k) ==> {
                    &&& old(self)@.contains_key(k)
                    &&& final(self)@[k] == old(self)@[k]
                    &&& is_closed.ensures((&old(self)@[k].sender,), false)
                },
            forall|k: u64|
                old(self)@.contains_key(k) && !final(self)@.contains_key(k) ==> is_closed.ensures(
                    (&(#[trigger] old(self)@[k]).sender,),
                    true,
                ),
            n == old(self)@.len() - final(self)@.len(),
    {
        let ns = self.channel_numbers();
        let ghost start = self@;
        let total: usize = self.channels.len();
        let mut removed: usize = 0;
        let mut i: usize = 0;
        while i < ns.len()
            invariant
                start == old(self)@,
                start.len() == total,
                ns@.no_duplicates(),
                ns@.to_set() == start.dom(),
                i <= ns@.len(),
                forall|s: &S| is_closed.requires((s,)),
                forall|k: u64| #[trigger]
                    self@.contains_key(k) ==> start.contains_key(k) && self@[k] == start[k],
                forall|k: u64|
                    start.contains_key(k) && !self@.contains_key(k) ==> is_closed.ensures(
                        (&(#[trigger] start[k]).sender,),
                        true,
                    ),
                forall|j: int|
                    0 <= j < i && self@.contains_key(#[trigger] ns@[j]) ==> is_closed.ensures(
                        (&start[ns@[j]].sender,),
                        false,
                    ),
                forall|j: int| i <= j < ns@.len() ==> self@.contains_key(#[trigger] ns@[j]),
                removed == start.len() - self@.len(),
            decreases ns@.len() - i,
        {
            let k = ns[i];
            let closed = match self.channels.get(&k) {
                Some(entry) => is_closed(&entry.sender),
                None => false,
            };
            if closed {
                proof {
                    assert(self@.contains_key(k));
                    assert(self@.dom().finite());
                }
                self.channels.remove(&k);
                removed = removed + 1;
            }
            proof {
                assert forall|j: int| i + 1 <= j < ns@.len() implies self@.contains_key(
                    #[trigger] ns@[j],
                ) by {
                    assert(ns@[j] != ns@[i as int]);
                }
            }
            i = i + 1;
        }
        proof {
            assert forall|k: u64| #[trigger] self@.contains_key(k) implies is_closed.ensures(
                (&start[k].sender,),
                false,
            ) by {
                assert(ns@.to_set().contains(k));
                let j = ns@.index_of(k);
                assert(ns@[j] == k);
            }
        }
        removed
    }
}

impl<S, R> Default for ChannelManager<S, R> {
    fn default() -> (m: Self)
        ensures
            m@ == Map::<u64, ChannelEntry<S, R>>::empty(),
    {
        Self::new()
    }
}

/// A channel created under a new identifier is found with the halves it
/// was created with, and the other channels stay as they were.
pub proof fn lemma_created_channel_found<S, R>(
    m: Map<u64, ChannelEntry<S, R>>,
    id: u64,
    sender: S,
    receiver: R,
    other: u64,
)
    requires
        !m.contains_key(id),
        other != id,
    ensures
        m.insert(id, fresh_entry(sender, receiver)).contains_key(id),
        m.insert(id, fresh_entry(sender, receiver))[id].sender == sender,
        m.insert(id, fresh_entry(sender, receiver))[id].receiver == Some(receiver),
        m.insert(id, fresh_entry(sender, receiver)).contains_key(other) == m.contains_key(other),
        m.contains_key(other) ==> m.insert(id, fresh_entry(sender, receiver))[other] == m[other],
{
}

/// The receiving half of a channel can be taken once: after it was taken
/// the channel is still there with the same sending half, and its
/// receiving half is gone.
pub proof fn lemma_receiver_taken_once<S, R>(m: Map<u64, ChannelEntry<S, R>>, id: u64)
    requires
        m.contains_key(id),
    ensures
        m.insert(id, taken_entry(m[id])).dom() == m.dom(),
        m.insert(id, taken_entry(m[id]))[id].sender == m[id].sender,
        m.insert(id, taken_entry(m[id]))[id].receiver is None,
{
    assert(m.insert(id, taken_entry(m[id])).dom() =~= m.dom());
}

} // verus!
