use std::collections::HashMap;
use vstd::prelude::*;

use crate::ID;

verus! {

broadcast use vstd::std_specs::hash::group_hash_axioms;

/// The handles after one get-or-create of `id`, where `fresh` is the handle
/// that would be made for it.
pub open spec fn after_get_or_create<H>(m: Map<ID, H>, id: ID, fresh: H) -> Map<ID, H> {
    if m.contains_key(id) {
        m
    } else {
        m.insert(id, fresh)
    }
}

/// The handles after get-or-create requests for `id`, served in order,
/// where `fresh[k]` is the handle that the `k`-th request would make.
pub open spec fn replay<H>(m: Map<ID, H>, id: ID, fresh: Seq<H>) -> Map<ID, H>
    decreases fresh.len(),
{
    if fresh.len() == 0 {
        m
    } else {
        after_get_or_create(replay(m, id, fresh.drop_last()), id, fresh.last())
    }
}

/// Serving get-or-create requests for an identity that has no handle yet
/// creates a handle for the first request only: every later request finds
/// it, and all of them resolve to that same handle.
pub proof fn lemma_one_creation<H>(m: Map<ID, H>, id: ID, fresh: Seq<H>)
    requires
        !m.contains_key(id),
        fresh.len() > 0,
    ensures
        replay(m, id, fresh).contains_key(id),
        replay(m, id, fresh)[id] == fresh[0],
        forall|k: int| 1 <= k <= fresh.len() ==> {
            &&& #[trigger] replay(m, id, fresh.take(k)).contains_key(id)
            &&& replay(m, id, fresh.take(k))[id] == fresh[0]
        },
    decreases fresh.len(),
{
    let shorter = fresh.drop_last();
    if fresh.len() == 1 {
        assert(replay(m, id, shorter) == m);
    } else {
        lemma_one_creation(m, id, shorter);
    }
    assert forall|k: int| 1 <= k <= fresh.len() implies {
        &&& #[trigger] replay(m, id, fresh.take(k)).contains_key(id)
        &&& replay(m, id, fresh.take(k))[id] == fresh[0]
    } by {
        if k < fresh.len() {
            lemma_one_creation(m, id, fresh.take(k));
            assert(fresh.take(k)[0] == fresh[0]);
        } else {
            assert(fresh.take(k) =~= fresh);
        }
    }
}

/// State of the channel directory: the handle of each channel that has been asked for.
pub struct RegistryActor<H> {
    channels: HashMap<ID, H>,
}

impl<H> RegistryActor<H> {
    /// The handle of each known channel.
    pub closed spec fn handles(&self) -> Map<ID, H> {
        self.channels@
    }

    /// A directory that knows no channel.
    pub fn new() -> (r: Self)
        ensures
            r.handles().is_empty(),
    {
        RegistryActor { channels: HashMap::new() }
    }

    /// The handle of a known channel.
    pub fn get_channel(&self, channel_id: ID) -> (r: Option<&H>)
        ensures
            match r {
                Some(h) => self.handles().contains_key(channel_id) && *h == self.handles()[channel_id],
                None => !self.handles().contains_key(channel_id),
            },
    {
        self.channels.get(&channel_id)
    }

    /// Makes a handle for `channel_id` with `make` unless one is known, and
    /// reports whether it did. A known handle is kept unchanged.
    pub fn get_or_create<F: FnOnce() -> H>(&mut self, channel_id: ID, make: F) -> (created: bool)
        requires
            make.requires(()),
        ensures
            created == !old(self).handles().contains_key(channel_id),
            final(self).handles().contains_key(channel_id),
            final(self).handles() == after_get_or_create(
                old(self).handles(),
                channel_id,
                final(self).handles()[channel_id],
            ),
            created ==> make.ensures((), final(self).handles()[channel_id]),
    {
        if self.channels.contains_key(&channel_id) {
            false
        } else {
            let h = make();
            self.channels.insert(channel_id, h);
            true
        }
    }
}

} // verus!
