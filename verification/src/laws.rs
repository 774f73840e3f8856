//! What holds of the registration mechanism as a whole.
//!
//! `registration_effect` models one registration attempt end to end over
//! the durable store's set and the in-memory mirror, for the runs in which
//! transport succeeds: who may change what, which messages go out, and how
//! the store's atomic set-add serializes concurrent attempts. The proof
//! functions state the guarantees the bot gives.

use vstd::prelude::*;
use crate::registrar::{classify_spec, reported_outcome, trigger_phrase, MessageAction, StoreAddOutcome};

verus! {

/// What the durable store's atomic set-add does: the new set, and whether
/// the element was newly inserted. Concurrent attempts are serialized by
/// the store, so each sees this function applied one after the other.
pub open spec fn store_add(store: Set<u64>, channel_id: u64) -> (Set<u64>, bool) {
    (store.insert(channel_id), !store.contains(channel_id))
}

/// Everything one registration attempt does, when transport succeeds: the
/// resulting store set and mirror set, how many store adds were issued and
/// how many elements they newly inserted, and how many direct and in-channel
/// messages were sent.
pub struct RegistrationEffect {
    pub store: Set<u64>,
    pub mirror: Set<u64>,
    pub store_adds: nat,
    pub newly_added: nat,
    pub direct_messages: nat,
    pub channel_messages: nat,
}

/// One registration attempt: a non-owner is refused privately and nothing
/// else happens; the owner's attempt issues exactly one store add, and the
/// mirror gains the channel exactly when the store reports it newly
/// inserted.
pub open spec fn registration_effect(
    owner_id: u64,
    author_id: u64,
    store: Set<u64>,
    mirror: Set<u64>,
    channel_id: u64,
) -> RegistrationEffect {
    if author_id != owner_id {
        RegistrationEffect {
            store,
            mirror,
            store_adds: 0,
            newly_added: 0,
            direct_messages: 1,
            channel_messages: 0,
        }
    } else {
        let (new_store, newly) = store_add(store, channel_id);
        if newly {
            RegistrationEffect {
                store: new_store,
                mirror: mirror.insert(channel_id),
                store_adds: 1,
                newly_added: 1,
                direct_messages: 0,
                channel_messages: 1,
            }
        } else {
            RegistrationEffect {
                store: new_store,
                mirror,
                store_adds: 1,
                newly_added: 0,
                direct_messages: 0,
                channel_messages: 1,
            }
        }
    }
}

/// Law: a message whose content is not the trigger phrase never takes the
/// registration path, whoever sent it and whatever channel it came from.
pub proof fn non_trigger_never_registers(listen: Set<u64>, channel_id: u64, content: Seq<char>)
    requires
        content != trigger_phrase(),
    ensures
        classify_spec(listen, channel_id, content) != MessageAction::Register,
{
}

/// Law: a registration attempt by a non-owner leaves both the durable store
/// and the mirror unchanged, sends the author exactly one direct message,
/// issues no store add, and sends nothing to the channel.
pub proof fn non_owner_changes_nothing(
    owner_id: u64,
    author_id: u64,
    store: Set<u64>,
    mirror: Set<u64>,
    channel_id: u64,
)
    requires
        author_id != owner_id,
    ensures
        ({
            let e = registration_effect(owner_id, author_id, store, mirror, channel_id);
            e.store == store && e.mirror == mirror && e.store_adds == 0 && e.direct_messages == 1
                && e.channel_messages == 0
        }),
{
}

/// Law: the owner registering a channel not yet in the store issues exactly
/// one store add, which newly inserts it; the mirror gains the channel, and
/// exactly one in-channel message (the confirmation) is sent.
pub proof fn first_registration_adds_channel(
    owner_id: u64,
    store: Set<u64>,
    mirror: Set<u64>,
    channel_id: u64,
)
    requires
        !store.contains(channel_id),
    ensures
        ({
            let e = registration_effect(owner_id, owner_id, store, mirror, channel_id);
            e.store == store.insert(channel_id) && e.mirror == mirror.insert(channel_id)
                && e.store_adds == 1 && e.newly_added == 1 && e.channel_messages == 1
                && e.direct_messages == 0 && reported_outcome(store, channel_id)
                == StoreAddOutcome::Added
        }),
{
}

/// Law: the owner registering a channel already in the store still issues
/// the store add, which newly inserts nothing; the mirror is not mutated,
/// and exactly one in-channel message (the "already listening" notice) is
/// sent.
pub proof fn duplicate_registration_mutates_nothing(
    owner_id: u64,
    store: Set<u64>,
    mirror: Set<u64>,
    channel_id: u64,
)
    requires
        store.contains(channel_id),
    ensures
        ({
            let e = registration_effect(owner_id, owner_id, store, mirror, channel_id);
            e.store == store && e.mirror == mirror && e.store_adds == 1 && e.newly_added == 0
                && e.channel_messages == 1 && e.direct_messages == 0 && reported_outcome(
                store,
                channel_id,
            ) == StoreAddOutcome::AlreadyPresent
        }),
{
    let e = registration_effect(owner_id, owner_id, store, mirror, channel_id);
    assert(e.store =~= store);
}

/// Law: two attempts to register the same fresh channel, serialized by the
/// store's atomic add in either order, see "newly inserted" exactly once
/// between them, and the mirror afterwards holds the channel id (once: it
/// is a set).
pub proof fn concurrent_registration_converges(
    owner_id: u64,
    store: Set<u64>,
    mirror: Set<u64>,
    channel_id: u64,
)
    requires
        !store.contains(channel_id),
    ensures
        ({
            let e1 = registration_effect(owner_id, owner_id, store, mirror, channel_id);
            let e2 = registration_effect(owner_id, owner_id, e1.store, e1.mirror, channel_id);
            e1.newly_added + e2.newly_added == 1 && e2.mirror == mirror.insert(channel_id)
                && e2.mirror.contains(channel_id)
        }),
{
}

/// Law: a registration attempt preserves the session invariant that the
/// mirror holds no channel the durable store does not.
pub proof fn effect_preserves_mirror_subset(
    owner_id: u64,
    author_id: u64,
    store: Set<u64>,
    mirror: Set<u64>,
    channel_id: u64,
)
    requires
        mirror.subset_of(store),
    ensures
        ({
            let e = registration_effect(owner_id, author_id, store, mirror, channel_id);
            e.mirror.subset_of(e.store)
        }),
{
}

} // verus!
