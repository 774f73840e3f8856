//! The bot's identity and the one-time session setup.
//!
//! The identity is resolved once at startup, outside the library, by asking
//! the platform who the bot is and who owns it; the listen set is read in
//! full from the durable store at the same time. This module holds those
//! results for the lifetime of the process.

use vstd::prelude::*;
use crate::listen::ListenSet;

verus! {

/// Bot information shared read-only with every message handler: the bot's
/// own account id, the single account id authorized to register channels,
/// and the platform credential.
pub struct BotInfo {
    pub id: u64,
    pub owner: u64,
    pub token: String,
}

impl BotInfo {
    /// Authorization is a plain equality check against the owner id.
    pub fn is_owner(&self, author_id: u64) -> (r: bool)
        ensures
            r == (author_id == self.owner),
    {
        author_id == self.owner
    }
}

/// Assembles the session state from what startup fetched: the identity the
/// platform reported and the full listen-set membership the durable store
/// reported. The mirror then equals the store's set before any message is
/// handled.
pub fn initialize(bot_id: u64, owner_id: u64, token: String, members: &Vec<u64>) -> (r: (
    BotInfo,
    ListenSet,
))
    ensures
        r.0.id == bot_id,
        r.0.owner == owner_id,
        r.0.token == token,
        r.1@ == members@.to_set(),
{
    let info = BotInfo { id: bot_id, owner: owner_id, token };
    let set = ListenSet::from_members(members);
    (info, set)
}

} // verus!
