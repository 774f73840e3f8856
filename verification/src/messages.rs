//! The texts the bot sends, each pinned to a specification-level sequence.
//!
//! Three texts exist: the private refusal sent to an unauthorized sender,
//! the in-channel notice for a channel that is already registered, and the
//! in-channel confirmation for a newly registered one.

use vstd::prelude::*;

verus! {

/// What the direct message to an unauthorized sender says; it names the
/// channel the attempt came from.
pub open spec fn not_authorized_text(channel_name: Seq<char>) -> Seq<char> {
    "you're not authorized to control kobot! (from: "@ + channel_name + ")"@
}

/// The in-channel notice when the channel is already in the listen set.
pub open spec fn already_listening_text() -> Seq<char> {
    "kobot is already listening here!"@
}

/// The in-channel confirmation for a newly registered channel; it names the
/// server and the channel.
pub open spec fn confirmation_text(server_name: Seq<char>, channel_name: Seq<char>) -> Seq<char> {
    "yip! kobot now lives in "@ + server_name + " #"@ + channel_name + " (listen mode enabled)"@
}

/// Builds the refusal sent privately to a non-owner who used the trigger
/// phrase.
pub fn build_not_authorized(channel_name: &str) -> (r: String)
    ensures
        r@ == not_authorized_text(channel_name@),
{
    let mut r = String::from_str("you're not authorized to control kobot! (from: ");
    r.append(channel_name);
    r.append(")");
    proof {
        assert(r@ =~= not_authorized_text(channel_name@));
    }
    r
}

/// Builds the notice for a registration attempt on an already registered
/// channel.
pub fn build_already_listening() -> (r: String)
    ensures
        r@ == already_listening_text(),
{
    String::from_str("kobot is already listening here!")
}

/// Builds the confirmation announced in a channel that was just registered.
pub fn build_confirmation(server_name: &str, channel_name: &str) -> (r: String)
    ensures
        r@ == confirmation_text(server_name@, channel_name@),
{
    let mut r = String::from_str("yip! kobot now lives in ");
    r.append(server_name);
    r.append(" #");
    r.append(channel_name);
    r.append(" (listen mode enabled)");
    proof {
        assert(r@ =~= confirmation_text(server_name@, channel_name@));
    }
    r
}

} // verus!
