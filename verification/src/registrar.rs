//! Per-message decisions: dispatch, authorization, and channel registration.
//!
//! Every inbound message goes through `classify_message`. A trigger-phrase
//! message starts a registration attempt, which runs in two steps around the
//! durable store's set-add operation: `begin_registration` decides whether
//! the author may register at all, and `complete_registration` turns the
//! store's report into the mirror update and the reply. The store call
//! itself is a network operation and stays outside the library; it hands
//! back a `StoreAddOutcome`.
//!
//! Ordering: the durable store is written first, the mirror second, and the
//! reply is only built (to be sent) after the mirror holds the channel, so a
//! crash between the steps loses at most the in-memory mirror, which the
//! next start rebuilds from the store.

use vstd::prelude::*;
use crate::listen::ListenSet;
use crate::messages::{
    already_listening_text, build_already_listening, build_confirmation, build_not_authorized,
    confirmation_text, not_authorized_text,
};
use crate::session::BotInfo;

verus! {

/// The exact message text that initiates channel registration.
pub open spec fn trigger_phrase() -> Seq<char> {
    "kobot lives here"@
}

/// True exactly when `content` is the trigger phrase.
pub fn is_trigger(content: &str) -> (r: bool)
    ensures
        r == (content@ == trigger_phrase()),
{
    let content_owned: String = content.to_owned();
    let phrase: String = String::from_str("kobot lives here");
    content_owned.eq(&phrase)
}

/// What the handler does with an inbound message.
#[derive(Clone, Copy, Debug, PartialEq, Eq, Structural)]
pub enum MessageAction {
    /// The content is the trigger phrase: run a registration attempt.
    Register,
    /// Not the trigger phrase, but the channel is in the listen set: observe
    /// the message (a read-only action; the bot logs it to the console).
    Observe,
    /// Anything else is ignored.
    Ignore,
}

/// The dispatch rule: the trigger phrase always takes the registration path;
/// any other content is observed exactly when its channel is listened to.
pub open spec fn classify_spec(listen: Set<u64>, channel_id: u64, content: Seq<char>) -> MessageAction {
    if content == trigger_phrase() {
        MessageAction::Register
    } else if listen.contains(channel_id) {
        MessageAction::Observe
    } else {
        MessageAction::Ignore
    }
}

/// Decides what to do with one inbound message. Never mutates anything.
pub fn classify_message(listen: &ListenSet, channel_id: u64, content: &str) -> (a: MessageAction)
    ensures
        a == classify_spec(listen@, channel_id, content@),
{
    if is_trigger(content) {
        MessageAction::Register
    } else if listen.contains(channel_id) {
        MessageAction::Observe
    } else {
        MessageAction::Ignore
    }
}

/// The first half of a registration attempt, before the durable store is
/// touched.
pub enum RegisterDecision {
    /// The author is not the owner: send them this direct message and stop.
    /// The listen set is not touched and the channel gets no reply.
    NotifyNotAuthorized { direct_message: String },
    /// The author is the owner: add this channel to the durable store's set.
    AddToStore { channel_id: u64 },
}

/// Checks the author against the owner id. A non-owner is turned away with
/// a private refusal naming the channel; the owner's attempt moves on to the
/// durable store.
pub fn begin_registration(info: &BotInfo, author_id: u64, channel_id: u64, channel_name: &str) -> (d:
    RegisterDecision)
    ensures
        author_id != info.owner ==> (d matches RegisterDecision::NotifyNotAuthorized {
            direct_message,
        } && direct_message@ == not_authorized_text(channel_name@)),
        author_id == info.owner ==> d == (RegisterDecision::AddToStore { channel_id }),
{
    if !info.is_owner(author_id) {
        RegisterDecision::NotifyNotAuthorized { direct_message: build_not_authorized(channel_name) }
    } else {
        RegisterDecision::AddToStore { channel_id }
    }
}

/// What the durable store's set-add reported. The add is atomic on the
/// store's side and reports whether the element was newly inserted; a
/// transport or protocol failure reports nothing.
#[derive(Clone, Copy, Debug, PartialEq, Eq, Structural)]
pub enum StoreAddOutcome {
    /// The channel id was newly inserted into the store's set.
    Added,
    /// The store's set already held the channel id.
    AlreadyPresent,
    /// The operation failed; nothing is known about the store's set.
    Failed,
}

/// The outcome an atomic store whose set is `store` reports for adding
/// `channel_id`, whenever the operation itself goes through.
pub open spec fn reported_outcome(store: Set<u64>, channel_id: u64) -> StoreAddOutcome {
    if store.contains(channel_id) {
        StoreAddOutcome::AlreadyPresent
    } else {
        StoreAddOutcome::Added
    }
}

/// The second half of a registration attempt, after the store reported.
pub enum RegisterCompletion {
    /// The store operation failed: the event is abandoned, the mirror is
    /// untouched and the user hears nothing.
    Aborted,
    /// The channel was already registered: the mirror is untouched and this
    /// notice goes to the channel.
    AlreadyListening { reply: String },
    /// The channel is newly registered: the mirror gained it and this
    /// confirmation goes to the channel.
    Registered { reply: String },
}

/// Folds the store's report into the mirror and chooses the reply. Only a
/// newly inserted channel mutates the mirror; a duplicate or a failure
/// leaves it exactly as it was.
pub fn complete_registration(
    listen: &mut ListenSet,
    channel_id: u64,
    server_name: &str,
    channel_name: &str,
    outcome: StoreAddOutcome,
) -> (c: RegisterCompletion)
    ensures
        outcome == StoreAddOutcome::Failed ==> final(listen)@ == old(listen)@ && c
            == RegisterCompletion::Aborted,
        outcome == StoreAddOutcome::AlreadyPresent ==> final(listen)@ == old(listen)@ && (
        c matches RegisterCompletion::AlreadyListening { reply } && reply@
            == already_listening_text()),
        outcome == StoreAddOutcome::Added ==> final(listen)@ == old(listen)@.insert(channel_id) && (
        c matches RegisterCompletion::Registered { reply } && reply@ == confirmation_text(
            server_name@,
            channel_name@,
        )),
{
    match outcome {
        StoreAddOutcome::Failed => RegisterCompletion::Aborted,
        StoreAddOutcome::AlreadyPresent => RegisterCompletion::AlreadyListening {
            reply: build_already_listening(),
        },
        StoreAddOutcome::Added => {
            listen.insert(channel_id);
            RegisterCompletion::Registered {
                reply: build_confirmation(server_name, channel_name),
            }
        },
    }
}

} // verus!
