//! The registration mechanism end to end: dispatch, authorization, and the
//! two steps around the durable store's set-add.

use std::collections::HashSet;

use kobot::listen::ListenSet;
use kobot::registrar::{
    begin_registration, classify_message, complete_registration, is_trigger, MessageAction,
    RegisterCompletion, RegisterDecision, StoreAddOutcome,
};
use kobot::session::BotInfo;

const OWNER: u64 = 1000;
const STRANGER: u64 = 2000;

fn owner_info() -> BotInfo {
    BotInfo { id: 42, owner: OWNER, token: String::from("test-token") }
}

/// Plays the durable store: an atomic set-add that reports whether the
/// element was newly inserted, as the store's protocol does.
fn store_add(store: &mut HashSet<u64>, channel_id: u64) -> StoreAddOutcome {
    if store.insert(channel_id) {
        StoreAddOutcome::Added
    } else {
        StoreAddOutcome::AlreadyPresent
    }
}

#[test]
fn trigger_phrase_exact_match_only() {
    assert!(is_trigger("kobot lives here"));
    assert!(!is_trigger("kobot lives here!"));
    assert!(!is_trigger("Kobot lives here"));
    assert!(!is_trigger(" kobot lives here"));
    assert!(!is_trigger("kobot lives"));
    assert!(!is_trigger(""));
}

#[test]
fn non_trigger_never_takes_registration_path() {
    let mut listen = ListenSet::new();
    listen.insert(7);
    // A listened channel observes, an unlistened one ignores; neither registers.
    assert_eq!(classify_message(&listen, 7, "good morning"), MessageAction::Observe);
    assert_eq!(classify_message(&listen, 8, "good morning"), MessageAction::Ignore);
    assert_eq!(classify_message(&listen, 7, ""), MessageAction::Observe);
    assert_eq!(classify_message(&listen, 8, "kobot lives"), MessageAction::Ignore);
}

#[test]
fn trigger_registers_regardless_of_listen_state() {
    let mut listen = ListenSet::new();
    listen.insert(7);
    assert_eq!(classify_message(&listen, 7, "kobot lives here"), MessageAction::Register);
    assert_eq!(classify_message(&listen, 8, "kobot lives here"), MessageAction::Register);
}

#[test]
fn non_owner_is_refused_privately() {
    let info = owner_info();
    let store: HashSet<u64> = HashSet::new();
    let listen = ListenSet::new();

    let decision = begin_registration(&info, STRANGER, 7, "general");
    match decision {
        RegisterDecision::NotifyNotAuthorized { direct_message } => {
            assert_eq!(
                direct_message,
                "you're not authorized to control kobot! (from: general)"
            );
        }
        RegisterDecision::AddToStore { .. } => panic!("non-owner reached the store"),
    }
    // The attempt stops here: store and mirror were never touched.
    assert!(store.is_empty());
    assert_eq!(listen.len(), 0);
}

#[test]
fn owner_first_registration_confirms_in_channel() {
    let info = owner_info();
    let mut store: HashSet<u64> = HashSet::new();
    let mut listen = ListenSet::new();

    let decision = begin_registration(&info, OWNER, 7, "barks");
    let channel_id = match decision {
        RegisterDecision::AddToStore { channel_id } => channel_id,
        RegisterDecision::NotifyNotAuthorized { .. } => panic!("owner was refused"),
    };
    assert_eq!(channel_id, 7);

    let outcome = store_add(&mut store, channel_id);
    assert_eq!(outcome, StoreAddOutcome::Added);

    let completion = complete_registration(&mut listen, channel_id, "dogpark", "barks", outcome);
    match completion {
        RegisterCompletion::Registered { reply } => {
            assert_eq!(reply, "yip! kobot now lives in dogpark #barks (listen mode enabled)");
        }
        _ => panic!("fresh channel was not registered"),
    }
    assert!(listen.contains(7));
    assert_eq!(listen.len(), 1);
}

#[test]
fn owner_duplicate_registration_leaves_mirror_alone() {
    let info = owner_info();
    let mut store: HashSet<u64> = HashSet::new();
    store.insert(7);
    let mut listen = ListenSet::new();
    listen.insert(7);

    let decision = begin_registration(&info, OWNER, 7, "barks");
    let channel_id = match decision {
        RegisterDecision::AddToStore { channel_id } => channel_id,
        RegisterDecision::NotifyNotAuthorized { .. } => panic!("owner was refused"),
    };

    // The store add still executes and reports nothing newly inserted.
    let outcome = store_add(&mut store, channel_id);
    assert_eq!(outcome, StoreAddOutcome::AlreadyPresent);

    let completion = complete_registration(&mut listen, channel_id, "dogpark", "barks", outcome);
    match completion {
        RegisterCompletion::AlreadyListening { reply } => {
            assert_eq!(reply, "kobot is already listening here!");
        }
        _ => panic!("duplicate registration did not report already-listening"),
    }
    assert_eq!(listen.len(), 1);
    assert!(listen.contains(7));
}

#[test]
fn store_failure_abandons_the_event() {
    let mut listen = ListenSet::new();
    let completion =
        complete_registration(&mut listen, 7, "dogpark", "barks", StoreAddOutcome::Failed);
    assert!(matches!(completion, RegisterCompletion::Aborted));
    assert_eq!(listen.len(), 0);
    assert!(!listen.contains(7));
}

#[test]
fn concurrent_registration_converges_to_one_insert() {
    // Two tasks race to register channel 7; the store's atomic add
    // serializes them, so exactly one sees "newly inserted".
    let mut store: HashSet<u64> = HashSet::new();
    let mut listen = ListenSet::new();

    let first = store_add(&mut store, 7);
    let second = store_add(&mut store, 7);
    let newly = [first, second]
        .iter()
        .filter(|o| **o == StoreAddOutcome::Added)
        .count();
    assert_eq!(newly, 1);

    complete_registration(&mut listen, 7, "dogpark", "barks", first);
    complete_registration(&mut listen, 7, "dogpark", "barks", second);
    assert!(listen.contains(7));
    assert_eq!(listen.len(), 1);
}

#[test]
fn owner_check_is_plain_equality() {
    let info = owner_info();
    assert!(info.is_owner(OWNER));
    assert!(!info.is_owner(STRANGER));
    assert!(!info.is_owner(info.id));
}
