//! The session store: creation, lookup, turn submission, liveness count,
//! and the expiry sweep.

use plakait::app_error::AppError;
use plakait::gpt::{AttemptOutcome, ProviderChoice, ProviderResponse};
use plakait::message::Message;
use plakait::prompt::Scenario;
use plakait::store::{GameStates, PostChatRequest, PostRoomRequest};

fn delivered(content: &str) -> AttemptOutcome {
    AttemptOutcome::Response(ProviderResponse {
        choices: vec![ProviderChoice { content: Some(content.to_string()) }],
    })
}

const NICK_REPLY: &str =
    "{\"name\":\"Nick\",\"dialogue\":\"Looking for a car today?\",\"expression\":\"grin\",\"endMessage\":null}";

#[test]
fn car_sale_scenario_round_trip() {
    // create a CarSale session, then submit {name: "John", content: "Hi"}:
    // the last visible entry is a bot turn whose persona is the configured
    // "Nick" and whose dialogue is non-null
    let mut store = GameStates::new();
    let resp = store
        .post_game(PostRoomRequest { scenario: Scenario::CarSale }, 0, &vec![delivered(NICK_REPLY)], 1)
        .unwrap();
    assert_eq!(resp.messages.len(), 1);

    let request = PostChatRequest { name: "John".to_string(), content: "Hi".to_string() };
    let messages = store
        .post_chat(resp.game_id, request, &vec![delivered(NICK_REPLY)], 1)
        .unwrap();
    assert_eq!(messages.len(), 3);
    assert_eq!(
        messages[1],
        Message::User { name: Some("John".to_string()), content: "Hi".to_string() }
    );
    match &messages[2] {
        Message::Bot { name, content, .. } => {
            assert_eq!(name, "Nick");
            assert!(content.is_some());
        },
        other => panic!("expected a bot turn, got {:?}", other),
    }
}

#[test]
fn history_of_unknown_session_is_not_found() {
    let store = GameStates::new();
    assert_eq!(store.get_history(123456789), Err(AppError::NotFound));
}

#[test]
fn chat_on_unknown_session_is_not_found() {
    let mut store = GameStates::new();
    let request = PostChatRequest { name: "John".to_string(), content: "Hi".to_string() };
    let r = store.post_chat(42, request, &vec![delivered(NICK_REPLY)], 1);
    assert_eq!(r, Err(AppError::NotFound));
    assert_eq!(store.game_count(), 0);
}

#[test]
fn history_matches_what_creation_returned() {
    let mut store = GameStates::new();
    let resp = store
        .post_game(PostRoomRequest { scenario: Scenario::BadMil }, 5, &vec![delivered(NICK_REPLY)], 1)
        .unwrap();
    let history = store.get_history(resp.game_id).unwrap();
    assert_eq!(history, resp.messages);
}

#[test]
fn failed_opening_keeps_the_seeded_session() {
    let mut store = GameStates::new();
    let r = store.post_game(
        PostRoomRequest { scenario: Scenario::CarSale },
        0,
        &vec![AttemptOutcome::TransportFailure],
        1,
    );
    assert_eq!(r, Err(AppError::ExhaustedRetries));
    // the session exists, with nothing visible yet
    assert_eq!(store.game_count(), 1);
}

#[test]
fn game_count_tracks_live_sessions() {
    let mut store = GameStates::new();
    assert_eq!(store.game_count(), 0);
    store
        .post_game(PostRoomRequest { scenario: Scenario::CarSale }, 0, &vec![delivered(NICK_REPLY)], 1)
        .unwrap();
    assert_eq!(store.game_count(), 1);
}

#[test]
fn a_turn_on_one_session_leaves_others_untouched() {
    let mut store = GameStates::new();
    let a = store
        .post_game(PostRoomRequest { scenario: Scenario::CarSale }, 0, &vec![delivered(NICK_REPLY)], 1)
        .unwrap();
    let b = store
        .post_game(PostRoomRequest { scenario: Scenario::BadMil }, 0, &vec![delivered(NICK_REPLY)], 1)
        .unwrap();
    assert_ne!(a.game_id, b.game_id);
    let before_b = store.get_history(b.game_id).unwrap();

    let request = PostChatRequest { name: "John".to_string(), content: "Hi".to_string() };
    store
        .post_chat(a.game_id, request, &vec![delivered(NICK_REPLY)], 1)
        .unwrap();

    assert_eq!(store.get_history(b.game_id).unwrap(), before_b);
    assert_eq!(store.get_history(a.game_id).unwrap().len(), 3);
}

#[test]
fn sweep_removes_old_sessions_and_keeps_young_ones() {
    let mut store = GameStates::new();
    let old_resp = store
        .post_game(PostRoomRequest { scenario: Scenario::CarSale }, 0, &vec![delivered(NICK_REPLY)], 1)
        .unwrap();
    let young_resp = store
        .post_game(PostRoomRequest { scenario: Scenario::BadMil }, 1800, &vec![delivered(NICK_REPLY)], 1)
        .unwrap();
    assert_eq!(store.game_count(), 2);

    store.sweep(2000, 500);

    // created at 0, age 2000 > 500: removed; created at 1800, age 200: kept
    assert_eq!(store.game_count(), 1);
    assert_eq!(store.get_history(old_resp.game_id), Err(AppError::NotFound));
    assert!(store.get_history(young_resp.game_id).is_ok());
}

#[test]
fn sweep_keeps_sessions_at_exactly_max_age() {
    let mut store = GameStates::new();
    let resp = store
        .post_game(PostRoomRequest { scenario: Scenario::CarSale }, 1000, &vec![delivered(NICK_REPLY)], 1)
        .unwrap();
    // age equal to max_age is not older than max_age
    store.sweep(1500, 500);
    assert!(store.get_history(resp.game_id).is_ok());
    store.sweep(1501, 500);
    assert_eq!(store.get_history(resp.game_id), Err(AppError::NotFound));
}
