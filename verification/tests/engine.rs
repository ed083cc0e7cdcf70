//! The conversation engine on one session: turn accounting, seed hiding,
//! persona resolution, and failure behavior.

use plakait::app_error::AppError;
use plakait::game::GameState;
use plakait::gpt::{AttemptOutcome, ProviderChoice, ProviderResponse};
use plakait::message::Message;
use plakait::prompt::Scenario;

fn delivered(content: &str) -> AttemptOutcome {
    AttemptOutcome::Response(ProviderResponse {
        choices: vec![ProviderChoice { content: Some(content.to_string()) }],
    })
}

const GOOD_REPLY: &str =
    "{\"name\":\"Nick\",\"dialogue\":\"Welcome to the lot!\",\"expression\":\"grin\",\"endMessage\":null}";

#[test]
fn new_session_hides_the_seed() {
    let gs = GameState::new(Scenario::CarSale, 7);
    assert_eq!(gs.visible_slice(), vec![]);
    assert_eq!(gs.created_at(), 7);
    assert_eq!(gs.scenario(), Scenario::CarSale);
}

#[test]
fn successful_turn_appends_user_and_bot() {
    let mut gs = GameState::new(Scenario::CarSale, 0);
    let user = Message::User { name: Some("John".to_string()), content: "Hi".to_string() };
    let visible = gs
        .send_user_message(user, &vec![delivered(GOOD_REPLY)], 1)
        .unwrap();
    // seed stays hidden; exactly the user turn and one bot turn are visible
    assert_eq!(visible.len(), 2);
    assert_eq!(
        visible[0],
        Message::User { name: Some("John".to_string()), content: "Hi".to_string() }
    );
    match &visible[1] {
        Message::Bot { name, expression, content, end_message } => {
            // persona comes from the scenario configuration, not the reply
            assert_eq!(name, "Nick");
            assert_eq!(expression.as_deref(), Some("grin"));
            assert_eq!(content.as_deref(), Some("Welcome to the lot!"));
            assert_eq!(end_message, &None);
        },
        other => panic!("expected a bot turn, got {:?}", other),
    }
    // a second look shows the same visible history
    assert_eq!(gs.visible_slice(), visible);
}

#[test]
fn rejected_turn_appends_nothing() {
    let mut gs = GameState::new(Scenario::BadMil, 0);
    let bot = Message::Bot {
        name: "imposter".to_string(),
        expression: None,
        content: Some("hi".to_string()),
        end_message: None,
    };
    let r = gs.send_user_message(bot, &vec![delivered(GOOD_REPLY)], 1);
    assert_eq!(r, Err(AppError::InvalidTurnType));
    assert_eq!(gs.visible_slice().len(), 0);
}

#[test]
fn exhausted_turn_keeps_the_user_message() {
    let mut gs = GameState::new(Scenario::BadMil, 0);
    let user = Message::User { name: Some("Jane".to_string()), content: "Hi Pamela".to_string() };
    let r = gs.send_user_message(user, &vec![AttemptOutcome::TransportFailure], 1);
    assert_eq!(r, Err(AppError::ExhaustedRetries));
    // the user's message is durable evidence of the attempt
    let visible = gs.visible_slice();
    assert_eq!(visible.len(), 1);
    assert_eq!(
        visible[0],
        Message::User { name: Some("Jane".to_string()), content: "Hi Pamela".to_string() }
    );
}

#[test]
fn turn_lengths_accumulate_per_call() {
    let mut gs = GameState::new(Scenario::ToiletRun, 0);
    let mk_user = |text: &str| Message::User { name: Some("Boy".to_string()), content: text.to_string() };
    gs.send_user_message(mk_user("please"), &vec![delivered(GOOD_REPLY)], 1).unwrap();
    assert_eq!(gs.visible_slice().len(), 2);
    gs.send_user_message(mk_user("really please"), &vec![delivered(GOOD_REPLY)], 1).unwrap();
    assert_eq!(gs.visible_slice().len(), 4);
    let r = gs.send_user_message(mk_user("pretty please"), &vec![AttemptOutcome::DecodeFailure], 1);
    assert_eq!(r, Err(AppError::ExhaustedRetries));
    assert_eq!(gs.visible_slice().len(), 5);
}

#[test]
fn persona_tracks_each_scenario() {
    for (scenario, persona) in [
        (Scenario::CarSale, "Nick"),
        (Scenario::BadMil, "Pamela"),
        (Scenario::ToiletRun, "Jared"),
    ] {
        let mut gs = GameState::new(scenario, 0);
        let user = Message::User { name: None, content: "hello".to_string() };
        let visible = gs.send_user_message(user, &vec![delivered(GOOD_REPLY)], 1).unwrap();
        match &visible[1] {
            Message::Bot { name, .. } => assert_eq!(name, persona),
            other => panic!("expected a bot turn, got {:?}", other),
        }
    }
}
