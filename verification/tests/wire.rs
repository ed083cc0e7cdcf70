//! Wire-format behavior: user-turn prefixing, bot-turn JSON serialization,
//! escaping, and the stability of wire conversion.

use plakait::game::GameState;
use plakait::message::{Message, Role};
use plakait::prompt::Scenario;

#[test]
fn user_turn_wire_named_speaker() {
    let m = Message::User { name: Some("John".to_string()), content: "Hi".to_string() };
    let w = m.to_wire();
    assert_eq!(w.role, Role::User);
    assert_eq!(w.content, "John: Hi");
}

#[test]
fn user_turn_wire_default_admin() {
    let m = Message::User { name: None, content: "Hello there".to_string() };
    let w = m.to_wire();
    assert_eq!(w.role, Role::User);
    assert_eq!(w.content, "Admin: Hello there");
}

#[test]
fn bot_turn_wire_is_reply_json() {
    let m = Message::Bot {
        name: "Nick".to_string(),
        expression: Some(":)".to_string()),
        content: Some("Hello".to_string()),
        end_message: None,
    };
    let w = m.to_wire();
    assert_eq!(w.role, Role::Assistant);
    assert_eq!(
        w.content,
        "{\"dialogue\":\"Hello\",\"endMessage\":null,\"expression\":\":)\",\"name\":\"Nick\"}"
    );
}

#[test]
fn bot_turn_wire_escapes_quotes_and_newlines() {
    let m = Message::Bot {
        name: "Nick".to_string(),
        expression: None,
        content: Some("He said \"deal\"\nand left\\".to_string()),
        end_message: None,
    };
    let w = m.to_wire();
    assert_eq!(
        w.content,
        "{\"dialogue\":\"He said \\\"deal\\\"\\nand left\\\\\",\"endMessage\":null,\"expression\":null,\"name\":\"Nick\"}"
    );
}

#[test]
fn bot_turn_wire_escapes_control_chars() {
    let m = Message::Bot {
        name: "N".to_string(),
        expression: None,
        content: Some("a\u{1}b\tc".to_string()),
        end_message: None,
    };
    let w = m.to_wire();
    assert_eq!(
        w.content,
        "{\"dialogue\":\"a\\u0001b\\tc\",\"endMessage\":null,\"expression\":null,\"name\":\"N\"}"
    );
}

#[test]
fn bot_turn_wire_uses_short_escapes() {
    let m = Message::Bot {
        name: "N".to_string(),
        expression: None,
        content: Some("a\u{8}b\u{c}c\rd".to_string()),
        end_message: None,
    };
    let w = m.to_wire();
    assert_eq!(
        w.content,
        "{\"dialogue\":\"a\\bb\\fc\\rd\",\"endMessage\":null,\"expression\":null,\"name\":\"N\"}"
    );
}

#[test]
fn bot_turn_wire_parses_back_as_json() {
    // cross-check the emitter against a real JSON parser
    let m = Message::Bot {
        name: "Pamela".to_string(),
        expression: Some("\u{1F600}".to_string()),
        content: Some("line one\nline \"two\"".to_string()),
        end_message: Some("done".to_string()),
    };
    let w = m.to_wire();
    let v: serde_json::Value = serde_json::from_str(&w.content).unwrap();
    assert_eq!(v.get("name").unwrap().as_str().unwrap(), "Pamela");
    assert_eq!(v.get("expression").unwrap().as_str().unwrap(), "\u{1F600}");
    assert_eq!(v.get("dialogue").unwrap().as_str().unwrap(), "line one\nline \"two\"");
    assert_eq!(v.get("endMessage").unwrap().as_str().unwrap(), "done");
}

#[test]
fn wire_sequence_is_stable_and_prefixes_seed() {
    let gs = GameState::new(Scenario::CarSale, 0);
    let w1 = gs.to_wire_sequence();
    let w2 = gs.to_wire_sequence();
    // pure function of the history: two conversions are identical
    assert_eq!(w1, w2);
    assert_eq!(w1.len(), 1);
    assert_eq!(w1[0].role, Role::User);
    assert!(w1[0].content.starts_with("Admin: "));
}
