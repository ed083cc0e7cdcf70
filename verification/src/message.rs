//! One conversation turn, and its conversion to the provider wire format.
//!
//! A `User` turn becomes a user-role wire message whose text is the speaker
//! name (default "Admin") followed by a colon and the turn text. A `Bot` turn
//! becomes an assistant-role wire message whose content is the serialized
//! reply JSON, so the model is shown its own prior replies in the exact shape
//! it must continue producing.

use vstd::prelude::*;
use vstd::string::StringExecFns;
use crate::json::{opt_view, reply_json, reply_json_string};

verus! {

/// One message in a conversation: from the caller (`User`) or from the model
/// (`Bot`). A non-empty `end_message` on a `Bot` turn marks the conversation
/// as concluded; further turns are still accepted.
#[derive(Debug, PartialEq)]
pub enum Message {
    User { name: Option<String>, content: String },
    Bot {
        name: String,
        expression: Option<String>,
        content: Option<String>,
        end_message: Option<String>,
    },
}

/// The structured reply shape the model is asked to emit:
/// `{name, dialogue, expression, endMessage}`, every field nullable.
#[derive(Debug, PartialEq)]
pub struct JsonAiResponse {
    pub name: Option<String>,
    pub dialogue: Option<String>,
    pub expression: Option<String>,
    pub end_message: Option<String>,
}

/// The mathematical shape of a parsed reply: each field as an optional
/// character sequence.
pub ghost struct ReplyView {
    pub name: Option<Seq<char>>,
    pub dialogue: Option<Seq<char>>,
    pub expression: Option<Seq<char>>,
    pub end_message: Option<Seq<char>>,
}

impl View for JsonAiResponse {
    type V = ReplyView;

    open spec fn view(&self) -> ReplyView {
        ReplyView {
            name: opt_view(self.name),
            dialogue: opt_view(self.dialogue),
            expression: opt_view(self.expression),
            end_message: opt_view(self.end_message),
        }
    }
}

/// The role tag of a provider wire message.
#[derive(Clone, Copy, Debug, PartialEq, Eq, Structural)]
pub enum Role {
    User,
    Assistant,
}

/// One provider-format message: a role and a content string.
#[derive(Debug, PartialEq)]
pub struct WireMessage {
    pub role: Role,
    pub content: String,
}

/// A copy of an optional string, equal to the original.
pub fn clone_opt_string(v: &Option<String>) -> (r: Option<String>)
    ensures
        r == *v,
{
    match v {
        Option::None => Option::None,
        Option::Some(s) => Option::Some(s.clone()),
    }
}

impl Clone for Message {
    /// A copy equal to the original turn.
    fn clone(&self) -> (res: Self)
        ensures
            res == *self,
    {
        match self {
            Message::User { name, content } => Message::User {
                name: clone_opt_string(name),
                content: content.clone(),
            },
            Message::Bot { name, expression, content, end_message } => Message::Bot {
                name: name.clone(),
                expression: clone_opt_string(expression),
                content: clone_opt_string(content),
                end_message: clone_opt_string(end_message),
            },
        }
    }
}

/// The speaker name shown on the wire for a user turn: the given name, or
/// "Admin" when absent.
pub open spec fn spec_user_name(n: Option<String>) -> Seq<char> {
    match n {
        Option::None => "Admin"@,
        Option::Some(s) => s@,
    }
}

/// The wire role a turn maps to.
pub open spec fn wire_role_of(m: Message) -> Role {
    match m {
        Message::User { .. } => Role::User,
        Message::Bot { .. } => Role::Assistant,
    }
}

/// The wire content a turn maps to: prefixed plain text for a user turn, the
/// serialized reply JSON for a bot turn.
pub open spec fn wire_content_of(m: Message) -> Seq<char> {
    match m {
        Message::User { name, content } => spec_user_name(name) + ": "@ + content@,
        Message::Bot { name, expression, content, end_message } => reply_json(
            Option::Some(name@),
            opt_view(content),
            opt_view(expression),
            opt_view(end_message),
        ),
    }
}

impl Message {
    /// Convert one turn to the provider wire format.
    pub fn to_wire(&self) -> (w: WireMessage)
        ensures
            w.role == wire_role_of(*self),
            w.content@ == wire_content_of(*self),
    {
        match self {
            Message::User { name, content } => {
                let mut text: String = match name {
                    Option::Some(n) => n.clone(),
                    Option::None => "Admin".to_owned(),
                };
                text.append(": ");
                text.append(content.as_str());
                WireMessage { role: Role::User, content: text }
            },
            Message::Bot { name, expression, content, end_message } => {
                let wrapped_name = Option::Some(name.clone());
                let json = reply_json_string(&wrapped_name, content, expression, end_message);
                WireMessage { role: Role::Assistant, content: json }
            },
        }
    }
}

} // verus!
