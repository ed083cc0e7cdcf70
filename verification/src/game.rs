//! One session's state and the conversation engine that advances it by one
//! turn: append the caller's turn, build the wire sequence from the entire
//! history, obtain a completion, append the model's reply, return the
//! visible transcript.

use vstd::prelude::*;
use crate::app_error::AppError;
use crate::gpt::{AttemptOutcome, first_ok, gpt_chat, outcome_reply};
use crate::json::opt_view;
use crate::message::{JsonAiResponse, Message, ReplyView, Role, WireMessage, wire_content_of, wire_role_of};
use crate::prompt::{Scenario, scenario_data, spec_bot_name, spec_prompt};

verus! {

/// The observable shape of a wire sequence: each message's role and content.
pub open spec fn wire_obs(ws: Seq<WireMessage>) -> Seq<(Role, Seq<char>)> {
    Seq::new(ws.len(), |i: int| (ws[i].role, ws[i].content@))
}

/// The wire sequence a history determines, message by message. Wire
/// conversion is a pure function of the history: two conversions of one
/// history both satisfy this and so are observably identical.
pub open spec fn wire_view(h: Seq<Message>) -> Seq<(Role, Seq<char>)> {
    Seq::new(h.len(), |i: int| (wire_role_of(h[i]), wire_content_of(h[i])))
}

/// The bot turn the engine appends for a parsed reply: persona name from the
/// scenario configuration (not trusted from the reply's own name field), the
/// remaining fields from the reply.
pub open spec fn bot_message_of(scenario: Scenario, rv: ReplyView, m: Message) -> bool {
    &&& m matches Message::Bot { name, expression, content, end_message }
    &&& name@ == spec_bot_name(scenario)
    &&& opt_view(expression) == rv.expression
    &&& opt_view(content) == rv.dialogue
    &&& opt_view(end_message) == rv.end_message
}

/// Whether a session is older than the configured maximum age at `now`.
pub open spec fn spec_expired(g: GameState, now: u64, max_age: u64) -> bool {
    now - g.spec_created_at() > max_age
}

/// One session: its scenario, its append-only turn history, and its creation
/// time (milliseconds, for expiry). Index 0 of the history is the synthetic
/// seed turn carrying the scenario prompt; it is never shown to callers.
#[derive(Debug)]
pub struct GameState {
    messages: Vec<Message>,
    scenario: Scenario,
    created_at: u64,
}

impl GameState {
    /// The turn history, in conversation order.
    pub closed spec fn history(&self) -> Seq<Message> {
        self.messages@
    }

    /// The scenario this session was created for.
    pub closed spec fn spec_scenario(&self) -> Scenario {
        self.scenario
    }

    /// The creation timestamp, set once.
    pub closed spec fn spec_created_at(&self) -> u64 {
        self.created_at
    }

    /// A session's history is never empty once created, and starts with the
    /// seed user turn.
    pub open spec fn wf(&self) -> bool {
        self.history().len() >= 1 && self.history()[0] is User
    }

    /// A new session: history holds only the scenario's seed turn.
    pub fn new(scenario: Scenario, created_at: u64) -> (g: GameState)
        ensures
            g.wf(),
            g.history().len() == 1,
            g.history()[0] matches Message::User { name, content } && name is None && content@
                == spec_prompt(scenario),
            g.spec_scenario() == scenario,
            g.spec_created_at() == created_at,
    {
        let data = scenario_data(scenario);
        let seed = Message::User { name: Option::None, content: data.prompt };
        let mut messages: Vec<Message> = Vec::new();
        messages.push(seed);
        GameState { messages, scenario, created_at }
    }

    /// The scenario this session was created for.
    pub fn scenario(&self) -> (s: Scenario)
        ensures
            s == self.spec_scenario(),
    {
        self.scenario
    }

    /// The creation timestamp, set once.
    pub fn created_at(&self) -> (t: u64)
        ensures
            t == self.spec_created_at(),
    {
        self.created_at
    }

    /// Whether the history is in the shape every created session keeps: at
    /// least the seed turn, and a user turn first.
    pub fn well_formed(&self) -> (r: bool)
        ensures
            r == self.wf(),
    {
        if self.messages.len() == 0 {
            return false;
        }
        match &self.messages[0] {
            Message::User { .. } => true,
            _ => false,
        }
    }

    /// Whether this session is older than the maximum age at `now`: its
    /// creation time lies more than `max_age` before `now`. A creation time
    /// at or after `now` is never expired.
    pub fn is_expired(&self, now: u64, max_age: u64) -> (r: bool)
        ensures
            r == spec_expired(*self, now, max_age),
    {
        if now >= self.created_at {
            now - self.created_at > max_age
        } else {
            false
        }
    }

    /// All turns except index 0: the seed turn is never exposed.
    pub fn visible_slice(&self) -> (r: Vec<Message>)
        requires
            self.wf(),
        ensures
            r@ == self.history().skip(1),
    {
        let mut r: Vec<Message> = Vec::new();
        let mut i: usize = 1;
        proof {
            assert(r@ =~= self.history().skip(1).take(0));
        }
        while i < self.messages.len()
            invariant
                1 <= i <= self.history().len(),
                r@ == self.history().skip(1).take(i - 1),
            decreases self.history().len() - i,
        {
            r.push(self.messages[i].clone());
            i = i + 1;
            proof {
                assert(r@ =~= self.history().skip(1).take(i - 1));
            }
        }
        proof {
            assert(self.history().skip(1).take(self.history().len() - 1) =~= self.history().skip(
                1,
            ));
        }
        r
    }

    /// Convert the entire history to the provider wire format, in order.
    pub fn to_wire_sequence(&self) -> (r: Vec<WireMessage>)
        ensures
            wire_obs(r@) == wire_view(self.history()),
    {
        let mut r: Vec<WireMessage> = Vec::new();
        let mut i: usize = 0;
        proof {
            assert(wire_obs(r@) =~= wire_view(self.history().take(0)));
        }
        while i < self.messages.len()
            invariant
                i <= self.history().len(),
                wire_obs(r@) == wire_view(self.history().take(i as int)),
            decreases self.history().len() - i,
        {
            let w = self.messages[i].to_wire();
            let ghost prev = r@;
            let ghost gw = w;
            r.push(w);
            i = i + 1;
            proof {
                let ghost h = self.history();
                let ghost k = i as int;
                assert(r@ == prev.push(gw));
                assert(wire_obs(prev).len() == prev.len());
                assert(wire_view(h.take(k - 1)).len() == k - 1);
                assert(prev.len() == k - 1);
                assert forall|j: int| 0 <= j < k implies wire_obs(r@)[j] == wire_view(h.take(k))[j] by {
                    assert(h.take(k)[j] == h[j]);
                    if j < k - 1 {
                        assert(prev.push(gw)[j] == prev[j]);
                        assert(wire_obs(prev)[j] == wire_view(h.take(k - 1))[j]);
                        assert(h.take(k - 1)[j] == h[j]);
                    } else {
                        assert(prev.push(gw)[j] == gw);
                        assert(gw.role == wire_role_of(h[j]));
                        assert(gw.content@ == wire_content_of(h[j]));
                    }
                }
                assert(wire_obs(r@) =~= wire_view(h.take(k)));
            }
        }
        proof {
            assert(self.history().take(self.history().len() as int) =~= self.history());
        }
        r
    }

    /// First half of one turn: validate that the incoming turn is a user
    /// turn, append it, and build the wire sequence from the entire history.
    /// On `InvalidTurnType` nothing is appended.
    pub fn begin_turn(&mut self, user_message: Message) -> (r: Result<Vec<WireMessage>, AppError>)
        requires
            old(self).wf(),
        ensures
            final(self).wf(),
            final(self).spec_scenario() == old(self).spec_scenario(),
            final(self).spec_created_at() == old(self).spec_created_at(),
            !(user_message is User) ==> r == Err::<Vec<WireMessage>, AppError>(
                AppError::InvalidTurnType,
            ) && final(self).history() == old(self).history(),
            user_message is User ==> ({
                &&& r matches Ok(w)
                &&& final(self).history() == old(self).history().push(user_message)
                &&& wire_obs(w@) == wire_view(final(self).history())
            }),
    {
        match &user_message {
            Message::User { .. } => {},
            _ => {
                return Err(AppError::InvalidTurnType);
            },
        }
        self.messages.push(user_message);
        Ok(self.to_wire_sequence())
    }

    /// Second half of one turn: append the bot turn built from the parsed
    /// reply — persona name resolved from the scenario configuration — and
    /// return the visible transcript.
    pub fn finish_turn(&mut self, reply: JsonAiResponse) -> (r: Vec<Message>)
        requires
            old(self).wf(),
        ensures
            final(self).wf(),
            final(self).spec_scenario() == old(self).spec_scenario(),
            final(self).spec_created_at() == old(self).spec_created_at(),
            final(self).history() == old(self).history().push(final(self).history().last()),
            final(self).history().last() matches Message::Bot {
                name,
                expression,
                content,
                end_message,
            } && name@ == spec_bot_name(old(self).spec_scenario()) && expression
                == reply.expression && content == reply.dialogue && end_message
                == reply.end_message,
            r@ == final(self).history().skip(1),
    {
        let data = scenario_data(self.scenario);
        self.messages.push(
            Message::Bot {
                name: data.bot_name,
                expression: reply.expression,
                content: reply.dialogue,
                end_message: reply.end_message,
            },
        );
        self.visible_slice()
    }

    /// Advance this session by one turn: append the caller's turn, resolve a
    /// completion over the attempt transcript, append the model's reply,
    /// return the visible history.
    ///
    /// Fully applied or not at all, per step: a rejected turn appends
    /// nothing; an exhausted retry budget leaves exactly the caller's turn
    /// appended (the user's message is durable evidence of the attempt); a
    /// successful turn appends exactly the user turn and one bot turn.
    pub fn send_user_message(
        &mut self,
        user_message: Message,
        attempts: &Vec<AttemptOutcome>,
        budget: usize,
    ) -> (r: Result<Vec<Message>, AppError>)
        requires
            old(self).wf(),
            budget <= attempts@.len(),
        ensures
            final(self).wf(),
            final(self).spec_scenario() == old(self).spec_scenario(),
            final(self).spec_created_at() == old(self).spec_created_at(),
            !(user_message is User) ==> r == Err::<Vec<Message>, AppError>(
                AppError::InvalidTurnType,
            ) && final(self).history() == old(self).history(),
            user_message is User && first_ok(attempts@, budget as int) is None ==> r == Err::<
                Vec<Message>,
                AppError,
            >(AppError::ExhaustedRetries) && final(self).history() == old(self).history().push(
                user_message,
            ) && final(self).history().len() == old(self).history().len() + 1,
            user_message is User ==> (first_ok(attempts@, budget as int) matches Some(i) ==> {
                &&& r is Ok
                &&& final(self).history().len() == old(self).history().len() + 2
                &&& final(self).history() == old(self).history().push(user_message).push(
                    final(self).history().last(),
                )
                &&& bot_message_of(
                    old(self).spec_scenario(),
                    outcome_reply(attempts@[i])->0,
                    final(self).history().last(),
                )
                &&& r->Ok_0@ == final(self).history().skip(1)
            }),
    {
        let wire = self.begin_turn(user_message);
        match wire {
            Err(e) => Err(e),
            Ok(_request_messages) => {
                match gpt_chat(attempts, budget) {
                    // the failure's diagnostics are for the boundary's own
                    // loop to log; the engine surfaces the opaque error
                    Err(_diagnostics) => Err(AppError::ExhaustedRetries),
                    Ok(reply) => Ok(self.finish_turn(reply)),
                }
            },
        }
    }
}

/// Wire conversion is a pure function of the history: two conversions of an
/// unchanged history — both bound by the ensures of
/// [`GameState::to_wire_sequence`] — are observably identical.
pub proof fn lemma_wire_sequence_pure(
    w1: Seq<WireMessage>,
    w2: Seq<WireMessage>,
    h: Seq<Message>,
)
    requires
        wire_obs(w1) == wire_view(h),
        wire_obs(w2) == wire_view(h),
    ensures
        wire_obs(w1) == wire_obs(w2),
{
}

/// The visible slice never includes index 0: it has one fewer entry than the
/// history, and entry `i` of the slice is entry `i + 1` of the history, so
/// the seed turn is drawn from no index of it.
pub proof fn lemma_visible_excludes_seed(h: Seq<Message>)
    requires
        h.len() >= 1,
    ensures
        h.skip(1).len() == h.len() - 1,
        forall|i: int| 0 <= i < h.len() - 1 ==> h.skip(1)[i] == h[i + 1],
{
}

/// Serialized turns never interleave: when a second successful turn is
/// applied to the history left by a first — the discipline the per-session
/// exclusive lock enforces — the resulting history is exactly the serial
/// composition, the first turn's pair before the second's, over an unchanged
/// prefix.
pub proof fn lemma_serialized_turns(
    h0: Seq<Message>,
    u1: Message,
    b1: Message,
    u2: Message,
    b2: Message,
    h1: Seq<Message>,
    h2: Seq<Message>,
)
    requires
        h1 == h0.push(u1).push(b1),
        h2 == h1.push(u2).push(b2),
    ensures
        h2 == h0 + seq![u1, b1, u2, b2],
        h2.len() == h0.len() + 4,
        h2.subrange(0, h0.len() as int) == h0,
{
    assert(h2 =~= h0 + seq![u1, b1, u2, b2]);
    assert(h2.subrange(0, h0.len() as int) =~= h0);
}

} // verus!
