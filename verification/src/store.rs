//! The session store: a map from session identifier to session state,
//! together with the request-level operations the boundary exposes —
//! creating a session, submitting a turn, fetching history, counting live
//! sessions, and the expiry sweep. Identifiers are generated at creation
//! time; the store checks each candidate against the live ids, so ids are
//! unique for the store's lifetime.

use vstd::prelude::*;
use crate::app_error::AppError;
use crate::game::{GameState, bot_message_of, spec_expired};
use crate::gpt::{AttemptOutcome, first_ok, gpt_chat, outcome_reply};
use crate::message::Message;
use crate::prompt::{Scenario, scenario_data, spec_prompt};

verus! {

/// Whether an entry sequence holds an entry with this id.
pub open spec fn has_id(s: Seq<(u128, GameState)>, id: u128) -> bool {
    exists|i: int| 0 <= i < s.len() && s[i].0 == id
}

/// Whether every id in an entry sequence occurs once.
pub open spec fn unique_ids(s: Seq<(u128, GameState)>) -> bool {
    forall|i: int, j: int| 0 <= i < j < s.len() ==> s[i].0 != s[j].0
}

/// The entries the expiry sweep leaves: the non-expired ones, in order.
pub open spec fn swept(s: Seq<(u128, GameState)>, now: u64, max_age: u64) -> Seq<
    (u128, GameState),
>
    decreases s.len(),
{
    if s.len() == 0 {
        Seq::empty()
    } else if spec_expired(s[0].1, now, max_age) {
        swept(s.skip(1), now, max_age)
    } else {
        seq![s[0]] + swept(s.skip(1), now, max_age)
    }
}

/// The expiry sweep removes exactly the expired sessions: what it keeps is
/// drawn from the original entries, is never expired, keeps every
/// non-expired entry, and keeps ids unique.
pub proof fn lemma_swept_props(s: Seq<(u128, GameState)>, now: u64, max_age: u64)
    ensures
        forall|k: int|
            0 <= k < swept(s, now, max_age).len() ==> s.contains(
                #[trigger] swept(s, now, max_age)[k],
            ) && !spec_expired(swept(s, now, max_age)[k].1, now, max_age),
        forall|i: int|
            0 <= i < s.len() && !spec_expired((#[trigger] s[i]).1, now, max_age) ==> swept(
                s,
                now,
                max_age,
            ).contains(s[i]),
        unique_ids(s) ==> unique_ids(swept(s, now, max_age)),
        forall|id: u128| has_id(swept(s, now, max_age), id) ==> has_id(s, id),
    decreases s.len(),
{
    if s.len() > 0 {
        let rest = s.skip(1);
        lemma_swept_props(rest, now, max_age);
        let out = swept(s, now, max_age);
        assert forall|x: (u128, GameState)| rest.contains(x) implies s.contains(x) by {
            let i = choose|i: int| 0 <= i < rest.len() && rest[i] == x;
            assert(s[i + 1] == x);
        }
        assert forall|k: int|
            0 <= k < out.len() implies s.contains(#[trigger] out[k]) && !spec_expired(
            out[k].1,
            now,
            max_age,
        ) by {
            if spec_expired(s[0].1, now, max_age) {
                assert(out[k] == swept(rest, now, max_age)[k]);
                assert(rest.contains(out[k]));
            } else if k == 0 {
                assert(out[0] == s[0]);
                assert(0 <= 0 < s.len() && s[0] == s[0]);
            } else {
                assert(out[k] == swept(rest, now, max_age)[k - 1]);
                assert(rest.contains(out[k]));
            }
        }
        assert forall|i: int|
            0 <= i < s.len() && !spec_expired((#[trigger] s[i]).1, now, max_age) implies out.contains(
            s[i],
        ) by {
            if i == 0 {
                assert(out[0] == s[0]);
            } else {
                assert(rest[i - 1] == s[i]);
                assert(swept(rest, now, max_age).contains(s[i]));
                let j = choose|j: int|
                    0 <= j < swept(rest, now, max_age).len() && swept(rest, now, max_age)[j]
                        == s[i];
                if spec_expired(s[0].1, now, max_age) {
                    assert(out[j] == s[i]);
                } else {
                    assert(out[j + 1] == s[i]);
                }
            }
        }
        if unique_ids(s) {
            assert(unique_ids(rest));
            assert forall|i: int, j: int| 0 <= i < j < out.len() implies out[i].0 != out[j].0 by {
                if spec_expired(s[0].1, now, max_age) {
                } else {
                    if i == 0 {
                        assert(swept(rest, now, max_age).contains(out[j]));
                        assert(has_id(rest, out[j].0) || out[j].0 != s[0].0) by {
                            let k = choose|k: int|
                                0 <= k < rest.len() && rest[k] == swept(rest, now, max_age)[j - 1];
                            assert(rest[k].0 == out[j].0);
                        }
                    }
                }
            }
        }
        assert forall|id: u128| has_id(out, id) implies has_id(s, id) by {
            let k = choose|k: int| 0 <= k < out.len() && out[k].0 == id;
            assert(s.contains(out[k]));
            let i = choose|i: int| 0 <= i < s.len() && s[i] == out[k];
            assert(s[i].0 == id);
        }
    }
}

/// A request to start a new session for a scenario.
#[derive(Debug, PartialEq)]
pub struct PostRoomRequest {
    pub scenario: Scenario,
}

/// The answer to a new-session request: the fresh session id and the
/// visible turns.
#[derive(Debug, PartialEq)]
pub struct PostRoomResponse {
    pub game_id: u128,
    pub messages: Vec<Message>,
}

/// A submitted turn: the speaker name and the turn text.
#[derive(Debug, PartialEq)]
pub struct PostChatRequest {
    pub name: String,
    pub content: String,
}

/// Relies on `uuid::Uuid::new_v4`: a freshly generated random (version 4)
/// identifier, taken as its 128-bit value. Nothing is assumed of the value;
/// the store checks each candidate against the live ids.
#[verifier::external_body]
fn fresh_game_id() -> u128 {
    uuid::Uuid::new_v4().as_u128()
}

/// If every id in `0..=m` is live, there are more than `m` entries: the
/// pigeonhole argument behind the deterministic fresh-id fallback.
proof fn lemma_small_ids_need_entries(s: Seq<(u128, GameState)>, m: int)
    requires
        unique_ids(s),
        0 <= m <= u128::MAX,
        forall|v: int| 0 <= v <= m ==> has_id(s, #[trigger] (v as u128)),
    ensures
        s.len() > m,
    decreases m,
{
    assert(has_id(s, (m as u128)));
    let i = choose|i: int| 0 <= i < s.len() && s[i].0 == (m as u128);
    if m > 0 {
        let s2 = s.remove(i);
        s.remove_ensures(i);
        assert forall|a: int, b: int| 0 <= a < b < s2.len() implies s2[a].0 != s2[b].0 by {
            let a0 = if a < i { a } else { a + 1 };
            let b0 = if b < i { b } else { b + 1 };
            assert(s2[a] == s[a0] && s2[b] == s[b0]);
        }
        assert forall|v: int| 0 <= v <= m - 1 implies has_id(s2, #[trigger] (v as u128)) by {
            assert(has_id(s, (v as u128)));
            let j = choose|j: int| 0 <= j < s.len() && s[j].0 == (v as u128);
            assert((v as u128) != (m as u128));
            if j < i {
                assert(s2[j] == s[j]);
            } else {
                assert(s2[j - 1] == s[j]);
            }
        }
        lemma_small_ids_need_entries(s2, m - 1);
    }
}

/// The map from session id to session state.
#[derive(Debug)]
pub struct GameStates {
    sessions: Vec<(u128, GameState)>,
}

impl GameStates {
    /// The live sessions, in creation order.
    pub closed spec fn entries(&self) -> Seq<(u128, GameState)> {
        self.sessions@
    }

    /// Whether a session with this id is live.
    pub open spec fn contains_id(&self, id: u128) -> bool {
        has_id(self.entries(), id)
    }

    /// Ids are unique and every session is well-formed.
    pub open spec fn wf(&self) -> bool {
        &&& unique_ids(self.entries())
        &&& forall|i: int| 0 <= i < self.entries().len() ==> (#[trigger] self.entries()[i]).1.wf()
    }

    /// The position of the session with this id.
    pub closed spec fn index_of(&self, id: u128) -> int {
        choose|i: int| 0 <= i < self.entries().len() && self.entries()[i].0 == id
    }

    /// The session with this id.
    pub open spec fn spec_session(&self, id: u128) -> GameState {
        self.entries()[self.index_of(id)].1
    }

    /// With unique ids, the position holding `id` is the position `index_of`
    /// names, so [`GameStates::spec_session`] is pinned to that entry.
    pub proof fn lemma_index_of(&self, id: u128, i: int)
        requires
            self.wf(),
            0 <= i < self.entries().len(),
            self.entries()[i].0 == id,
        ensures
            self.index_of(id) == i,
            self.contains_id(id),
    {
        let j = self.index_of(id);
        assert(0 <= j < self.entries().len() && self.entries()[j].0 == id);
    }

    /// An empty store.
    pub fn new() -> (s: GameStates)
        ensures
            s.wf(),
            s.entries().len() == 0,
    {
        GameStates { sessions: Vec::new() }
    }

    /// How many sessions are live.
    pub fn game_count(&self) -> (n: usize)
        ensures
            n == self.entries().len(),
    {
        self.sessions.len()
    }

    /// The position of the session with this id, if it is live.
    fn find_index(&self, id: u128) -> (r: Option<usize>)
        ensures
            r matches Some(i) ==> i < self.entries().len() && self.entries()[i as int].0 == id,
            r is None ==> !self.contains_id(id),
    {
        let mut i: usize = 0;
        while i < self.sessions.len()
            invariant
                i <= self.entries().len(),
                forall|j: int| 0 <= j < i ==> (#[trigger] self.entries()[j]).0 != id,
            decreases self.entries().len() - i,
        {
            if self.sessions[i].0 == id {
                return Some(i);
            }
            i = i + 1;
        }
        None
    }

    /// The visible history of the session with this id, or `NotFound`.
    pub fn get_history(&self, game_id: u128) -> (r: Result<Vec<Message>, AppError>)
        requires
            self.wf(),
        ensures
            !self.contains_id(game_id) ==> r == Err::<Vec<Message>, AppError>(AppError::NotFound),
            self.contains_id(game_id) ==> ({
                &&& r matches Ok(v)
                &&& v@ == self.spec_session(game_id).history().skip(1)
            }),
    {
        match self.find_index(game_id) {
            Option::None => Err(AppError::NotFound),
            Option::Some(i) => {
                proof {
                    self.lemma_index_of(game_id, i as int);
                }
                Ok(self.sessions[i].1.visible_slice())
            },
        }
    }

    /// Submit one turn to the session with this id: the caller's message is
    /// tagged as a user turn and the session advances by
    /// [`GameState::send_user_message`]; every other session is untouched.
    /// Fails with `NotFound` when the id names no live session.
    pub fn post_chat(
        &mut self,
        game_id: u128,
        payload: PostChatRequest,
        attempts: &Vec<AttemptOutcome>,
        budget: usize,
    ) -> (r: Result<Vec<Message>, AppError>)
        requires
            old(self).wf(),
            budget <= attempts@.len(),
        ensures
            final(self).wf(),
            !old(self).contains_id(game_id) ==> r == Err::<Vec<Message>, AppError>(
                AppError::NotFound,
            ) && final(self).entries() == old(self).entries(),
            old(self).contains_id(game_id) ==> ({
                let i = old(self).index_of(game_id);
                let s0 = old(self).spec_session(game_id);
                let s1 = final(self).spec_session(game_id);
                let user = Message::User {
                    name: Option::Some(payload.name),
                    content: payload.content,
                };
                &&& final(self).entries() == old(self).entries().update(i, (game_id, s1))
                &&& final(self).index_of(game_id) == i
                &&& s1.spec_scenario() == s0.spec_scenario()
                &&& s1.spec_created_at() == s0.spec_created_at()
                &&& (first_ok(attempts@, budget as int) is None ==> r == Err::<
                    Vec<Message>,
                    AppError,
                >(AppError::ExhaustedRetries) && s1.history() == s0.history().push(user))
                &&& (first_ok(attempts@, budget as int) matches Some(a) ==> ({
                    &&& r is Ok
                    &&& s1.history() == s0.history().push(user).push(s1.history().last())
                    &&& bot_message_of(
                        s0.spec_scenario(),
                        outcome_reply(attempts@[a])->0,
                        s1.history().last(),
                    )
                    &&& r->Ok_0@ == s1.history().skip(1)
                }))
            }),
    {
        match self.find_index(game_id) {
            Option::None => Err(AppError::NotFound),
            Option::Some(i) => {
                proof {
                    self.lemma_index_of(game_id, i as int);
                }
                let (id_key, mut gs) = self.sessions.remove(i);
                let user = Message::User {
                    name: Option::Some(payload.name),
                    content: payload.content,
                };
                let result = gs.send_user_message(user, attempts, budget);
                self.sessions.insert(i, (id_key, gs));
                proof {
                    let e0 = old(self).entries();
                    let e1 = self.entries();
                    assert(e1 =~= e0.update(i as int, (game_id, e1[i as int].1)));
                    assert forall|j: int|
                        0 <= j < e1.len() implies (#[trigger] e1[j]).0 == e0[j].0 by {}
                    assert forall|j: int| 0 <= j < e1.len() implies (#[trigger] e1[j]).1.wf() by {
                        if j != i as int {
                            assert(e1[j] == e0[j]);
                        }
                    }
                    assert(self.wf());
                    self.lemma_index_of(game_id, i as int);
                }
                result
            },
        }
    }

    /// Start a session under a given id: with a fresh id, insert a session
    /// holding only the scenario's seed turn, ask for the opening completion
    /// over that seed, and append the bot's greeting; on an exhausted budget
    /// the seeded session stays. With an id that is already live, the seed
    /// prompt is sent to the existing session as one more turn — the total
    /// behavior of the primitive for every id value. [`GameStates::post_game`]
    /// allocates its ids itself and never hands this function a live one.
    pub fn post_game_with_id(
        &mut self,
        payload: PostRoomRequest,
        game_id: u128,
        now: u64,
        attempts: &Vec<AttemptOutcome>,
        budget: usize,
    ) -> (r: Result<PostRoomResponse, AppError>)
        requires
            old(self).wf(),
            budget <= attempts@.len(),
        ensures
            final(self).wf(),
            final(self).contains_id(game_id),
            r matches Ok(resp) ==> resp.game_id == game_id && resp.messages@
                == final(self).spec_session(game_id).history().skip(1),
            r is Err ==> r == Err::<PostRoomResponse, AppError>(AppError::ExhaustedRetries),
            !old(self).contains_id(game_id) ==> ({
                let s = final(self).spec_session(game_id);
                &&& final(self).entries() == old(self).entries().push((game_id, s))
                &&& final(self).index_of(game_id) == old(self).entries().len()
                &&& s.spec_scenario() == payload.scenario
                &&& s.spec_created_at() == now
                &&& s.history()[0] matches Message::User { name, content } && name is None
                    && content@ == spec_prompt(payload.scenario)
                &&& (first_ok(attempts@, budget as int) is None ==> r == Err::<
                    PostRoomResponse,
                    AppError,
                >(AppError::ExhaustedRetries) && s.history().len() == 1)
                &&& (first_ok(attempts@, budget as int) matches Some(a) ==> ({
                    &&& r is Ok
                    &&& s.history().len() == 2
                    &&& bot_message_of(
                        payload.scenario,
                        outcome_reply(attempts@[a])->0,
                        s.history().last(),
                    )
                }))
            }),
            old(self).contains_id(game_id) ==> ({
                let i = old(self).index_of(game_id);
                let s0 = old(self).spec_session(game_id);
                let s1 = final(self).spec_session(game_id);
                &&& final(self).entries() == old(self).entries().update(i, (game_id, s1))
                &&& final(self).index_of(game_id) == i
                &&& s1.spec_scenario() == s0.spec_scenario()
                &&& s1.spec_created_at() == s0.spec_created_at()
                &&& s1.history().len() >= s0.history().len() + 1
                &&& s1.history().take(s0.history().len() as int) == s0.history()
                &&& s1.history()[s0.history().len() as int] matches Message::User {
                    name,
                    content,
                } && name is None && content@ == spec_prompt(payload.scenario)
                &&& (first_ok(attempts@, budget as int) is None ==> r == Err::<
                    PostRoomResponse,
                    AppError,
                >(AppError::ExhaustedRetries) && s1.history().len() == s0.history().len() + 1)
                &&& (first_ok(attempts@, budget as int) matches Some(a) ==> ({
                    &&& r is Ok
                    &&& s1.history().len() == s0.history().len() + 2
                    &&& bot_message_of(
                        s0.spec_scenario(),
                        outcome_reply(attempts@[a])->0,
                        s1.history().last(),
                    )
                }))
            }),
    {
        match self.find_index(game_id) {
            Option::None => {
                let mut gs = GameState::new(payload.scenario, now);
                let _request_messages = gs.to_wire_sequence();
                let outcome = gpt_chat(attempts, budget);
                let r = match outcome {
                    Ok(reply) => {
                        let visible = gs.finish_turn(reply);
                        self.sessions.push((game_id, gs));
                        Ok(PostRoomResponse { game_id, messages: visible })
                    },
                    Err(_diagnostics) => {
                        self.sessions.push((game_id, gs));
                        Err(AppError::ExhaustedRetries)
                    },
                };
                proof {
                    let e0 = old(self).entries();
                    let e1 = self.entries();
                    let n = e0.len() as int;
                    assert(e1 == e0.push(e1[n]));
                    assert(e1[n].0 == game_id);
                    assert forall|i: int, j: int| 0 <= i < j < e1.len() implies e1[i].0
                        != e1[j].0 by {
                        if j == n {
                            assert(!has_id(e0, game_id));
                            assert(e0[i].0 != game_id);
                        }
                    }
                    assert forall|k: int| 0 <= k < e1.len() implies (#[trigger] e1[k]).1.wf() by {
                        if k < n {
                            assert(e1[k] == e0[k]);
                        }
                    }
                    assert(self.wf());
                    self.lemma_index_of(game_id, n);
                }
                r
            },
            Option::Some(i) => {
                proof {
                    self.lemma_index_of(game_id, i as int);
                }
                let (id_key, mut gs) = self.sessions.remove(i);
                let data = scenario_data(payload.scenario);
                let seed = Message::User { name: Option::None, content: data.prompt };
                let ghost seed_msg = seed;
                let ghost h0 = gs.history();
                let result = gs.send_user_message(seed, attempts, budget);
                self.sessions.insert(i, (id_key, gs));
                proof {
                    let e0 = old(self).entries();
                    let e1 = self.entries();
                    assert(e1 =~= e0.update(i as int, (game_id, e1[i as int].1)));
                    assert forall|j: int|
                        0 <= j < e1.len() implies (#[trigger] e1[j]).0 == e0[j].0 by {}
                    assert forall|j: int| 0 <= j < e1.len() implies (#[trigger] e1[j]).1.wf() by {
                        if j != i as int {
                            assert(e1[j] == e0[j]);
                        }
                    }
                    assert(self.wf());
                    self.lemma_index_of(game_id, i as int);
                    assert(h0.push(seed_msg).take(h0.len() as int) =~= h0);
                    if first_ok(attempts@, budget as int) is Some {
                        assert(h0.push(seed_msg).push(gs.history().last()).take(h0.len() as int)
                            =~= h0);
                        assert(h0.push(seed_msg).push(gs.history().last())[h0.len() as int]
                            == seed_msg);
                    }
                }
                match result {
                    Ok(v) => Ok(PostRoomResponse { game_id, messages: v }),
                    Err(e) => Err(e),
                }
            },
        }
    }

    /// An id no live session uses, found deterministically: among the
    /// `len + 1` candidates `0..=len` at most `len` can be taken.
    fn fresh_unused_id(&self) -> (id: u128)
        requires
            self.wf(),
        ensures
            !self.contains_id(id),
    {
        let n = self.sessions.len();
        let mut k: usize = 0;
        while k < n
            invariant
                k <= n,
                n == self.entries().len(),
                self.wf(),
                forall|v: int| 0 <= v < k ==> has_id(self.entries(), #[trigger] (v as u128)),
            decreases n - k,
        {
            match self.find_index(k as u128) {
                Option::None => {
                    return k as u128;
                },
                Option::Some(i) => {
                    proof {
                        assert(self.entries()[i as int].0 == (k as u128));
                    }
                },
            }
            k = k + 1;
        }
        match self.find_index(n as u128) {
            Option::None => n as u128,
            Option::Some(i) => {
                proof {
                    assert(self.entries()[i as int].0 == (n as u128));
                    assert(has_id(self.entries(), (n as u128)));
                    lemma_small_ids_need_entries(self.entries(), n as int);
                    assert(false);
                }
                0
            },
        }
    }

    /// Draw a session id that no live session uses. The random generator is
    /// tried first and nothing is assumed of its value: a colliding draw —
    /// never seen in practice — falls back to a deterministic unused id, so
    /// allocation always succeeds and every id the store issues is fresh.
    fn allocate_game_id(&self) -> (id: u128)
        requires
            self.wf(),
        ensures
            !self.contains_id(id),
    {
        let candidate = fresh_game_id();
        match self.find_index(candidate) {
            Option::None => candidate,
            Option::Some(_) => self.fresh_unused_id(),
        }
    }

    /// Start a new session for a scenario: allocate a fresh id — one never
    /// issued to a live session, so ids stay unique for the store's
    /// lifetime — insert the seeded session, obtain the opening completion,
    /// and return the id with the visible turns. Exactly one new session is
    /// appended on every call; when the attempt transcript holds a usable
    /// reply the call succeeds, and when it holds none the call fails with
    /// `ExhaustedRetries` and the seeded session stays.
    pub fn post_game(
        &mut self,
        payload: PostRoomRequest,
        now: u64,
        attempts: &Vec<AttemptOutcome>,
        budget: usize,
    ) -> (r: Result<PostRoomResponse, AppError>)
        requires
            old(self).wf(),
            budget <= attempts@.len(),
        ensures
            final(self).wf(),
            final(self).entries().len() == old(self).entries().len() + 1,
            forall|j: int|
                0 <= j < old(self).entries().len() ==> #[trigger] final(self).entries()[j] == old(
                    self,
                ).entries()[j],
            !old(self).contains_id(final(self).entries().last().0),
            ({
                let s = final(self).entries().last().1;
                &&& s.spec_scenario() == payload.scenario
                &&& s.spec_created_at() == now
                &&& s.history()[0] matches Message::User { name, content } && name is None
                    && content@ == spec_prompt(payload.scenario)
            }),
            first_ok(attempts@, budget as int) matches Some(a) ==> ({
                let s = final(self).entries().last().1;
                &&& r matches Ok(resp)
                &&& resp.game_id == final(self).entries().last().0
                &&& s.history().len() == 2
                &&& bot_message_of(payload.scenario, outcome_reply(attempts@[a])->0, s.history().last())
                &&& resp.messages@ == s.history().skip(1)
            }),
            first_ok(attempts@, budget as int) is None ==> r == Err::<PostRoomResponse, AppError>(
                AppError::ExhaustedRetries,
            ) && final(self).entries().last().1.history().len() == 1,
            r matches Ok(resp) ==> final(self).contains_id(resp.game_id) && resp.messages@
                == final(self).spec_session(resp.game_id).history().skip(1),
            r is Err ==> r == Err::<PostRoomResponse, AppError>(AppError::ExhaustedRetries),
    {
        let game_id = self.allocate_game_id();
        let r = self.post_game_with_id(payload, game_id, now, attempts, budget);
        proof {
            let e0 = old(self).entries();
            let e1 = self.entries();
            let s = self.spec_session(game_id);
            assert(e1 == e0.push((game_id, s)));
            assert(e1.last() == (game_id, s));
            assert forall|j: int| 0 <= j < e0.len() implies #[trigger] e1[j] == e0[j] by {
                assert(e0.push((game_id, s))[j] == e0[j]);
            }
        }
        r
    }

    /// Remove every session whose creation time is older than `max_age`
    /// before `now`; every other session is kept, in order, untouched.
    pub fn sweep(&mut self, now: u64, max_age: u64)
        requires
            old(self).wf(),
        ensures
            final(self).wf(),
            final(self).entries() == swept(old(self).entries(), now, max_age),
            forall|k: int|
                0 <= k < final(self).entries().len() ==> !spec_expired(
                    (#[trigger] final(self).entries()[k]).1,
                    now,
                    max_age,
                ),
            forall|i: int|
                0 <= i < old(self).entries().len() && !spec_expired(
                    (#[trigger] old(self).entries()[i]).1,
                    now,
                    max_age,
                ) ==> final(self).entries().contains(old(self).entries()[i]),
    {
        let ghost orig = self.sessions@;
        let mut kept: Vec<(u128, GameState)> = Vec::new();
        proof {
            assert(Seq::<(u128, GameState)>::empty() + swept(orig, now, max_age) =~= swept(
                orig,
                now,
                max_age,
            ));
        }
        while self.sessions.len() > 0
            invariant
                swept(orig, now, max_age) == kept@ + swept(self.sessions@, now, max_age),
            decreases self.sessions@.len(),
        {
            let ghost rest = self.sessions@;
            let (id, gs) = self.sessions.remove(0);
            proof {
                assert(rest.remove(0) =~= rest.skip(1));
                assert((id, gs) == rest[0]);
            }
            if gs.is_expired(now, max_age) {
                proof {
                    assert(swept(rest, now, max_age) == swept(rest.skip(1), now, max_age));
                }
            } else {
                let ghost pre_kept = kept@;
                kept.push((id, gs));
                proof {
                    assert(swept(rest, now, max_age) == seq![rest[0]] + swept(
                        rest.skip(1),
                        now,
                        max_age,
                    ));
                    assert(pre_kept + (seq![rest[0]] + swept(rest.skip(1), now, max_age)) =~= kept@
                        + swept(rest.skip(1), now, max_age));
                }
            }
        }
        proof {
            assert(self.sessions@ =~= Seq::<(u128, GameState)>::empty());
            assert(kept@ + swept(self.sessions@, now, max_age) =~= kept@);
        }
        self.sessions = kept;
        proof {
            lemma_swept_props(orig, now, max_age);
            let e1 = self.entries();
            assert forall|k: int| 0 <= k < e1.len() implies (#[trigger] e1[k]).1.wf() by {
                assert(orig.contains(e1[k]));
                let i = choose|i: int| 0 <= i < orig.len() && orig[i] == e1[k];
                assert(orig[i].1.wf());
            }
            assert(self.wf());
        }
    }
}

} // verus!
