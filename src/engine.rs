use vstd::prelude::*;
use vstd::string::StringExecFns;

use crate::gateway::GatewayError;
use crate::session::{session_in, turns_view, Role, SessionView, State, Turn, TurnView};
use crate::laws::lemma_successful_turn;
use crate::store::SessionStore;

verus! {

/// The fixed persona that opens every conversation.
pub const PERSONA: &'static str =
    "Answer on the level of A1 speaker, then make open-ended statement or ask question.";

/// The reply sent when text generation is not configured.
pub const FALLBACK_REPLY: &'static str = "Text generation is not available at the moment.";

/// The reply sent when a turn failed and was not recorded.
pub const APOLOGY_REPLY: &'static str = "Sorry, something went wrong. Please send your message again.";

/// The reply to an update that carries no text.
pub const PLAIN_TEXT_PROMPT: &'static str = "Send me plain text.";

/// How many times a turn is attempted before contention is reported.
pub const MAX_ATTEMPTS: u32 = 3;

/// Why a turn was not answered.
#[derive(Clone, Copy, Debug, PartialEq, Eq, Structural)]
pub enum EngineError {
    /// The model call failed; nothing was recorded.
    ProviderError,
    /// Concurrent turns on the same conversation kept winning the race.
    SessionContention,
}

/// What goes back to the conversation.
#[derive(Debug)]
pub struct OutboundReply {
    pub text: String,
    pub audio: Option<Vec<u8>>,
}

/// The context a model is asked to continue: the stored history and the new
/// user turn, or the persona and the user turn for an idle session.
pub open spec fn context_for(s: SessionView, text: Seq<char>) -> Seq<TurnView> {
    if s.active {
        s.history.push((Role::User, text))
    } else {
        seq![(Role::System, PERSONA@), (Role::User, text)]
    }
}

/// The history recorded once the model answered `reply`.
pub open spec fn committed_history(s: SessionView, text: Seq<char>, reply: Seq<char>) -> Seq<TurnView> {
    context_for(s, text).push((Role::Assistant, reply))
}

/// The session after a turn, given what the model call gave back.
pub open spec fn session_after(s: SessionView, text: Seq<char>, outcome: Result<Seq<char>, GatewayError>) -> SessionView {
    match outcome {
        Ok(reply) => if s.version < u64::MAX {
            SessionView { active: true, history: committed_history(s, text, reply), version: s.version + 1 }
        } else {
            s
        },
        Err(_) => s,
    }
}

/// Whether a turn with this outcome is recorded in the session.
pub open spec fn commits(s: SessionView, outcome: Result<Seq<char>, GatewayError>) -> bool {
    outcome is Ok && s.version < u64::MAX
}

/// The sessions after a turn on `key`: only that key's session changes, and
/// only when the turn is recorded.
pub open spec fn turn_result(
    m: Map<i64, SessionView>,
    key: i64,
    text: Seq<char>,
    outcome: Result<Seq<char>, GatewayError>,
) -> Map<i64, SessionView> {
    if commits(session_in(m, key), outcome) {
        m.insert(key, session_after(session_in(m, key), text, outcome))
    } else {
        m
    }
}

/// Whether a turn planned at `version` can be recorded over the session `cur`.
pub open spec fn commit_succeeds(cur: SessionView, version: nat) -> bool {
    cur.version == version && version < u64::MAX
}

/// The session after trying to record the reply to a turn planned at
/// `version` with the context `context`, over the stored session `cur`.
pub open spec fn commit_session(cur: SessionView, version: nat, context: Seq<TurnView>, reply: Seq<char>) -> SessionView {
    if commit_succeeds(cur, version) {
        SessionView { active: true, history: context.push((Role::Assistant, reply)), version: version + 1 }
    } else {
        cur
    }
}

/// The mathematical outcome of a model call.
pub open spec fn outcome_view(o: Result<String, GatewayError>) -> Result<Seq<char>, GatewayError> {
    match o {
        Ok(s) => Ok(s@),
        Err(e) => Err(e),
    }
}

/// What the transport does with an inbound update.
#[derive(Debug)]
pub enum Inbound {
    /// Hand this text to the engine.
    Message(String),
    /// Ask the user for plain text; the engine is not involved.
    PromptForText,
}

/// Routes an inbound update: text that is present and not empty becomes a
/// message for the engine; anything else asks the user for plain text.
pub fn route_inbound(text: Option<String>) -> (r: Inbound)
    ensures
        match text {
            Some(t) => if t@.len() > 0 {
                r is Message && r->Message_0@ == t@
            } else {
                r is PromptForText
            },
            None => r is PromptForText,
        },
{
    match text {
        Some(t) => {
            if t.as_str().unicode_len() > 0 {
                Inbound::Message(t)
            } else {
                Inbound::PromptForText
            }
        },
        None => Inbound::PromptForText,
    }
}

/// A turn read from the store and ready for the model call.
pub struct TurnPlan {
    pub key: i64,
    pub version: u64,
    pub context: Vec<Turn>,
}

/// What to do once the model call of a planned turn has returned.
#[derive(Debug)]
pub enum Step {
    /// The turn was recorded; send this text.
    Reply(String),
    /// Text generation is not configured; send the fallback reply.
    Fallback,
    /// Another turn on the same conversation was recorded first; plan again.
    Retry,
    /// Give up on the turn.
    Failed(EngineError),
}

/// Reads the session under `key` and builds the context for `text`.
pub fn plan_turn(store: &SessionStore, key: i64, text: &str) -> (r: TurnPlan)
    ensures
        r.key == key,
        r.version == store.session_at(key).version,
        turns_view(r.context@) == context_for(store.session_at(key), text@),
{
    let s = store.get(key);
    let ghost sv = s@;
    let context = match s.state {
        State::Idle => {
            let c = vec![Turn::new(Role::System, PERSONA), Turn::new(Role::User, text)];
            assert(turns_view(c@) =~= context_for(sv, text@));
            c
        },
        State::Active { history } => {
            let mut c = history;
            let ghost before = c@;
            c.push(Turn::new(Role::User, text));
            assert(turns_view(c@) =~= turns_view(before).push((Role::User, text@)));
            c
        },
    };
    TurnPlan { key, version: s.version, context }
}

/// Records a planned turn once its model call has returned `outcome`.
/// A recorded turn replaces the history by the planned context and the reply,
/// provided no other turn was recorded since the plan; otherwise the turn is
/// retried until `MAX_ATTEMPTS` attempts have been made. A failed model call
/// changes nothing.
pub fn complete_turn(
    store: &mut SessionStore,
    plan: TurnPlan,
    outcome: Result<String, GatewayError>,
    attempt: u32,
) -> (r: Step)
    requires
        attempt < MAX_ATTEMPTS,
    ensures
        match outcome {
            Err(GatewayError::ProviderUnavailable) => r is Fallback && final(store)@ == old(store)@,
            Err(GatewayError::ProviderError) => r == Step::Failed(EngineError::ProviderError)
                && final(store)@ == old(store)@,
            Ok(reply) => if commit_succeeds(old(store).session_at(plan.key), plan.version as nat) {
                &&& r is Reply
                &&& r->Reply_0@ == reply@
                &&& final(store)@ == old(store)@.insert(
                    plan.key,
                    commit_session(
                        old(store).session_at(plan.key),
                        plan.version as nat,
                        turns_view(plan.context@),
                        reply@,
                    ),
                )
            } else {
                &&& final(store)@ == old(store)@
                &&& r == (if attempt + 1 < MAX_ATTEMPTS {
                    Step::Retry
                } else {
                    Step::Failed(EngineError::SessionContention)
                })
            },
        },
{
    match outcome {
        Err(GatewayError::ProviderUnavailable) => Step::Fallback,
        Err(GatewayError::ProviderError) => Step::Failed(EngineError::ProviderError),
        Ok(reply) => {
            let mut history = plan.context;
            let ghost before = history@;
            history.push(Turn { role: Role::Assistant, text: reply.clone() });
            assert(turns_view(history@) =~= turns_view(before).push((Role::Assistant, reply@)));
            match store.compare_and_swap(plan.key, plan.version, State::Active { history }) {
                Ok(()) => Step::Reply(reply),
                Err(_) => if attempt + 1 < MAX_ATTEMPTS {
                    Step::Retry
                } else {
                    Step::Failed(EngineError::SessionContention)
                },
            }
        },
    }
}

/// Joins the synthesized speech to a reply; a failed synthesis leaves the
/// reply as text alone.
pub fn attach_audio(text: String, speech: Result<Vec<u8>, GatewayError>) -> (r: OutboundReply)
    ensures
        r.text@ == text@,
        match speech {
            Ok(b) => r.audio is Some && r.audio->Some_0@ == b@,
            Err(_) => r.audio is None,
        },
{
    match speech {
        Ok(b) => OutboundReply { text, audio: Some(b) },
        Err(_) => OutboundReply { text, audio: None },
    }
}

/// One whole turn on the conversation `key`, given what the model call and
/// the speech synthesis gave back. A missing credential yields the fallback
/// reply; a failed call yields `ProviderError`; both leave the store as it was.
pub fn handle_message(
    store: &mut SessionStore,
    key: i64,
    text: &str,
    outcome: Result<String, GatewayError>,
    speech: Result<Vec<u8>, GatewayError>,
) -> (r: Result<OutboundReply, EngineError>)
    ensures
        final(store)@ == turn_result(old(store)@, key, text@, outcome_view(outcome)),
        old(store).well_formed() ==> final(store).well_formed(),
        match outcome {
            Err(GatewayError::ProviderUnavailable) => r is Ok && r->Ok_0.text@ == FALLBACK_REPLY@
                && r->Ok_0.audio is None,
            Err(GatewayError::ProviderError) => r == Err::<OutboundReply, EngineError>(
                EngineError::ProviderError,
            ),
            Ok(reply) => if old(store).session_at(key).version < u64::MAX {
                &&& r is Ok
                &&& r->Ok_0.text@ == reply@
                &&& match speech {
                    Ok(b) => r->Ok_0.audio is Some && r->Ok_0.audio->Some_0@ == b@,
                    Err(_) => r->Ok_0.audio is None,
                }
            } else {
                r == Err::<OutboundReply, EngineError>(EngineError::SessionContention)
            },
        },
{
    let plan = plan_turn(store, key, text);
    let ghost s = old(store).session_at(key);
    let ghost m = old(store)@;
    match complete_turn(store, plan, outcome, MAX_ATTEMPTS - 1) {
        Step::Reply(reply) => {
            assert(final(store)@ =~= turn_result(m, key, text@, outcome_view(outcome)));
            proof {
                if old(store).well_formed() {
                    lemma_successful_turn(s, text@, reply@);
                }
            }
            Ok(attach_audio(reply, speech))
        },
        Step::Fallback => Ok(OutboundReply { text: String::from_str(FALLBACK_REPLY), audio: None }),
        Step::Retry => Err(EngineError::SessionContention),
        Step::Failed(e) => Err(e),
    }
}

} // verus!
