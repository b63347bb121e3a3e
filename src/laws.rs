use vstd::prelude::*;

use crate::engine::{
    commit_session, commit_succeeds, committed_history, commits, context_for, session_after, turn_result,
    PERSONA,
};
use crate::gateway::GatewayError;
use crate::session::{alternates, fresh_session, role_at, session_in, Role, SessionView, TurnView};

verus! {

/// A message to a conversation: its key, its text, and what the model call gave back.
pub type Event = (i64, Seq<char>, Result<Seq<char>, GatewayError>);

/// The sessions after handling `events` one after another.
pub open spec fn run(m: Map<i64, SessionView>, events: Seq<Event>) -> Map<i64, SessionView>
    decreases events.len(),
{
    if events.len() == 0 {
        m
    } else {
        let e = events.last();
        turn_result(run(m, events.drop_last()), e.0, e.1, e.2)
    }
}

/// The events of `events` sent to `key`, in order.
pub open spec fn events_for(events: Seq<Event>, key: i64) -> Seq<Event>
    decreases events.len(),
{
    if events.len() == 0 {
        Seq::empty()
    } else if events.last().0 == key {
        events_for(events.drop_last(), key).push(events.last())
    } else {
        events_for(events.drop_last(), key)
    }
}

/// A turn on one key changes only that key's session, and that session's
/// next value depends on nothing but its current value.
pub proof fn lemma_turn_at(m: Map<i64, SessionView>, key: i64, text: Seq<char>, outcome: Result<Seq<char>, GatewayError>, k: i64)
    ensures
        session_in(turn_result(m, key, text, outcome), k) == if key == k {
            session_after(session_in(m, k), text, outcome)
        } else {
            session_in(m, k)
        },
{
}

/// Conversations do not leak into each other: however messages to
/// different keys are interleaved, the session under a key is what the
/// messages to that key alone would have made of it.
pub proof fn lemma_sessions_isolated(m: Map<i64, SessionView>, events: Seq<Event>, k: i64)
    ensures
        session_in(run(m, events), k) == session_in(run(m, events_for(events, k)), k),
    decreases events.len(),
{
    if events.len() > 0 {
        let e = events.last();
        let rest = events.drop_last();
        lemma_sessions_isolated(m, rest, k);
        lemma_turn_at(run(m, rest), e.0, e.1, e.2, k);
        if e.0 == k {
            let own = events_for(rest, k).push(e);
            assert(own.drop_last() =~= events_for(rest, k));
            lemma_turn_at(run(m, events_for(rest, k)), e.0, e.1, e.2, k);
        }
    }
}

/// A turn whose model call failed leaves every session as it was.
pub proof fn lemma_failed_turn_changes_nothing(m: Map<i64, SessionView>, key: i64, text: Seq<char>, e: GatewayError)
    ensures
        turn_result(m, key, text, Err(e)) == m,
{
}

/// Each successful turn on a well-formed session keeps it well formed and
/// adds exactly the user's text and the reply to its history.
pub proof fn lemma_successful_turn(s: SessionView, text: Seq<char>, reply: Seq<char>)
    requires
        s.well_formed(),
        s.version < u64::MAX,
    ensures
        session_after(s, text, Ok(reply)).well_formed(),
        session_after(s, text, Ok(reply)).active,
        session_after(s, text, Ok(reply)).version == s.version + 1,
        s.active ==> committed_history(s, text, reply) == s.history + seq![(Role::User, text), (Role::Assistant, reply)],
        !s.active ==> committed_history(s, text, reply) == seq![(Role::System, PERSONA@), (Role::User, text), (Role::Assistant, reply)],
{
    let h = committed_history(s, text, reply);
    if s.active {
        assert(h =~= s.history + seq![(Role::User, text), (Role::Assistant, reply)]);
        assert forall|i: int| 0 <= i < h.len() implies (#[trigger] h[i]).0 == role_at(i) by {
            if i < s.history.len() {
                assert(h[i] == s.history[i]);
            }
        }
    } else {
        assert(h =~= seq![(Role::System, PERSONA@), (Role::User, text), (Role::Assistant, reply)]);
        assert forall|i: int| 0 <= i < h.len() implies (#[trigger] h[i]).0 == role_at(i) by {}
    }
}

/// N successive successful messages to a conversation that had none leave
/// it active, at version N, with a history of one system turn followed by N
/// alternating user and assistant pairs: 1 + 2N turns.
pub proof fn lemma_successive_turns(m: Map<i64, SessionView>, k: i64, events: Seq<Event>)
    requires
        session_in(m, k) == fresh_session(),
        1 <= events.len() < u64::MAX,
        forall|i: int| 0 <= i < events.len() ==> (#[trigger] events[i]).0 == k && events[i].2 is Ok,
    ensures
        session_in(run(m, events), k).active,
        session_in(run(m, events), k).version == events.len(),
        session_in(run(m, events), k).history.len() == 1 + 2 * events.len(),
        alternates(session_in(run(m, events), k).history),
    decreases events.len(),
{
    let e = events.last();
    let rest = events.drop_last();
    let s = session_in(run(m, rest), k);
    if rest.len() == 0 {
        assert(s == fresh_session());
    } else {
        assert forall|i: int| 0 <= i < rest.len() implies (#[trigger] rest[i]).0 == k && rest[i].2 is Ok by {
            assert(rest[i] == events[i]);
        }
        lemma_successive_turns(m, k, rest);
    }
    assert(commits(s, e.2));
    lemma_turn_at(run(m, rest), e.0, e.1, e.2, k);
    lemma_successful_turn(s, e.1, e.2->Ok_0);
}

/// One attempt to record a turn on a conversation: the position, in the
/// sequence of states the conversation went through, of the state it was
/// planned against; the user's text; and the model's reply.
pub type Attempt = (nat, Seq<char>, Seq<char>);

/// The states a fresh conversation goes through while `attempts` try, in
/// this order, to record their turns.
pub open spec fn race(attempts: Seq<Attempt>) -> Seq<SessionView>
    decreases attempts.len(),
{
    if attempts.len() == 0 {
        seq![fresh_session()]
    } else {
        let states = race(attempts.drop_last());
        let a = attempts.last();
        let planned = states[a.0 as int];
        if commit_succeeds(states.last(), planned.version) {
            states.push(commit_session(states.last(), planned.version, context_for(planned, a.1), a.2))
        } else {
            states
        }
    }
}

/// Every attempt was planned against a state that existed when it tried to
/// record its turn.
pub open spec fn planned_before(attempts: Seq<Attempt>) -> bool
    decreases attempts.len(),
{
    attempts.len() == 0 || (planned_before(attempts.drop_last()) && attempts.last().0 < race(
        attempts.drop_last(),
    ).len())
}

/// The text and reply of each attempt that recorded its turn, in the order
/// they were recorded.
pub open spec fn winners(attempts: Seq<Attempt>) -> Seq<(Seq<char>, Seq<char>)>
    decreases attempts.len(),
{
    if attempts.len() == 0 {
        Seq::empty()
    } else {
        let states = race(attempts.drop_last());
        let a = attempts.last();
        if commit_succeeds(states.last(), states[a.0 as int].version) {
            winners(attempts.drop_last()).push((a.1, a.2))
        } else {
            winners(attempts.drop_last())
        }
    }
}

/// The user and assistant turns of a sequence of exchanges.
pub open spec fn exchanges(w: Seq<(Seq<char>, Seq<char>)>) -> Seq<TurnView>
    decreases w.len(),
{
    if w.len() == 0 {
        Seq::empty()
    } else {
        exchanges(w.drop_last()) + seq![(Role::User, w.last().0), (Role::Assistant, w.last().1)]
    }
}

/// Concurrent turns on one fresh conversation, however they race: each
/// state's version is its position in the sequence of states, and the final
/// history is the persona followed by exactly the exchanges of the attempts
/// that were recorded, each once, in the order they were recorded: for M
/// recorded turns, 1 + 2M turns.
pub proof fn lemma_concurrent_turns(attempts: Seq<Attempt>)
    requires
        planned_before(attempts),
        attempts.len() < u64::MAX,
    ensures
        race(attempts).len() == winners(attempts).len() + 1,
        race(attempts).len() <= attempts.len() + 1,
        forall|i: int| 0 <= i < race(attempts).len() ==> (#[trigger] race(attempts)[i]).version == i,
        winners(attempts).len() == 0 ==> race(attempts).last() == fresh_session(),
        winners(attempts).len() > 0 ==> {
            &&& race(attempts).last().active
            &&& race(attempts).last().history == seq![(Role::System, PERSONA@)] + exchanges(
                winners(attempts),
            )
            &&& race(attempts).last().history.len() == 1 + 2 * winners(attempts).len()
        },
    decreases attempts.len(),
{
    if attempts.len() > 0 {
        let rest = attempts.drop_last();
        lemma_concurrent_turns(rest);
        let states = race(rest);
        let a = attempts.last();
        let planned = states[a.0 as int];
        let last = states.last();
        let w = winners(rest);
        if commit_succeeds(last, planned.version) {
            assert(planned == last);
            let next = commit_session(last, planned.version, context_for(planned, a.1), a.2);
            let w2 = w.push((a.1, a.2));
            assert(w2.drop_last() =~= w);
            if w.len() == 0 {
                assert(exchanges(w) =~= Seq::<(Role, Seq<char>)>::empty());
                assert(next.history =~= seq![(Role::System, PERSONA@)] + exchanges(w2));
            } else {
                assert(next.history =~= seq![(Role::System, PERSONA@)] + exchanges(w2));
            }
            assert forall|i: int| 0 <= i < race(attempts).len() implies (#[trigger] race(attempts)[i]).version == i by {
                if i < states.len() {
                    assert(race(attempts)[i] == states[i]);
                }
            }
        }
    }
}

} // verus!
