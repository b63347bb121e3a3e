use vstd::prelude::*;

verus! {

/// Who spoke a turn of a conversation.
#[derive(Clone, Copy, Debug, PartialEq, Eq, Structural)]
pub enum Role {
    System,
    User,
    Assistant,
}

/// What a turn is, mathematically: its speaker and its text.
pub type TurnView = (Role, Seq<char>);

/// One message of a conversation's history.
#[derive(Debug)]
pub struct Turn {
    pub role: Role,
    pub text: String,
}

impl View for Turn {
    type V = TurnView;

    open spec fn view(&self) -> TurnView {
        (self.role, self.text@)
    }
}

/// The mathematical history held by a vector of turns.
pub open spec fn turns_view(h: Seq<Turn>) -> Seq<TurnView> {
    h.map_values(|t: Turn| t@)
}

/// The role that position `i` of a well-formed history must hold: the
/// persona first, then user and assistant in turn.
pub open spec fn role_at(i: int) -> Role {
    if i == 0 {
        Role::System
    } else if i % 2 == 1 {
        Role::User
    } else {
        Role::Assistant
    }
}

/// A history that begins with exactly one system turn and then alternates
/// user and assistant turns, ending on an assistant turn.
pub open spec fn alternates(h: Seq<TurnView>) -> bool {
    &&& h.len() % 2 == 1
    &&& forall|i: int| 0 <= i < h.len() ==> (#[trigger] h[i]).0 == role_at(i)
}

impl Turn {
    /// A turn with the given role and text.
    pub fn new(role: Role, text: &str) -> (r: Turn)
        ensures
            r@ == (role, text@),
    {
        Turn { role, text: text.to_string() }
    }

    /// A copy of this turn.
    pub fn duplicate(&self) -> (r: Turn)
        ensures
            r@ == self@,
    {
        Turn { role: self.role, text: self.text.clone() }
    }
}

/// A copy of a history, turn by turn.
pub fn copy_turns(h: &Vec<Turn>) -> (r: Vec<Turn>)
    ensures
        turns_view(r@) == turns_view(h@),
{
    let mut r: Vec<Turn> = Vec::new();
    let mut i: usize = 0;
    while i < h.len()
        invariant
            i <= h.len(),
            r@.len() == i,
            forall|j: int| 0 <= j < i ==> (#[trigger] r@[j])@ == h@[j]@,
        decreases h.len() - i,
    {
        r.push(h[i].duplicate());
        i = i + 1;
    }
    assert(turns_view(r@) =~= turns_view(h@));
    r
}

/// Where a conversation stands.
#[derive(Debug)]
pub enum State {
    /// No model call has succeeded yet.
    Idle,
    /// At least one turn has been committed; `history` is what the model has seen.
    Active { history: Vec<Turn> },
}

/// A conversation's stored state, with the counter that orders its updates.
#[derive(Debug)]
pub struct Session {
    pub state: State,
    pub version: u64,
}

/// A session, mathematically.
pub struct SessionView {
    pub active: bool,
    pub history: Seq<TurnView>,
    pub version: nat,
}

impl View for Session {
    type V = SessionView;

    open spec fn view(&self) -> SessionView {
        match &self.state {
            State::Idle => SessionView { active: false, history: Seq::empty(), version: self.version as nat },
            State::Active { history } => SessionView {
                active: true,
                history: turns_view(history@),
                version: self.version as nat,
            },
        }
    }
}

/// The session that a key has before anything was stored for it.
pub open spec fn fresh_session() -> SessionView {
    SessionView { active: false, history: Seq::empty(), version: 0 }
}

/// The session under `key` in a map of sessions, fresh where none is stored.
pub open spec fn session_in(m: Map<i64, SessionView>, key: i64) -> SessionView {
    if m.contains_key(key) {
        m[key]
    } else {
        fresh_session()
    }
}

impl SessionView {
    /// An active session's history is a well-formed conversation.
    pub open spec fn well_formed(self) -> bool {
        self.active ==> alternates(self.history)
    }
}

impl Session {
    /// An idle session with version 0.
    pub fn fresh() -> (r: Session)
        ensures
            r@ == fresh_session(),
    {
        Session { state: State::Idle, version: 0 }
    }

    /// Whether the session is active.
    pub fn is_active(&self) -> (r: bool)
        ensures
            r == self@.active,
    {
        match &self.state {
            State::Idle => false,
            State::Active { .. } => true,
        }
    }

    /// A copy of this session.
    pub fn duplicate(&self) -> (r: Session)
        ensures
            r@ == self@,
    {
        match &self.state {
            State::Idle => Session { state: State::Idle, version: self.version },
            State::Active { history } => Session {
                state: State::Active { history: copy_turns(history) },
                version: self.version,
            },
        }
    }
}

} // verus!
