//! Per-user dialogue sessions: the closed set of dialogue states, the
//! user's language choice, and the durable session row.

use vstd::prelude::*;

verus! {

/// The language a user can choose for prompts. `Ru` is the default; `En`
/// is the alternate choice offered by the language keyboard.
#[derive(Clone, Copy, Debug, PartialEq, Eq, Structural)]
pub enum Language {
    Ru,
    En,
}

/// The dialogue states of the session engine, a closed enumeration.
#[derive(Clone, Copy, Debug, PartialEq, Eq, Structural)]
pub enum SessionState {
    /// The user is being asked to pick a language.
    LanguageSelect,
    /// No flow is active; commands and menu buttons are accepted.
    Idle,
    /// The order flow waits for the task description.
    AwaitingOrderTask,
    /// The order flow waits for the contact string.
    AwaitingOrderContacts,
    /// The test flow waits for the channel link.
    AwaitingTestChannel,
    /// The test flow waits for the contact string.
    AwaitingTestContacts,
}

impl SessionState {
    /// The integer code under which the state is persisted.
    pub open spec fn spec_code(self) -> i32 {
        match self {
            SessionState::LanguageSelect => -1i32,
            SessionState::Idle => 0,
            SessionState::AwaitingOrderTask => 1,
            SessionState::AwaitingOrderContacts => 2,
            SessionState::AwaitingTestChannel => 3,
            SessionState::AwaitingTestContacts => 4,
        }
    }

    /// Encodes the state as its persistence code.
    pub fn code(self) -> (c: i32)
        ensures
            c == self.spec_code(),
    {
        match self {
            SessionState::LanguageSelect => -1,
            SessionState::Idle => 0,
            SessionState::AwaitingOrderTask => 1,
            SessionState::AwaitingOrderContacts => 2,
            SessionState::AwaitingTestChannel => 3,
            SessionState::AwaitingTestContacts => 4,
        }
    }

    /// Decodes a persistence code; codes outside the table decode to none.
    pub fn from_code(c: i32) -> (s: Option<SessionState>)
        ensures
            match s {
                Some(st) => st.spec_code() == c,
                None => forall|st: SessionState| st.spec_code() != c,
            },
    {
        if c == -1 {
            Some(SessionState::LanguageSelect)
        } else if c == 0 {
            Some(SessionState::Idle)
        } else if c == 1 {
            Some(SessionState::AwaitingOrderTask)
        } else if c == 2 {
            Some(SessionState::AwaitingOrderContacts)
        } else if c == 3 {
            Some(SessionState::AwaitingTestChannel)
        } else if c == 4 {
            Some(SessionState::AwaitingTestContacts)
        } else {
            None
        }
    }
}

/// The session a store maps a user to: the stored row, else the default.
pub open spec fn spec_session_of(sessions: Map<i64, Session>, user: i64) -> Session {
    if sessions.contains_key(user) {
        sessions[user]
    } else {
        Session::spec_default()
    }
}

/// One durable session row. A user without a row behaves as if this row
/// held `default()`: state `Idle`, no language chosen, no visible message.
#[derive(Clone, Copy, Debug, PartialEq, Eq, Structural)]
pub struct Session {
    /// Current dialogue state.
    pub state: SessionState,
    /// The language the user picked, if any; prompts fall back to the
    /// default language while none is chosen.
    pub language: Option<Language>,
    /// Identifier of the bot message currently visible to this user.
    pub last_message_id: Option<i64>,
}

impl Session {
    /// The session an unseen user is equivalent to.
    pub open spec fn spec_default() -> Session {
        Session { state: SessionState::Idle, language: None, last_message_id: None }
    }

    /// Builds the session an unseen user is equivalent to.
    pub fn initial() -> (s: Session)
        ensures
            s == Session::spec_default(),
    {
        Session { state: SessionState::Idle, language: None, last_message_id: None }
    }

    /// The language prompts are rendered in: the chosen one, else the default.
    pub open spec fn spec_effective_language(self) -> Language {
        match self.language {
            Some(l) => l,
            None => Language::Ru,
        }
    }

    /// Returns the language prompts are rendered in.
    pub fn effective_language(&self) -> (l: Language)
        ensures
            l == self.spec_effective_language(),
    {
        match self.language {
            Some(l) => l,
            None => Language::Ru,
        }
    }
}

} // verus!
