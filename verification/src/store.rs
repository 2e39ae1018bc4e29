//! The durable session store: a keyed map from user identity to session
//! row, with upsert semantics. Reading an absent row yields the default
//! session, so creating a row on first write never changes behaviour.

use std::collections::HashMap;
use vstd::prelude::*;

use crate::session::Language;
use crate::session::Session;
use crate::session::SessionState;

verus! {

broadcast use vstd::std_specs::hash::group_hash_axioms;

/// Durable mapping from user identity to session row.
pub struct SessionStore {
    map: HashMap<i64, Session>,
}

impl View for SessionStore {
    type V = Map<i64, Session>;

    closed spec fn view(&self) -> Map<i64, Session> {
        self.map@
    }
}

impl SessionStore {
    /// The row a user reads: the stored one, else the default session.
    pub open spec fn spec_get(self, user: i64) -> Session {
        crate::session::spec_session_of(self@, user)
    }

    /// Creates an empty store.
    pub fn new() -> (s: SessionStore)
        ensures
            s@ == Map::<i64, Session>::empty(),
    {
        SessionStore { map: HashMap::new() }
    }

    /// Reads a user's session row; an absent row reads as the default.
    pub fn get(&self, user: i64) -> (s: Session)
        ensures
            s == self.spec_get(user),
    {
        match self.map.get(&user) {
            Some(s) => *s,
            None => Session::initial(),
        }
    }

    /// Writes the user's dialogue state, keeping the rest of the row;
    /// creates the row if absent.
    pub fn set_state(&mut self, user: i64, state: SessionState)
        ensures
            final(self)@ == old(self)@.insert(
                user,
                Session {
                    state: state,
                    language: old(self).spec_get(user).language,
                    last_message_id: old(self).spec_get(user).last_message_id,
                },
            ),
    {
        let current = self.get(user);
        self.map.insert(
            user,
            Session {
                state: state,
                language: current.language,
                last_message_id: current.last_message_id,
            },
        );
    }

    /// Writes the user's chosen language, keeping the rest of the row;
    /// creates the row if absent.
    pub fn set_language(&mut self, user: i64, language: Language)
        ensures
            final(self)@ == old(self)@.insert(
                user,
                Session {
                    state: old(self).spec_get(user).state,
                    language: Some(language),
                    last_message_id: old(self).spec_get(user).last_message_id,
                },
            ),
    {
        let current = self.get(user);
        self.map.insert(
            user,
            Session {
                state: current.state,
                language: Some(language),
                last_message_id: current.last_message_id,
            },
        );
    }

    /// Records the identifier of the bot message now visible to the user,
    /// keeping the rest of the row; creates the row if absent.
    pub fn set_last_message_id(&mut self, user: i64, message_id: i64)
        ensures
            final(self)@ == old(self)@.insert(
                user,
                Session {
                    state: old(self).spec_get(user).state,
                    language: old(self).spec_get(user).language,
                    last_message_id: Some(message_id),
                },
            ),
    {
        let current = self.get(user);
        self.map.insert(
            user,
            Session {
                state: current.state,
                language: current.language,
                last_message_id: Some(message_id),
            },
        );
    }
}

} // verus!
