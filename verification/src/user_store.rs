//! Snapshot of the user directory: the users that are cached, the colour slot
//! of each user who takes part in the current session, and who is signed in.

use std::collections::HashMap;
use vstd::prelude::*;

verus! {

broadcast use vstd::std_specs::hash::group_hash_axioms;

/// One record of the user directory.
#[derive(Debug, PartialEq, Eq)]
pub struct User {
    pub id: u64,
    pub github_login: String,
    pub avatar_uri: String,
}

pub struct UserView {
    pub id: u64,
    pub github_login: Seq<char>,
    pub avatar_uri: Seq<char>,
}

impl View for User {
    type V = UserView;

    open spec fn view(&self) -> UserView {
        UserView { id: self.id, github_login: self.github_login@, avatar_uri: self.avatar_uri@ }
    }
}

impl DeepView for User {
    type V = UserView;

    open spec fn deep_view(&self) -> UserView {
        self@
    }
}

impl Clone for User {
    fn clone(&self) -> (r: Self)
        ensures
            r == *self,
    {
        User {
            id: self.id,
            github_login: self.github_login.clone(),
            avatar_uri: self.avatar_uri.clone(),
        }
    }
}

/// The colour slot of a participant of the current session.
#[derive(Clone, Copy, Debug, PartialEq, Eq, Structural)]
pub struct ParticipantIndex(pub u32);

/// What the titlebar reads of the user directory.
#[derive(Debug)]
pub struct UserStore {
    users: HashMap<u64, User>,
    participant_indices: HashMap<u64, ParticipantIndex>,
    current_user: Option<User>,
}

pub struct UserStoreView {
    /// The cached records, by user id.
    pub users: Map<u64, UserView>,
    /// The colour slot of each user who is in the session.
    pub participant_indices: Map<u64, ParticipantIndex>,
    /// The signed-in user, absent when signed out.
    pub current_user: Option<UserView>,
}

impl View for UserStore {
    type V = UserStoreView;

    closed spec fn view(&self) -> UserStoreView {
        UserStoreView {
            users: self.users@.map_values(|u: User| u@),
            participant_indices: self.participant_indices@,
            current_user: self.current_user.deep_view(),
        }
    }
}

impl UserStore {
    /// Every cached record is filed under its own id.
    #[verifier::type_invariant]
    spec fn filed_by_id(&self) -> bool {
        forall|id: u64| #[trigger] self.users@.contains_key(id) ==> self.users@[id].id == id
    }

    /// A directory with nobody cached, nobody in a session and nobody signed in.
    pub fn new() -> (r: Self)
        ensures
            r@.users == Map::<u64, UserView>::empty(),
            r@.participant_indices == Map::<u64, ParticipantIndex>::empty(),
            r@.current_user is None,
    {
        let r = UserStore {
            users: HashMap::new(),
            participant_indices: HashMap::new(),
            current_user: None,
        };
        assert(r@.users =~= Map::<u64, UserView>::empty());
        r
    }

    /// Caches `user` under its id, in place of an earlier record with that id.
    pub fn insert_user(&mut self, user: User)
        ensures
            final(self)@.users == old(self)@.users.insert(user.id, user@),
            final(self)@.participant_indices == old(self)@.participant_indices,
            final(self)@.current_user == old(self)@.current_user,
    {
        proof {
            use_type_invariant(&*self);
        }
        let mut users: HashMap<u64, User> = HashMap::new();
        core::mem::swap(&mut self.users, &mut users);
        users.insert(user.id, user);
        core::mem::swap(&mut self.users, &mut users);
        assert(self@.users =~= old(self)@.users.insert(user.id, user@));
    }

    /// Records that the user `user_id` takes part in the session, with the
    /// colour slot `index`.
    pub fn set_participant_index(&mut self, user_id: u64, index: ParticipantIndex)
        ensures
            final(self)@.participant_indices == old(self)@.participant_indices.insert(
                user_id,
                index,
            ),
            final(self)@.users == old(self)@.users,
            final(self)@.current_user == old(self)@.current_user,
    {
        proof {
            use_type_invariant(&*self);
        }
        let mut indices: HashMap<u64, ParticipantIndex> = HashMap::new();
        core::mem::swap(&mut self.participant_indices, &mut indices);
        indices.insert(user_id, index);
        core::mem::swap(&mut self.participant_indices, &mut indices);
    }

    /// Records who is signed in; `None` signs out.
    pub fn set_current_user(&mut self, user: Option<User>)
        ensures
            final(self)@.current_user == user.deep_view(),
            final(self)@.users == old(self)@.users,
            final(self)@.participant_indices == old(self)@.participant_indices,
    {
        proof {
            use_type_invariant(&*self);
        }
        self.current_user = user;
    }

    /// The cached record of the user `user_id`, absent where none is cached.
    pub fn get_cached_user(&self, user_id: u64) -> (r: Option<&User>)
        ensures
            match r {
                Some(u) => self@.users.contains_key(user_id) && u@ == self@.users[user_id]
                    && u.id == user_id,
                None => !self@.users.contains_key(user_id),
            },
    {
        proof {
            use_type_invariant(self);
        }
        self.users.get(&user_id)
    }

    /// The colour slot of the user `user_id`, absent where the user takes no
    /// part in the session.
    pub fn participant_index(&self, user_id: u64) -> (r: Option<ParticipantIndex>)
        ensures
            match r {
                Some(index) => self@.participant_indices.contains_key(user_id)
                    && index == self@.participant_indices[user_id],
                None => !self@.participant_indices.contains_key(user_id),
            },
    {
        match self.participant_indices.get(&user_id) {
            Some(index) => Some(*index),
            None => None,
        }
    }

    /// The signed-in user, absent when signed out.
    pub fn current_user(&self) -> (r: Option<&User>)
        ensures
            match r {
                Some(u) => self@.current_user == Some(u@),
                None => self@.current_user is None,
            },
    {
        self.current_user.as_ref()
    }
}

} // verus!
