//! The table of clients that may log in, and the check of presented credentials.

use vstd::hash_map::StringHashMap;
use vstd::prelude::*;
use crate::error::BdfError;

verus! {

/// One client: its identifier, its secret and the organization it belongs to.
#[derive(Debug, Clone, PartialEq, Eq)]
pub struct User {
    pub client_id: String,
    pub client_secret: String,
    pub org: String,
}

/// The mathematical content of a `User`.
pub ghost struct UserView {
    pub client_id: Seq<char>,
    pub client_secret: Seq<char>,
    pub org: Seq<char>,
}

impl View for User {
    type V = UserView;

    open spec fn view(&self) -> UserView {
        UserView { client_id: self.client_id@, client_secret: self.client_secret@, org: self.org@ }
    }
}

impl User {
    pub fn new(client_id: &str, client_secret: &str, org: &str) -> (user: User)
        ensures
            user@ == (UserView { client_id: client_id@, client_secret: client_secret@, org: org@ }),
    {
        User {
            client_id: String::from_str(client_id),
            client_secret: String::from_str(client_secret),
            org: String::from_str(org),
        }
    }
}

/// What a client sends to log in.
#[derive(Debug, Clone, PartialEq, Eq)]
pub struct AuthPayload {
    pub client_id: String,
    pub client_secret: String,
}

impl AuthPayload {
    pub fn new(client_id: &str, client_secret: &str) -> (payload: AuthPayload)
        ensures
            payload.client_id@ == client_id@,
            payload.client_secret@ == client_secret@,
    {
        AuthPayload {
            client_id: String::from_str(client_id),
            client_secret: String::from_str(client_secret),
        }
    }
}

/// Whether `table` lets a client in that presents `client_id` and
/// `client_secret`: neither is empty, the identifier is known, and the secret
/// is the stored one.
pub open spec fn accepts(
    table: Map<Seq<char>, UserView>,
    client_id: Seq<char>,
    client_secret: Seq<char>,
) -> bool {
    &&& client_id.len() > 0
    &&& client_secret.len() > 0
    &&& table.contains_key(client_id)
    &&& table[client_id].client_secret == client_secret
}

/// The clients that are known when nothing else is configured.
pub open spec fn default_table() -> Map<Seq<char>, UserView> {
    Map::<Seq<char>, UserView>::empty().insert(
        "walter"@,
        UserView { client_id: "walter"@, client_secret: "verysecurepw"@, org: "erste"@ },
    ).insert(
        "karl"@,
        UserView { client_id: "karl"@, client_secret: "verysecurepw"@, org: "rbi"@ },
    ).insert(
        "paul"@,
        UserView { client_id: "paul"@, client_secret: "verysecurepw"@, org: "oenb"@ },
    ).insert(
        "roman"@,
        UserView { client_id: "roman"@, client_secret: "verysecurepw"@, org: "erste"@ },
    ).insert(
        "johannes"@,
        UserView { client_id: "johannes"@, client_secret: "verysecurepw"@, org: "oenb"@ },
    )
}

/// A read-only table from client identifier to client, hashed by identifier.
///
/// Every client is filed under its own identifier, so no identifier stands
/// for two clients.
pub struct CredentialStore {
    users: StringHashMap<User>,
}

impl View for CredentialStore {
    type V = Map<Seq<char>, UserView>;

    closed spec fn view(&self) -> Map<Seq<char>, UserView> {
        Map::new(|id: Seq<char>| self.users@.contains_key(id), |id: Seq<char>| self.users@[id]@)
    }
}

impl CredentialStore {
    #[verifier::type_invariant]
    spec fn filed(&self) -> bool {
        forall|id: Seq<char>| #[trigger]
            self.users@.contains_key(id) ==> self.users@[id].client_id@ == id
    }

    /// The table without any client.
    pub fn new() -> (store: CredentialStore)
        ensures
            store@ == Map::<Seq<char>, UserView>::empty(),
    {
        let store = CredentialStore { users: StringHashMap::new() };
        assert(store@ =~= Map::<Seq<char>, UserView>::empty());
        store
    }

    /// Files `user` under its identifier unless that identifier is taken, and
    /// says whether it did.
    pub fn insert(&mut self, user: User) -> (added: bool)
        ensures
            added == !old(self)@.contains_key(user@.client_id),
            added ==> final(self)@ == old(self)@.insert(user@.client_id, user@),
            !added ==> final(self)@ == old(self)@,
    {
        proof {
            use_type_invariant(&*self);
        }
        if self.users.contains_key(user.client_id.as_str()) {
            return false;
        }
        let ghost before = *self;
        let ghost added_view = user@;
        let key = user.client_id.clone();
        let mut users: StringHashMap<User> = StringHashMap::new();
        core::mem::swap(&mut self.users, &mut users);
        users.insert(key, user);
        proof {
            let after = CredentialStore { users };
            assert(after@ =~= before@.insert(added_view.client_id, added_view));
        }
        core::mem::swap(&mut self.users, &mut users);
        true
    }

    /// The client filed under `client_id`, if there is one.
    pub fn lookup(&self, client_id: &str) -> (found: Option<&User>)
        ensures
            match found {
                Some(user) => self@.contains_key(client_id@) && user@ == self@[client_id@]
                    && user@.client_id == client_id@,
                None => !self@.contains_key(client_id@),
            },
    {
        proof {
            use_type_invariant(self);
        }
        self.users.get(client_id)
    }

    /// The table of the clients that are known when nothing else is configured.
    pub fn with_defaults() -> (store: CredentialStore)
        ensures
            store@ == default_table(),
    {
        let mut store = CredentialStore::new();
        proof {
            reveal_strlit("walter");
            reveal_strlit("karl");
            reveal_strlit("paul");
            reveal_strlit("roman");
            reveal_strlit("johannes");
            assert("walter"@.len() == 6 && "karl"@.len() == 4 && "paul"@.len() == 4);
            assert("roman"@.len() == 5 && "johannes"@.len() == 8);
            assert("karl"@[0] != "paul"@[0]);
        }
        store.insert(User::new("walter", "verysecurepw", "erste"));
        store.insert(User::new("karl", "verysecurepw", "rbi"));
        store.insert(User::new("paul", "verysecurepw", "oenb"));
        store.insert(User::new("roman", "verysecurepw", "erste"));
        store.insert(User::new("johannes", "verysecurepw", "oenb"));
        store
    }

    /// Checks presented credentials, in this order: neither field is empty, the
    /// identifier is known, the secret is the stored one. Hands out the client
    /// if all three hold. Whichever check fails, the failure is the same.
    pub fn check(&self, payload: &AuthPayload) -> (checked: Result<&User, BdfError>)
        ensures
            match checked {
                Ok(user) => accepts(self@, payload.client_id@, payload.client_secret@)
                    && user@ == self@[payload.client_id@]
                    && user@.client_id == payload.client_id@,
                Err(e) => e == BdfError::InvalidCredentials && !accepts(
                    self@,
                    payload.client_id@,
                    payload.client_secret@,
                ),
            },
    {
        if payload.client_id.as_str().is_empty() || payload.client_secret.as_str().is_empty() {
            return Err(BdfError::InvalidCredentials);
        }
        match self.lookup(payload.client_id.as_str()) {
            None => Err(BdfError::InvalidCredentials),
            Some(user) => {
                if user.client_secret != payload.client_secret {
                    return Err(BdfError::InvalidCredentials);
                }
                Ok(user)
            },
        }
    }
}

} // verus!
