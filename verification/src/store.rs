//! The user store: a durable map from login to the base64 public key
//! extracted at enrollment. Records are written once at successful
//! registration and never mutated; there is no key-rotation flow.

use vstd::prelude::*;
use crate::error::AppError;
use crate::kv::KvTable;

verus! {

/// A stored account record.
#[derive(Debug)]
pub struct User {
    /// Row identifier; carries no protocol meaning.
    pub id: i32,
    /// Unique login, the record's key.
    pub login: String,
    /// Base64 text of the account's Ed25519 public key.
    pub pub_key: String,
}

/// A record about to be inserted, before a row identifier exists.
#[derive(Debug)]
pub struct NewUser {
    pub login: String,
    pub pub_key: String,
}

/// The store itself: login -> public key, logins unique.
pub struct UserStore {
    users: KvTable<User>,
    next_id: i32,
}

impl View for UserStore {
    type V = Map<Seq<char>, Seq<char>>;

    closed spec fn view(&self) -> Map<Seq<char>, Seq<char>> {
        self.users@.map_values(|u: User| u.pub_key@)
    }
}

impl UserStore {
    /// Each record is stored under its own login.
    pub closed spec fn wf(&self) -> bool {
        &&& self.users.wf()
        &&& forall|k: Seq<char>| #[trigger] self.users@.contains_key(k)
            ==> self.users@[k].login@ == k
    }

    /// The empty store.
    pub fn new() -> (r: UserStore)
        ensures
            r.wf(),
            r@ == Map::<Seq<char>, Seq<char>>::empty(),
    {
        let r = UserStore { users: KvTable::new(), next_id: 1 };
        proof {
            assert(r@ =~= Map::<Seq<char>, Seq<char>>::empty());
        }
        r
    }

    /// Looks a login up.
    pub fn find(&self, login: &String) -> (r: Option<&User>)
        requires
            self.wf(),
        ensures
            match r {
                Some(u) => self@.contains_key(login@) && u.login@ == login@
                    && u.pub_key@ == self@[login@],
                None => !self@.contains_key(login@),
            },
    {
        self.users.get(login)
    }

    /// Whether a login is present.
    pub fn contains(&self, login: &String) -> (r: bool)
        requires
            self.wf(),
        ensures
            r == self@.contains_key(login@),
    {
        self.users.contains(login)
    }

    /// Inserts a fresh record. Fails with [`AppError::DuplicateOnInsert`]
    /// exactly when the login is already present; the store is then
    /// unchanged.
    pub fn insert(&mut self, new_user: NewUser) -> (r: Result<(), AppError>)
        requires
            old(self).wf(),
        ensures
            final(self).wf(),
            match r {
                Ok(()) => !old(self)@.contains_key(new_user.login@)
                    && final(self)@ == old(self)@.insert(new_user.login@, new_user.pub_key@),
                Err(e) => e == AppError::DuplicateOnInsert
                    && old(self)@.contains_key(new_user.login@)
                    && final(self)@ == old(self)@,
            },
    {
        let NewUser { login, pub_key } = new_user;
        let key = login.clone();
        let ghost k = login@;
        let ghost pkv = pub_key@;
        let record = User { id: self.next_id, login, pub_key };
        if self.users.insert_new(key, record) {
            if self.next_id < i32::MAX {
                self.next_id = self.next_id + 1;
            }
            proof {
                assert(final(self)@ =~= old(self)@.insert(k, pkv));
            }
            Ok(())
        } else {
            Err(AppError::DuplicateOnInsert)
        }
    }
}

} // verus!
