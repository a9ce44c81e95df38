//! The identity store interface the credential manager consumes, and a
//! verified in-memory backend.
//!
//! Identities are owned by an external store; the core only looks them up
//! by email or id, creates them at registration, and sets the
//! email-verified timestamp once. The store is modelled by two maps over
//! the same records: one keyed by email, one by id.

use vstd::prelude::*;

use crate::store::StoreError;

verus! {

/// One identity as the core sees it. The password hash is written once
/// at registration and only ever compared against, never returned to
/// clients.
#[derive(Debug)]
pub struct UserRecord {
    /// Store-assigned id, unique among all records.
    pub id: u64,
    /// Display name.
    pub name: String,
    /// Login email, unique among all records.
    pub email: String,
    /// Password hash as produced at registration.
    pub password_hash: String,
    /// Role, `"Admin"` or `"User"`.
    pub role: String,
    /// When the email was verified, if it has been.
    pub email_verified_at: Option<i64>,
}

/// Mathematical image of `UserRecord`.
pub struct UserView {
    pub id: u64,
    pub name: Seq<char>,
    pub email: Seq<char>,
    pub password_hash: Seq<char>,
    pub role: Seq<char>,
    pub email_verified_at: Option<i64>,
}

impl View for UserRecord {
    type V = UserView;

    open spec fn view(&self) -> UserView {
        UserView {
            id: self.id,
            name: self.name@,
            email: self.email@,
            password_hash: self.password_hash@,
            role: self.role@,
            email_verified_at: self.email_verified_at,
        }
    }
}

impl Clone for UserRecord {
    fn clone(&self) -> (r: Self)
        ensures
            r == *self,
    {
        UserRecord {
            id: self.id,
            name: self.name.clone(),
            email: self.email.clone(),
            password_hash: self.password_hash.clone(),
            role: self.role.clone(),
            email_verified_at: self.email_verified_at,
        }
    }
}

/// The identity operations the core needs. Backends: the in-memory
/// [`MemIdentityStore`] here, or an unverified database built around the
/// same contract.
pub trait IdentityStore: Sized {
    /// The records currently held, keyed by email. Backends override
    /// this with their own model.
    open spec fn by_email(&self) -> Map<Seq<char>, UserView> {
        Map::empty()
    }

    /// The records currently held, keyed by id. Backends override this
    /// with their own model.
    open spec fn by_id(&self) -> Map<u64, UserView> {
        Map::empty()
    }

    /// Look an identity up by email.
    fn find_by_email(&self, email: &str) -> (r: Result<Option<UserRecord>, StoreError>)
        ensures
            (match r {
                Ok(Some(u)) => self.by_email().contains_key(email@) && self.by_email()[email@]
                    == u@,
                Ok(None) => !self.by_email().contains_key(email@),
                Err(_) => true,
            }),
    ;

    /// Look an identity up by id.
    fn find_by_id(&self, id: u64) -> (r: Result<Option<UserRecord>, StoreError>)
        ensures
            (match r {
                Ok(Some(u)) => self.by_id().contains_key(id) && self.by_id()[id] == u@,
                Ok(None) => !self.by_id().contains_key(id),
                Err(_) => true,
            }),
    ;

    /// Create an identity with a fresh id and no verified timestamp.
    /// The caller must have ruled out an email collision first. On
    /// failure the store holds either what it held before, or exactly
    /// the one new record (an interrupted write may have landed); it is
    /// never changed in any other way.
    fn insert_user(&mut self, name: &str, email: &str, password_hash: &str, role: &str) -> (r:
        Result<UserRecord, StoreError>)
        requires
            !old(self).by_email().contains_key(email@),
        ensures
            (match r {
                Ok(u) => u@.name == name@ && u@.email == email@ && u@.password_hash
                    == password_hash@ && u@.role == role@ && u@.email_verified_at is None && !old(self).by_id().contains_key(u@.id) && final(self).by_email() == old(self).by_email().insert(email@, u@) && final(self).by_id() == old(self).by_id().insert(
                    u@.id,
                    u@,
                ),
                Err(_) => *final(self) == *old(self) || (exists|u: UserView|
                    #![auto]
                    u.name == name@ && u.email == email@ && u.password_hash == password_hash@
                        && u.role == role@ && u.email_verified_at is None && !old(self).by_id().contains_key(u.id) && final(self).by_email() == old(self).by_email().insert(email@, u) && final(self).by_id() == old(self).by_id().insert(u.id, u)),
            }),
    ;

    /// Record that the identity's email was verified at time `at`. On
    /// failure the store holds either what it held before, or exactly
    /// that one timestamp set (an interrupted write may have landed); it
    /// is never changed in any other way.
    fn set_verified_at(&mut self, id: u64, at: i64) -> (r: Result<(), StoreError>)
        requires
            old(self).by_id().contains_key(id),
        ensures
            (match r {
                Ok(_) => final(self).by_id() == old(self).by_id().insert(
                    id,
                    verified_view(old(self).by_id()[id], at),
                ) && final(self).by_email() == old(self).by_email().insert(
                    old(self).by_id()[id].email,
                    verified_view(old(self).by_id()[id], at),
                ),
                Err(_) => *final(self) == *old(self) || (final(self).by_id() == old(self).by_id().insert(id, verified_view(old(self).by_id()[id], at)) && final(self).by_email() == old(self).by_email().insert(
                    old(self).by_id()[id].email,
                    verified_view(old(self).by_id()[id], at),
                )),
            }),
    ;
}

/// `u` with its verified timestamp set to `at`.
pub open spec fn verified_view(u: UserView, at: i64) -> UserView {
    UserView {
        id: u.id,
        name: u.name,
        email: u.email,
        password_hash: u.password_hash,
        role: u.role,
        email_verified_at: Some(at),
    }
}

/// The email-keyed map held by a sequence of records; the earliest
/// record with an email wins, matching a front-to-back lookup.
pub open spec fn email_map(s: Seq<UserRecord>) -> Map<Seq<char>, UserView>
    decreases s.len(),
{
    if s.len() == 0 {
        Map::empty()
    } else {
        email_map(s.drop_first()).insert(s.first()@.email, s.first()@)
    }
}

/// The id-keyed map held by a sequence of records.
pub open spec fn id_map(s: Seq<UserRecord>) -> Map<u64, UserView>
    decreases s.len(),
{
    if s.len() == 0 {
        Map::empty()
    } else {
        id_map(s.drop_first()).insert(s.first()@.id, s.first()@)
    }
}

proof fn lemma_email_map_first_index(s: Seq<UserRecord>, i: int)
    requires
        0 <= i < s.len(),
        forall|j: int| 0 <= j < i ==> s[j]@.email != s[i]@.email,
    ensures
        email_map(s).contains_key(s[i]@.email),
        email_map(s)[s[i]@.email] == s[i]@,
    decreases s.len(),
{
    if i > 0 {
        lemma_email_map_first_index(s.drop_first(), i - 1);
    }
}

proof fn lemma_email_map_absent(s: Seq<UserRecord>, e: Seq<char>)
    requires
        forall|i: int| 0 <= i < s.len() ==> s[i]@.email != e,
    ensures
        !email_map(s).contains_key(e),
    decreases s.len(),
{
    if s.len() > 0 {
        lemma_email_map_absent(s.drop_first(), e);
    }
}

proof fn lemma_email_map_any_index(s: Seq<UserRecord>, i: int)
    requires
        0 <= i < s.len(),
    ensures
        email_map(s).contains_key(s[i]@.email),
    decreases s.len(),
{
    if i > 0 {
        lemma_email_map_any_index(s.drop_first(), i - 1);
    }
}

proof fn lemma_email_map_push(s: Seq<UserRecord>, u: UserRecord)
    requires
        forall|i: int| 0 <= i < s.len() ==> s[i]@.email != u@.email,
    ensures
        email_map(s.push(u)) == email_map(s).insert(u@.email, u@),
    decreases s.len(),
{
    if s.len() == 0 {
        assert(s.push(u).first() == u);
        assert(s.push(u).drop_first() =~= s);
        assert(email_map(s.push(u)) == email_map(s).insert(u@.email, u@));
    } else {
        lemma_email_map_push(s.drop_first(), u);
        assert(s.push(u).drop_first() =~= s.drop_first().push(u));
        assert(s.push(u).first() == s.first());
        assert(s.first()@.email != u@.email);
        assert(email_map(s.drop_first()).insert(u@.email, u@).insert(s.first()@.email, s.first()@)
            =~= email_map(s.drop_first()).insert(s.first()@.email, s.first()@).insert(
            u@.email,
            u@,
        ));
    }
}

proof fn lemma_email_map_update(s: Seq<UserRecord>, i: int, u: UserRecord)
    requires
        0 <= i < s.len(),
        forall|j: int| 0 <= j < i ==> s[j]@.email != s[i]@.email,
        u@.email == s[i]@.email,
    ensures
        email_map(s.update(i, u)) == email_map(s).insert(u@.email, u@),
    decreases s.len(),
{
    let s2 = s.update(i, u);
    if i == 0 {
        assert(s2.drop_first() =~= s.drop_first());
        assert(email_map(s.drop_first()).insert(s[0]@.email, s[0]@).insert(u@.email, u@)
            =~= email_map(s.drop_first()).insert(u@.email, u@));
    } else {
        lemma_email_map_update(s.drop_first(), i - 1, u);
        assert(s2.drop_first() =~= s.drop_first().update(i - 1, u));
        assert(s2.first() == s.first());
        assert(s.first()@.email != u@.email);
        assert(email_map(s.drop_first()).insert(u@.email, u@).insert(s.first()@.email, s.first()@)
            =~= email_map(s.drop_first()).insert(s.first()@.email, s.first()@).insert(
            u@.email,
            u@,
        ));
    }
}

proof fn lemma_id_map_first_index(s: Seq<UserRecord>, i: int)
    requires
        0 <= i < s.len(),
        forall|j: int| 0 <= j < i ==> s[j]@.id != s[i]@.id,
    ensures
        id_map(s).contains_key(s[i]@.id),
        id_map(s)[s[i]@.id] == s[i]@,
    decreases s.len(),
{
    if i > 0 {
        lemma_id_map_first_index(s.drop_first(), i - 1);
    }
}

proof fn lemma_id_map_absent(s: Seq<UserRecord>, id: u64)
    requires
        forall|i: int| 0 <= i < s.len() ==> s[i]@.id != id,
    ensures
        !id_map(s).contains_key(id),
    decreases s.len(),
{
    if s.len() > 0 {
        lemma_id_map_absent(s.drop_first(), id);
    }
}

proof fn lemma_id_map_push(s: Seq<UserRecord>, u: UserRecord)
    requires
        forall|i: int| 0 <= i < s.len() ==> s[i]@.id != u@.id,
    ensures
        id_map(s.push(u)) == id_map(s).insert(u@.id, u@),
    decreases s.len(),
{
    if s.len() == 0 {
        assert(s.push(u).first() == u);
        assert(s.push(u).drop_first() =~= s);
        assert(id_map(s.push(u)) == id_map(s).insert(u@.id, u@));
    } else {
        lemma_id_map_push(s.drop_first(), u);
        assert(s.push(u).drop_first() =~= s.drop_first().push(u));
        assert(s.push(u).first() == s.first());
        assert(s.first()@.id != u@.id);
        assert(id_map(s.drop_first()).insert(u@.id, u@).insert(s.first()@.id, s.first()@)
            =~= id_map(s.drop_first()).insert(s.first()@.id, s.first()@).insert(u@.id, u@));
    }
}

proof fn lemma_id_map_update(s: Seq<UserRecord>, i: int, u: UserRecord)
    requires
        0 <= i < s.len(),
        forall|j: int| 0 <= j < i ==> s[j]@.id != s[i]@.id,
        u@.id == s[i]@.id,
    ensures
        id_map(s.update(i, u)) == id_map(s).insert(u@.id, u@),
    decreases s.len(),
{
    let s2 = s.update(i, u);
    if i == 0 {
        assert(s2.drop_first() =~= s.drop_first());
        assert(id_map(s.drop_first()).insert(s[0]@.id, s[0]@).insert(u@.id, u@) =~= id_map(
            s.drop_first(),
        ).insert(u@.id, u@));
    } else {
        lemma_id_map_update(s.drop_first(), i - 1, u);
        assert(s2.drop_first() =~= s.drop_first().update(i - 1, u));
        assert(s2.first() == s.first());
        assert(s.first()@.id != u@.id);
        assert(id_map(s.drop_first()).insert(u@.id, u@).insert(s.first()@.id, s.first()@)
            =~= id_map(s.drop_first()).insert(s.first()@.id, s.first()@).insert(u@.id, u@));
    }
}

/// In-memory identity backend: records with unique emails and unique,
/// monotonically assigned ids.
pub struct MemIdentityStore {
    users: Vec<UserRecord>,
    next_id: u64,
}

impl MemIdentityStore {
    #[verifier::type_invariant]
    spec fn wf(&self) -> bool {
        &&& forall|i: int|
            0 <= i < self.users@.len() ==> #[trigger] self.users@[i]@.id < self.next_id
        &&& forall|i: int, j: int|
            0 <= i < j < self.users@.len() ==> self.users@[i]@.email != self.users@[j]@.email
        &&& forall|i: int, j: int|
            0 <= i < j < self.users@.len() ==> self.users@[i]@.id != self.users@[j]@.id
    }

    /// An empty identity store.
    pub fn new() -> (r: MemIdentityStore)
        ensures
            r.by_email() == Map::<Seq<char>, UserView>::empty(),
            r.by_id() == Map::<u64, UserView>::empty(),
    {
        MemIdentityStore { users: Vec::new(), next_id: 1 }
    }

    /// Index of the first record holding `email`, if any.
    fn email_index(&self, email: &str) -> (r: Option<usize>)
        ensures
            (match r {
                Some(i) => i < self.users@.len() && self.users@[i as int]@.email == email@ && (
                forall|j: int| 0 <= j < i ==> self.users@[j]@.email != email@),
                None => forall|j: int| 0 <= j < self.users@.len() ==> self.users@[j]@.email
                    != email@,
            }),
    {
        let email_owned = email.to_owned();
        let n = self.users.len();
        let mut i: usize = 0;
        while i < n
            invariant
                n == self.users@.len(),
                i <= n,
                email_owned@ == email@,
                forall|j: int| 0 <= j < i ==> self.users@[j]@.email != email@,
            decreases n - i,
        {
            if self.users[i].email == email_owned {
                return Some(i);
            }
            i += 1;
        }
        None
    }

    /// Index of the first record holding `id`, if any.
    fn id_index(&self, id: u64) -> (r: Option<usize>)
        ensures
            (match r {
                Some(i) => i < self.users@.len() && self.users@[i as int]@.id == id && (forall|
                    j: int,
                |
                    0 <= j < i ==> self.users@[j]@.id != id),
                None => forall|j: int| 0 <= j < self.users@.len() ==> self.users@[j]@.id != id,
            }),
    {
        let n = self.users.len();
        let mut i: usize = 0;
        while i < n
            invariant
                n == self.users@.len(),
                i <= n,
                forall|j: int| 0 <= j < i ==> self.users@[j]@.id != id,
            decreases n - i,
        {
            if self.users[i].id == id {
                return Some(i);
            }
            i += 1;
        }
        None
    }
}

impl IdentityStore for MemIdentityStore {
    closed spec fn by_email(&self) -> Map<Seq<char>, UserView> {
        email_map(self.users@)
    }

    closed spec fn by_id(&self) -> Map<u64, UserView> {
        id_map(self.users@)
    }

    fn find_by_email(&self, email: &str) -> (r: Result<Option<UserRecord>, StoreError>) {
        match self.email_index(email) {
            Some(i) => {
                proof {
                    lemma_email_map_first_index(self.users@, i as int);
                }
                Ok(Some(self.users[i].clone()))
            },
            None => {
                proof {
                    lemma_email_map_absent(self.users@, email@);
                }
                Ok(None)
            },
        }
    }

    fn find_by_id(&self, id: u64) -> (r: Result<Option<UserRecord>, StoreError>) {
        match self.id_index(id) {
            Some(i) => {
                proof {
                    lemma_id_map_first_index(self.users@, i as int);
                }
                Ok(Some(self.users[i].clone()))
            },
            None => {
                proof {
                    lemma_id_map_absent(self.users@, id);
                }
                Ok(None)
            },
        }
    }

    fn insert_user(&mut self, name: &str, email: &str, password_hash: &str, role: &str) -> (r:
        Result<UserRecord, StoreError>) {
        proof {
            use_type_invariant(&*self);
        }
        if self.next_id == u64::MAX {
            return Err(StoreError::Unavailable);
        }
        let id = self.next_id;
        let rec = UserRecord {
            id,
            name: name.to_owned(),
            email: email.to_owned(),
            password_hash: password_hash.to_owned(),
            role: role.to_owned(),
            email_verified_at: None,
        };
        let out = rec.clone();
        proof {
            assert forall|i: int| 0 <= i < self.users@.len() implies self.users@[i]@.email
                != email@ by {
                if self.users@[i]@.email == email@ {
                    lemma_email_map_any_index(self.users@, i);
                }
            }
            lemma_email_map_push(self.users@, rec);
            lemma_id_map_push(self.users@, rec);
            lemma_id_map_absent(self.users@, id);
        }
        let mut v: Vec<UserRecord> = Vec::new();
        core::mem::swap(&mut self.users, &mut v);
        v.push(rec);
        self.next_id = id + 1;
        core::mem::swap(&mut self.users, &mut v);
        Ok(out)
    }

    fn set_verified_at(&mut self, id: u64, at: i64) -> (r: Result<(), StoreError>) {
        proof {
            use_type_invariant(&*self);
        }
        match self.id_index(id) {
            Some(i) => {
                let mut u = self.users[i].clone();
                u.email_verified_at = Some(at);
                proof {
                    lemma_id_map_first_index(self.users@, i as int);
                    assert forall|j: int| 0 <= j < i implies self.users@[j]@.email
                        != self.users@[i as int]@.email by {}
                    lemma_email_map_update(self.users@, i as int, u);
                    lemma_id_map_update(self.users@, i as int, u);
                    lemma_email_map_first_index(self.users@, i as int);
                }
                let mut v: Vec<UserRecord> = Vec::new();
                core::mem::swap(&mut self.users, &mut v);
                v.set(i, u);
                core::mem::swap(&mut self.users, &mut v);
                Ok(())
            },
            None => {
                proof {
                    lemma_id_map_absent(self.users@, id);
                }
                Err(StoreError::Unavailable)
            },
        }
    }
}

} // verus!
