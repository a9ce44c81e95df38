//! The key-value TTL store interface that the core consumes (blacklist
//! entries and cache), and a verified in-memory backend.
//!
//! The store is modelled by the map of entries it currently holds. TTLs
//! are passed through to the backend but the model never relies on
//! entries vanishing: a revocation entry only needs to outlive the token
//! it blocks, and the token's own expiry check takes over afterwards.

use vstd::prelude::*;

verus! {

/// Failure of the underlying store (connection lost, timeout). The core
/// must fail closed when it sees this during a revocation check.
#[derive(Clone, Copy, PartialEq, Eq, Structural, Debug)]
pub enum StoreError {
    /// The store could not be reached or refused the operation.
    Unavailable,
}

/// The four store operations the core needs: put/get/exists/delete over
/// flat string-keyed entries. Backends: the in-memory [`MemStore`] here,
/// or an unverified networked store built around the same contract.
pub trait RevocationStore: Sized {
    /// The entries currently held, key to value. Backends override this
    /// with their own model; the default stands for a backend whose
    /// contents are not modelled.
    open spec fn contents(&self) -> Map<Seq<char>, Seq<char>> {
        Map::empty()
    }

    /// Store `value` under `key`, to be kept for `ttl_seconds`. On
    /// failure the entry was either not written or written alone (an
    /// interrupted write may have landed); nothing else changes.
    fn put(&mut self, key: &str, value: &str, ttl_seconds: u64) -> (r: Result<(), StoreError>)
        ensures
            (match r {
                Ok(_) => final(self).contents() == old(self).contents().insert(key@, value@),
                Err(_) => *final(self) == *old(self) || final(self).contents() == old(self).contents().insert(key@, value@),
            }),
    ;

    /// Read the value under `key`, or `None` when absent.
    fn get(&self, key: &str) -> (r: Result<Option<String>, StoreError>)
        ensures
            (match r {
                Ok(Some(v)) => self.contents().contains_key(key@) && self.contents()[key@] == v@,
                Ok(None) => !self.contents().contains_key(key@),
                Err(_) => true,
            }),
    ;

    /// Whether an entry is held under `key`.
    fn key_exists(&self, key: &str) -> (r: Result<bool, StoreError>)
        ensures
            r matches Ok(b) ==> b == self.contents().contains_key(key@),
    ;

    /// Drop the entry under `key`, if any. On failure the entry was
    /// either kept or dropped alone; nothing else changes.
    fn delete(&mut self, key: &str) -> (r: Result<(), StoreError>)
        ensures
            (match r {
                Ok(_) => final(self).contents() == old(self).contents().remove(key@),
                Err(_) => *final(self) == *old(self) || final(self).contents() == old(self).contents().remove(key@),
            }),
    ;
}

/// The map held by a sequence of key-value entries; the earliest entry
/// with a key wins, matching a front-to-back lookup.
pub open spec fn kv_map(s: Seq<(String, String)>) -> Map<Seq<char>, Seq<char>>
    decreases s.len(),
{
    if s.len() == 0 {
        Map::empty()
    } else {
        kv_map(s.drop_first()).insert(s.first().0@, s.first().1@)
    }
}

/// The first entry holding a key gives its value in `kv_map`.
proof fn lemma_kv_map_first_index(s: Seq<(String, String)>, i: int)
    requires
        0 <= i < s.len(),
        forall|j: int| 0 <= j < i ==> s[j].0@ != s[i].0@,
    ensures
        kv_map(s).contains_key(s[i].0@),
        kv_map(s)[s[i].0@] == s[i].1@,
    decreases s.len(),
{
    if i > 0 {
        lemma_kv_map_first_index(s.drop_first(), i - 1);
    }
}

/// A key held by no entry is not in `kv_map`.
proof fn lemma_kv_map_absent(s: Seq<(String, String)>, k: Seq<char>)
    requires
        forall|i: int| 0 <= i < s.len() ==> s[i].0@ != k,
    ensures
        !kv_map(s).contains_key(k),
    decreases s.len(),
{
    if s.len() > 0 {
        lemma_kv_map_absent(s.drop_first(), k);
    }
}

/// Replacing the value of the first entry holding a key overwrites that
/// key's binding.
proof fn lemma_kv_map_update(s: Seq<(String, String)>, i: int, e: (String, String))
    requires
        0 <= i < s.len(),
        forall|j: int| 0 <= j < i ==> s[j].0@ != s[i].0@,
        e.0@ == s[i].0@,
    ensures
        kv_map(s.update(i, e)) == kv_map(s).insert(e.0@, e.1@),
    decreases s.len(),
{
    let s2 = s.update(i, e);
    if i == 0 {
        assert(s2.drop_first() =~= s.drop_first());
        assert(kv_map(s.drop_first()).insert(s[0].0@, s[0].1@).insert(e.0@, e.1@) =~= kv_map(
            s.drop_first(),
        ).insert(e.0@, e.1@));
    } else {
        lemma_kv_map_update(s.drop_first(), i - 1, e);
        assert(s2.drop_first() =~= s.drop_first().update(i - 1, e));
        assert(s2.first() == s.first());
        assert(s.first().0@ != e.0@);
        assert(kv_map(s.drop_first()).insert(e.0@, e.1@).insert(s.first().0@, s.first().1@)
            =~= kv_map(s.drop_first()).insert(s.first().0@, s.first().1@).insert(e.0@, e.1@));
    }
}

/// Appending an entry whose key no entry holds binds that key.
proof fn lemma_kv_map_push(s: Seq<(String, String)>, e: (String, String))
    requires
        forall|i: int| 0 <= i < s.len() ==> s[i].0@ != e.0@,
    ensures
        kv_map(s.push(e)) == kv_map(s).insert(e.0@, e.1@),
    decreases s.len(),
{
    if s.len() == 0 {
        assert(s.push(e).first() == e);
        assert(s.push(e).drop_first() =~= s);
        assert(kv_map(s.push(e)) == kv_map(s).insert(e.0@, e.1@));
    } else {
        lemma_kv_map_push(s.drop_first(), e);
        assert(s.push(e).drop_first() =~= s.drop_first().push(e));
        assert(s.push(e).first() == s.first());
        assert(s.first().0@ != e.0@);
        assert(kv_map(s.drop_first()).insert(e.0@, e.1@).insert(s.first().0@, s.first().1@)
            =~= kv_map(s.drop_first()).insert(s.first().0@, s.first().1@).insert(e.0@, e.1@));
    }
}

/// Dropping the first entry holding a key leaves the map without that
/// key unchanged.
proof fn lemma_kv_map_remove_first(s: Seq<(String, String)>, i: int)
    requires
        0 <= i < s.len(),
        forall|j: int| 0 <= j < i ==> s[j].0@ != s[i].0@,
    ensures
        kv_map(s.remove(i)).remove(s[i].0@) == kv_map(s).remove(s[i].0@),
    decreases s.len(),
{
    let k = s[i].0@;
    if i == 0 {
        assert(s.remove(0) =~= s.drop_first());
        assert(kv_map(s.drop_first()).insert(k, s[0].1@).remove(k) =~= kv_map(
            s.drop_first(),
        ).remove(k));
    } else {
        lemma_kv_map_remove_first(s.drop_first(), i - 1);
        assert(s.remove(i).drop_first() =~= s.drop_first().remove(i - 1));
        assert(s.remove(i).first() == s.first());
        assert(s.first().0@ != k);
        assert(kv_map(s.drop_first().remove(i - 1)).insert(s.first().0@, s.first().1@).remove(k)
            =~= kv_map(s.drop_first().remove(i - 1)).remove(k).insert(s.first().0@, s.first().1@));
        assert(kv_map(s.drop_first()).remove(k).insert(s.first().0@, s.first().1@) =~= kv_map(
            s.drop_first(),
        ).insert(s.first().0@, s.first().1@).remove(k));
    }
}

/// In-memory store backend. Entries never expire on their own, which
/// only makes revocation more conservative.
pub struct MemStore {
    entries: Vec<(String, String)>,
}

impl MemStore {
    /// An empty store.
    pub fn new() -> (r: MemStore)
        ensures
            r.contents() == Map::<Seq<char>, Seq<char>>::empty(),
    {
        MemStore { entries: Vec::new() }
    }

    /// Index of the first entry holding `key`, if any.
    fn find_index(&self, key: &str) -> (r: Option<usize>)
        ensures
            (match r {
                Some(i) => i < self.entries@.len() && self.entries@[i as int].0@ == key@ && (forall|
                    j: int,
                |
                    0 <= j < i ==> self.entries@[j].0@ != key@),
                None => forall|j: int| 0 <= j < self.entries@.len() ==> self.entries@[j].0@ != key@,
            }),
    {
        let key_owned = key.to_owned();
        let n = self.entries.len();
        let mut i: usize = 0;
        while i < n
            invariant
                n == self.entries@.len(),
                i <= n,
                key_owned@ == key@,
                forall|j: int| 0 <= j < i ==> self.entries@[j].0@ != key@,
            decreases n - i,
        {
            if self.entries[i].0 == key_owned {
                return Some(i);
            }
            i += 1;
        }
        None
    }
}

impl RevocationStore for MemStore {
    closed spec fn contents(&self) -> Map<Seq<char>, Seq<char>> {
        kv_map(self.entries@)
    }

    fn put(&mut self, key: &str, value: &str, ttl_seconds: u64) -> (r: Result<(), StoreError>) {
        match self.find_index(key) {
            Some(i) => {
                let k = self.entries[i].0.clone();
                let e = (k, value.to_owned());
                proof {
                    lemma_kv_map_update(self.entries@, i as int, e);
                }
                self.entries.set(i, e);
            },
            None => {
                let e = (key.to_owned(), value.to_owned());
                proof {
                    lemma_kv_map_push(self.entries@, e);
                }
                self.entries.push(e);
            },
        }
        Ok(())
    }

    fn get(&self, key: &str) -> (r: Result<Option<String>, StoreError>) {
        match self.find_index(key) {
            Some(i) => {
                proof {
                    lemma_kv_map_first_index(self.entries@, i as int);
                }
                Ok(Some(self.entries[i].1.clone()))
            },
            None => {
                proof {
                    lemma_kv_map_absent(self.entries@, key@);
                }
                Ok(None)
            },
        }
    }

    fn key_exists(&self, key: &str) -> (r: Result<bool, StoreError>) {
        match self.find_index(key) {
            Some(i) => {
                proof {
                    lemma_kv_map_first_index(self.entries@, i as int);
                }
                Ok(true)
            },
            None => {
                proof {
                    lemma_kv_map_absent(self.entries@, key@);
                }
                Ok(false)
            },
        }
    }

    fn delete(&mut self, key: &str) -> (r: Result<(), StoreError>) {
        let ghost orig = self.entries@;
        loop
            invariant
                kv_map(self.entries@).remove(key@) == kv_map(orig).remove(key@),
            ensures
                kv_map(self.entries@) == kv_map(orig).remove(key@),
            decreases self.entries@.len(),
        {
            match self.find_index(key) {
                Some(i) => {
                    proof {
                        lemma_kv_map_remove_first(self.entries@, i as int);
                    }
                    self.entries.remove(i);
                },
                None => {
                    proof {
                        lemma_kv_map_absent(self.entries@, key@);
                        assert(kv_map(self.entries@).remove(key@) =~= kv_map(self.entries@));
                    }
                    break ;
                },
            }
        }
        Ok(())
    }
}

/// Value stored under a revoked token.
pub open spec fn revoked_marker() -> Seq<char> {
    "blacklisted"@
}

/// Revoke `token` until its own expiry `exp`: writes a store entry whose
/// TTL is the token's remaining lifetime. A token already expired at
/// `now` needs no entry and the call is a successful no-op. On a store
/// failure the entry was either not written or written alone.
pub fn blacklist_token<S: RevocationStore>(store: &mut S, token: &str, exp: i64, now: i64) -> (r:
    Result<(), StoreError>)
    requires
        now >= 0,
    ensures
        r matches Ok(_) ==> (if exp > now {
            final(store).contents() == old(store).contents().insert(token@, revoked_marker())
        } else {
            *final(store) == *old(store)
        }),
        r matches Err(_) ==> exp > now && (*final(store) == *old(store) || final(store).contents()
            == old(store).contents().insert(token@, revoked_marker())),
{
    if exp > now {
        let ttl = (exp - now) as u64;
        store.put(token, "blacklisted", ttl)
    } else {
        Ok(())
    }
}

/// Whether `token` has a revocation entry.
pub fn is_blacklisted<S: RevocationStore>(store: &S, token: &str) -> (r: Result<bool, StoreError>)
    ensures
        r matches Ok(b) ==> b == store.contents().contains_key(token@),
{
    match store.get(token) {
        Ok(v) => Ok(v.is_some()),
        Err(e) => Err(e),
    }
}

/// Drop `token`'s revocation entry, if any. On a store failure the entry
/// was either kept or dropped alone.
pub fn remove_from_blacklist<S: RevocationStore>(store: &mut S, token: &str) -> (r: Result<
    (),
    StoreError,
>)
    ensures
        r matches Ok(_) ==> final(store).contents() == old(store).contents().remove(token@),
        r matches Err(_) ==> *final(store) == *old(store) || final(store).contents() == old(store).contents().remove(token@),
{
    store.delete(token)
}

} // verus!
