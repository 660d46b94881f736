use vstd::prelude::*;

use crate::error::{AuthError, ErrorKind, StoreError, MSG_TOKEN_REVOKED};

verus! {

/// The value that marks a token string as revoked.
pub const BLACKLIST_SENTINEL: &'static str = "BLACKLISTED";

pub open spec fn opt_view(o: Option<String>) -> Option<Seq<char>> {
    match o {
        Some(s) => Some(s@),
        None => None,
    }
}

/// The value stored under `key`, if any.
pub open spec fn lookup(m: Map<Seq<char>, Seq<char>>, key: Seq<char>) -> Option<Seq<char>> {
    if m.contains_key(key) {
        Some(m[key])
    } else {
        None
    }
}

/// A stored value marks its key as a revoked token.
pub open spec fn revoked(v: Option<Seq<char>>) -> bool {
    v == Some(BLACKLIST_SENTINEL@)
}

/// A key-value store with string keys and values: the token-to-user cache, the revocation
/// ledger and the home of outstanding one-time codes. A failed write leaves it unchanged.
pub trait RedisPort {
    /// What the store holds. Implementations whose contents are not modelled (a remote
    /// server) leave it unspecified.
    closed spec fn entries(&self) -> Map<Seq<char>, Seq<char>> {
        arbitrary()
    }

    fn set_value(&mut self, key: &str, value: &str) -> (r: Result<(), StoreError>)
        ensures
            r is Ok ==> final(self).entries() == old(self).entries().insert(key@, value@),
            r is Err ==> final(self).entries() == old(self).entries(),
    ;

    fn get_value(&self, key: &str) -> (r: Result<Option<String>, StoreError>)
        ensures
            r matches Ok(v) ==> opt_view(v) == lookup(self.entries(), key@),
    ;

    fn delete_value(&mut self, key: &str) -> (r: Result<(), StoreError>)
        ensures
            r is Ok ==> final(self).entries() == old(self).entries().remove(key@),
            r is Err ==> final(self).entries() == old(self).entries(),
    ;

    fn key_exists(&self, key: &str) -> (r: Result<bool, StoreError>)
        ensures
            r matches Ok(b) ==> b == self.entries().contains_key(key@),
    ;

    /// Reads and removes the value under `key` in one atomic step.
    fn pull_value(&mut self, key: &str) -> (r: Result<Option<String>, StoreError>)
        ensures
            r matches Ok(v) ==> opt_view(v) == lookup(old(self).entries(), key@)
                && final(self).entries() == old(self).entries().remove(key@),
            r is Err ==> final(self).entries() == old(self).entries(),
    ;
}

/// Records `token` as revoked.
pub fn blacklist_token<R: RedisPort>(store: &mut R, token: &str) -> (r: Result<(), StoreError>)
    ensures
        r is Ok ==> final(store).entries() == old(store).entries().insert(token@, BLACKLIST_SENTINEL@),
        r is Err ==> final(store).entries() == old(store).entries(),
{
    store.set_value(token, BLACKLIST_SENTINEL)
}

/// The verdict on a token given the result of reading the store under it: refused as
/// revoked exactly when the value is the revocation sentinel, and refused as `Internal` when
/// the read failed (the check fails closed).
pub fn blacklist_verdict(lookup_result: Result<Option<String>, StoreError>) -> (r: Result<(), AuthError>)
    ensures
        lookup_result is Err ==> (r matches Err(e) && e.kind == ErrorKind::Internal),
        lookup_result matches Ok(v) ==> (r is Err <==> revoked(opt_view(v))),
        lookup_result is Ok && r is Err ==> r->Err_0.kind == ErrorKind::Unauthenticated
            && r->Err_0.message@ == MSG_TOKEN_REVOKED@,
{
    match lookup_result {
        Ok(Some(v)) => {
            let sentinel = String::from_str(BLACKLIST_SENTINEL);
            if v == sentinel {
                Err(AuthError::new(ErrorKind::Unauthenticated, MSG_TOKEN_REVOKED))
            } else {
                Ok(())
            }
        },
        Ok(None) => Ok(()),
        Err(_) => Err(AuthError::new(ErrorKind::Internal, "Failed to access the token store")),
    }
}

/// Fails when `token` is recorded as revoked. A store failure fails closed, as `Internal`
/// (see `blacklist_verdict`), and is never read as "not revoked".
pub fn ensure_not_blacklisted<R: RedisPort>(store: &R, token: &str) -> (r: Result<(), AuthError>)
    ensures
        r is Ok ==> !revoked(lookup(store.entries(), token@)),
        revoked(lookup(store.entries(), token@)) ==> r is Err,
        r matches Err(e) ==> (e.kind == ErrorKind::Unauthenticated && e.message@ == MSG_TOKEN_REVOKED@
            && revoked(lookup(store.entries(), token@))) || e.kind == ErrorKind::Internal,
{
    blacklist_verdict(store.get_value(token))
}

/// Revoking a token refuses that exact token string and no other: every other key reads
/// as before.
pub proof fn lemma_blacklist_only_that_token(m: Map<Seq<char>, Seq<char>>, token: Seq<char>, other: Seq<char>)
    requires
        other != token,
    ensures
        revoked(lookup(m.insert(token, BLACKLIST_SENTINEL@), token)),
        lookup(m.insert(token, BLACKLIST_SENTINEL@), other) == lookup(m, other),
{
}

/// The entries of a write log, later writes overriding earlier ones.
pub open spec fn log_entries(log: Seq<(String, Option<String>)>) -> Map<Seq<char>, Seq<char>>
    decreases log.len(),
{
    if log.len() == 0 {
        Map::empty()
    } else {
        let prev = log_entries(log.drop_last());
        let last = log.last();
        match last.1 {
            Some(v) => prev.insert(last.0@, v@),
            None => prev.remove(last.0@),
        }
    }
}

/// An in-process store, kept as a log of writes (`None` removes a key).
pub struct MemoryStore {
    log: Vec<(String, Option<String>)>,
}

impl MemoryStore {
    pub fn new() -> (s: MemoryStore)
        ensures
            s.entries() == Map::<Seq<char>, Seq<char>>::empty(),
    {
        MemoryStore { log: Vec::new() }
    }

    fn find(&self, key: &str) -> (r: Option<String>)
        ensures
            opt_view(r) == lookup(self.entries(), key@),
    {
        let k = String::from_str(key);
        let mut i: usize = self.log.len();
        assert(self.log@.take(i as int) =~= self.log@);
        while i > 0
            invariant
                i <= self.log@.len(),
                k@ == key@,
                lookup(log_entries(self.log@), key@) == lookup(log_entries(self.log@.take(i as int)), key@),
            decreases i,
        {
            let ghost prefix = self.log@.take(i as int);
            assert(prefix.drop_last() =~= self.log@.take(i - 1));
            assert(prefix.last() == self.log@[i - 1]);
            if self.log[i - 1].0 == k {
                return match &self.log[i - 1].1 {
                    Some(v) => Some(v.clone()),
                    None => None,
                };
            }
            i = i - 1;
        }
        assert(self.log@.take(0) =~= Seq::<(String, Option<String>)>::empty());
        None
    }

    fn write(&mut self, key: &str, value: Option<String>)
        ensures
            final(self).entries() == (match value {
                Some(v) => old(self).entries().insert(key@, v@),
                None => old(self).entries().remove(key@),
            }),
    {
        let ghost before = self.log@;
        self.log.push((String::from_str(key), value));
        assert(self.log@.drop_last() =~= before);
    }
}

impl RedisPort for MemoryStore {
    closed spec fn entries(&self) -> Map<Seq<char>, Seq<char>> {
        log_entries(self.log@)
    }

    fn set_value(&mut self, key: &str, value: &str) -> (r: Result<(), StoreError>) {
        self.write(key, Some(String::from_str(value)));
        Ok(())
    }

    fn get_value(&self, key: &str) -> (r: Result<Option<String>, StoreError>) {
        Ok(self.find(key))
    }

    fn delete_value(&mut self, key: &str) -> (r: Result<(), StoreError>) {
        self.write(key, None);
        Ok(())
    }

    fn key_exists(&self, key: &str) -> (r: Result<bool, StoreError>) {
        Ok(self.find(key).is_some())
    }

    fn pull_value(&mut self, key: &str) -> (r: Result<Option<String>, StoreError>) {
        let v = self.find(key);
        self.write(key, None);
        Ok(v)
    }
}

} // verus!
