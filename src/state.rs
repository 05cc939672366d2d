//! The explicit state that every operation threads through: configuration,
//! the key-derivation seed, stored viewing-key hashes and revoked permits.

use vstd::prelude::*;

verus! {

/// Write-once configuration: the deploying account and the service's own
/// address, which permits name as their scope.
pub struct Config {
    pub owner: String,
    pub contract_address: String,
}

/// The mathematical model of an [`AuthState`].
pub struct AuthView {
    pub owner: Seq<char>,
    pub contract_address: Seq<char>,
    /// Seed mixed into the next derived viewing key.
    pub seed: Seq<u8>,
    /// For each account with a key, the hash of that key.
    pub keys: Map<Seq<char>, Seq<u8>>,
    /// The `(account, permit name)` pairs that have been revoked.
    pub revoked: Set<(Seq<char>, Seq<char>)>,
}

/// The state after `account` revokes its permits named `name`.
pub open spec fn after_revoke(v: AuthView, account: Seq<char>, name: Seq<char>) -> AuthView {
    AuthView { revoked: v.revoked.insert((account, name)), ..v }
}

/// Revoking twice leaves the state as revoking once does, and the pair is
/// revoked after either.
pub proof fn lemma_revoke_idempotent(v: AuthView, account: Seq<char>, name: Seq<char>)
    ensures
        after_revoke(after_revoke(v, account, name), account, name) == after_revoke(
            v,
            account,
            name,
        ),
        after_revoke(v, account, name).revoked.contains((account, name)),
{
    assert(v.revoked.insert((account, name)).insert((account, name)) =~= v.revoked.insert(
        (account, name),
    ));
}

/// Per-service authentication state.
pub struct AuthState {
    config: Config,
    seed: Vec<u8>,
    key_hashes: Vec<(String, Vec<u8>)>,
    key_model: Ghost<Map<Seq<char>, Seq<u8>>>,
    key_index: Ghost<Map<Seq<char>, int>>,
    revoked: Vec<(String, String)>,
}

impl View for AuthState {
    type V = AuthView;

    closed spec fn view(&self) -> AuthView {
        AuthView {
            owner: self.config.owner@,
            contract_address: self.config.contract_address@,
            seed: self.seed@,
            keys: self.key_model@,
            revoked: Set::new(
                |p: (Seq<char>, Seq<char>)|
                    exists|i: int|
                        0 <= i < self.revoked@.len() && #[trigger] self.revoked@[i].0@ == p.0
                            && self.revoked@[i].1@ == p.1,
            ),
        }
    }
}

impl AuthState {
    /// The stored key hashes agree with the key model, one entry per account.
    pub closed spec fn wf(&self) -> bool {
        &&& forall|i: int, j: int|
            0 <= i < j < self.key_hashes@.len() ==> #[trigger] self.key_hashes@[i].0@
                != #[trigger] self.key_hashes@[j].0@
        &&& forall|i: int|
            0 <= i < self.key_hashes@.len() ==> self.key_model@.contains_key(
                #[trigger] self.key_hashes@[i].0@,
            ) && self.key_model@[self.key_hashes@[i].0@] == self.key_hashes@[i].1@
        &&& forall|a: Seq<char>|
            #[trigger] self.key_model@.contains_key(a) ==> {
                &&& self.key_index@.contains_key(a)
                &&& 0 <= self.key_index@[a] < self.key_hashes@.len()
                &&& self.key_hashes@[self.key_index@[a]].0@ == a
            }
    }

    /// A state with the given configuration and seed, no keys and no
    /// revocations.
    pub fn new(owner: String, contract_address: String, seed: Vec<u8>) -> (s: AuthState)
        ensures
            s.wf(),
            s@ == (AuthView {
                owner: owner@,
                contract_address: contract_address@,
                seed: seed@,
                keys: Map::empty(),
                revoked: Set::empty(),
            }),
    {
        let s = AuthState {
            config: Config { owner, contract_address },
            seed,
            key_hashes: Vec::new(),
            key_model: Ghost(Map::empty()),
            key_index: Ghost(Map::empty()),
            revoked: Vec::new(),
        };
        assert(s@.revoked =~= Set::empty());
        s
    }

    /// The account that set the service up.
    pub fn owner(&self) -> (r: &String)
        ensures
            r@ == self@.owner,
    {
        &self.config.owner
    }

    /// The service's own address.
    pub fn contract_address(&self) -> (r: &String)
        ensures
            r@ == self@.contract_address,
    {
        &self.config.contract_address
    }

    /// The seed for the next derived key.
    pub fn seed(&self) -> (r: &Vec<u8>)
        ensures
            r@ == self@.seed,
    {
        &self.seed
    }

    /// Replaces the seed.
    pub fn set_seed(&mut self, seed: Vec<u8>)
        requires
            old(self).wf(),
        ensures
            final(self).wf(),
            final(self)@ == (AuthView { seed: seed@, ..old(self)@ }),
    {
        self.seed = seed;
        assert(self@.revoked =~= old(self)@.revoked);
    }

    /// The position of `account` among the stored key hashes.
    fn find_key(&self, account: &String) -> (r: Option<usize>)
        requires
            self.wf(),
        ensures
            match r {
                Some(i) => i < self.key_hashes@.len() && self.key_hashes@[i as int].0@ == account@,
                None => !self@.keys.contains_key(account@),
            },
    {
        let mut i: usize = 0;
        while i < self.key_hashes.len()
            invariant
                self.wf(),
                i <= self.key_hashes@.len(),
                forall|j: int| 0 <= j < i ==> self.key_hashes@[j].0@ != account@,
            decreases self.key_hashes@.len() - i,
        {
            if self.key_hashes[i].0 == *account {
                return Some(i);
            }
            i = i + 1;
        }
        None
    }

    /// The key hash stored for `account`, if any.
    pub fn key_hash(&self, account: &String) -> (r: Option<&Vec<u8>>)
        requires
            self.wf(),
        ensures
            r is Some <==> self@.keys.contains_key(account@),
            r is Some ==> r->0@ == self@.keys[account@],
    {
        match self.find_key(account) {
            Some(i) => Some(&self.key_hashes[i].1),
            None => None,
        }
    }

    /// Stores `hash` as the key hash of `account`, replacing any earlier one.
    pub fn set_key_hash(&mut self, account: String, hash: Vec<u8>)
        requires
            old(self).wf(),
        ensures
            final(self).wf(),
            final(self)@ == (AuthView {
                keys: old(self)@.keys.insert(account@, hash@),
                ..old(self)@
            }),
    {
        let ghost a = account@;
        let ghost h = hash@;
        let found = self.find_key(&account);
        let ghost old_entries = self.key_hashes@;
        let ghost i: int = match found {
            Some(k) => k as int,
            None => old_entries.len() as int,
        };
        match found {
            Some(k) => {
                self.key_hashes.set(k, (account, hash));
            },
            None => {
                self.key_hashes.push((account, hash));
            },
        }
        self.key_model = Ghost(self.key_model@.insert(a, h));
        self.key_index = Ghost(self.key_index@.insert(a, i));
        proof {
            assert forall|b: Seq<char>| #[trigger] self.key_model@.contains_key(b) implies {
                &&& self.key_index@.contains_key(b)
                &&& 0 <= self.key_index@[b] < self.key_hashes@.len()
                &&& self.key_hashes@[self.key_index@[b]].0@ == b
            } by {
                if b != a {
                    assert(old(self).key_model@.contains_key(b));
                    let k = old(self).key_index@[b];
                    assert(old_entries[k].0@ == b);
                    assert(k != i);
                }
            }
            assert(self@.keys =~= old(self)@.keys.insert(a, h));
            assert(self@.revoked =~= old(self)@.revoked);
        }
    }

    /// The stored key hashes, one entry per account that has a key.
    pub fn key_entries(&self) -> (r: &Vec<(String, Vec<u8>)>)
        requires
            self.wf(),
        ensures
            forall|i: int|
                0 <= i < r@.len() ==> self@.keys.contains_key(#[trigger] r@[i].0@) && self@.keys[r@[i].0@]
                    == r@[i].1@,
            forall|a: Seq<char>|
                #[trigger] self@.keys.contains_key(a) ==> exists|i: int|
                    0 <= i < r@.len() && #[trigger] r@[i].0@ == a,
    {
        let r = &self.key_hashes;
        proof {
            assert forall|a: Seq<char>| #[trigger] self@.keys.contains_key(a) implies exists|i: int|
                0 <= i < r@.len() && #[trigger] r@[i].0@ == a by {
                let k = self.key_index@[a];
                assert(r@[k].0@ == a);
            }
        }
        r
    }

    /// The revoked `(account, permit name)` pairs.
    pub fn revoked_entries(&self) -> (r: &Vec<(String, String)>)
        ensures
            forall|i: int|
                0 <= i < r@.len() ==> self@.revoked.contains((#[trigger] r@[i].0@, r@[i].1@)),
            forall|p: (Seq<char>, Seq<char>)|
                #[trigger] self@.revoked.contains(p) ==> exists|i: int|
                    0 <= i < r@.len() && #[trigger] r@[i].0@ == p.0 && r@[i].1@ == p.1,
    {
        &self.revoked
    }

    /// Whether `(account, name)` has been revoked.
    pub fn is_revoked(&self, account: &String, name: &String) -> (r: bool)
        ensures
            r == self@.revoked.contains((account@, name@)),
    {
        let mut i: usize = 0;
        while i < self.revoked.len()
            invariant
                i <= self.revoked@.len(),
                forall|j: int|
                    0 <= j < i ==> !(self.revoked@[j].0@ == account@ && self.revoked@[j].1@
                        == name@),
            decreases self.revoked@.len() - i,
        {
            if self.revoked[i].0 == *account && self.revoked[i].1 == *name {
                return true;
            }
            i = i + 1;
        }
        false
    }

    /// Records `(account, name)` as revoked; a second revocation changes nothing.
    pub fn revoke(&mut self, account: String, name: String)
        requires
            old(self).wf(),
        ensures
            final(self).wf(),
            final(self)@ == after_revoke(old(self)@, account@, name@),
            old(self)@.revoked.contains((account@, name@)) ==> final(self)@ == old(self)@,
    {
        if self.is_revoked(&account, &name) {
            assert(self@.revoked.insert((account@, name@)) =~= self@.revoked);
            return;
        }
        let ghost p = (account@, name@);
        let ghost old_revoked = self.revoked@;
        self.revoked.push((account, name));
        proof {
            assert forall|q: (Seq<char>, Seq<char>)| #[trigger] self@.revoked.contains(q)
                == old(self)@.revoked.insert(p).contains(q) by {
                if old(self)@.revoked.contains(q) {
                    let k = choose|k: int|
                        0 <= k < old_revoked.len() && #[trigger] old_revoked[k].0@ == q.0
                            && old_revoked[k].1@ == q.1;
                    assert(self.revoked@[k] == old_revoked[k]);
                }
                if q == p {
                    assert(self.revoked@[old_revoked.len() as int].0@ == q.0);
                }
            }
            assert(self@.revoked =~= old(self)@.revoked.insert(p));
        }
    }
}

} // verus!
