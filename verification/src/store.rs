//! The account store: an in-memory mapping from username to credential,
//! viewed in specifications as a `Map<Seq<char>, Seq<char>>`, together with
//! the credential-validation function.

use vstd::prelude::*;
use vstd::seq_lib::*;
use crate::text::{invalid_input, invalid_marker, str_eq};

verus! {

/// The outcome of validating one username/credential pair against the store.
#[derive(Clone, Copy, PartialEq, Eq, Structural, Debug)]
pub enum Status {
    UsernameNotFound,
    IncorrectPassword,
    LoginSuccess,
    Error,
}

/// In-memory mapping from username to credential. Usernames are unique;
/// nothing is persisted beyond the life of the value.
pub struct AccountStore {
    accounts: Vec<(String, String)>,
}

impl View for AccountStore {
    type V = Map<Seq<char>, Seq<char>>;

    closed spec fn view(&self) -> Map<Seq<char>, Seq<char>> {
        Map::new(
            |u: Seq<char>| self.has_key(u),
            |u: Seq<char>| self.accounts@[self.index_of(u)].1@,
        )
    }
}

impl AccountStore {
    /// Well-formedness: no two entries share a username.
    pub closed spec fn wf(self) -> bool {
        forall|i: int, j: int|
            0 <= i < self.accounts@.len() && 0 <= j < self.accounts@.len() && i != j
                ==> self.accounts@[i].0@ != self.accounts@[j].0@
    }

    spec fn has_key(self, u: Seq<char>) -> bool {
        exists|i: int| 0 <= i < self.accounts@.len() && self.accounts@[i].0@ == u
    }

    spec fn index_of(self, u: Seq<char>) -> int {
        choose|i: int| 0 <= i < self.accounts@.len() && self.accounts@[i].0@ == u
    }

    proof fn lemma_index(self, i: int)
        requires
            self.wf(),
            0 <= i < self.accounts@.len(),
        ensures
            self.index_of(self.accounts@[i].0@) == i,
            self@.dom().contains(self.accounts@[i].0@),
            self@[self.accounts@[i].0@] == self.accounts@[i].1@,
    {
        let u = self.accounts@[i].0@;
        assert(self.has_key(u));
        let k = self.index_of(u);
        assert(0 <= k < self.accounts@.len() && self.accounts@[k].0@ == u);
        assert(k == i);
    }

    /// Creates an empty store.
    pub fn new() -> (s: AccountStore)
        ensures
            s.wf(),
            s@ == Map::<Seq<char>, Seq<char>>::empty(),
    {
        let s = AccountStore { accounts: Vec::new() };
        proof {
            assert(s@ =~= Map::<Seq<char>, Seq<char>>::empty());
        }
        s
    }

    fn find(&self, username: &str) -> (r: Option<usize>)
        ensures
            match r {
                Some(i) => i < self.accounts@.len() && self.accounts@[i as int].0@ == username@,
                None => !self.has_key(username@),
            },
    {
        let mut i: usize = 0;
        while i < self.accounts.len()
            invariant
                i <= self.accounts@.len(),
                forall|j: int| 0 <= j < i ==> self.accounts@[j].0@ != username@,
            decreases self.accounts@.len() - i,
        {
            if str_eq(self.accounts[i].0.as_str(), username) {
                return Some(i);
            }
            i += 1;
        }
        None
    }

    /// Whether an account with this username exists.
    pub fn exists_user(&self, username: &str) -> (r: bool)
        ensures
            r == self@.dom().contains(username@),
    {
        match self.find(username) {
            Some(_) => true,
            None => false,
        }
    }

    /// Looks the credential of `username` up; `None` when no such account
    /// exists.
    pub fn get(&self, username: &str) -> (r: Option<&String>)
        requires
            self.wf(),
        ensures
            match r {
                Some(p) => self@.dom().contains(username@) && p@ == self@[username@],
                None => !self@.dom().contains(username@),
            },
    {
        match self.find(username) {
            Some(i) => {
                proof {
                    self.lemma_index(i as int);
                }
                Some(&self.accounts[i].1)
            },
            None => None,
        }
    }

    /// Inserts the pair, overwriting any credential already stored under the
    /// same username.
    pub fn put(&mut self, username: String, password: String)
        requires
            old(self).wf(),
        ensures
            final(self).wf(),
            final(self)@ == old(self)@.insert(username@, password@),
    {
        self.remove_user(username.as_str());
        let ghost mid = *self;
        self.accounts.push((username, password));
        proof {
            let u = username@;
            let n = mid.accounts@.len();
            assert(!mid@.dom().contains(u));
            assert(!mid.has_key(u));
            assert(self.accounts@ == mid.accounts@.push((username, password)));
            assert forall|i: int, j: int|
                0 <= i < self.accounts@.len() && 0 <= j < self.accounts@.len() && i != j
                    implies self.accounts@[i].0@ != self.accounts@[j].0@ by {
                if i < n && j < n {
                    assert(mid.accounts@[i].0@ != mid.accounts@[j].0@);
                } else if i == n {
                    assert(self.accounts@[j].0@ != u);
                } else {
                    assert(self.accounts@[i].0@ != u);
                }
            }
            assert forall|k: Seq<char>| #[trigger] self.has_key(k)
                implies mid@.insert(u, password@).dom().contains(k) by {
                let i = choose|i: int|
                    0 <= i < self.accounts@.len() && self.accounts@[i].0@ == k;
                if i < n {
                    assert(mid.has_key(k));
                }
            }
            assert forall|k: Seq<char>| #[trigger] mid@.insert(u, password@).dom().contains(k)
                implies self.has_key(k) && self@[k] == mid@.insert(u, password@)[k] by {
                if k == u {
                    assert(self.accounts@[n as int].0@ == k);
                    self.lemma_index(n as int);
                } else {
                    assert(mid.has_key(k));
                    let i = choose|i: int|
                        0 <= i < mid.accounts@.len() && mid.accounts@[i].0@ == k;
                    assert(self.accounts@[i].0@ == k);
                    self.lemma_index(i);
                    mid.lemma_index(i);
                }
            }
            assert(self@ =~= mid@.insert(u, password@));
            assert(old(self)@.remove(u).insert(u, password@) =~= old(self)@.insert(u, password@));
        }
    }

    /// Removes the account with this username; a no-op when none exists.
    pub fn remove_user(&mut self, username: &str)
        requires
            old(self).wf(),
        ensures
            final(self).wf(),
            final(self)@ == old(self)@.remove(username@),
    {
        let u_index = self.find(username);
        match u_index {
            None => {
                proof {
                    assert(!old(self)@.dom().contains(username@));
                    assert(self@ =~= old(self)@.remove(username@));
                }
            },
            Some(i) => {
                self.accounts.remove(i);
                proof {
                    let u = username@;
                    let pre = old(self).accounts@;
                    let post = self.accounts@;
                    let n = pre.len();
                    assert(post == pre.remove(i as int));
                    assert forall|j: int| 0 <= j < post.len()
                        implies post[j] == (if j < i { pre[j] } else { pre[j + 1] }) by {}
                    assert forall|j: int, k: int|
                        0 <= j < post.len() && 0 <= k < post.len() && j != k
                            implies post[j].0@ != post[k].0@ by {
                        let j0: int = if j < i { j } else { j + 1 };
                        let k0: int = if k < i { k } else { k + 1 };
                        assert(pre[j0].0@ != pre[k0].0@);
                    }
                    assert forall|k: Seq<char>| #[trigger] self.has_key(k)
                        implies old(self)@.remove(u).dom().contains(k) by {
                        let j = choose|j: int| 0 <= j < post.len() && post[j].0@ == k;
                        let j0: int = if j < i { j } else { j + 1 };
                        assert(pre[j0].0@ == k);
                        assert(old(self).has_key(k));
                        if k == u {
                            assert(pre[j0].0@ == pre[i as int].0@);
                            assert(j0 == i);
                            assert(false);
                        }
                    }
                    assert forall|k: Seq<char>| #[trigger] old(self)@.remove(u).dom().contains(k)
                        implies self.has_key(k) && self@[k] == old(self)@.remove(u)[k] by {
                        assert(old(self).has_key(k) && k != u);
                        let j0 = choose|j0: int| 0 <= j0 < n && pre[j0].0@ == k;
                        assert(j0 != i);
                        let j: int = if j0 < i { j0 } else { j0 - 1 };
                        assert(post[j].0@ == k);
                        self.lemma_index(j);
                        old(self).lemma_index(j0);
                        assert(self@[k] == post[j].1@);
                        assert(old(self)@[k] == pre[j0].1@);
                    }
                    assert(self@ =~= old(self)@.remove(u));
                }
            },
        }
    }

    proof fn lemma_dom_len(self)
        requires
            self.wf(),
        ensures
            self@.dom().len() == self.accounts@.len(),
    {
        let keys = self.accounts@.map_values(|e: (String, String)| e.0@);
        assert(keys.no_duplicates());
        keys.unique_seq_to_set();
        assert forall|k: Seq<char>| #[trigger] keys.to_set().contains(k)
            implies self@.dom().contains(k) by {
            let i = choose|i: int| 0 <= i < keys.len() && keys[i] == k;
            assert(self.accounts@[i].0@ == k);
            assert(self.has_key(k));
        }
        assert forall|k: Seq<char>| #[trigger] self@.dom().contains(k)
            implies keys.to_set().contains(k) by {
            let i = choose|i: int|
                0 <= i < self.accounts@.len() && self.accounts@[i].0@ == k;
            assert(keys[i] == k);
        }
        assert(self@.dom() =~= keys.to_set());
    }

    /// The number of stored accounts.
    pub fn len(&self) -> (n: usize)
        requires
            self.wf(),
        ensures
            n == self@.dom().len(),
    {
        proof {
            self.lemma_dom_len();
        }
        self.accounts.len()
    }

    /// A snapshot of every `(username, credential)` pair. The order carries
    /// no meaning; every stored account appears exactly once.
    pub fn list_users(&self) -> (r: &Vec<(String, String)>)
        requires
            self.wf(),
        ensures
            r@.len() == self@.dom().len(),
            forall|i: int| 0 <= i < r@.len() ==> self@.contains_pair(#[trigger] r@[i].0@, r@[i].1@),
            forall|i: int, j: int|
                0 <= i < r@.len() && 0 <= j < r@.len() && i != j ==> r@[i].0@ != r@[j].0@,
            forall|k: Seq<char>|
                #[trigger] self@.dom().contains(k)
                    ==> exists|i: int| 0 <= i < r@.len() && r@[i].0@ == k,
    {
        proof {
            self.lemma_dom_len();
            assert forall|i: int| 0 <= i < self.accounts@.len()
                implies self@.contains_pair(#[trigger] self.accounts@[i].0@, self.accounts@[i].1@) by {
                self.lemma_index(i);
            }
        }
        &self.accounts
    }
}

/// What validating one username/credential pair against the store yields:
/// the reserved "no value" marker in either position is reported as `Error`;
/// an unknown username as `UsernameNotFound`; a known username with exactly
/// the stored credential as `LoginSuccess`; anything else as
/// `IncorrectPassword`.
pub open spec fn spec_validate(m: Map<Seq<char>, Seq<char>>, u: Seq<char>, p: Seq<char>) -> Status {
    if p == invalid_marker() || u == invalid_marker() {
        Status::Error
    } else if !m.dom().contains(u) {
        Status::UsernameNotFound
    } else if m[u] == p {
        Status::LoginSuccess
    } else {
        Status::IncorrectPassword
    }
}

/// Validates one username/credential pair against the store. Pure: the store
/// is only read.
pub fn validate_account(store: &AccountStore, username: &str, password: &str) -> (r: Status)
    requires
        store.wf(),
    ensures
        r == spec_validate(store@, username@, password@),
{
    if str_eq(password, invalid_input()) || str_eq(username, invalid_input()) {
        Status::Error
    } else {
        match store.get(username) {
            None => Status::UsernameNotFound,
            Some(stored) => {
                if str_eq(stored.as_str(), password) {
                    Status::LoginSuccess
                } else {
                    Status::IncorrectPassword
                }
            },
        }
    }
}

} // verus!
