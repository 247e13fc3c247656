//! The session state machine: an account store plus the single optional
//! "currently authenticated username" slot, and one step function per
//! menu-driven flow. Each step takes the already-read input lines as plain
//! values and returns the operator-visible outcome; the surrounding prompt
//! and retry loops live with the caller.

use vstd::prelude::*;
use crate::store::{spec_validate, validate_account, AccountStore, Status};

verus! {

/// Outcome of one pass of the account-creation flow.
#[derive(Clone, Copy, PartialEq, Eq, Structural, Debug)]
pub enum CreateOutcome {
    /// The username is taken; nothing was created and nothing changed.
    UsernameTaken,
    /// The two credential lines differ; nothing changed.
    PasswordMismatch,
    /// The account was created and is now the authenticated user.
    Created,
}

/// Outcome of one pass of the login flow.
#[derive(Clone, Copy, PartialEq, Eq, Structural, Debug)]
pub enum LoginOutcome {
    /// The given username is already the authenticated user; nothing changed.
    AlreadyLoggedIn,
    /// The credentials validated; the session now holds this user.
    Success,
    /// Unknown username or wrong credential; deliberately not told apart.
    Failure,
    /// Validation met the reserved marker; the caller must terminate.
    Fatal,
}

/// Outcome of one pass of the change-password flow.
#[derive(Clone, Copy, PartialEq, Eq, Structural, Debug)]
pub enum ChangeOutcome {
    /// No authenticated user; nothing changed.
    NotLoggedIn,
    /// The two credential lines differ; the stored credential is untouched.
    PasswordMismatch,
    /// The authenticated user's credential was overwritten.
    Updated,
}

/// Outcome of the delete-account flow.
#[derive(Clone, Copy, PartialEq, Eq, Structural, Debug)]
pub enum DeleteOutcome {
    /// The operator answered no to the confirmation; nothing changed.
    Aborted,
    /// No authenticated user; nothing changed.
    NotLoggedIn,
    /// The authenticated user's account was removed and the session cleared.
    Deleted,
}

/// Outcome of the logout flow.
#[derive(Clone, Copy, PartialEq, Eq, Structural, Debug)]
pub enum LogoutOutcome {
    /// A user was authenticated; the slot is now clear.
    LoggedOut,
    /// No user was authenticated; the slot stays clear.
    NotLoggedIn,
}

/// The mathematical state of a session: the stored accounts and the
/// authenticated username, if any.
#[verifier::ext_equal]
pub struct SessionView {
    pub accounts: Map<Seq<char>, Seq<char>>,
    pub current: Option<Seq<char>>,
}

/// One pass of account creation: a taken username is refused untouched, a
/// mismatched confirmation is refused untouched, and otherwise the pair is
/// stored and the new account becomes the authenticated user.
pub open spec fn spec_create(s: SessionView, u: Seq<char>, p1: Seq<char>, p2: Seq<char>) -> (
    SessionView,
    CreateOutcome,
) {
    if s.accounts.dom().contains(u) {
        (s, CreateOutcome::UsernameTaken)
    } else if p1 != p2 {
        (s, CreateOutcome::PasswordMismatch)
    } else {
        (
            SessionView { accounts: s.accounts.insert(u, p1), current: Some(u) },
            CreateOutcome::Created,
        )
    }
}

/// One pass of login: logging in as the authenticated user is refused, a
/// validation `Error` is fatal, `LoginSuccess` authenticates the user, and
/// the two credential failures are folded into one outcome.
pub open spec fn spec_login(s: SessionView, u: Seq<char>, p: Seq<char>) -> (
    SessionView,
    LoginOutcome,
) {
    if s.current == Some(u) {
        (s, LoginOutcome::AlreadyLoggedIn)
    } else {
        match spec_validate(s.accounts, u, p) {
            Status::Error => (s, LoginOutcome::Fatal),
            Status::LoginSuccess => (
                SessionView { accounts: s.accounts, current: Some(u) },
                LoginOutcome::Success,
            ),
            _ => (s, LoginOutcome::Failure),
        }
    }
}

/// One pass of change-password: refused without an authenticated user or on
/// a mismatched confirmation, else the stored credential is overwritten.
pub open spec fn spec_change_password(s: SessionView, p1: Seq<char>, p2: Seq<char>) -> (
    SessionView,
    ChangeOutcome,
) {
    match s.current {
        None => (s, ChangeOutcome::NotLoggedIn),
        Some(u) => {
            if p1 != p2 {
                (s, ChangeOutcome::PasswordMismatch)
            } else {
                (
                    SessionView { accounts: s.accounts.insert(u, p1), current: Some(u) },
                    ChangeOutcome::Updated,
                )
            }
        },
    }
}

/// Delete-account: nothing happens without confirmation or without an
/// authenticated user; otherwise that user's entry is removed and the
/// session slot cleared.
pub open spec fn spec_delete_account(s: SessionView, confirmed: bool) -> (
    SessionView,
    DeleteOutcome,
) {
    if !confirmed {
        (s, DeleteOutcome::Aborted)
    } else {
        match s.current {
            None => (s, DeleteOutcome::NotLoggedIn),
            Some(u) => (
                SessionView { accounts: s.accounts.remove(u), current: None },
                DeleteOutcome::Deleted,
            ),
        }
    }
}

/// Logout: the slot is cleared unconditionally; the outcome only reports
/// whether anyone had been authenticated.
pub open spec fn spec_logout(s: SessionView) -> (SessionView, LogoutOutcome) {
    (
        SessionView { accounts: s.accounts, current: None },
        if s.current is Some {
            LogoutOutcome::LoggedOut
        } else {
            LogoutOutcome::NotLoggedIn
        },
    )
}

/// One interactive session: the account store and the authenticated-user
/// slot, stepped by the flows below.
pub struct Session {
    store: AccountStore,
    current: Option<String>,
}

impl View for Session {
    type V = SessionView;

    closed spec fn view(&self) -> SessionView {
        SessionView {
            accounts: self.store@,
            current: match self.current {
                Some(ref u) => Some(u@),
                None => None,
            },
        }
    }
}

impl Session {
    /// Well-formedness: the store is well-formed, and an authenticated
    /// username always names a stored account.
    pub closed spec fn wf(self) -> bool {
        &&& self.store.wf()
        &&& match self@.current {
            Some(u) => self@.accounts.dom().contains(u),
            None => true,
        }
    }

    /// Creates a fresh session: no accounts, nobody authenticated.
    pub fn new() -> (s: Session)
        ensures
            s.wf(),
            s@.accounts == Map::<Seq<char>, Seq<char>>::empty(),
            s@.current is None,
    {
        Session { store: AccountStore::new(), current: None }
    }

    /// Read access to the account store.
    pub fn store(&self) -> (r: &AccountStore)
        requires
            self.wf(),
        ensures
            r.wf(),
            r@ == self@.accounts,
    {
        &self.store
    }

    /// The authenticated username, if any.
    pub fn current_username(&self) -> (r: Option<&String>)
        ensures
            match r {
                Some(u) => self@.current == Some(u@),
                None => self@.current is None,
            },
    {
        match self.current {
            Some(ref u) => Some(u),
            None => None,
        }
    }

    /// Whether `username` names the currently authenticated user.
    pub fn is_current(&self, username: &str) -> (r: bool)
        ensures
            r == (self@.current == Some(username@)),
    {
        match self.current {
            Some(ref u) => crate::text::str_eq(u.as_str(), username),
            None => false,
        }
    }

    /// Whether an account with this username already exists.
    pub fn username_taken(&self, username: &str) -> (r: bool)
        ensures
            r == self@.accounts.dom().contains(username@),
    {
        self.store.exists_user(username)
    }

    /// One pass of the account-creation flow, on a trimmed username and the
    /// two trimmed credential lines.
    pub fn create_account(&mut self, username: String, password: String, password2: &str) -> (r:
        CreateOutcome)
        requires
            old(self).wf(),
        ensures
            final(self).wf(),
            (final(self)@, r) == spec_create(old(self)@, username@, password@, password2@),
    {
        if self.store.exists_user(username.as_str()) {
            CreateOutcome::UsernameTaken
        } else if !crate::text::str_eq(password.as_str(), password2) {
            CreateOutcome::PasswordMismatch
        } else {
            let ghost pre = *self;
            proof {
                assert(!pre@.accounts.dom().contains(username@));
            }
            self.store.put(username.clone(), password);
            self.current = Some(username);
            proof {
                assert(self@ =~= spec_create(pre@, username@, password@, password2@).0);
            }
            CreateOutcome::Created
        }
    }

    /// One pass of the login flow, on a trimmed username and credential.
    pub fn login(&mut self, username: String, password: &str) -> (r: LoginOutcome)
        requires
            old(self).wf(),
        ensures
            final(self).wf(),
            (final(self)@, r) == spec_login(old(self)@, username@, password@),
    {
        if self.is_current(username.as_str()) {
            LoginOutcome::AlreadyLoggedIn
        } else {
            match validate_account(&self.store, username.as_str(), password) {
                Status::Error => LoginOutcome::Fatal,
                Status::LoginSuccess => {
                    let ghost pre = *self;
                    self.current = Some(username);
                    proof {
                        assert(self@ =~= spec_login(pre@, username@, password@).0);
                    }
                    LoginOutcome::Success
                },
                _ => LoginOutcome::Failure,
            }
        }
    }

    /// One pass of the change-password flow, on the two trimmed credential
    /// lines.
    pub fn change_password(&mut self, password: String, password2: &str) -> (r: ChangeOutcome)
        requires
            old(self).wf(),
        ensures
            final(self).wf(),
            (final(self)@, r) == spec_change_password(old(self)@, password@, password2@),
    {
        let username = match self.current {
            Some(ref u) => u.clone(),
            None => {
                return ChangeOutcome::NotLoggedIn;
            },
        };
        if !crate::text::str_eq(password.as_str(), password2) {
            ChangeOutcome::PasswordMismatch
        } else {
            let ghost pre = *self;
            self.store.put(username, password);
            proof {
                assert(self@ =~= spec_change_password(pre@, password@, password2@).0);
            }
            ChangeOutcome::Updated
        }
    }

    /// The delete-account flow, given the answer to its confirmation prompt.
    pub fn delete_account(&mut self, confirmed: bool) -> (r: DeleteOutcome)
        requires
            old(self).wf(),
        ensures
            final(self).wf(),
            (final(self)@, r) == spec_delete_account(old(self)@, confirmed),
    {
        if !confirmed {
            DeleteOutcome::Aborted
        } else {
            let username = match self.current {
                Some(ref u) => u.clone(),
                None => {
                    return DeleteOutcome::NotLoggedIn;
                },
            };
            let ghost pre = *self;
            self.store.remove_user(username.as_str());
            self.current = None;
            proof {
                assert(self@ =~= spec_delete_account(pre@, confirmed).0);
            }
            DeleteOutcome::Deleted
        }
    }

    /// The logout flow: clears the slot whether or not anyone was
    /// authenticated.
    pub fn logout(&mut self) -> (r: LogoutOutcome)
        requires
            old(self).wf(),
        ensures
            final(self).wf(),
            (final(self)@, r) == spec_logout(old(self)@),
    {
        let was = match self.current {
            Some(_) => true,
            None => false,
        };
        self.current = None;
        if was {
            LogoutOutcome::LoggedOut
        } else {
            LogoutOutcome::NotLoggedIn
        }
    }
}

} // verus!
