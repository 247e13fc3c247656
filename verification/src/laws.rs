//! Laws of the session state machine, each proved over the specification
//! transitions that the executable flows are verified against.

use vstd::prelude::*;
use crate::session::{
    spec_change_password, spec_create, spec_delete_account, spec_logout, ChangeOutcome,
    CreateOutcome, DeleteOutcome, LogoutOutcome, SessionView,
};
use crate::store::{spec_validate, Status};
use crate::text::invalid_marker;

verus! {

/// Creating an account under a taken username changes nothing: the stored
/// credential is never overwritten, the session slot keeps its value, and
/// the outcome says the username is taken.
pub proof fn lemma_create_never_overwrites(
    s: SessionView,
    u: Seq<char>,
    p1: Seq<char>,
    p2: Seq<char>,
)
    requires
        s.accounts.dom().contains(u),
    ensures
        spec_create(s, u, p1, p2) == (s, CreateOutcome::UsernameTaken),
{
}

/// After an account `(u, p)` is created, validating `(u, p)` succeeds and
/// validating `(u, other)` for any `other != p` reports an incorrect
/// password — provided none of the texts is the reserved marker, which
/// validation refuses outright.
pub proof fn lemma_credential_round_trip(
    s: SessionView,
    u: Seq<char>,
    p: Seq<char>,
    other: Seq<char>,
)
    requires
        spec_create(s, u, p, p).1 == CreateOutcome::Created,
        u != invalid_marker(),
        p != invalid_marker(),
        other != invalid_marker(),
        other != p,
    ensures
        spec_validate(spec_create(s, u, p, p).0.accounts, u, p) == Status::LoginSuccess,
        spec_validate(spec_create(s, u, p, p).0.accounts, u, other) == Status::IncorrectPassword,
{
}

/// Validating any credential for a username that is not in the store reports
/// the username as unknown — provided neither text is the reserved marker.
pub proof fn lemma_unknown_user(m: Map<Seq<char>, Seq<char>>, u: Seq<char>, p: Seq<char>)
    requires
        !m.dom().contains(u),
        u != invalid_marker(),
        p != invalid_marker(),
    ensures
        spec_validate(m, u, p) == Status::UsernameNotFound,
{
}

/// A deleted user is an unknown user: after the authenticated user deletes
/// the account, validating that username reports it as unknown — provided
/// neither text is the reserved marker.
pub proof fn lemma_deleted_user_unknown(s: SessionView, u: Seq<char>, p: Seq<char>)
    requires
        s.current == Some(u),
        u != invalid_marker(),
        p != invalid_marker(),
    ensures
        spec_validate(spec_delete_account(s, true).0.accounts, u, p) == Status::UsernameNotFound,
{
}

/// A change-password pass whose confirmation does not match its first line
/// leaves the whole session — stored credential included — unchanged.
pub proof fn lemma_change_password_mismatch(s: SessionView, p1: Seq<char>, p2: Seq<char>)
    requires
        p1 != p2,
    ensures
        spec_change_password(s, p1, p2).0 == s,
        s.current is Some ==> spec_change_password(s, p1, p2).1 == ChangeOutcome::PasswordMismatch,
{
}

/// Deleting the authenticated user's own account clears the session slot,
/// and afterwards both a change-password pass and a confirmed delete are
/// refused for want of an authenticated user.
pub proof fn lemma_delete_clears_session(
    s: SessionView,
    p1: Seq<char>,
    p2: Seq<char>,
)
    requires
        s.current is Some,
    ensures
        spec_delete_account(s, true).0.current is None,
        spec_delete_account(s, true).1 == DeleteOutcome::Deleted,
        spec_change_password(spec_delete_account(s, true).0, p1, p2).1 == ChangeOutcome::NotLoggedIn,
        spec_delete_account(spec_delete_account(s, true).0, true).1 == DeleteOutcome::NotLoggedIn,
{
}

/// Logging out twice in a row is safe: the second pass changes nothing
/// beyond the first and reports that nobody is logged in.
pub proof fn lemma_logout_idempotent(s: SessionView)
    ensures
        spec_logout(spec_logout(s).0).0 == spec_logout(s).0,
        spec_logout(s).0.current is None,
        spec_logout(spec_logout(s).0).1 == LogoutOutcome::NotLoggedIn,
{
    assert(spec_logout(spec_logout(s).0).0 =~= spec_logout(s).0);
}

} // verus!
