//! One authorization request: check the credentials, then admit the address.
use vstd::prelude::*;
use crate::pass_checker::PassChecker;
use crate::pass_db::PassDb;

verus! {

/// Why a request was turned away.
#[derive(Debug, Clone, Copy, PartialEq, Eq, Structural)]
pub enum Rejection {
    /// No hash is stored for the identity.
    UserNotFound,
    /// The password does not match the stored hash.
    PasswordMismatch,
}

/// How a request ended, when the allow-list did not fail.
#[derive(Debug, Clone, Copy, PartialEq, Eq, Structural)]
pub enum Outcome {
    /// The address is on the allow-list.
    Admitted,
    /// The credentials were refused; the allow-list was not touched.
    Rejected(Rejection),
}

/// The rejection that `login` and `password` earn against `db`, if any.
pub open spec fn verdict(
    checker: &PassChecker,
    db: Map<Seq<char>, Seq<u8>>,
    login: Seq<char>,
    password: Seq<char>,
) -> Option<Rejection> {
    if !db.contains_key(login) {
        Some(Rejection::UserNotFound)
    } else if !checker.matches(login, db[login], password) {
        Some(Rejection::PasswordMismatch)
    } else {
        None
    }
}

impl Rejection {
    /// The message shown to the user.
    pub fn message(&self) -> (r: &'static str)
        ensures
            *self == Rejection::UserNotFound ==> r@ == "User not found"@,
            *self == Rejection::PasswordMismatch ==> r@ == "Password doesn't match"@,
    {
        match self {
            Rejection::UserNotFound => "User not found",
            Rejection::PasswordMismatch => "Password doesn't match",
        }
    }
}

/// Checks `login` and `password` against the stored hashes.
pub fn verify_credentials(checker: &PassChecker, db: &PassDb, login: &str, password: &str) -> (r:
    Option<Rejection>)
    requires
        checker.wf(),
        db.wf(),
        checker.accepts(login, password),
    ensures
        r == verdict(checker, db@, login@, password@),
{
    match db.find_hash(login) {
        None => Some(Rejection::UserNotFound),
        Some(hash) => {
            if checker.check_password(login, hash.as_slice(), password) {
                None
            } else {
                Some(Rejection::PasswordMismatch)
            }
        },
    }
}

/// What the allow-list must do next for a request, or how the request ends.
#[derive(Debug, Clone, Copy, PartialEq, Eq, Structural)]
pub enum Action {
    /// Ask whether the client's address is admitted.
    CheckAddress,
    /// Admit the client's address.
    AddAddress,
    /// The request is over.
    Finish(Outcome),
}

/// What the allow-list answered to the last action.
#[derive(Debug, Clone, Copy, PartialEq, Eq, Structural)]
pub enum Event {
    /// The membership check succeeded with this answer.
    Checked(bool),
    /// The address was admitted.
    Added,
}

/// The first step of a request carrying `login` and `password`: refused
/// credentials end it before the allow-list is consulted; accepted ones go on
/// to check the client's address.
pub fn begin(checker: &PassChecker, db: &PassDb, login: &str, password: &str) -> (r: Action)
    requires
        checker.wf(),
        db.wf(),
        checker.accepts(login, password),
    ensures
        r == match verdict(checker, db@, login@, password@) {
            Some(why) => Action::Finish(Outcome::Rejected(why)),
            None => Action::CheckAddress,
        },
{
    match verify_credentials(checker, db, login, password) {
        Some(why) => Action::Finish(Outcome::Rejected(why)),
        None => Action::CheckAddress,
    }
}

/// The step after a successful allow-list operation: an address found on the
/// list is admitted as it is; one not found is added, once; after the add the
/// request succeeds. A failed operation ends the request with its error, so it
/// never reaches this step.
pub fn next(event: Event) -> (r: Action)
    ensures
        event == Event::Checked(true) ==> r == Action::Finish(Outcome::Admitted),
        event == Event::Checked(false) ==> r == Action::AddAddress,
        event == Event::Added ==> r == Action::Finish(Outcome::Admitted),
{
    match event {
        Event::Checked(true) => Action::Finish(Outcome::Admitted),
        Event::Checked(false) => Action::AddAddress,
        Event::Added => Action::Finish(Outcome::Admitted),
    }
}

} // verus!
