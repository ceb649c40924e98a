//! Who may do what: every request needs a known user, and ingestion and
//! administration need an administrator.

use crate::error::ApiError;
use vstd::prelude::*;

verus! {

/// The name of the cookie that carries a user's credential.
pub fn auth_cookie_name() -> (name: &'static str)
    ensures
        name@ == "auth"@,
{
    "auth"
}

/// A user of the server.
#[derive(Debug, Clone, PartialEq, Eq)]
pub struct User {
    pub username: String,
    pub hashed_pass: String,
    pub admin: bool,
}

/// The mathematical value of a [`User`].
pub struct UserView {
    pub username: Seq<char>,
    pub hashed_pass: Seq<char>,
    pub admin: bool,
}

impl View for User {
    type V = UserView;

    open spec fn view(&self) -> UserView {
        UserView {
            username: self.username@,
            hashed_pass: self.hashed_pass@,
            admin: self.admin,
        }
    }
}

impl DeepView for User {
    type V = UserView;

    open spec fn deep_view(&self) -> UserView {
        self@
    }
}

/// The credentials with which a user logs in.
#[derive(Debug, Clone, PartialEq, Eq)]
pub struct Login {
    pub username: String,
    pub password: String,
}

/// A user to be created.
#[derive(Debug, Clone, PartialEq, Eq)]
pub struct NewUser {
    pub username: String,
    pub password: String,
    pub admin: bool,
}

/// The user behind a credential: the one whose name the verified credential
/// carries, if the store knows that user. `subject` is the name that the
/// credential carries, absent where there is no credential or none that
/// verifies; `user` is what the store holds under that name.
pub fn authenticated(subject: Option<&str>, user: Option<User>) -> (r: Result<User, ApiError>)
    ensures
        match r {
            Ok(known) => subject is Some && user == Some(known),
            Err(error) => error == ApiError::Unauthorized && (subject is None || user is None),
        },
{
    match subject {
        Some(_) => match user {
            Some(known) => Ok(known),
            None => Err(ApiError::Unauthorized),
        },
        None => Err(ApiError::Unauthorized),
    }
}

/// Whether a user may ingest files and administer the server.
pub fn require_admin(user: &User) -> (r: Result<(), ApiError>)
    ensures
        r is Ok <==> user.admin,
        r matches Err(error) ==> error == ApiError::Unauthorized,
{
    if user.admin {
        Ok(())
    } else {
        Err(ApiError::Unauthorized)
    }
}

/// The user that a login lets in: the one that the store holds under the
/// login's name, if the login's password is that user's.
pub fn accept_login(user: Option<User>, password_matches: bool) -> (r: Result<User, ApiError>)
    ensures
        match r {
            Ok(known) => password_matches && user == Some(known),
            Err(error) => error == ApiError::Unauthorized && (user is None || !password_matches),
        },
{
    match user {
        Some(known) => {
            if password_matches {
                Ok(known)
            } else {
                Err(ApiError::Unauthorized)
            }
        },
        None => Err(ApiError::Unauthorized),
    }
}

/// The user that an administrator creates from a request: the same name and
/// rights, with the hash in place of the password.
pub fn new_user_record(new_user: NewUser, hashed_pass: String) -> (user: User)
    ensures
        user@ == (UserView {
            username: new_user.username@,
            hashed_pass: hashed_pass@,
            admin: new_user.admin,
        }),
{
    User { username: new_user.username, hashed_pass, admin: new_user.admin }
}

} // verus!
