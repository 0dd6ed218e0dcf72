//! Authentication against one configured user name and password.

use vstd::prelude::*;

verus! {

/// What a client presents besides its user name.
pub struct Credentials {
    /// The password, where the client sent one.
    pub password: Option<String>,
}

impl Credentials {
    /// The password as a sequence of characters, where one was sent.
    pub open spec fn password_view(&self) -> Option<Seq<char>> {
        match self.password {
            Some(p) => Some(p@),
            None => None,
        }
    }
}

/// An authenticated client. There is one identity, so it carries nothing.
#[derive(Debug, Clone, Copy, PartialEq, Eq, Structural)]
pub struct User;

/// Why a client was turned away.
#[derive(Debug, Clone, Copy, PartialEq, Eq, Structural)]
pub enum AuthFailure {
    /// A password was sent and it is not the configured one.
    BadPassword,
    /// The user name is not the configured one.
    BadUser,
}

/// The answer for the configured pair `(user, pass)` when a client
/// presents `username` and, possibly, `password`. A wrong password is
/// reported before a wrong user name.
pub open spec fn admission(
    user: Seq<char>,
    pass: Seq<char>,
    username: Seq<char>,
    password: Option<Seq<char>>,
) -> Result<User, AuthFailure> {
    if password is Some && password != Some(pass) {
        Err(AuthFailure::BadPassword)
    } else if username != user {
        Err(AuthFailure::BadUser)
    } else {
        Ok(User)
    }
}

/// Checks clients against one fixed user name and password.
#[derive(Debug)]
pub struct UsernamePasswordAuthenticator {
    username: String,
    password: String,
}

impl UsernamePasswordAuthenticator {
    /// The configured user name.
    pub closed spec fn username(&self) -> Seq<char> {
        self.username@
    }

    /// The configured password.
    pub closed spec fn password(&self) -> Seq<char> {
        self.password@
    }

    pub fn new(username: String, password: String) -> (auth: Self)
        ensures
            auth.username() == username@,
            auth.password() == password@,
    {
        Self { username, password }
    }

    /// One synchronous check of what a client presented.
    pub fn authenticate(&self, username: &str, creds: &Credentials) -> (verdict: Result<
        User,
        AuthFailure,
    >)
        ensures
            verdict == admission(self.username(), self.password(), username@, creds.password_view()),
    {
        if let Some(password) = &creds.password {
            if !(*password == self.password) {
                return Err(AuthFailure::BadPassword);
            }
        }
        let presented = username.to_owned();
        if !(presented == self.username) {
            return Err(AuthFailure::BadUser);
        }
        Ok(User)
    }
}

/// A client is let in exactly when its user name is the configured one and
/// the password, where it sent one, is the configured one; a client that
/// sends no password is judged by its user name alone.
pub proof fn lemma_let_in_iff(
    user: Seq<char>,
    pass: Seq<char>,
    username: Seq<char>,
    password: Option<Seq<char>>,
)
    ensures
        admission(user, pass, username, password) is Ok <==> (username == user && (password is None
            || password == Some(pass))),
        admission(user, pass, username, None) is Ok <==> username == user,
        admission(user, pass, username, password) == Err::<User, AuthFailure>(AuthFailure::BadPassword)
            <==> (password is Some && password != Some(pass)),
        admission(user, pass, username, password) == Err::<User, AuthFailure>(AuthFailure::BadUser)
            <==> (username != user && (password is None || password == Some(pass))),
{
}

} // verus!
