//! The account that every request is made for.

use vstd::prelude::*;

verus! {

/// The mathematical model of a set of credentials.
pub struct CredentialsView {
    pub username: Seq<char>,
    pub password: Seq<char>,
    pub server: Seq<char>,
}

/// A user name, a password and the server's base URL. The base URL is the
/// prefix of every URL that the client asks for.
#[derive(Debug)]
pub struct Credentials {
    username: String,
    password: String,
    server: String,
}

impl View for Credentials {
    type V = CredentialsView;

    closed spec fn view(&self) -> CredentialsView {
        CredentialsView {
            username: self.username@,
            password: self.password@,
            server: self.server@,
        }
    }
}

impl Credentials {
    /// Makes credentials of a user name, a password and a server base URL.
    pub fn new(username: &str, password: &str, server: &str) -> (cred: Self)
        ensures
            cred@.username == username@,
            cred@.password == password@,
            cred@.server == server@,
    {
        Credentials {
            username: username.to_owned(),
            password: password.to_owned(),
            server: server.to_owned(),
        }
    }

    /// The user name.
    pub fn username(&self) -> (s: &str)
        ensures
            s@ == self@.username,
    {
        self.username.as_str()
    }

    /// The password.
    pub fn password(&self) -> (s: &str)
        ensures
            s@ == self@.password,
    {
        self.password.as_str()
    }

    /// The server's base URL.
    pub fn server(&self) -> (s: &str)
        ensures
            s@ == self@.server,
    {
        self.server.as_str()
    }

}

impl Clone for Credentials {
    fn clone(&self) -> (copy: Self)
        ensures
            copy@ == self@,
    {
        Credentials {
            username: self.username.clone(),
            password: self.password.clone(),
            server: self.server.clone(),
        }
    }
}

} // verus!
