//! One row of the login database.

use vstd::prelude::*;
use crate::secret::Secret;

verus! {

/// The fields of a login entry that a template can refer to.
#[derive(Clone, Copy, PartialEq, Eq, Structural, Debug)]
pub enum Variable {
    Login,
    Account,
    Password,
}

/// The credentials stored for one host. A field that the database left out is
/// the empty string.
pub struct LoginEntry {
    pub login: Secret,
    pub account: Secret,
    pub password: Secret,
}

/// What a [`LoginEntry`] holds, as plain text.
pub struct LoginFields {
    pub login: Seq<char>,
    pub account: Seq<char>,
    pub password: Seq<char>,
}

impl LoginFields {
    /// The text that `variable` stands for.
    pub open spec fn value(self, variable: Variable) -> Seq<char> {
        match variable {
            Variable::Login => self.login,
            Variable::Account => self.account,
            Variable::Password => self.password,
        }
    }
}

impl View for LoginEntry {
    type V = LoginFields;

    open spec fn view(&self) -> LoginFields {
        LoginFields { login: self.login@, account: self.account@, password: self.password@ }
    }
}

impl LoginEntry {
    /// An entry with the three fields given.
    pub fn new(login: String, account: String, password: String) -> (entry: LoginEntry)
        ensures
            entry@ == (LoginFields { login: login@, account: account@, password: password@ }),
    {
        LoginEntry {
            login: Secret::new(login),
            account: Secret::new(account),
            password: Secret::new(password),
        }
    }

    /// The field that `variable` stands for.
    pub fn field(&self, variable: Variable) -> (secret: &Secret)
        ensures
            secret@ == self@.value(variable),
    {
        match variable {
            Variable::Login => &self.login,
            Variable::Account => &self.account,
            Variable::Password => &self.password,
        }
    }
}

} // verus!
