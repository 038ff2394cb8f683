use vstd::prelude::*;

use crate::user::validate::{Password, Username};

verus! {

/// Who is making a request: a logged-in account or the anonymous visitor.
#[derive(Debug)]
pub struct UserContext {
    pub id: i64,
    pub is_user: bool,
    pub username: String,
}

/// The identity of a request that presents no valid session.
pub open spec fn is_visitor(u: UserContext) -> bool {
    u.id == 0 && !u.is_user && u.username@ == "Visitor"@
}

impl UserContext {
    /// The anonymous visitor.
    pub fn visitor() -> (r: Self)
        ensures
            is_visitor(r),
    {
        UserContext { id: 0, is_user: false, username: String::from_str("Visitor") }
    }

    /// The logged-in account `id_username`.
    pub fn user(id_username: IdUsername) -> (r: Self)
        ensures
            r.id == id_username.id,
            r.is_user,
            r.username == id_username.username,
    {
        UserContext { id: id_username.id, is_user: true, username: id_username.username }
    }

    /// A copy of this identity.
    pub fn copy(&self) -> (r: Self)
        ensures
            r == *self,
    {
        UserContext { id: self.id, is_user: self.is_user, username: self.username.clone() }
    }
}

/// An account id and its stored password hash.
#[derive(Debug)]
pub struct IdPassword {
    pub id: i64,
    pub password: Vec<u8>,
}

/// An account id and its name.
#[derive(Debug)]
pub struct IdUsername {
    pub id: i64,
    pub username: String,
}

/// A registration whose fields passed their rules.
#[derive(Debug)]
pub struct UserRegisterFormValidated {
    pub username: Username,
    pub password: Password,
    pub password_confirm: Password,
}

} // verus!
