use crate::domain::email::Email;
use crate::domain::password::Password;
use vstd::prelude::*;
use vstd::std_specs::cmp::PartialEqSpecImpl;

verus! {

/// An identity with its password and its choice of a second factor.
#[derive(Debug)]
pub struct User {
    pub email: Email,
    pub password: Password,
    pub requires_2fa: bool,
}

impl User {
    pub fn new(email: Email, password: Password, requires_2fa: bool) -> (user: User)
        ensures
            user.email == email,
            user.password == password,
            user.requires_2fa == requires_2fa,
    {
        User { email, password, requires_2fa }
    }
}

impl Clone for User {
    fn clone(&self) -> (copy: User)
        ensures
            copy.email@ == self.email@,
            copy.password@ == self.password@,
            copy.requires_2fa == self.requires_2fa,
    {
        User {
            email: self.email.clone(),
            password: self.password.clone(),
            requires_2fa: self.requires_2fa,
        }
    }
}

impl PartialEq for User {
    fn eq(&self, other: &User) -> (same: bool) {
        self.email == other.email && self.password == other.password && self.requires_2fa
            == other.requires_2fa
    }
}

impl PartialEqSpecImpl for User {
    open spec fn obeys_eq_spec() -> bool {
        true
    }

    open spec fn eq_spec(&self, other: &User) -> bool {
        &&& self.email@ == other.email@
        &&& self.password@ == other.password@
        &&& self.requires_2fa == other.requires_2fa
    }
}

} // verus!
