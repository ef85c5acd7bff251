//! The data model: persisted users and creation requests.

use vstd::prelude::*;

verus! {

/// A persisted user row.  The `id` is generated by the storage layer on
/// insert and is never `0` once a row exists; `username` is unique across
/// all rows.  The password is stored as it arrived (no hashing exists in
/// this service) and is redacted by every view.
#[derive(Debug, PartialEq)]
pub struct User {
    pub id: u128,
    pub username: String,
    pub email: String,
    pub password: String,
}

impl Clone for User {
    fn clone(&self) -> (other: Self)
        ensures
            other == *self,
    {
        User {
            id: self.id,
            username: self.username.clone(),
            email: self.email.clone(),
            password: self.password.clone(),
        }
    }
}

/// The mathematical value of a `User`: the id and the three text fields as
/// character sequences.
pub ghost struct UserView {
    pub id: u128,
    pub username: Seq<char>,
    pub email: Seq<char>,
    pub password: Seq<char>,
}

impl View for User {
    type V = UserView;

    open spec fn view(&self) -> UserView {
        UserView {
            id: self.id,
            username: self.username@,
            email: self.email@,
            password: self.password@,
        }
    }
}

/// A creation request: a user row without an id.  It is built from one
/// request body, handed once to the repository, and discarded.
#[derive(Debug, PartialEq)]
pub struct NewUser {
    pub username: String,
    pub email: String,
    pub password: String,
}

/// The mathematical value of a `NewUser`.
pub ghost struct NewUserView {
    pub username: Seq<char>,
    pub email: Seq<char>,
    pub password: Seq<char>,
}

impl View for NewUser {
    type V = NewUserView;

    open spec fn view(&self) -> NewUserView {
        NewUserView {
            username: self.username@,
            email: self.email@,
            password: self.password@,
        }
    }
}

/// The body of a `POST /users` request, already parsed from JSON by the
/// HTTP layer: all three fields must be present.
#[derive(Debug, PartialEq)]
pub struct RequestBody {
    pub username: String,
    pub password: String,
    pub email: String,
}

impl From<RequestBody> for NewUser {
    fn from(req: RequestBody) -> (new_user: NewUser) {
        NewUser {
            username: req.username,
            password: req.password,
            email: req.email,
        }
    }
}

impl vstd::std_specs::convert::FromSpecImpl<RequestBody> for NewUser {
    open spec fn obeys_from_spec() -> bool {
        true
    }

    open spec fn from_spec(req: RequestBody) -> NewUser {
        NewUser {
            username: req.username,
            password: req.password,
            email: req.email,
        }
    }
}

} // verus!
