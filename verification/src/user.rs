//! The one record type of the store.

use vstd::prelude::*;

verus! {

/// A row of the `users` table: the identifier that the store assigned and the
/// two text columns, all three always present.
#[derive(Debug, Clone, PartialEq, Eq)]
pub struct User {
    pub id: i32,
    pub name: String,
    pub email: String,
}

/// The value of a [`User`]: its identifier as an integer and its two texts as
/// sequences of characters.
pub struct UserView {
    pub id: int,
    pub name: Seq<char>,
    pub email: Seq<char>,
}

impl View for User {
    type V = UserView;

    open spec fn view(&self) -> UserView {
        UserView { id: self.id as int, name: self.name@, email: self.email@ }
    }
}

/// The values of a sequence of users, in the same order.
pub open spec fn user_views(users: Seq<User>) -> Seq<UserView> {
    users.map_values(|u: User| u@)
}

impl User {
    /// A user made of the three columns of one row.
    pub fn new(id: i32, name: String, email: String) -> (user: User)
        ensures
            user@ == (UserView { id: id as int, name: name@, email: email@ }),
    {
        User { id, name, email }
    }

    /// A second value with the same three fields.
    pub fn duplicate(&self) -> (user: User)
        ensures
            user@ == self@,
    {
        User { id: self.id, name: self.name.clone(), email: self.email.clone() }
    }
}

} // verus!
