use vstd::prelude::*;

verus! {

/// The mathematical value of a stored user: its three fields as character
/// sequences.
pub struct UserView {
    pub id: Seq<char>,
    pub username: Seq<char>,
    pub email: Seq<char>,
}

/// The sole persisted entity: a user row. The identifier is supplied by the
/// caller before creation, is the only lookup key, and is never regenerated;
/// the other two fields are free-form and mutable.
#[derive(Debug)]
pub struct User {
    pub id: String,
    pub username: String,
    pub email: String,
}

impl View for User {
    type V = UserView;

    open spec fn view(&self) -> UserView {
        UserView { id: self.id@, username: self.username@, email: self.email@ }
    }
}

impl Clone for User {
    /// A field-for-field copy that denotes the same user value.
    fn clone(&self) -> (res: Self)
        ensures
            res == *self,
    {
        User { id: self.id.clone(), username: self.username.clone(), email: self.email.clone() }
    }
}

/// The views of a sequence of users, row by row.
pub open spec fn views_of(users: Seq<User>) -> Seq<UserView> {
    users.map_values(|u: User| u@)
}

} // verus!
