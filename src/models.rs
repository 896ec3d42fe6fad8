use vstd::prelude::*;

verus! {

/// The abstract value of a user record: its id and the characters of its two text fields.
pub struct UserView {
    pub id: i64,
    pub name: Seq<char>,
    pub email: Seq<char>,
}

/// A user record as the store holds it. An `id` of zero marks a record
/// that the store has not yet persisted.
#[derive(Clone, Debug)]
pub struct User {
    pub id: i64,
    pub name: String,
    pub email: String,
}

/// The body of a create request: the two fields that the client submits.
#[derive(Clone, Debug)]
pub struct UserRaw {
    pub name: String,
    pub email: String,
}

impl View for User {
    type V = UserView;

    open spec fn view(&self) -> UserView {
        UserView { id: self.id, name: self.name@, email: self.email@ }
    }
}

impl User {
    /// Builds a record from its parts.
    pub fn new(id: i64, name: String, email: String) -> (r: User)
        ensures
            r.id == id,
            r.name@ == name@,
            r.email@ == email@,
    {
        User { id, name, email }
    }
}

} // verus!
