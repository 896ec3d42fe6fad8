use vstd::prelude::*;

use crate::models::{User, UserView};
use crate::reply::{failure_of, settle, settled, Failure, Reply};

verus! {

/// The abstract state of the users page: the mirror of the store's records,
/// in the order they were observed, and the two buffers of the create form.
pub struct PageView {
    pub users: Seq<UserView>,
    pub name: Seq<char>,
    pub email: Seq<char>,
}

/// The abstract values of a sequence of records.
pub open spec fn user_views(v: Seq<User>) -> Seq<UserView> {
    v.map_values(|u: User| u@)
}

/// Every record carries an id that the store assigned.
pub open spec fn all_persisted(users: Seq<UserView>) -> bool {
    forall|i: int| 0 <= i < users.len() ==> #[trigger] users[i].id != 0
}

/// The records of `users` whose id differs from `id`, in their order.
pub open spec fn without_id(users: Seq<UserView>, id: i64) -> Seq<UserView>
    decreases users.len(),
{
    if users.len() == 0 {
        Seq::empty()
    } else {
        let rest = without_id(users.drop_last(), id);
        if users.last().id == id {
            rest
        } else {
            rest.push(users.last())
        }
    }
}

/// How many records of `users` carry the id `id`.
pub open spec fn count_id(users: Seq<UserView>, id: i64) -> nat
    decreases users.len(),
{
    if users.len() == 0 {
        0
    } else {
        count_id(users.drop_last(), id) + if users.last().id == id {
            1nat
        } else {
            0nat
        }
    }
}

/// The page as it is first shown: no records and empty buffers.
pub open spec fn initial_page() -> PageView {
    PageView { users: Seq::empty(), name: Seq::empty(), email: Seq::empty() }
}

/// The record that a submission of the create form sends: the two buffers
/// with the sentinel id, or a refusal when either buffer is empty.
pub open spec fn candidate_of(s: PageView) -> Result<UserView, Failure> {
    if s.name.len() == 0 || s.email.len() == 0 {
        Err(Failure::EmptyField)
    } else {
        Ok(UserView { id: 0, name: s.name, email: s.email })
    }
}

/// A listing is taken as it comes, unless it holds a record without a
/// store-assigned id, which makes it malformed.
pub open spec fn listing_confirmed(rows: Seq<UserView>) -> Result<Seq<UserView>, Failure> {
    if all_persisted(rows) {
        Ok(rows)
    } else {
        Err(Failure::Decode)
    }
}

/// A created record confirms the creation only when it carries a
/// store-assigned id.
pub open spec fn creation_confirmed(rec: UserView) -> Result<UserView, Failure> {
    if rec.id != 0 {
        Ok(rec)
    } else {
        Err(Failure::Decode)
    }
}

/// The outcome of a list request.
pub open spec fn list_result(reply: Reply<Vec<User>>) -> Result<Seq<UserView>, Failure> {
    match settled(reply) {
        Ok(rows) => listing_confirmed(user_views(rows@)),
        Err(f) => Err(f),
    }
}

/// The outcome of a create request.
pub open spec fn create_result(reply: Reply<User>) -> Result<UserView, Failure> {
    match settled(reply) {
        Ok(u) => creation_confirmed(u@),
        Err(f) => Err(f),
    }
}

/// Reconciling a listing: on success the mirror becomes the listing.
pub open spec fn after_load(s: PageView, got: Result<Seq<UserView>, Failure>) -> PageView {
    match got {
        Ok(rows) => PageView { users: rows, ..s },
        Err(_) => s,
    }
}

/// Reconciling a creation: on success the record goes to the end of the
/// mirror and both buffers are cleared.
pub open spec fn after_create(s: PageView, got: Result<UserView, Failure>) -> PageView {
    match got {
        Ok(rec) => PageView { users: s.users.push(rec), name: Seq::empty(), email: Seq::empty() },
        Err(_) => s,
    }
}

/// Reconciling a deletion of `id`: on success every record with that id
/// leaves the mirror.
pub open spec fn after_delete(s: PageView, id: i64, got: Result<(), Failure>) -> PageView {
    match got {
        Ok(_) => PageView { users: without_id(s.users, id), ..s },
        Err(_) => s,
    }
}

/// The state of the users page. The mirror changes only after the store has
/// confirmed an operation, never in advance of it.
pub struct UsersPage {
    users: Vec<User>,
    name: String,
    email: String,
}

impl View for UsersPage {
    type V = PageView;

    closed spec fn view(&self) -> PageView {
        PageView { users: user_views(self.users@), name: self.name@, email: self.email@ }
    }
}

fn copy_user(u: &User) -> (r: User)
    ensures
        r@ == u@,
{
    User { id: u.id, name: u.name.clone(), email: u.email.clone() }
}

/// Tells whether every record carries a store-assigned id.
fn all_assigned(rows: &Vec<User>) -> (r: bool)
    ensures
        r == all_persisted(user_views(rows@)),
{
    let mut i: usize = 0;
    while i < rows.len()
        invariant
            i <= rows.len(),
            forall|j: int| 0 <= j < i ==> #[trigger] rows@[j].id != 0,
        decreases rows.len() - i,
    {
        if rows[i].id == 0 {
            assert(user_views(rows@)[i as int].id == 0);
            return false;
        }
        i = i + 1;
    }
    assert(all_persisted(user_views(rows@)));
    true
}

impl UsersPage {
    /// Every record of the mirror carries a store-assigned id.
    pub open spec fn wf(&self) -> bool {
        all_persisted(self@.users)
    }

    /// A page with no records and empty buffers.
    pub fn new() -> (r: UsersPage)
        ensures
            r@ == initial_page(),
            r.wf(),
    {
        let r = UsersPage { users: Vec::new(), name: String::new(), email: String::new() };
        assert(r@.users =~= Seq::<UserView>::empty());
        r
    }

    /// The mirror of the store's records.
    pub fn users(&self) -> (r: &Vec<User>)
        ensures
            user_views(r@) == self@.users,
    {
        &self.users
    }

    /// The name buffer of the create form.
    pub fn name(&self) -> (r: &String)
        ensures
            r@ == self@.name,
    {
        &self.name
    }

    /// The email buffer of the create form.
    pub fn email(&self) -> (r: &String)
        ensures
            r@ == self@.email,
    {
        &self.email
    }

    /// Replaces the name buffer with what the user typed.
    pub fn set_name(&mut self, name: String)
        ensures
            final(self)@ == (PageView { name: name@, ..old(self)@ }),
    {
        self.name = name;
    }

    /// Replaces the email buffer with what the user typed.
    pub fn set_email(&mut self, email: String)
        ensures
            final(self)@ == (PageView { email: email@, ..old(self)@ }),
    {
        self.email = email;
    }

    /// Submits the create form: the record to send to the store, with the
    /// sentinel id, or `EmptyField` when either buffer is empty, in which
    /// case nothing is to be sent.
    pub fn submit(&self) -> (r: Result<User, Failure>)
        ensures
            match r {
                Ok(u) => candidate_of(self@) == Ok::<UserView, Failure>(u@),
                Err(f) => candidate_of(self@) == Err::<UserView, Failure>(f),
            },
    {
        if self.name.as_str().is_empty() || self.email.as_str().is_empty() {
            Err(Failure::EmptyField)
        } else {
            Ok(User { id: 0, name: self.name.clone(), email: self.email.clone() })
        }
    }

    /// Reconciles the answer to the list request made when the page is first
    /// shown. On success the mirror is replaced wholesale by the listing, in
    /// the store's order; on failure nothing changes. Returns the failure to
    /// log, if any.
    pub fn finish_load(&mut self, reply: Reply<Vec<User>>) -> (r: Option<Failure>)
        requires
            old(self).wf(),
        ensures
            final(self).wf(),
            final(self)@ == after_load(old(self)@, list_result(reply)),
            r == failure_of(list_result(reply)),
    {
        match settle(reply) {
            Ok(rows) => {
                if !all_assigned(&rows) {
                    return Some(Failure::Decode);
                }
                self.users = rows;
                None
            },
            Err(f) => Some(f),
        }
    }

    /// Reconciles the answer to a create request. On success the confirmed
    /// record goes to the end of the mirror and both buffers are cleared; on
    /// failure nothing changes. Returns the failure to log, if any.
    pub fn finish_create(&mut self, reply: Reply<User>) -> (r: Option<Failure>)
        requires
            old(self).wf(),
        ensures
            final(self).wf(),
            final(self)@ == after_create(old(self)@, create_result(reply)),
            r == failure_of(create_result(reply)),
    {
        match settle(reply) {
            Ok(u) => {
                if u.id == 0 {
                    return Some(Failure::Decode);
                }
                let ghost before = self.users@;
                self.users.push(u);
                assert(user_views(self.users@) =~= user_views(before).push(u@));
                self.name = String::new();
                self.email = String::new();
                None
            },
            Err(f) => Some(f),
        }
    }

    /// Reconciles the answer to a request that deletes the record `id`. On
    /// success every record with that id leaves the mirror, the others
    /// keeping their order; on failure nothing changes. Returns the failure
    /// to log, if any.
    pub fn finish_delete(&mut self, id: i64, reply: Reply<()>) -> (r: Option<Failure>)
        requires
            old(self).wf(),
        ensures
            final(self).wf(),
            final(self)@ == after_delete(old(self)@, id, settled(reply)),
            r == failure_of(settled(reply)),
    {
        match settle(reply) {
            Ok(_) => {
                let ghost all = user_views(self.users@);
                let mut kept: Vec<User> = Vec::new();
                let mut i: usize = 0;
                while i < self.users.len()
                    invariant
                        i <= self.users.len(),
                        all == user_views(self.users@),
                        user_views(kept@) == without_id(all.take(i as int), id),
                    decreases self.users.len() - i,
                {
                    let ghost pre = kept@;
                    assert(all.take(i as int + 1).drop_last() =~= all.take(i as int));
                    if self.users[i].id != id {
                        kept.push(copy_user(&self.users[i]));
                        assert(user_views(kept@) =~= user_views(pre).push(all[i as int]));
                    }
                    i = i + 1;
                }
                assert(all.take(i as int) =~= all);
                proof {
                    lemma_without_id_keeps(all, id);
                }
                self.users = kept;
                None
            },
            Err(f) => Some(f),
        }
    }
}

/// Removing the records with one id keeps the others, so ids that the store
/// assigned stay assigned, and leaves none with that id.
pub proof fn lemma_without_id_keeps(users: Seq<UserView>, id: i64)
    ensures
        all_persisted(users) ==> all_persisted(without_id(users, id)),
        forall|i: int|
            0 <= i < without_id(users, id).len() ==> #[trigger] without_id(users, id)[i].id != id,
        without_id(users, id).len() <= users.len(),
    decreases users.len(),
{
    if users.len() > 0 {
        lemma_without_id_keeps(users.drop_last(), id);
        if all_persisted(users) {
            assert(all_persisted(users.drop_last())) by {
                assert forall|i: int| 0 <= i < users.drop_last().len() implies #[trigger] users.drop_last()[i].id != 0 by {
                    assert(users.drop_last()[i] == users[i]);
                }
            }
            assert(users.last() == users[users.len() - 1]);
        }
    }
}

} // verus!
