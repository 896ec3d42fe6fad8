use vstd::prelude::*;

use crate::models::UserView;
use crate::page::{
    after_create, after_delete, after_load, all_persisted, candidate_of, count_id,
    creation_confirmed, lemma_without_id_keeps, listing_confirmed, without_id, PageView,
};
use crate::reply::{failure_of, settled, Failure, Reply};
use crate::server::{deletion_status, inserted_record};

verus! {

/// A record is counted under its id when it is appended.
proof fn lemma_count_push(users: Seq<UserView>, rec: UserView, id: i64)
    ensures
        count_id(users.push(rec), id) == count_id(users, id) + if rec.id == id {
            1nat
        } else {
            0nat
        },
{
    assert(users.push(rec).drop_last() =~= users);
}

/// An id that no record carries is counted zero times.
proof fn lemma_count_absent(users: Seq<UserView>, id: i64)
    requires
        forall|i: int| 0 <= i < users.len() ==> #[trigger] users[i].id != id,
    ensures
        count_id(users, id) == 0,
    decreases users.len(),
{
    if users.len() > 0 {
        assert forall|i: int| 0 <= i < users.drop_last().len() implies #[trigger] users.drop_last()[i].id != id by {
            assert(users.drop_last()[i] == users[i]);
        }
        lemma_count_absent(users.drop_last(), id);
        assert(users.last() == users[users.len() - 1]);
    }
}

/// A record counted zero times under its id does not occur.
proof fn lemma_count_zero_absent(users: Seq<UserView>, id: i64)
    requires
        count_id(users, id) == 0,
    ensures
        forall|i: int| 0 <= i < users.len() ==> #[trigger] users[i].id != id,
    decreases users.len(),
{
    if users.len() > 0 {
        lemma_count_zero_absent(users.drop_last(), id);
        assert forall|i: int| 0 <= i < users.len() implies #[trigger] users[i].id != id by {
            if i < users.len() - 1 {
                assert(users.drop_last()[i] == users[i]);
            }
        }
    }
}

/// A confirmed creation from a form whose two buffers are filled grows the
/// mirror by exactly one record at its end. That record carries the id the
/// store assigned, which is not zero, and the submitted name and email; both
/// buffers are left empty.
pub proof fn lemma_create_grows_by_one(s: PageView, assigned: i64)
    requires
        s.name.len() > 0,
        s.email.len() > 0,
        creation_confirmed(inserted_record(assigned, s.name, s.email)) is Ok,
    ensures
        candidate_of(s) == Ok::<UserView, Failure>(UserView { id: 0, name: s.name, email: s.email }),
        ({
            let t = after_create(s, creation_confirmed(inserted_record(assigned, s.name, s.email)));
            &&& t.users.len() == s.users.len() + 1
            &&& t.users.drop_last() == s.users
            &&& t.users.last().id == assigned
            &&& t.users.last().id != 0
            &&& t.users.last().name == s.name
            &&& t.users.last().email == s.email
            &&& t.name.len() == 0
            &&& t.email.len() == 0
        }),
{
    let t = after_create(s, creation_confirmed(inserted_record(assigned, s.name, s.email)));
    assert(t.users.drop_last() =~= s.users);
}

/// A form with an empty name or an empty email is refused before anything
/// is sent, so the mirror and the buffers stay as they were.
pub proof fn lemma_empty_field_refused(s: PageView)
    requires
        s.name.len() == 0 || s.email.len() == 0,
    ensures
        candidate_of(s) == Err::<UserView, Failure>(Failure::EmptyField),
{
}

/// After a confirmed deletion of `id` no record of the mirror carries `id`,
/// and the records that the store assigned ids to keep them.
pub proof fn lemma_delete_removes_id(s: PageView, id: i64)
    ensures
        forall|i: int|
            0 <= i < after_delete(s, id, Ok(())).users.len() ==> #[trigger] after_delete(
                s,
                id,
                Ok(()),
            ).users[i].id != id,
        all_persisted(s.users) ==> all_persisted(after_delete(s, id, Ok(())).users),
{
    lemma_without_id_keeps(s.users, id);
}

/// Deleting an id that no stored row carries removes no row, so the store
/// answers not found, and the client logs that status and keeps its mirror.
pub proof fn lemma_delete_absent_not_found(s: PageView, rows: Seq<UserView>, id: i64)
    requires
        forall|i: int| 0 <= i < rows.len() ==> #[trigger] rows[i].id != id,
    ensures
        deletion_status(count_id(rows, id)) == 404,
        ({
            let got = settled(Reply::<()>::Answered(deletion_status(count_id(rows, id)), Some(())));
            &&& after_delete(s, id, got) == s
            &&& failure_of(got) == Some(Failure::Status(404))
        }),
{
    lemma_count_absent(rows, id);
}

/// Listing, creating and listing again leaves the mirror equal to the
/// stored rows with the new record at their end, and the new record occurs
/// in it exactly once under the id the store assigned. This holds where the
/// stored rows carry assigned ids and the new id is fresh among them.
pub proof fn lemma_list_create_list(s: PageView, rows: Seq<UserView>, assigned: i64)
    requires
        all_persisted(rows),
        assigned != 0,
        count_id(rows, assigned) == 0,
        s.name.len() > 0,
        s.email.len() > 0,
    ensures
        ({
            let s1 = after_load(s, listing_confirmed(rows));
            let rec = inserted_record(assigned, s1.name, s1.email);
            let s2 = after_create(s1, creation_confirmed(rec));
            let s3 = after_load(s2, listing_confirmed(rows.push(rec)));
            &&& s1.users == rows
            &&& candidate_of(s1) is Ok
            &&& s2.users == rows.push(rec)
            &&& s3.users == rows.push(rec)
            &&& count_id(s3.users, assigned) == 1
            &&& s3.users.contains(rec)
            &&& forall|i: int| 0 <= i < s3.users.len() && #[trigger] s3.users[i].id == assigned ==> s3.users[i] == rec
        }),
{
    let rec = inserted_record(assigned, s.name, s.email);
    let stored = rows.push(rec);
    lemma_count_push(rows, rec, assigned);
    lemma_count_zero_absent(rows, assigned);
    assert(all_persisted(stored)) by {
        assert forall|i: int| 0 <= i < stored.len() implies #[trigger] stored[i].id != 0 by {
            if i < rows.len() {
                assert(stored[i] == rows[i]);
            }
        }
    }
    assert(stored[stored.len() - 1] == rec);
    assert forall|i: int| 0 <= i < stored.len() && #[trigger] stored[i].id == assigned implies stored[i] == rec by {
        if i < rows.len() {
            assert(stored[i] == rows[i]);
        }
    }
}

} // verus!
