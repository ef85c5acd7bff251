//! The views: pure projections of users into JSON response bodies.
//!
//! Three projections exist, and each redacts the password.  The list view
//! omits the password field altogether, the details view replaces its
//! value with the fixed mask `*****`, and the create view carries only the
//! generated id.  The exact bytes of every body are pinned down by the
//! spec functions below, and the laws at the end state that no projection
//! reads the stored password at all.

use vstd::prelude::*;
use vstd::string::StringSliceAdditionalSpecFns;

use crate::json::{json_string, push_json_string, push_str_bytes, push_uuid, uuid_hyphenated};
use crate::model::{User, UserView};
use crate::repository::views_of;

verus! {

/// The opening of an object that starts with the id field: `{"id":"` then
/// the hyphenated id, then the closing quote of the id value.
pub open spec fn id_field(id: u128) -> Seq<u8> {
    "{\"id\":\"".spec_bytes() + uuid_hyphenated(id) + "\"".spec_bytes()
}

/// The body of the details view up to and including the username value.
pub open spec fn details_prefix(u: UserView) -> Seq<u8> {
    id_field(u.id) + ",\"username\":".spec_bytes() + json_string(u.username)
}

/// The full body of the details view: id, username, the masked password,
/// and email.  The stored password does not occur in it.
pub open spec fn user_details_json(u: UserView) -> Seq<u8> {
    details_prefix(u) + ",\"password\":".spec_bytes() + "\"*****\"".spec_bytes()
        + ",\"email\":".spec_bytes() + json_string(u.email) + "}".spec_bytes()
}

/// One element of the list view: id, username and email, and no password
/// field at all.
pub open spec fn user_item_json(u: UserView) -> Seq<u8> {
    id_field(u.id) + ",\"username\":".spec_bytes() + json_string(u.username)
        + ",\"email\":".spec_bytes() + json_string(u.email) + "}".spec_bytes()
}

/// The elements of the list view, joined with commas.
pub open spec fn user_items_json(rows: Seq<UserView>) -> Seq<u8>
    decreases rows.len(),
{
    if rows.len() == 0 {
        Seq::empty()
    } else if rows.len() == 1 {
        user_item_json(rows.first())
    } else {
        user_items_json(rows.drop_last()) + ",".spec_bytes() + user_item_json(rows.last())
    }
}

/// The full body of the list view: a JSON array of the elements.
pub open spec fn user_list_json(rows: Seq<UserView>) -> Seq<u8> {
    "[".spec_bytes() + user_items_json(rows) + "]".spec_bytes()
}

/// The full body of the create view: the generated id and nothing else.
pub open spec fn user_create_json(u: UserView) -> Seq<u8> {
    id_field(u.id) + "}".spec_bytes()
}

/// Appends the id field that opens every object view.
fn push_id_field(out: &mut Vec<u8>, id: u128)
    ensures
        final(out)@ == old(out)@ + id_field(id),
{
    push_str_bytes(out, "{\"id\":\"");
    push_uuid(out, id);
    push_str_bytes(out, "\"");
    assert(out@ =~= old(out)@ + id_field(id));
}

/// The list view: a JSON array of `{id, username, email}` objects, one
/// per user in order.  The password is omitted from every element.
pub fn user_list(users: &Vec<User>) -> (body: Vec<u8>)
    ensures
        body@ == user_list_json(views_of(users@)),
{
    let ghost rows = views_of(users@);
    let mut out: Vec<u8> = Vec::new();
    push_str_bytes(&mut out, "[");
    let mut i: usize = 0;
    while i < users.len()
        invariant
            i <= users.len(),
            rows == views_of(users@),
            out@ == "[".spec_bytes() + user_items_json(rows.take(i as int)),
        decreases users.len() - i,
    {
        if i > 0 {
            push_str_bytes(&mut out, ",");
        }
        let user = &users[i];
        push_id_field(&mut out, user.id);
        push_str_bytes(&mut out, ",\"username\":");
        push_json_string(&mut out, user.username.as_str());
        push_str_bytes(&mut out, ",\"email\":");
        push_json_string(&mut out, user.email.as_str());
        push_str_bytes(&mut out, "}");
        proof {
            assert(rows[i as int] == user@);
            assert(rows.take(i + 1).drop_last() =~= rows.take(i as int));
            assert(rows.take(i + 1).last() == rows[i as int]);
            if i == 0 {
                assert(user_items_json(rows.take(1)) == user_item_json(rows[0]));
            } else {
                assert(user_items_json(rows.take(i + 1)) == user_items_json(rows.take(i as int))
                    + ",".spec_bytes() + user_item_json(rows[i as int]));
            }
            assert(out@ =~= "[".spec_bytes() + user_items_json(rows.take(i + 1)));
        }
        i = i + 1;
    }
    push_str_bytes(&mut out, "]");
    proof {
        assert(rows.take(rows.len() as int) =~= rows);
        assert(out@ =~= user_list_json(rows));
    }
    out
}

/// The details view: a JSON object with the user's id, username, the
/// fixed mask `*****` in place of the password, and email.
pub fn user_details(user: &User) -> (body: Vec<u8>)
    ensures
        body@ == user_details_json(user@),
{
    let mut out: Vec<u8> = Vec::new();
    push_id_field(&mut out, user.id);
    push_str_bytes(&mut out, ",\"username\":");
    push_json_string(&mut out, user.username.as_str());
    push_str_bytes(&mut out, ",\"password\":");
    push_str_bytes(&mut out, "\"*****\"");
    push_str_bytes(&mut out, ",\"email\":");
    push_json_string(&mut out, user.email.as_str());
    push_str_bytes(&mut out, "}");
    proof {
        assert(out@ =~= user_details_json(user@));
    }
    out
}

/// The create view: a JSON object carrying only the generated id.
pub fn user_create(user: &User) -> (body: Vec<u8>)
    ensures
        body@ == user_create_json(user@),
{
    let mut out: Vec<u8> = Vec::new();
    push_id_field(&mut out, user.id);
    push_str_bytes(&mut out, "}");
    proof {
        assert(out@ =~= user_create_json(user@));
    }
    out
}

/// The details view never reads the stored password: two users that agree
/// on everything but the password have byte-for-byte the same details
/// body, so the body cannot carry the stored password.
pub proof fn lemma_details_independent_of_password(u1: UserView, u2: UserView)
    requires
        u1.id == u2.id,
        u1.username == u2.username,
        u1.email == u2.email,
    ensures
        user_details_json(u1) == user_details_json(u2),
{
}

/// The details body always carries the fixed mask, quotes included, as
/// the value of its password field: it stands right after the prefix and
/// the password key.
pub proof fn lemma_details_contains_mask(u: UserView)
    ensures
        ({
            let body = user_details_json(u);
            let mask = "\"*****\"".spec_bytes();
            let pos = details_prefix(u).len() + ",\"password\":".spec_bytes().len();
            body.subrange(pos as int, (pos + mask.len()) as int) == mask
        }),
{
    let body = user_details_json(u);
    let mask = "\"*****\"".spec_bytes();
    let pos = details_prefix(u).len() + ",\"password\":".spec_bytes().len();
    assert(body.subrange(pos as int, (pos + mask.len()) as int) =~= mask);
}

/// The list view never reads any stored password: two rows of users that
/// agree pointwise on id, username and email have byte-for-byte the same
/// list body, so no password field and no password value occurs in it.
pub proof fn lemma_list_independent_of_passwords(rows1: Seq<UserView>, rows2: Seq<UserView>)
    requires
        rows1.len() == rows2.len(),
        forall|i: int|
            0 <= i < rows1.len() ==> {
                &&& (#[trigger] rows1[i]).id == (#[trigger] rows2[i]).id
                &&& rows1[i].username == rows2[i].username
                &&& rows1[i].email == rows2[i].email
            },
    ensures
        user_list_json(rows1) == user_list_json(rows2),
{
    lemma_items_independent_of_passwords(rows1, rows2);
}

/// The comma-joined elements never read a stored password either.
proof fn lemma_items_independent_of_passwords(rows1: Seq<UserView>, rows2: Seq<UserView>)
    requires
        rows1.len() == rows2.len(),
        forall|i: int|
            0 <= i < rows1.len() ==> {
                &&& (#[trigger] rows1[i]).id == (#[trigger] rows2[i]).id
                &&& rows1[i].username == rows2[i].username
                &&& rows1[i].email == rows2[i].email
            },
    ensures
        user_items_json(rows1) == user_items_json(rows2),
    decreases rows1.len(),
{
    if rows1.len() == 0 {
    } else if rows1.len() == 1 {
        assert(user_item_json(rows1[0]) == user_item_json(rows2[0]));
    } else {
        let n = rows1.len() - 1;
        assert(forall|i: int| 0 <= i < n ==> #[trigger] rows1.drop_last()[i] == rows1[i]);
        assert(forall|i: int| 0 <= i < n ==> #[trigger] rows2.drop_last()[i] == rows2[i]);
        lemma_items_independent_of_passwords(rows1.drop_last(), rows2.drop_last());
        assert(rows1.last() == rows1[n] && rows2.last() == rows2[n]);
        assert(user_item_json(rows1[n]) == user_item_json(rows2[n]));
    }
}

} // verus!
