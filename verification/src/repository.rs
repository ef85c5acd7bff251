//! The repository: the persistence boundary of the service.
//!
//! `UserRepo` is the in-memory store, the test double of the storage
//! engine.  Its contracts are exact: they say for every operation which
//! rows the store holds afterwards and which outcome the caller receives,
//! in terms of the spec-level operations below.  The production store (a
//! relational table behind a connection pool) lives outside the library
//! and reports its outcomes through the same `ApiError` taxonomy.

use vstd::prelude::*;

use crate::errors::ApiError;
use crate::model::{NewUser, User, UserView};

verus! {

/// The mathematical state of the store: the persisted rows in storage
/// order, and the id that the next successful insert will receive.
pub ghost struct StoreView {
    pub rows: Seq<UserView>,
    pub next_id: u128,
}

/// The values of a table of users.
pub open spec fn views_of(table: Seq<User>) -> Seq<UserView> {
    table.map_values(|u: User| u@)
}

/// Whether some row carries this id.
pub open spec fn has_id(rows: Seq<UserView>, id: u128) -> bool {
    exists|i: int| 0 <= i < rows.len() && rows[i].id == id
}

/// Whether some row carries this username.
pub open spec fn has_username(rows: Seq<UserView>, name: Seq<char>) -> bool {
    exists|i: int| 0 <= i < rows.len() && rows[i].username == name
}

/// The first row carrying this id, if any.
pub open spec fn find_row(rows: Seq<UserView>, id: u128) -> Option<UserView>
    decreases rows.len(),
{
    if rows.len() == 0 {
        None
    } else if rows.first().id == id {
        Some(rows.first())
    } else {
        find_row(rows.drop_first(), id)
    }
}

/// The rows with every row carrying this id taken out.
pub open spec fn remove_id(rows: Seq<UserView>, id: u128) -> Seq<UserView>
    decreases rows.len(),
{
    if rows.len() == 0 {
        rows
    } else if rows.first().id == id {
        remove_id(rows.drop_first(), id)
    } else {
        seq![rows.first()] + remove_id(rows.drop_first(), id)
    }
}

/// How many rows carry this username.
pub open spec fn count_username(rows: Seq<UserView>, name: Seq<char>) -> nat
    decreases rows.len(),
{
    if rows.len() == 0 {
        0
    } else {
        (if rows.first().username == name {
            1nat
        } else {
            0nat
        }) + count_username(rows.drop_first(), name)
    }
}

/// Well-formedness of the store: ids and usernames are unique, no row
/// carries the id `0`, and every id was handed out before `next_id`.
pub open spec fn store_wf(s: StoreView) -> bool {
    &&& forall|i: int, j: int|
        #![trigger s.rows[i].id, s.rows[j].id]
        0 <= i < j < s.rows.len() ==> s.rows[i].id != s.rows[j].id
    &&& forall|i: int, j: int|
        #![trigger s.rows[i].username, s.rows[j].username]
        0 <= i < j < s.rows.len() ==> s.rows[i].username != s.rows[j].username
    &&& forall|i: int| 0 <= i < s.rows.len() ==> 0 < #[trigger] s.rows[i].id < s.next_id
    &&& 0 < s.next_id
}

/// The in-memory store, holding the rows in insertion order.
pub struct UserRepo {
    table: Vec<User>,
    next_id: u128,
}

impl View for UserRepo {
    type V = StoreView;

    closed spec fn view(&self) -> StoreView {
        StoreView { rows: views_of(self.table@), next_id: self.next_id }
    }
}

impl UserRepo {
    #[verifier::type_invariant]
    spec fn inv(self) -> bool {
        store_wf(self@)
    }

    /// An empty store; the first insert will receive the id `1`.
    pub fn new() -> (repo: UserRepo)
        ensures
            repo@.rows == Seq::<UserView>::empty(),
            repo@.next_id == 1,
    {
        let repo = UserRepo { table: Vec::new(), next_id: 1 };
        proof {
            assert(repo@.rows =~= Seq::<UserView>::empty());
        }
        repo
    }

    /// Every persisted user, in storage order.
    pub fn read_all(&self) -> (users: Vec<User>)
        ensures
            views_of(users@) == self@.rows,
            store_wf(self@),
    {
        proof {
            use_type_invariant(self);
        }
        let mut users: Vec<User> = Vec::new();
        let mut i: usize = 0;
        while i < self.table.len()
            invariant
                i <= self.table.len(),
                users@.len() == i,
                store_wf(self@),
                forall|k: int| 0 <= k < i ==> users@[k] == self.table@[k],
            decreases self.table.len() - i,
        {
            users.push(self.table[i].clone());
            i = i + 1;
        }
        proof {
            assert(views_of(users@) =~= self@.rows);
        }
        users
    }

    /// Point lookup by primary key: the row with this id, or `NotFound`
    /// when no row carries it.
    pub fn find(&self, user_id: u128) -> (result: Result<User, ApiError>)
        ensures
            store_wf(self@),
            match result {
                Ok(user) => find_row(self@.rows, user_id) == Some(user@),
                Err(e) => find_row(self@.rows, user_id) is None && e == ApiError::NotFound,
            },
    {
        proof {
            use_type_invariant(self);
        }
        let ghost rows = self@.rows;
        let mut i: usize = 0;
        while i < self.table.len()
            invariant
                i <= self.table.len(),
                rows == self@.rows,
                store_wf(self@),
                forall|j: int| 0 <= j < i ==> rows[j].id != user_id,
            decreases self.table.len() - i,
        {
            if self.table[i].id == user_id {
                let user = self.table[i].clone();
                proof {
                    assert(rows[i as int] == user@);
                    lemma_find_row_first_match(rows, user_id, i as int);
                }
                return Ok(user);
            }
            i = i + 1;
        }
        proof {
            lemma_find_row_no_match(rows, user_id);
        }
        Err(ApiError::NotFound)
    }

    /// Inserts one row.  Fails with `DuplicateKey` when the username is
    /// already taken and with `Unexpected` when the id space is used up,
    /// leaving the rows unchanged either way; otherwise appends the row
    /// under a fresh nonzero id and returns it, equal to what was stored.
    pub fn create(&mut self, new_user: NewUser) -> (result: Result<User, ApiError>)
        ensures
            store_wf(final(self)@),
            has_username(old(self)@.rows, new_user@.username) ==> {
                &&& result == Err::<User, ApiError>(ApiError::DuplicateKey)
                &&& final(self)@ == old(self)@
            },
            !has_username(old(self)@.rows, new_user@.username) && old(self)@.next_id
                == u128::MAX ==> {
                &&& result == Err::<User, ApiError>(ApiError::Unexpected)
                &&& final(self)@ == old(self)@
            },
            !has_username(old(self)@.rows, new_user@.username) && old(self)@.next_id
                < u128::MAX ==> {
                &&& result is Ok
                &&& result->Ok_0@ == (UserView {
                    id: old(self)@.next_id,
                    username: new_user@.username,
                    email: new_user@.email,
                    password: new_user@.password,
                })
                &&& result->Ok_0@.id != 0
                &&& !has_id(old(self)@.rows, result->Ok_0@.id)
                &&& final(self)@.rows == old(self)@.rows.push(result->Ok_0@)
                &&& final(self)@.next_id == old(self)@.next_id + 1
            },
    {
        proof {
            use_type_invariant(&*self);
        }
        let ghost old_rows = self@.rows;
        let mut i: usize = 0;
        while i < self.table.len()
            invariant
                i <= self.table.len(),
                *self == *old(self),
                old_rows == self@.rows,
                store_wf(self@),
                forall|j: int| 0 <= j < i ==> old_rows[j].username != new_user@.username,
            decreases self.table.len() - i,
        {
            if self.table[i].username == new_user.username {
                proof {
                    assert(old_rows[i as int].username == new_user@.username);
                    assert(has_username(old_rows, new_user@.username));
                }
                return Err(ApiError::DuplicateKey);
            }
            i = i + 1;
        }
        proof {
            assert(!has_username(old_rows, new_user@.username));
        }
        if self.next_id == u128::MAX {
            return Err(ApiError::Unexpected);
        }
        let id = self.next_id;
        let user = User {
            id,
            username: new_user.username,
            email: new_user.email,
            password: new_user.password,
        };
        let stored = user.clone();
        self.next_id = id + 1;
        let mut table: Vec<User> = Vec::new();
        core::mem::swap(&mut self.table, &mut table);
        table.push(stored);
        proof {
            let rows2 = views_of(table@);
            assert(rows2 =~= old_rows.push(user@));
            assert forall|p: int, q: int|
                #![trigger rows2[p].id, rows2[q].id]
                0 <= p < q < rows2.len() implies rows2[p].id != rows2[q].id by {
                if q == rows2.len() - 1 {
                    assert(rows2[p].id < id);
                }
            }
            assert forall|p: int, q: int|
                #![trigger rows2[p].username, rows2[q].username]
                0 <= p < q < rows2.len() implies rows2[p].username != rows2[q].username by {
                if q == rows2.len() - 1 {
                    assert(old_rows[p].username != new_user@.username);
                }
            }
            assert(store_wf(StoreView { rows: rows2, next_id: self.next_id }));
        }
        self.table = table;
        proof {
            assert(!has_id(old_rows, id));
        }
        Ok(user)
    }

    /// Deletes at most one row: the row carrying this id is taken out, and
    /// the count of affected rows comes back.  A miss is not an error: the
    /// count is `0` and the rows stay as they were.
    pub fn delete(&mut self, user_id: u128) -> (result: Result<usize, ApiError>)
        ensures
            store_wf(final(self)@),
            final(self)@.rows == remove_id(old(self)@.rows, user_id),
            final(self)@.next_id == old(self)@.next_id,
            result == Ok::<usize, ApiError>(
                if has_id(old(self)@.rows, user_id) {
                    1usize
                } else {
                    0usize
                },
            ),
    {
        proof {
            use_type_invariant(&*self);
        }
        let ghost old_rows = self@.rows;
        let mut i: usize = 0;
        while i < self.table.len()
            invariant
                i <= self.table.len(),
                *self == *old(self),
                old_rows == self@.rows,
                store_wf(self@),
                forall|j: int| 0 <= j < i ==> old_rows[j].id != user_id,
            decreases self.table.len() - i,
        {
            if self.table[i].id == user_id {
                proof {
                    assert(old_rows[i as int].id == user_id);
                    assert(has_id(old_rows, user_id));
                    assert forall|j: int|
                        0 <= j < old_rows.len() && j != i implies #[trigger] old_rows[j].id
                        != user_id by {
                        if j > i {
                            assert(old_rows[i as int].id != old_rows[j].id);
                        }
                    }
                    lemma_remove_id_at(old_rows, user_id, i as int);
                }
                let ghost ghost_i = i as int;
                let mut table: Vec<User> = Vec::new();
                core::mem::swap(&mut self.table, &mut table);
                table.remove(i);
                proof {
                    let rows2 = views_of(table@);
                    assert(rows2 =~= old_rows.remove(ghost_i));
                    assert forall|p: int, q: int|
                        #![trigger rows2[p].id, rows2[q].id]
                        0 <= p < q < rows2.len() implies rows2[p].id != rows2[q].id by {
                        assert(rows2[p] == old_rows[if p < ghost_i {
                            p
                        } else {
                            p + 1
                        }]);
                        assert(rows2[q] == old_rows[if q < ghost_i {
                            q
                        } else {
                            q + 1
                        }]);
                    }
                    assert forall|p: int, q: int|
                        #![trigger rows2[p].username, rows2[q].username]
                        0 <= p < q < rows2.len() implies rows2[p].username != rows2[q].username by {
                        assert(rows2[p] == old_rows[if p < ghost_i {
                            p
                        } else {
                            p + 1
                        }]);
                        assert(rows2[q] == old_rows[if q < ghost_i {
                            q
                        } else {
                            q + 1
                        }]);
                    }
                    assert forall|p: int| 0 <= p < rows2.len() implies 0 < #[trigger] rows2[p].id
                        < self.next_id by {
                        assert(rows2[p] == old_rows[if p < ghost_i {
                            p
                        } else {
                            p + 1
                        }]);
                    }
                    assert(store_wf(StoreView { rows: rows2, next_id: self.next_id }));
                }
                self.table = table;
                return Ok(1);
            }
            i = i + 1;
        }
        proof {
            assert(!has_id(old_rows, user_id));
            lemma_remove_id_absent(old_rows, user_id);
        }
        Ok(0)
    }
}

/// The first match wins: when the rows before `i` miss the id and row `i`
/// carries it, the lookup returns row `i`.
proof fn lemma_find_row_first_match(rows: Seq<UserView>, id: u128, i: int)
    requires
        0 <= i < rows.len(),
        rows[i].id == id,
        forall|j: int| 0 <= j < i ==> rows[j].id != id,
    ensures
        find_row(rows, id) == Some(rows[i]),
    decreases i,
{
    if i > 0 {
        lemma_find_row_first_match(rows.drop_first(), id, i - 1);
    }
}

/// When no row carries the id, the lookup comes back empty.
proof fn lemma_find_row_no_match(rows: Seq<UserView>, id: u128)
    requires
        forall|j: int| 0 <= j < rows.len() ==> rows[j].id != id,
    ensures
        find_row(rows, id) is None,
    decreases rows.len(),
{
    if rows.len() > 0 {
        lemma_find_row_no_match(rows.drop_first(), id);
    }
}

/// Deleting an id that no row carries is a no-op on the rows: the delete
/// reports the count `0`, not an error.
pub proof fn lemma_remove_id_absent(rows: Seq<UserView>, id: u128)
    requires
        !has_id(rows, id),
    ensures
        remove_id(rows, id) == rows,
    decreases rows.len(),
{
    if rows.len() > 0 {
        assert(forall|j: int| 0 <= j < rows.drop_first().len() ==> rows.drop_first()[j]
            == rows[j + 1]);
        lemma_remove_id_absent(rows.drop_first(), id);
        assert(remove_id(rows, id) =~= rows);
    }
}

/// When exactly row `i` carries the id, taking the id out is taking out
/// row `i`.
proof fn lemma_remove_id_at(rows: Seq<UserView>, id: u128, i: int)
    requires
        0 <= i < rows.len(),
        rows[i].id == id,
        forall|j: int| 0 <= j < rows.len() && j != i ==> rows[j].id != id,
    ensures
        remove_id(rows, id) == rows.remove(i),
    decreases i,
{
    if i == 0 {
        assert(!has_id(rows.drop_first(), id));
        lemma_remove_id_absent(rows.drop_first(), id);
        assert(remove_id(rows, id) =~= rows.remove(0));
    } else {
        lemma_remove_id_at(rows.drop_first(), id, i - 1);
        assert(remove_id(rows, id) =~= rows.remove(i));
    }
}

/// After a row is taken out by id, no row carries that id and a lookup of
/// it comes back empty: a user that was deleted is not found.
pub proof fn lemma_find_after_remove(rows: Seq<UserView>, id: u128)
    ensures
        !has_id(remove_id(rows, id), id),
        find_row(remove_id(rows, id), id) is None,
    decreases rows.len(),
{
    if rows.len() == 0 {
    } else {
        lemma_find_after_remove(rows.drop_first(), id);
        if rows.first().id != id {
            let rest = remove_id(rows.drop_first(), id);
            assert(forall|j: int| 0 <= j < rest.len() ==> (seq![rows.first()] + rest)[j + 1]
                == rest[j]);
        }
    }
    lemma_find_row_no_match(remove_id(rows, id), id);
}

/// A user that was just created is found: when its id was free before the
/// insert, looking up that id returns exactly the stored row.
pub proof fn lemma_created_is_found(rows: Seq<UserView>, created: UserView)
    requires
        !has_id(rows, created.id),
    ensures
        find_row(rows.push(created), created.id) == Some(created),
{
    let grown = rows.push(created);
    assert forall|j: int| 0 <= j < rows.len() implies grown[j].id != created.id by {
        assert(grown[j] == rows[j]);
    }
    lemma_find_row_first_match(grown, created.id, rows.len() as int);
}

/// A user that was created and then deleted is not found: looking up the
/// created row's id after the delete comes back empty.
pub proof fn lemma_created_then_deleted_is_not_found(rows: Seq<UserView>, created: UserView)
    ensures
        find_row(remove_id(rows.push(created), created.id), created.id) is None,
{
    lemma_find_after_remove(rows.push(created), created.id);
}

/// When no row carries the username, the count for it is zero.
proof fn lemma_count_username_absent(rows: Seq<UserView>, name: Seq<char>)
    requires
        !has_username(rows, name),
    ensures
        count_username(rows, name) == 0,
    decreases rows.len(),
{
    if rows.len() > 0 {
        assert(forall|j: int| 0 <= j < rows.drop_first().len() ==> rows.drop_first()[j]
            == rows[j + 1]);
        lemma_count_username_absent(rows.drop_first(), name);
    }
}

/// In a well-formed store a taken username is carried by exactly one row,
/// and a create with that username leaves the store unchanged: the row
/// count for the username stays one.
pub proof fn lemma_duplicate_username_keeps_one_row(s: StoreView, name: Seq<char>)
    requires
        store_wf(s),
        has_username(s.rows, name),
    ensures
        count_username(s.rows, name) == 1,
{
    lemma_count_username_one(s.rows, name);
}

/// Pairwise-distinct usernames bound the count of any taken username to
/// exactly one.
proof fn lemma_count_username_one(rows: Seq<UserView>, name: Seq<char>)
    requires
        forall|i: int, j: int|
            #![trigger rows[i].username, rows[j].username]
            0 <= i < j < rows.len() ==> rows[i].username != rows[j].username,
        has_username(rows, name),
    ensures
        count_username(rows, name) == 1,
    decreases rows.len(),
{
    assert(forall|j: int| 0 <= j < rows.drop_first().len() ==> rows.drop_first()[j] == rows[j + 1]);
    if rows.first().username == name {
        assert(!has_username(rows.drop_first(), name));
        lemma_count_username_absent(rows.drop_first(), name);
    } else {
        let i = choose|i: int| 0 <= i < rows.len() && rows[i].username == name;
        assert(rows.drop_first()[i - 1].username == name);
        lemma_count_username_one(rows.drop_first(), name);
    }
}

} // verus!
