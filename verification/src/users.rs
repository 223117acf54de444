use vstd::prelude::*;
use vstd::string::*;

use crate::error::ApiError;
use crate::json::Json;
use crate::model::{user_from, User, UserView};

verus! {

/// The profiles that a search found.
#[derive(Debug, PartialEq)]
pub struct Users {
    pub query: String,
    pub users: Vec<User>,
}

/// The characters of the fields of [`Users`].
pub struct UsersView {
    pub query: Seq<char>,
    pub users: Seq<UserView>,
}

impl View for Users {
    type V = UsersView;

    open spec fn view(&self) -> UsersView {
        UsersView { query: self.query@, users: self.users@.map_values(|u: User| u@) }
    }
}

/// The users that the entries of a search answer hold: the `user` member of
/// each entry, in order, leaving out those that do not read as a user.
pub open spec fn users_of(entries: Seq<Json>) -> Seq<UserView>
    decreases entries.len(),
{
    if entries.len() == 0 {
        seq![]
    } else {
        let before = users_of(entries.drop_last());
        match user_from(entries.last().field("user"@)) {
            Some(u) => before.push(u),
            None => before,
        }
    }
}

/// The result of a search for `query` that was answered with `response`:
/// `None` when the answer has no `users` array.
pub open spec fn search_result(query: Seq<char>, response: Json) -> Option<UsersView> {
    match response.field("users"@).array_of() {
        Some(entries) => Some(UsersView { query, users: users_of(entries) }),
        None => None,
    }
}

impl Users {
    /// The profiles found by a search for `query`, read out of the answer
    /// that the search gave.
    pub fn new(query: &str, response: &Json) -> (r: Result<Users, ApiError>)
        ensures
            match search_result(query@, *response) {
                Some(found) => r matches Ok(users) && users@ == found,
                None => r == Err::<Users, ApiError>(ApiError::UsersNotArray),
            },
    {
        let entries = match response.index_key("users").as_array() {
            Some(entries) => entries,
            None => return Err(ApiError::UsersNotArray),
        };
        let mut users: Vec<User> = Vec::new();
        let mut i: usize = 0;
        while i < entries.len()
            invariant
                i <= entries@.len(),
                users@.map_values(|u: User| u@) == users_of(entries@.take(i as int)),
            decreases entries@.len() - i,
        {
            let ghost before = users@;
            assert(entries@.take(i + 1).drop_last() =~= entries@.take(i as int));
            match User::from_json(entries[i].index_key("user")) {
                Some(u) => {
                    users.push(u);
                    assert(users@.map_values(|u: User| u@) =~= before.map_values(|u: User| u@).push(u@));
                },
                None => {},
            }
            i = i + 1;
        }
        assert(entries@.take(entries@.len() as int) =~= entries@);
        Ok(Users { query: String::from_str(query), users })
    }
}

/// The users of one entry: the user its `user` member reads as, if it reads
/// as one.
pub proof fn lemma_users_of_one(entry: Json)
    ensures
        users_of(seq![entry]) == match user_from(entry.field("user"@)) {
            Some(u) => seq![u],
            None => Seq::<UserView>::empty(),
        },
{
    assert(seq![entry].drop_last() =~= Seq::<Json>::empty());
    assert(seq![entry].last() == entry);
    assert(users_of(seq![entry].drop_last()) =~= Seq::<UserView>::empty());
    if let Some(u) = user_from(entry.field("user"@)) {
        assert(Seq::<UserView>::empty().push(u) =~= seq![u]);
    }
}

/// Reading keeps the order of the entries: the users of two runs of entries
/// one after the other are those of the first run, then those of the second.
pub proof fn lemma_users_of_append(a: Seq<Json>, b: Seq<Json>)
    ensures
        users_of(a + b) == users_of(a) + users_of(b),
    decreases b.len(),
{
    if b.len() == 0 {
        assert(a + b =~= a);
        assert(users_of(a) + users_of(b) =~= users_of(a));
    } else {
        lemma_users_of_append(a, b.drop_last());
        assert((a + b).drop_last() =~= a + b.drop_last());
        assert((a + b).last() == b.last());
        match user_from(b.last().field("user"@)) {
            Some(u) => {
                assert(users_of(a) + users_of(b) =~= (users_of(a) + users_of(b.drop_last())).push(u));
            },
            None => {},
        }
    }
}

/// A search answer with a `users` array is read into the users of its
/// entries, under the query that was asked; one without gives no result.
pub proof fn lemma_search_result(query: Seq<char>, response: Json)
    ensures
        response.field("users"@).array_of() is None ==> (search_result(query, response) is None),
        response.field("users"@).array_of() matches Some(entries) ==> search_result(
            query,
            response,
        ) == Some(UsersView { query, users: users_of(entries) }),
{
}

/// A search never yields more users than its answer has entries.
pub proof fn lemma_users_at_most_entries(entries: Seq<Json>)
    ensures
        users_of(entries).len() <= entries.len(),
    decreases entries.len(),
{
    if entries.len() > 0 {
        lemma_users_at_most_entries(entries.drop_last());
    }
}

} // verus!
