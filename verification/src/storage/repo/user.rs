//! The table of users: at most one user for each wallet address, where
//! addresses that differ only in the case of their letters are the same
//! address.

use crate::storage::repo::auth::wallet_key;
use crate::storage::schema::{User, UserFields};
use crate::text::eq_ignore_ascii_case;
use vstd::prelude::*;

verus! {

/// The users, one row for each wallet address that has logged in.
#[derive(Debug)]
pub struct UserDirectory {
    rows: Vec<User>,
}

impl UserDirectory {
    /// The number of rows.
    pub closed spec fn count(&self) -> nat {
        self.rows@.len()
    }

    /// The key of the row at `index`.
    pub closed spec fn key_at(&self, index: int) -> Seq<char> {
        wallet_key(self.rows@[index].wallet_address@)
    }

    /// The user of the row at `index`.
    pub closed spec fn user_at(&self, index: int) -> UserFields {
        self.rows@[index]@
    }

    /// No two rows are for the same wallet address.
    pub open spec fn wf(&self) -> bool {
        forall|i: int, j: int|
            0 <= i < self.count() && 0 <= j < self.count() && i != j ==> self.key_at(i)
                != self.key_at(j)
    }

    /// Whether a row is stored under `key`.
    pub open spec fn has(&self, key: Seq<char>) -> bool {
        exists|i: int| 0 <= i < self.count() && self.key_at(i) == key
    }

    /// The index of the row that is stored under `key`.
    pub open spec fn index_of(&self, key: Seq<char>) -> int {
        choose|i: int| 0 <= i < self.count() && self.key_at(i) == key
    }

    /// A table without rows.
    pub fn new() -> (users: UserDirectory)
        ensures
            users.wf(),
            users@ == Map::<Seq<char>, UserFields>::empty(),
    {
        let users = UserDirectory { rows: Vec::new() };
        assert(users@ =~= Map::<Seq<char>, UserFields>::empty());
        users
    }

    /// Finds the row of a wallet address.
    fn find(&self, address: &str) -> (found: Option<usize>)
        ensures
            match found {
                Some(i) => i < self.count() && self.key_at(i as int) == wallet_key(address@),
                None => !self.has(wallet_key(address@)),
            },
    {
        let mut index: usize = 0;
        while index < self.rows.len()
            invariant
                index <= self.rows.len(),
                forall|i: int| 0 <= i < index ==> self.key_at(i) != wallet_key(address@),
            decreases self.rows.len() - index,
        {
            if eq_ignore_ascii_case(self.rows[index].wallet_address.as_str(), address) {
                return Some(index);
            }
            index += 1;
        }
        None
    }
}

impl View for UserDirectory {
    type V = Map<Seq<char>, UserFields>;

    /// The table as a map from the key of a wallet address to its user.
    open spec fn view(&self) -> Map<Seq<char>, UserFields> {
        Map::new(|key: Seq<char>| self.has(key), |key: Seq<char>| self.user_at(self.index_of(key)))
    }
}

/// The user that a login of `address` gets from the table `users`: the one
/// that is there, or a new one with the identifier `fresh_id`, created at `now`.
pub open spec fn user_for(
    users: Map<Seq<char>, UserFields>,
    address: Seq<char>,
    fresh_id: u128,
    now: i64,
) -> UserFields {
    if users.contains_key(wallet_key(address)) {
        users[wallet_key(address)]
    } else {
        UserFields { id: fresh_id, wallet_address: address, created_at: now }
    }
}

/// Gets the user of a wallet address, or creates one with the given
/// identifier and time of creation. A user that exists is left as it is.
pub fn get_or_create_user(users: &mut UserDirectory, address: &str, fresh_id: u128, now: i64) -> (user:
    User)
    requires
        old(users).wf(),
    ensures
        final(users).wf(),
        user@ == user_for(old(users)@, address@, fresh_id, now),
        final(users)@ == old(users)@.insert(wallet_key(address@), user@),
{
    let ghost key = wallet_key(address@);
    let ghost before = *users;
    match users.find(address) {
        Some(index) => {
            let row = &users.rows[index];
            let user = User {
                id: row.id,
                wallet_address: row.wallet_address.clone(),
                created_at: row.created_at,
            };
            proof {
                assert(before.key_at(index as int) == key);
                let found = before.index_of(key);
                assert(found == index);
                assert(user@ == before@[key]);
                assert(before@ =~= before@.insert(key, user@));
            }
            user
        },
        None => {
            users.rows.push(
                User { id: fresh_id, wallet_address: String::from_str(address), created_at: now },
            );
            let user = User {
                id: fresh_id,
                wallet_address: String::from_str(address),
                created_at: now,
            };
            proof {
                let last = users.count() - 1;
                assert(users.key_at(last) == key && users.user_at(last) == user@);
                assert forall|i: int| 0 <= i < last implies #[trigger] users.key_at(i)
                    == before.key_at(i) && users.user_at(i) == before.user_at(i) by {}
                assert(users.wf());
                assert forall|k: Seq<char>| #[trigger] users.has(k) == (k == key || before.has(k)) by {
                    if users.has(k) {
                        let i = users.index_of(k);
                        if i < last {
                            assert(before.key_at(i) == k);
                        }
                    }
                    if k != key && before.has(k) {
                        let j = before.index_of(k);
                        assert(users.key_at(j) == k);
                    }
                }
                assert(users.index_of(key) == last);
                assert forall|k: Seq<char>| k != key && #[trigger] before.has(k) implies users.user_at(
                    users.index_of(k),
                ) == before.user_at(before.index_of(k)) by {
                    let j = before.index_of(k);
                    assert(users.key_at(j) == k);
                    let i = users.index_of(k);
                    assert(users.key_at(i) == k);
                    assert(i == j);
                }
                assert(users@ =~= before@.insert(key, user@));
            }
            user
        },
    }
}

} // verus!
