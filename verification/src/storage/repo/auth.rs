//! The store of pending challenges: at most one nonce for each wallet
//! address, where addresses that differ only in the case of their letters are
//! the same address.

use crate::storage::schema::LoginSession;
use crate::text::{eq_ignore_ascii_case, fold_ascii_case};
use vstd::prelude::*;

verus! {

/// The pending challenges, one row for each wallet address that has one.
#[derive(Debug)]
pub struct NonceStore {
    rows: Vec<LoginSession>,
}

/// The key under which a wallet address is stored: the address in lower case.
pub open spec fn wallet_key(address: Seq<char>) -> Seq<char> {
    fold_ascii_case(address)
}

impl NonceStore {
    /// The number of rows.
    pub closed spec fn count(&self) -> nat {
        self.rows@.len()
    }

    /// The key of the row at `index`.
    pub closed spec fn key_at(&self, index: int) -> Seq<char> {
        wallet_key(self.rows@[index].wallet_address@)
    }

    /// The nonce and the time of issue of the row at `index`.
    pub closed spec fn entry_at(&self, index: int) -> (Seq<char>, i64) {
        (self.rows@[index].nonce@, self.rows@[index].created_at)
    }

    /// No two rows are for the same wallet address.
    pub open spec fn wf(&self) -> bool {
        forall|i: int, j: int|
            0 <= i < self.count() && 0 <= j < self.count() && i != j ==> self.key_at(i)
                != self.key_at(j)
    }

    /// Whether a row is stored under `key`.
    pub open spec fn has(&self, key: Seq<char>) -> bool {
        exists|i: int| 0 <= i < self.count() && self.key_at(i) == key
    }

    /// The index of the row that is stored under `key`.
    pub open spec fn index_of(&self, key: Seq<char>) -> int {
        choose|i: int| 0 <= i < self.count() && self.key_at(i) == key
    }

    /// The number of rows that are stored under `key`.
    pub open spec fn live(&self, key: Seq<char>) -> nat {
        Set::new(|i: int| 0 <= i < self.count() && self.key_at(i) == key).len()
    }

    /// A store without rows.
    pub fn new() -> (store: NonceStore)
        ensures
            store.wf(),
            store@ == Map::<Seq<char>, (Seq<char>, i64)>::empty(),
    {
        let store = NonceStore { rows: Vec::new() };
        assert(store@ =~= Map::<Seq<char>, (Seq<char>, i64)>::empty());
        store
    }

    /// Finds the row of a wallet address.
    fn find(&self, address: &str) -> (found: Option<usize>)
        ensures
            match found {
                Some(i) => i < self.count() && self.key_at(i as int) == wallet_key(address@),
                None => !self.has(wallet_key(address@)),
            },
    {
        let mut index: usize = 0;
        while index < self.rows.len()
            invariant
                index <= self.rows.len(),
                forall|i: int| 0 <= i < index ==> self.key_at(i) != wallet_key(address@),
            decreases self.rows.len() - index,
        {
            if eq_ignore_ascii_case(self.rows[index].wallet_address.as_str(), address) {
                return Some(index);
            }
            index += 1;
        }
        None
    }
}

impl View for NonceStore {
    type V = Map<Seq<char>, (Seq<char>, i64)>;

    /// The store as a map from the key of a wallet address to the nonce that
    /// is pending for it and the time at which it was issued.
    open spec fn view(&self) -> Map<Seq<char>, (Seq<char>, i64)> {
        Map::new(|key: Seq<char>| self.has(key), |key: Seq<char>| self.entry_at(self.index_of(key)))
    }
}

/// Under a key that has a row in a well-formed store, that row is the only one.
proof fn lemma_single_row(store: &NonceStore, index: int)
    requires
        store.wf(),
        0 <= index < store.count(),
    ensures
        store.has(store.key_at(index)),
        store.index_of(store.key_at(index)) == index,
        store.live(store.key_at(index)) == 1,
{
    let key = store.key_at(index);
    let found = store.index_of(key);
    assert(0 <= found < store.count() && store.key_at(found) == key);
    let rows = Set::new(|i: int| 0 <= i < store.count() && store.key_at(i) == key);
    assert(rows =~= set![index]);
}

/// Under a key that has no row, no row is counted.
proof fn lemma_no_row(store: &NonceStore, key: Seq<char>)
    requires
        !store.has(key),
    ensures
        store.live(key) == 0,
{
    let rows = Set::new(|i: int| 0 <= i < store.count() && store.key_at(i) == key);
    assert(rows =~= Set::<int>::empty());
}

/// Inserts the nonce for a wallet address, or replaces the one that is
/// pending for it, and sets its time of issue to `now`. The address is kept as
/// it was submitted. Afterwards exactly one nonce is pending for the address.
pub fn upsert_nonce(store: &mut NonceStore, address: &str, nonce: &str, now: i64)
    requires
        old(store).wf(),
    ensures
        final(store).wf(),
        final(store)@ == old(store)@.insert(wallet_key(address@), (nonce@, now)),
        final(store).live(wallet_key(address@)) == 1,
{
    let row = LoginSession {
        wallet_address: String::from_str(address),
        nonce: String::from_str(nonce),
        created_at: now,
    };
    let ghost key = wallet_key(address@);
    let ghost before = *store;
    match store.find(address) {
        Some(index) => {
            store.rows.remove(index);
            let ghost between = *store;
            proof {
                assert forall|i: int| 0 <= i < between.count() implies #[trigger] between.key_at(i)
                    != key && between.key_at(i) == before.key_at(if i < index { i } else { i + 1 })
                    && between.entry_at(i) == before.entry_at(
                    if i < index { i } else { i + 1 },
                ) by {
                    let j = if i < index { i } else { i + 1 };
                    assert(before.key_at(j) != before.key_at(index as int));
                }
            }
            store.rows.push(row);
            proof {
            let last = store.count() - 1;
            assert(store.key_at(last) == key && store.entry_at(last) == (nonce@, now));
            assert forall|i: int| 0 <= i < last implies #[trigger] store.key_at(i)
                == between.key_at(i) && store.entry_at(i) == between.entry_at(i) by {}
            assert(store.wf());
            lemma_single_row(store, last);
            assert forall|k: Seq<char>| #[trigger] store.has(k) == (k == key || before.has(k)) by {
                if store.has(k) {
                    let i = store.index_of(k);
                    if i < last {
                        let j = if i < index { i } else { i + 1 };
                        assert(before.key_at(j) == k);
                    }
                }
                if k != key && before.has(k) {
                    let j = before.index_of(k);
                    let i = if j < index { j } else { j - 1 };
                    assert(store.key_at(i) == k);
                }
            }
            assert forall|k: Seq<char>| k != key && #[trigger] before.has(k) implies store.entry_at(
                store.index_of(k),
            ) == before.entry_at(before.index_of(k)) by {
                let j = before.index_of(k);
                let i = if j < index { j } else { j - 1 };
                assert(store.key_at(i) == k);
                lemma_single_row(store, i);
                lemma_single_row(&before, j);
            }
            assert(store@ =~= before@.insert(key, (nonce@, now)));
            }
        },
        None => {
            store.rows.push(row);
            proof {
            let last = store.count() - 1;
            assert(store.key_at(last) == key && store.entry_at(last) == (nonce@, now));
            assert forall|i: int| 0 <= i < last implies #[trigger] store.key_at(i)
                == before.key_at(i) && store.entry_at(i) == before.entry_at(i) by {}
            assert(store.wf());
            lemma_single_row(store, last);
            assert forall|k: Seq<char>| #[trigger] store.has(k) == (k == key || before.has(k)) by {
                if store.has(k) {
                    let i = store.index_of(k);
                    if i < last {
                        assert(before.key_at(i) == k);
                    }
                }
                if k != key && before.has(k) {
                    let j = before.index_of(k);
                    assert(store.key_at(j) == k);
                }
            }
            assert forall|k: Seq<char>| k != key && #[trigger] before.has(k) implies store.entry_at(
                store.index_of(k),
            ) == before.entry_at(before.index_of(k)) by {
                let j = before.index_of(k);
                assert(store.key_at(j) == k);
                lemma_single_row(store, j);
                lemma_single_row(&before, j);
            }
            assert(store@ =~= before@.insert(key, (nonce@, now)));
            }
        },
    }
}

/// Gets the nonce that is pending for a wallet address, with its time of
/// issue.
pub fn get_nonce(store: &NonceStore, address: &str) -> (found: Option<LoginSession>)
    requires
        store.wf(),
    ensures
        match found {
            Some(session) => store@.contains_key(wallet_key(address@)) && store@[wallet_key(
                address@,
            )] == (session.nonce@, session.created_at) && wallet_key(session.wallet_address@)
                == wallet_key(address@),
            None => !store@.contains_key(wallet_key(address@)),
        },
{
    match store.find(address) {
        Some(index) => {
            proof {
                lemma_single_row(store, index as int);
            }
            let row = &store.rows[index];
            Some(
                LoginSession {
                    wallet_address: row.wallet_address.clone(),
                    nonce: row.nonce.clone(),
                    created_at: row.created_at,
                },
            )
        },
        None => None,
    }
}

/// Deletes the nonce that is pending for a wallet address. Where none is
/// pending, nothing changes.
pub fn delete_login_session(store: &mut NonceStore, address: &str)
    requires
        old(store).wf(),
    ensures
        final(store).wf(),
        final(store)@ == old(store)@.remove(wallet_key(address@)),
        final(store).live(wallet_key(address@)) == 0,
{
    let ghost key = wallet_key(address@);
    let ghost before = *store;
    match store.find(address) {
        Some(index) => {
            store.rows.remove(index);
            proof {
            assert forall|i: int| 0 <= i < store.count() implies #[trigger] store.key_at(i) != key
                && store.key_at(i) == before.key_at(if i < index { i } else { i + 1 })
                && store.entry_at(i) == before.entry_at(if i < index { i } else { i + 1 }) by {
                let j = if i < index { i } else { i + 1 };
                assert(before.key_at(j) != before.key_at(index as int));
            }
            assert(store.wf());
            assert forall|k: Seq<char>| #[trigger] store.has(k) == (k != key && before.has(k)) by {
                if store.has(k) {
                    let i = store.index_of(k);
                    let j = if i < index { i } else { i + 1 };
                    assert(before.key_at(j) == k);
                }
                if k != key && before.has(k) {
                    let j = before.index_of(k);
                    let i = if j < index { j } else { j - 1 };
                    assert(store.key_at(i) == k);
                }
            }
            assert forall|k: Seq<char>| k != key && #[trigger] before.has(k) implies store.entry_at(
                store.index_of(k),
            ) == before.entry_at(before.index_of(k)) by {
                let j = before.index_of(k);
                let i = if j < index { j } else { j - 1 };
                assert(store.key_at(i) == k);
                lemma_single_row(store, i);
                lemma_single_row(&before, j);
            }
            assert(store@ =~= before@.remove(key));
            lemma_no_row(store, key);
            }
        },
        None => {
            proof {
                assert(store@ =~= before@.remove(key));
                lemma_no_row(store, key);
            }
        },
    }
}

/// Of two nonces that are stored for one wallet address, one after the other,
/// only the second is pending: it has replaced the first. So it is where the
/// two requests write the address in different case.
pub proof fn lemma_second_nonce_replaces_first(
    pending: Map<Seq<char>, (Seq<char>, i64)>,
    first_address: Seq<char>,
    second_address: Seq<char>,
    first: (Seq<char>, i64),
    second: (Seq<char>, i64),
)
    requires
        wallet_key(first_address) == wallet_key(second_address),
    ensures
        pending.insert(wallet_key(first_address), first).insert(wallet_key(second_address), second)
            == pending.insert(wallet_key(second_address), second),
        pending.insert(wallet_key(first_address), first).insert(
            wallet_key(second_address),
            second,
        )[wallet_key(first_address)] == second,
{
    assert(pending.insert(wallet_key(first_address), first).insert(
        wallet_key(second_address),
        second,
    ) =~= pending.insert(wallet_key(second_address), second));
}

/// A nonce that was deleted is pending no more, and the other wallet
/// addresses keep theirs.
pub proof fn lemma_deleted_nonce_is_gone(
    pending: Map<Seq<char>, (Seq<char>, i64)>,
    address: Seq<char>,
    other: Seq<char>,
)
    requires
        wallet_key(other) != wallet_key(address),
    ensures
        !pending.remove(wallet_key(address)).contains_key(wallet_key(address)),
        pending.remove(wallet_key(address)).contains_key(wallet_key(other)) == pending.contains_key(
            wallet_key(other),
        ),
{
}

} // verus!
