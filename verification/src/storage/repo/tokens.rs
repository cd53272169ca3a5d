//! The ledger of refresh tokens: the records of all tokens that were issued,
//! in the order of their issue. Records are added and never changed.

use crate::storage::schema::{RecordFields, RefreshTokenRecord};
use vstd::prelude::*;

verus! {

/// The records of the refresh tokens that were issued.
#[derive(Debug)]
pub struct RefreshTokenLedger {
    rows: Vec<RefreshTokenRecord>,
}

impl View for RefreshTokenLedger {
    type V = Seq<RecordFields>;

    /// The records in the order of their issue.
    closed spec fn view(&self) -> Seq<RecordFields> {
        Seq::new(self.rows@.len(), |i: int| self.rows@[i]@)
    }
}

/// Whether a record is the one of the user's token with the given hash.
pub open spec fn is_record_of(record: RecordFields, user_id: u128, token_hash: Seq<char>) -> bool {
    record.user_id == user_id && record.token_hash == token_hash
}

/// The first record of the user's token with the given hash, if any.
pub open spec fn first_record_of(
    records: Seq<RecordFields>,
    user_id: u128,
    token_hash: Seq<char>,
) -> Option<RecordFields>
    decreases records.len(),
{
    if records.len() == 0 {
        None
    } else if is_record_of(records[0], user_id, token_hash) {
        Some(records[0])
    } else {
        first_record_of(records.drop_first(), user_id, token_hash)
    }
}

/// The first record of a token in the records from `start` on is found by
/// passing over the records that are not the token's.
proof fn lemma_first_record_skips(
    records: Seq<RecordFields>,
    user_id: u128,
    token_hash: Seq<char>,
    start: int,
)
    requires
        0 <= start <= records.len(),
        forall|i: int| 0 <= i < start ==> !is_record_of(#[trigger] records[i], user_id, token_hash),
    ensures
        first_record_of(records, user_id, token_hash) == first_record_of(
            records.skip(start),
            user_id,
            token_hash,
        ),
    decreases start,
{
    if start == 0 {
        assert(records.skip(0) =~= records);
    } else {
        let rest = records.drop_first();
        assert forall|i: int| 0 <= i < start - 1 implies !is_record_of(
            #[trigger] rest[i],
            user_id,
            token_hash,
        ) by {
            assert(rest[i] == records[i + 1]);
        }
        lemma_first_record_skips(rest, user_id, token_hash, start - 1);
        assert(rest.skip(start - 1) =~= records.skip(start));
        assert(!is_record_of(records[0], user_id, token_hash));
    }
}

/// A record that is added to the ledger does not change which record is the
/// first of a token that has one.
pub proof fn lemma_first_record_survives_push(
    records: Seq<RecordFields>,
    added: RecordFields,
    user_id: u128,
    token_hash: Seq<char>,
)
    requires
        first_record_of(records, user_id, token_hash) is Some,
    ensures
        first_record_of(records.push(added), user_id, token_hash) == first_record_of(
            records,
            user_id,
            token_hash,
        ),
    decreases records.len(),
{
    if records.len() > 0 && !is_record_of(records[0], user_id, token_hash) {
        lemma_first_record_survives_push(records.drop_first(), added, user_id, token_hash);
        assert(records.push(added).drop_first() =~= records.drop_first().push(added));
    }
}

impl RefreshTokenLedger {
    /// A ledger without records.
    pub fn new() -> (ledger: RefreshTokenLedger)
        ensures
            ledger@ == Seq::<RecordFields>::empty(),
    {
        let ledger = RefreshTokenLedger { rows: Vec::new() };
        assert(ledger@ =~= Seq::<RecordFields>::empty());
        ledger
    }

    /// The number of records.
    pub fn len(&self) -> (count: usize)
        ensures
            count == self@.len(),
    {
        self.rows.len()
    }
}

/// Adds the record of a refresh token to the ledger.
pub fn insert_refresh_token(ledger: &mut RefreshTokenLedger, record: RefreshTokenRecord)
    ensures
        final(ledger)@ == old(ledger)@.push(record@),
{
    ledger.rows.push(record);
    assert(ledger@ =~= old(ledger)@.push(record@));
}

/// Finds the first record of the user's token with the given hash.
pub fn find_refresh_token(ledger: &RefreshTokenLedger, user_id: u128, token_hash: &str) -> (found:
    Option<RefreshTokenRecord>)
    ensures
        match found {
            Some(record) => first_record_of(ledger@, user_id, token_hash@) == Some(record@),
            None => first_record_of(ledger@, user_id, token_hash@) is None,
        },
{
    let wanted = String::from_str(token_hash);
    let mut index: usize = 0;
    while index < ledger.rows.len()
        invariant
            index <= ledger.rows.len(),
            wanted@ == token_hash@,
            ledger@.len() == ledger.rows@.len(),
            forall|i: int|
                0 <= i < index ==> !is_record_of(#[trigger] ledger@[i], user_id, token_hash@),
        decreases ledger.rows.len() - index,
    {
        let row = &ledger.rows[index];
        assert(ledger@[index as int] == row@);
        if row.user_id == user_id && row.token_hash == wanted {
            let record = RefreshTokenRecord {
                user_id: row.user_id,
                token_hash: row.token_hash.clone(),
                expires_at: row.expires_at,
                created_at: row.created_at,
            };
            proof {
                lemma_first_record_skips(ledger@, user_id, token_hash@, index as int);
                assert(ledger@.skip(index as int)[0] == ledger@[index as int]);
                assert(record@ == ledger@[index as int]);
            }
            return Some(record);
        }
        index += 1;
    }
    proof {
        lemma_first_record_skips(ledger@, user_id, token_hash@, ledger@.len() as int);
        assert(ledger@.skip(ledger@.len() as int).len() == 0);
    }
    None
}

} // verus!
