//! Properties of the escrow protocol that relate several operations.

use vstd::prelude::*;
use crate::error::{ErrorCode, LedgerError};
use crate::key::AccountKey;
use crate::ledger::{
    matches_key, has_record, index_of, record_of, keys_unique, ledger_wf, lemma_index_of,
    create_outcome, after_create, deposit_outcome, after_deposit, release_outcome, after_release,
    refund_outcome, after_refund,
};
use crate::record::{
    PaymentRecord, Transfer, Holder, create_error, release_error, refund_error,
    opened,
};

verus! {

/// Appending a record for a pair that has none keeps keys unique, and the
/// new record is the one found at that pair.
proof fn lemma_push_new(recs: Seq<PaymentRecord>, rec: PaymentRecord)
    requires
        keys_unique(recs),
        !has_record(recs, rec.seller, rec.request_id),
    ensures
        keys_unique(recs.push(rec)),
        has_record(recs.push(rec), rec.seller, rec.request_id),
        record_of(recs.push(rec), rec.seller, rec.request_id) == rec,
{
    let after = recs.push(rec);
    assert forall|i: int, j: int|
        0 <= i < after.len() && 0 <= j < after.len() && i != j implies !(
        #[trigger] after[i].seller == #[trigger] after[j].seller && after[i].request_id
            == after[j].request_id) by {
        if i == recs.len() as int {
            assert(!matches_key(recs[j], rec.seller, rec.request_id));
        } else if j == recs.len() as int {
            assert(!matches_key(recs[i], rec.seller, rec.request_id));
        }
    }
    lemma_index_of(after, rec.seller, rec.request_id, recs.len() as int);
}

/// Replacing the record of a pair by one with the same key keeps keys
/// unique, and the replacement is the one found at that pair.
proof fn lemma_update_same_key(recs: Seq<PaymentRecord>, seller: AccountKey, request_id: Seq<char>, rec: PaymentRecord)
    requires
        keys_unique(recs),
        has_record(recs, seller, request_id),
        matches_key(rec, seller, request_id),
    ensures
        keys_unique(recs.update(index_of(recs, seller, request_id), rec)),
        has_record(recs.update(index_of(recs, seller, request_id), rec), seller, request_id),
        record_of(recs.update(index_of(recs, seller, request_id), rec), seller, request_id) == rec,
{
    let i = index_of(recs, seller, request_id);
    assert(matches_key(recs[i], seller, request_id));
    let after = recs.update(i, rec);
    assert forall|a: int, b: int|
        0 <= a < after.len() && 0 <= b < after.len() && a != b implies !(
        #[trigger] after[a].seller == #[trigger] after[b].seller && after[a].request_id
            == after[b].request_id) by {
        assert(after[a].seller == recs[a].seller && after[a].request_id == recs[a].request_id);
        assert(after[b].seller == recs[b].seller && after[b].request_id == recs[b].request_id);
    }
    lemma_index_of(after, seller, request_id, i);
}

/// Removing the record of a pair leaves no record for that pair.
proof fn lemma_remove_gone(recs: Seq<PaymentRecord>, seller: AccountKey, request_id: Seq<char>)
    requires
        keys_unique(recs),
        has_record(recs, seller, request_id),
    ensures
        !has_record(recs.remove(index_of(recs, seller, request_id)), seller, request_id),
{
    let i = index_of(recs, seller, request_id);
    assert(matches_key(recs[i], seller, request_id));
    let after = recs.remove(i);
    assert forall|j: int| 0 <= j < after.len() implies !#[trigger] matches_key(after[j], seller, request_id) by {
        let j2 = if j < i { j } else { j + 1 };
        assert(after[j] == recs[j2]);
        assert(recs[j2].seller == recs[i].seller ==> recs[j2].request_id != recs[i].request_id);
    }
}

/// Creation with valid arguments succeeds on a pair that holds no record;
/// any later creation on the same pair then fails with `AccountInUse` and
/// leaves the records untouched.
pub proof fn law_create_once(
    recs: Seq<PaymentRecord>,
    seller: AccountKey,
    request_id: Seq<char>,
    amount: u64,
    expires_at: i64,
    now: i64,
    bump: u8,
    amount2: u64,
    expires_at2: i64,
    now2: i64,
    bump2: u8,
)
    requires
        ledger_wf(recs),
        !has_record(recs, seller, request_id),
        create_error(amount, expires_at, now, request_id) is None,
    ensures
        create_outcome(recs, seller, request_id, amount, expires_at, now, bump) is Ok,
        ({
            let after = after_create(recs, seller, request_id, amount, expires_at, now, bump);
            &&& record_of(after, seller, request_id) == opened(seller, request_id, amount, expires_at, bump)
            &&& create_outcome(after, seller, request_id, amount2, expires_at2, now2, bump2)
                == Err::<PaymentRecord, LedgerError>(LedgerError::AccountInUse)
            &&& after_create(after, seller, request_id, amount2, expires_at2, now2, bump2) == after
        }),
{
    lemma_push_new(recs, opened(seller, request_id, amount, expires_at, bump));
}

/// A deposit on a live record succeeds exactly when the record is unpaid and
/// its deadline has not come; it then marks the record paid by the caller,
/// the custody holds exactly the amount, and the transfer takes exactly the
/// amount from the caller.
pub proof fn law_deposit(recs: Seq<PaymentRecord>, seller: AccountKey, request_id: Seq<char>, payer: AccountKey, now: i64)
    requires
        ledger_wf(recs),
        has_record(recs, seller, request_id),
    ensures
        ({
            let rec = record_of(recs, seller, request_id);
            let r = deposit_outcome(recs, seller, request_id, payer, now);
            let paid = record_of(after_deposit(recs, seller, request_id, payer, now), seller, request_id);
            &&& r is Ok <==> !rec.is_paid && now < rec.expires_at
            &&& r is Ok ==> {
                &&& paid.is_paid && paid.payer == payer
                &&& paid.held() == rec.amount
                &&& r == Ok::<Transfer, LedgerError>(
                    Transfer { from: Holder::Account(payer), to: Holder::Custody, amount: rec.amount },
                )
            }
        }),
{
    let i = index_of(recs, seller, request_id);
    assert(matches_key(recs[i], seller, request_id));
    if deposit_outcome(recs, seller, request_id, payer, now) is Ok {
        lemma_update_same_key(recs, seller, request_id, recs[i].paid_by(payer));
    }
}

/// Release on a record refuses exactly when it is unpaid, its request id
/// differs or the supplied seller is not its seller. On a live pair, a
/// successful release pays the seller exactly the amount and leaves no record
/// for the pair.
pub proof fn law_release(
    recs: Seq<PaymentRecord>,
    seller: AccountKey,
    request_id: Seq<char>,
    rec: PaymentRecord,
    supplied_id: Seq<char>,
    supplied_seller: AccountKey,
)
    requires
        ledger_wf(recs),
        has_record(recs, seller, request_id),
    ensures
        release_error(rec, supplied_id, supplied_seller) is None <==> rec.is_paid && rec.request_id
            == supplied_id && rec.seller == supplied_seller,
        ({
            let live = record_of(recs, seller, request_id);
            let r = release_outcome(recs, seller, request_id);
            &&& r is Ok <==> live.is_paid
            &&& r is Ok ==> {
                &&& !has_record(after_release(recs, seller, request_id), seller, request_id)
                &&& live.held() == live.amount
                &&& r == Ok::<Transfer, LedgerError>(
                    Transfer { from: Holder::Custody, to: Holder::Account(seller), amount: live.amount },
                )
            }
        }),
{
    let i = index_of(recs, seller, request_id);
    assert(matches_key(recs[i], seller, request_id));
    if release_outcome(recs, seller, request_id) is Ok {
        lemma_remove_gone(recs, seller, request_id);
    }
}

/// Refund on a record refuses exactly when it is unpaid, its request id
/// differs, the caller is not its payer or its deadline has not come. On a
/// live pair, a successful refund pays the payer exactly the amount and
/// leaves no record for the pair.
pub proof fn law_refund(
    recs: Seq<PaymentRecord>,
    seller: AccountKey,
    request_id: Seq<char>,
    payer: AccountKey,
    now: i64,
    rec: PaymentRecord,
    supplied_id: Seq<char>,
)
    requires
        ledger_wf(recs),
        has_record(recs, seller, request_id),
    ensures
        refund_error(rec, supplied_id, payer, now) is None <==> rec.is_paid && rec.request_id
            == supplied_id && rec.payer == payer && now >= rec.expires_at,
        ({
            let live = record_of(recs, seller, request_id);
            let r = refund_outcome(recs, seller, request_id, payer, now);
            &&& r is Ok <==> live.is_paid && live.payer == payer && now >= live.expires_at
            &&& r is Ok ==> {
                &&& !has_record(after_refund(recs, seller, request_id, payer, now), seller, request_id)
                &&& live.held() == live.amount
                &&& r == Ok::<Transfer, LedgerError>(
                    Transfer { from: Holder::Custody, to: Holder::Account(payer), amount: live.amount },
                )
            }
        }),
{
    let i = index_of(recs, seller, request_id);
    assert(matches_key(recs[i], seller, request_id));
    if refund_outcome(recs, seller, request_id, payer, now) is Ok {
        lemma_remove_gone(recs, seller, request_id);
    }
}

/// Release and refund exclude each other: once either has succeeded on a
/// pair, the other finds no record there, whoever calls it and whenever.
pub proof fn law_release_refund_exclusive(
    recs: Seq<PaymentRecord>,
    seller: AccountKey,
    request_id: Seq<char>,
    payer: AccountKey,
    now: i64,
)
    requires
        ledger_wf(recs),
    ensures
        release_outcome(recs, seller, request_id) is Ok ==> refund_outcome(
            after_release(recs, seller, request_id),
            seller,
            request_id,
            payer,
            now,
        ) == Err::<Transfer, LedgerError>(LedgerError::AccountNotFound),
        refund_outcome(recs, seller, request_id, payer, now) is Ok ==> release_outcome(
            after_refund(recs, seller, request_id, payer, now),
            seller,
            request_id,
        ) == Err::<Transfer, LedgerError>(LedgerError::AccountNotFound),
{
    if release_outcome(recs, seller, request_id) is Ok {
        lemma_remove_gone(recs, seller, request_id);
    }
    if refund_outcome(recs, seller, request_id, payer, now) is Ok {
        lemma_remove_gone(recs, seller, request_id);
    }
}

/// After a successful deposit, every further deposit on the same pair fails
/// with `AlreadyPaid`, whoever calls it and whenever.
pub proof fn law_deposit_once(
    recs: Seq<PaymentRecord>,
    seller: AccountKey,
    request_id: Seq<char>,
    payer: AccountKey,
    now: i64,
    payer2: AccountKey,
    now2: i64,
)
    requires
        ledger_wf(recs),
        deposit_outcome(recs, seller, request_id, payer, now) is Ok,
    ensures
        deposit_outcome(after_deposit(recs, seller, request_id, payer, now), seller, request_id, payer2, now2)
            == Err::<Transfer, LedgerError>(LedgerError::Escrow(ErrorCode::AlreadyPaid)),
{
    let i = index_of(recs, seller, request_id);
    assert(matches_key(recs[i], seller, request_id));
    lemma_update_same_key(recs, seller, request_id, recs[i].paid_by(payer));
}

} // verus!
