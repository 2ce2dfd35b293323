use vstd::prelude::*;
use crate::error::LedgerError;
use crate::key::{AccountKey, zero_key};
use crate::record::{
    PaymentRecord, PaymentRequirement, Transfer, create_error, deposit_error, release_error,
    refund_error, deposit_transfer, release_transfer, refund_transfer, opened,
    initialize_payment, deposit_payment, verify_and_release, refund_payment,
};

verus! {

/// Whether `rec` is the record of the (seller, request id) pair.
pub open spec fn matches_key(rec: PaymentRecord, seller: AccountKey, request_id: Seq<char>) -> bool {
    rec.seller == seller && rec.request_id == request_id
}

/// Whether a live record exists for the (seller, request id) pair.
pub open spec fn has_record(recs: Seq<PaymentRecord>, seller: AccountKey, request_id: Seq<char>) -> bool {
    exists|i: int| 0 <= i < recs.len() && #[trigger] matches_key(recs[i], seller, request_id)
}

/// The position of the record of the (seller, request id) pair.
pub open spec fn index_of(recs: Seq<PaymentRecord>, seller: AccountKey, request_id: Seq<char>) -> int {
    choose|i: int| 0 <= i < recs.len() && #[trigger] matches_key(recs[i], seller, request_id)
}

/// The record of the (seller, request id) pair.
pub open spec fn record_of(recs: Seq<PaymentRecord>, seller: AccountKey, request_id: Seq<char>) -> PaymentRecord {
    recs[index_of(recs, seller, request_id)]
}

/// At most one live record per (seller, request id) pair.
pub open spec fn keys_unique(recs: Seq<PaymentRecord>) -> bool {
    forall|i: int, j: int|
        0 <= i < recs.len() && 0 <= j < recs.len() && i != j ==> !(#[trigger] recs[i].seller
            == #[trigger] recs[j].seller && recs[i].request_id == recs[j].request_id)
}

/// The invariant of the ledger: unique keys and well-formed records.
pub open spec fn ledger_wf(recs: Seq<PaymentRecord>) -> bool {
    &&& keys_unique(recs)
    &&& forall|i: int| 0 <= i < recs.len() ==> (#[trigger] recs[i]).wf()
}

/// What a creation returns: the new record, or why it was refused. A live
/// record at the same pair refuses it before any other check.
pub open spec fn create_outcome(
    recs: Seq<PaymentRecord>,
    seller: AccountKey,
    request_id: Seq<char>,
    amount: u64,
    expires_at: i64,
    now: i64,
    bump: u8,
) -> Result<PaymentRecord, LedgerError> {
    if has_record(recs, seller, request_id) {
        Err(LedgerError::AccountInUse)
    } else {
        match create_error(amount, expires_at, now, request_id) {
            Some(e) => Err(LedgerError::Escrow(e)),
            None => Ok(opened(seller, request_id, amount, expires_at, bump)),
        }
    }
}

/// The records after a creation.
pub open spec fn after_create(
    recs: Seq<PaymentRecord>,
    seller: AccountKey,
    request_id: Seq<char>,
    amount: u64,
    expires_at: i64,
    now: i64,
    bump: u8,
) -> Seq<PaymentRecord> {
    match create_outcome(recs, seller, request_id, amount, expires_at, now, bump) {
        Ok(rec) => recs.push(rec),
        Err(_) => recs,
    }
}

/// What a deposit by `payer` returns: the transfer into custody, or why it
/// was refused.
pub open spec fn deposit_outcome(
    recs: Seq<PaymentRecord>,
    seller: AccountKey,
    request_id: Seq<char>,
    payer: AccountKey,
    now: i64,
) -> Result<Transfer, LedgerError> {
    if !has_record(recs, seller, request_id) {
        Err(LedgerError::AccountNotFound)
    } else {
        let rec = record_of(recs, seller, request_id);
        match deposit_error(rec, request_id, now) {
            Some(e) => Err(LedgerError::Escrow(e)),
            None => Ok(deposit_transfer(rec, payer)),
        }
    }
}

/// The records after a deposit.
pub open spec fn after_deposit(
    recs: Seq<PaymentRecord>,
    seller: AccountKey,
    request_id: Seq<char>,
    payer: AccountKey,
    now: i64,
) -> Seq<PaymentRecord> {
    if deposit_outcome(recs, seller, request_id, payer, now) is Ok {
        let i = index_of(recs, seller, request_id);
        recs.update(i, recs[i].paid_by(payer))
    } else {
        recs
    }
}

/// What a release to `seller` returns: the transfer out of custody, or why
/// it was refused.
pub open spec fn release_outcome(
    recs: Seq<PaymentRecord>,
    seller: AccountKey,
    request_id: Seq<char>,
) -> Result<Transfer, LedgerError> {
    if !has_record(recs, seller, request_id) {
        Err(LedgerError::AccountNotFound)
    } else {
        let rec = record_of(recs, seller, request_id);
        match release_error(rec, request_id, seller) {
            Some(e) => Err(LedgerError::Escrow(e)),
            None => Ok(release_transfer(rec)),
        }
    }
}

/// The records after a release.
pub open spec fn after_release(
    recs: Seq<PaymentRecord>,
    seller: AccountKey,
    request_id: Seq<char>,
) -> Seq<PaymentRecord> {
    if release_outcome(recs, seller, request_id) is Ok {
        recs.remove(index_of(recs, seller, request_id))
    } else {
        recs
    }
}

/// What a refund to `payer` returns: the transfer out of custody, or why it
/// was refused.
pub open spec fn refund_outcome(
    recs: Seq<PaymentRecord>,
    seller: AccountKey,
    request_id: Seq<char>,
    payer: AccountKey,
    now: i64,
) -> Result<Transfer, LedgerError> {
    if !has_record(recs, seller, request_id) {
        Err(LedgerError::AccountNotFound)
    } else {
        let rec = record_of(recs, seller, request_id);
        match refund_error(rec, request_id, payer, now) {
            Some(e) => Err(LedgerError::Escrow(e)),
            None => Ok(refund_transfer(rec)),
        }
    }
}

/// The records after a refund.
pub open spec fn after_refund(
    recs: Seq<PaymentRecord>,
    seller: AccountKey,
    request_id: Seq<char>,
    payer: AccountKey,
    now: i64,
) -> Seq<PaymentRecord> {
    if refund_outcome(recs, seller, request_id, payer, now) is Ok {
        recs.remove(index_of(recs, seller, request_id))
    } else {
        recs
    }
}

/// With unique keys, a record that matches the pair is the one `index_of` names.
pub proof fn lemma_index_of(recs: Seq<PaymentRecord>, seller: AccountKey, request_id: Seq<char>, i: int)
    requires
        keys_unique(recs),
        0 <= i < recs.len(),
        matches_key(recs[i], seller, request_id),
    ensures
        has_record(recs, seller, request_id),
        index_of(recs, seller, request_id) == i,
{
    let j = index_of(recs, seller, request_id);
    assert(matches_key(recs[j], seller, request_id));
    if j != i {
        assert(recs[i].seller == recs[j].seller);
    }
}

/// The live escrow records, at most one per (seller, request id) pair.
pub struct PaymentLedger {
    records: Vec<PaymentRequirement>,
}

impl View for PaymentLedger {
    type V = Seq<PaymentRecord>;

    closed spec fn view(&self) -> Seq<PaymentRecord> {
        self.records@.map_values(|r: PaymentRequirement| r@)
    }
}

impl PaymentLedger {
    /// An empty ledger.
    pub fn new() -> (r: PaymentLedger)
        ensures
            r@ == Seq::<PaymentRecord>::empty(),
    {
        let r = PaymentLedger { records: Vec::new() };
        assert(r@ =~= Seq::<PaymentRecord>::empty());
        r
    }

    /// The number of live records.
    pub fn len(&self) -> (r: usize)
        ensures
            r == self@.len(),
    {
        self.records.len()
    }

    /// The position of the record of the (seller, request id) pair, if any.
    fn position(&self, seller: &AccountKey, request_id: &String) -> (r: Option<usize>)
        requires
            keys_unique(self@),
        ensures
            match r {
                Some(i) => i < self@.len() && index_of(self@, *seller, request_id@) == i
                    && has_record(self@, *seller, request_id@),
                None => !has_record(self@, *seller, request_id@),
            },
    {
        let mut i: usize = 0;
        while i < self.records.len()
            invariant
                0 <= i <= self.records@.len(),
                self@.len() == self.records@.len(),
                keys_unique(self@),
                forall|j: int| 0 <= j < i ==> !matches_key(#[trigger] self@[j], *seller, request_id@),
            decreases self.records@.len() - i,
        {
            let rec = &self.records[i];
            if rec.seller == *seller && rec.request_id == *request_id {
                proof {
                    lemma_index_of(self@, *seller, request_id@, i as int);
                }
                return Some(i);
            }
            i = i + 1;
        }
        None
    }

    /// The live record of the (seller, request id) pair, if any.
    pub fn find(&self, seller: &AccountKey, request_id: &String) -> (r: Option<&PaymentRequirement>)
        requires
            ledger_wf(self@),
        ensures
            match r {
                Some(rec) => has_record(self@, *seller, request_id@)
                    && rec@ == record_of(self@, *seller, request_id@),
                None => !has_record(self@, *seller, request_id@),
            },
    {
        match self.position(seller, request_id) {
            Some(i) => Some(&self.records[i]),
            None => None,
        }
    }
    /// Creates the record of `request_id` for `seller` at time `now`, unless
    /// a live record already holds the pair or the record's checks refuse.
    pub fn initialize_payment(
        &mut self,
        seller: AccountKey,
        request_id: String,
        amount: u64,
        expires_at: i64,
        now: i64,
        bump: u8,
    ) -> (r: Result<(), LedgerError>)
        requires
            ledger_wf(old(self)@),
        ensures
            ledger_wf(final(self)@),
            match create_outcome(old(self)@, seller, request_id@, amount, expires_at, now, bump) {
                Ok(_) => r is Ok,
                Err(e) => r == Err::<(), LedgerError>(e),
            },
            final(self)@ == after_create(old(self)@, seller, request_id@, amount, expires_at, now, bump),
    {
        let ghost id = request_id@;
        if self.position(&seller, &request_id).is_some() {
            return Err(LedgerError::AccountInUse);
        }
        match initialize_payment(seller, request_id, amount, expires_at, now, bump) {
            Ok(payment) => {
                let ghost before = self@;
                self.records.push(payment);
                proof {
                    let rec = opened(seller, id, amount, expires_at, bump);
                    assert(self@ =~= before.push(rec));
                    assert forall|i: int, j: int|
                        0 <= i < self@.len() && 0 <= j < self@.len() && i != j implies !(
                        #[trigger] self@[i].seller == #[trigger] self@[j].seller
                            && self@[i].request_id == self@[j].request_id) by {
                        if i == before.len() as int {
                            assert(!matches_key(before[j], seller, id));
                        } else if j == before.len() as int {
                            assert(!matches_key(before[i], seller, id));
                        }
                    }
                }
                Ok(())
            },
            Err(e) => Err(LedgerError::Escrow(e)),
        }
    }

    /// Records the deposit of `payer` into the record of the pair at time
    /// `now`, and returns the transfer that the host must carry out with it.
    /// The payer signed the call, so it is never the all-zero key.
    pub fn deposit_payment(
        &mut self,
        seller: &AccountKey,
        request_id: &String,
        payer: AccountKey,
        now: i64,
    ) -> (r: Result<Transfer, LedgerError>)
        requires
            ledger_wf(old(self)@),
            payer != zero_key(),
        ensures
            ledger_wf(final(self)@),
            r == deposit_outcome(old(self)@, *seller, request_id@, payer, now),
            final(self)@ == after_deposit(old(self)@, *seller, request_id@, payer, now),
    {
        match self.position(seller, request_id) {
            None => Err(LedgerError::AccountNotFound),
            Some(i) => {
                let ghost before = self@;
                let mut payment = self.records.remove(i);
                assert(payment@ == before[i as int]);
                let r = deposit_payment(&mut payment, payer, request_id, now);
                self.records.insert(i, payment);
                proof {
                    assert(self@ =~= before.update(i as int, payment@));
                    assert forall|a: int, b: int|
                        0 <= a < self@.len() && 0 <= b < self@.len() && a != b implies !(
                        #[trigger] self@[a].seller == #[trigger] self@[b].seller
                            && self@[a].request_id == self@[b].request_id) by {
                        assert(before[a].seller == self@[a].seller);
                        assert(before[b].seller == self@[b].seller);
                    }
                    assert forall|a: int| 0 <= a < self@.len() implies (#[trigger] self@[a]).wf() by {
                        assert(before[a].wf());
                    }
                }
                match r {
                    Ok(t) => Ok(t),
                    Err(e) => Err(LedgerError::Escrow(e)),
                }
            },
        }
    }

    /// Releases the held value of the pair's record to `seller` and closes
    /// the record; returns the transfer that the host must carry out with it.
    pub fn verify_and_release(
        &mut self,
        seller: &AccountKey,
        request_id: &String,
    ) -> (r: Result<Transfer, LedgerError>)
        requires
            ledger_wf(old(self)@),
        ensures
            ledger_wf(final(self)@),
            r == release_outcome(old(self)@, *seller, request_id@),
            final(self)@ == after_release(old(self)@, *seller, request_id@),
    {
        match self.position(seller, request_id) {
            None => Err(LedgerError::AccountNotFound),
            Some(i) => {
                let ghost before = self@;
                match verify_and_release(&self.records[i], request_id, *seller) {
                    Ok(t) => {
                        let _closed = self.records.remove(i);
                        proof {
                            self.lemma_removed(before, i as int);
                        }
                        Ok(t)
                    },
                    Err(e) => Err(LedgerError::Escrow(e)),
                }
            },
        }
    }

    /// Returns the held value of the pair's record to `payer` at time `now`
    /// and closes the record; returns the transfer that the host must carry
    /// out with it.
    pub fn refund_payment(
        &mut self,
        seller: &AccountKey,
        request_id: &String,
        payer: AccountKey,
        now: i64,
    ) -> (r: Result<Transfer, LedgerError>)
        requires
            ledger_wf(old(self)@),
        ensures
            ledger_wf(final(self)@),
            r == refund_outcome(old(self)@, *seller, request_id@, payer, now),
            final(self)@ == after_refund(old(self)@, *seller, request_id@, payer, now),
    {
        match self.position(seller, request_id) {
            None => Err(LedgerError::AccountNotFound),
            Some(i) => {
                let ghost before = self@;
                match refund_payment(&self.records[i], request_id, payer, now) {
                    Ok(t) => {
                        let _closed = self.records.remove(i);
                        proof {
                            self.lemma_removed(before, i as int);
                        }
                        Ok(t)
                    },
                    Err(e) => Err(LedgerError::Escrow(e)),
                }
            },
        }
    }

    /// Removing one record keeps the ledger's invariant.
    proof fn lemma_removed(&self, before: Seq<PaymentRecord>, i: int)
        requires
            ledger_wf(before),
            0 <= i < before.len(),
            self.records@.len() == before.len() - 1,
            forall|k: int| 0 <= k < i ==> (#[trigger] self.records@[k])@ == before[k],
            forall|k: int| i <= k < self.records@.len() ==> (#[trigger] self.records@[k])@ == before[k + 1],
        ensures
            self@ == before.remove(i),
            ledger_wf(self@),
    {
        assert(self@ =~= before.remove(i));
        assert forall|a: int, b: int|
            0 <= a < self@.len() && 0 <= b < self@.len() && a != b implies !(
            #[trigger] self@[a].seller == #[trigger] self@[b].seller
                && self@[a].request_id == self@[b].request_id) by {
            let a2 = if a < i { a } else { a + 1 };
            let b2 = if b < i { b } else { b + 1 };
            assert(before[a2] == self@[a]);
            assert(before[b2] == self@[b]);
        }
        assert forall|a: int| 0 <= a < self@.len() implies (#[trigger] self@[a]).wf() by {
            let a2 = if a < i { a } else { a + 1 };
            assert(before[a2] == self@[a]);
        }
    }
}

} // verus!