use vstd::prelude::*;
use vstd::utf8::encode_utf8;
use crate::error::ErrorCode;
use crate::key::{AccountKey, zero_key};

verus! {

/// The longest request id, in bytes, that a record may carry.
pub const MAX_REQUEST_ID_LEN: usize = 64;

/// The length of a request id in bytes (UTF-8).
pub open spec fn id_byte_len(id: Seq<char>) -> nat {
    encode_utf8(id).len()
}

/// Who holds value on either side of a transfer.
#[derive(Clone, Copy, Debug, PartialEq, Eq)]
pub enum Holder {
    /// An ordinary account.
    Account(AccountKey),
    /// The custody of the escrow record the operation acts on.
    Custody,
}

/// A movement of native value that the host must carry out, atomically with
/// the state change of the operation that produced it.
#[derive(Clone, Copy, Debug, PartialEq, Eq)]
pub struct Transfer {
    pub from: Holder,
    pub to: Holder,
    pub amount: u64,
}

/// One escrow record: the payment owed to `seller` for one request.
#[derive(Debug)]
pub struct PaymentRequirement {
    pub seller: AccountKey,
    pub request_id: String,
    pub amount: u64,
    pub expires_at: i64,
    pub is_paid: bool,
    pub payer: AccountKey,
    pub bump: u8,
}

/// The mathematical value of a record.
pub struct PaymentRecord {
    pub seller: AccountKey,
    pub request_id: Seq<char>,
    pub amount: u64,
    pub expires_at: i64,
    pub is_paid: bool,
    pub payer: AccountKey,
    pub bump: u8,
}

impl View for PaymentRequirement {
    type V = PaymentRecord;

    open spec fn view(&self) -> PaymentRecord {
        PaymentRecord {
            seller: self.seller,
            request_id: self.request_id@,
            amount: self.amount,
            expires_at: self.expires_at,
            is_paid: self.is_paid,
            payer: self.payer,
            bump: self.bump,
        }
    }
}

impl PaymentRecord {
    /// The invariant of a live record: a positive amount, a short request id,
    /// and a payer recorded exactly when the payment has been deposited.
    pub open spec fn wf(self) -> bool {
        &&& self.amount > 0
        &&& id_byte_len(self.request_id) <= MAX_REQUEST_ID_LEN
        &&& self.is_paid <==> self.payer != zero_key()
    }

    /// The native value held in the record's custody, beyond storage cost.
    pub open spec fn held(self) -> nat {
        if self.is_paid {
            self.amount as nat
        } else {
            0
        }
    }

    /// The record after `payer` deposited its amount.
    pub open spec fn paid_by(self, payer: AccountKey) -> PaymentRecord {
        PaymentRecord { is_paid: true, payer, ..self }
    }
}

/// A freshly created, unpaid record.
pub open spec fn opened(
    seller: AccountKey,
    request_id: Seq<char>,
    amount: u64,
    expires_at: i64,
    bump: u8,
) -> PaymentRecord {
    PaymentRecord { seller, request_id, amount, expires_at, is_paid: false, payer: zero_key(), bump }
}

/// The first check that refuses creation, if any.
pub open spec fn create_error(amount: u64, expires_at: i64, now: i64, request_id: Seq<char>) -> Option<ErrorCode> {
    if amount == 0 {
        Some(ErrorCode::InvalidAmount)
    } else if expires_at <= now {
        Some(ErrorCode::InvalidExpiration)
    } else if id_byte_len(request_id) > MAX_REQUEST_ID_LEN {
        Some(ErrorCode::RequestIdTooLong)
    } else {
        None
    }
}

/// The first check that refuses a deposit, if any.
pub open spec fn deposit_error(rec: PaymentRecord, request_id: Seq<char>, now: i64) -> Option<ErrorCode> {
    if rec.is_paid {
        Some(ErrorCode::AlreadyPaid)
    } else if now >= rec.expires_at {
        Some(ErrorCode::PaymentExpired)
    } else if rec.request_id != request_id {
        Some(ErrorCode::InvalidRequestId)
    } else {
        None
    }
}

/// The first check that refuses a release, if any.
pub open spec fn release_error(rec: PaymentRecord, request_id: Seq<char>, seller: AccountKey) -> Option<ErrorCode> {
    if !rec.is_paid {
        Some(ErrorCode::NotPaid)
    } else if rec.request_id != request_id {
        Some(ErrorCode::InvalidRequestId)
    } else if rec.seller != seller {
        Some(ErrorCode::UnauthorizedSeller)
    } else {
        None
    }
}

/// The first check that refuses a refund, if any.
pub open spec fn refund_error(rec: PaymentRecord, request_id: Seq<char>, payer: AccountKey, now: i64) -> Option<ErrorCode> {
    if !rec.is_paid {
        Some(ErrorCode::NotPaid)
    } else if rec.request_id != request_id {
        Some(ErrorCode::InvalidRequestId)
    } else if rec.payer != payer {
        Some(ErrorCode::UnauthorizedPayer)
    } else if now < rec.expires_at {
        Some(ErrorCode::PaymentNotExpired)
    } else {
        None
    }
}

/// The transfer that a deposit by `payer` asks for.
pub open spec fn deposit_transfer(rec: PaymentRecord, payer: AccountKey) -> Transfer {
    Transfer { from: Holder::Account(payer), to: Holder::Custody, amount: rec.amount }
}

/// The transfer that releases the held value to the seller.
pub open spec fn release_transfer(rec: PaymentRecord) -> Transfer {
    Transfer { from: Holder::Custody, to: Holder::Account(rec.seller), amount: rec.amount }
}

/// The transfer that returns the held value to the payer.
pub open spec fn refund_transfer(rec: PaymentRecord) -> Transfer {
    Transfer { from: Holder::Custody, to: Holder::Account(rec.payer), amount: rec.amount }
}

/// Creates the record for `request_id`, owned by `seller`, at time `now`.
/// `bump` is the salt that completes the record's storage address.
pub fn initialize_payment(
    seller: AccountKey,
    request_id: String,
    amount: u64,
    expires_at: i64,
    now: i64,
    bump: u8,
) -> (r: Result<PaymentRequirement, ErrorCode>)
    ensures
        match create_error(amount, expires_at, now, request_id@) {
            Some(e) => r == Err::<PaymentRequirement, ErrorCode>(e),
            None => r is Ok && r->Ok_0@ == opened(seller, request_id@, amount, expires_at, bump)
                && r->Ok_0@.wf(),
        },
{
    if amount == 0 {
        return Err(ErrorCode::InvalidAmount);
    }
    if expires_at <= now {
        return Err(ErrorCode::InvalidExpiration);
    }
    let id_len = request_id.as_str().as_bytes().len();
    if id_len > MAX_REQUEST_ID_LEN {
        return Err(ErrorCode::RequestIdTooLong);
    }
    let payer = AccountKey::default_key();
    let payment = PaymentRequirement {
        seller,
        request_id,
        amount,
        expires_at,
        is_paid: false,
        payer,
        bump,
    };
    Ok(payment)
}

/// Records the deposit of `payer` into `payment` at time `now`. On success
/// the returned transfer moves the record's amount from the payer into the
/// record's custody; on failure the record is left as it was.
pub fn deposit_payment(
    payment: &mut PaymentRequirement,
    payer: AccountKey,
    request_id: &String,
    now: i64,
) -> (r: Result<Transfer, ErrorCode>)
    ensures
        match deposit_error(old(payment)@, request_id@, now) {
            Some(e) => r == Err::<Transfer, ErrorCode>(e) && final(payment)@ == old(payment)@,
            None => r == Ok::<Transfer, ErrorCode>(deposit_transfer(old(payment)@, payer))
                && final(payment)@ == old(payment)@.paid_by(payer),
        },
        old(payment)@.wf() && payer != zero_key() ==> final(payment)@.wf(),
{
    if payment.is_paid {
        return Err(ErrorCode::AlreadyPaid);
    }
    if now >= payment.expires_at {
        return Err(ErrorCode::PaymentExpired);
    }
    if payment.request_id != *request_id {
        return Err(ErrorCode::InvalidRequestId);
    }
    let transfer = Transfer { from: Holder::Account(payer), to: Holder::Custody, amount: payment.amount };
    payment.is_paid = true;
    payment.payer = payer;
    Ok(transfer)
}

/// Checks that `payment` may be released to `seller` and returns the transfer
/// of the held amount from custody to the seller. The record is then closed,
/// its residual storage going to the seller as well.
pub fn verify_and_release(
    payment: &PaymentRequirement,
    request_id: &String,
    seller: AccountKey,
) -> (r: Result<Transfer, ErrorCode>)
    ensures
        match release_error(payment@, request_id@, seller) {
            Some(e) => r == Err::<Transfer, ErrorCode>(e),
            None => r == Ok::<Transfer, ErrorCode>(release_transfer(payment@)),
        },
{
    if !payment.is_paid {
        return Err(ErrorCode::NotPaid);
    }
    if payment.request_id != *request_id {
        return Err(ErrorCode::InvalidRequestId);
    }
    if payment.seller != seller {
        return Err(ErrorCode::UnauthorizedSeller);
    }
    Ok(Transfer { from: Holder::Custody, to: Holder::Account(payment.seller), amount: payment.amount })
}

/// Checks that `payer` may take back the value held by `payment` at time
/// `now` and returns the transfer of the held amount from custody to the
/// payer. The record is then closed, its residual storage going to the payer.
pub fn refund_payment(
    payment: &PaymentRequirement,
    request_id: &String,
    payer: AccountKey,
    now: i64,
) -> (r: Result<Transfer, ErrorCode>)
    ensures
        match refund_error(payment@, request_id@, payer, now) {
            Some(e) => r == Err::<Transfer, ErrorCode>(e),
            None => r == Ok::<Transfer, ErrorCode>(refund_transfer(payment@)),
        },
{
    if !payment.is_paid {
        return Err(ErrorCode::NotPaid);
    }
    if payment.request_id != *request_id {
        return Err(ErrorCode::InvalidRequestId);
    }
    if payment.payer != payer {
        return Err(ErrorCode::UnauthorizedPayer);
    }
    if now < payment.expires_at {
        return Err(ErrorCode::PaymentNotExpired);
    }
    Ok(Transfer { from: Holder::Custody, to: Holder::Account(payment.payer), amount: payment.amount })
}

} // verus!
