use vstd::prelude::*;

verus! {

use vstd::utf8::encode_utf8;

/// Minimum accepted donation, in the store's smallest currency unit.
pub const MIN_DONATION: u64 = 1_000_000;

/// Fixed storage allocation of one campaign record, in bytes. The record's
/// size is fixed at creation; descriptive text that would not fit is
/// rejected.
pub const RECORD_SPACE: u64 = 9000;

/// Per-record bookkeeping overhead the store charges for on top of the
/// record's own allocation.
pub const STORAGE_OVERHEAD_BYTES: u64 = 128;

/// Currency units of reserve required per allocated byte to keep a record
/// alive in the store.
pub const RESERVE_RATE: u64 = 6960;

/// Bytes taken by the record's fixed-width fields: the admin identity, the
/// target and collected counters, the start timestamp, and one length
/// prefix for each of the three text fields.
pub const FIXED_FIELD_BYTES: u64 = 44;

/// A signed caller identity, usable only for equality checks.
#[derive(Clone, Copy, PartialEq, Eq, Structural, Debug)]
pub struct Identity(pub u64);

/// The reserve a record of `data_len` allocated bytes must keep to stay in
/// the store. It is a function of the allocation alone, not of how much of
/// the allocation the text uses.
pub open spec fn spec_storage_reserve(data_len: u64) -> int {
    (STORAGE_OVERHEAD_BYTES + data_len) * RESERVE_RATE
}

/// Computes the storage reserve for a record of `data_len` allocated bytes.
pub fn storage_reserve(data_len: u64) -> (r: u64)
    requires
        spec_storage_reserve(data_len) <= u64::MAX,
    ensures
        r == spec_storage_reserve(data_len),
{
    (STORAGE_OVERHEAD_BYTES + data_len) * RESERVE_RATE
}

/// Whether the three text fields, serialized next to the fixed-width
/// fields, fit the record's fixed allocation. Text is measured in bytes of
/// its UTF-8 encoding.
pub open spec fn content_fits(name: Seq<char>, description: Seq<char>, image_url: Seq<char>) -> bool {
    FIXED_FIELD_BYTES + encode_utf8(name).len() + encode_utf8(description).len()
        + encode_utf8(image_url).len() <= RECORD_SPACE
}

/// One campaign record: the sole persistent entity.
///
/// `held_balance` is the record's own ledger balance, made explicit: it
/// includes the storage reserve paid at creation plus every donation not
/// yet withdrawn. `amount_collected` is the running total of all donations
/// ever applied; withdrawals deliberately do not decrement it.
pub struct Campaign {
    /// The identity that created the campaign; immutable; sole authority
    /// for withdrawal and closure.
    pub admin: Identity,
    /// Descriptive name; also half of the record's address.
    pub name: String,
    /// Descriptive text, stored verbatim.
    pub description: String,
    /// Informational funding goal; never enforced as a cap.
    pub target_amount: u64,
    /// Lifetime sum of all successfully applied donations.
    pub amount_collected: u64,
    /// Descriptive text, stored verbatim.
    pub image_url: String,
    /// Timestamp captured at creation; immutable.
    pub start_time: i64,
    /// The record's held balance, reserve included.
    pub held_balance: u64,
}

impl Campaign {
    /// The reserve this record must keep; computed from the record's
    /// allocation, never cached.
    pub open spec fn reserve(self) -> int {
        spec_storage_reserve(RECORD_SPACE)
    }

    /// The withdrawable part of the held balance.
    pub open spec fn available(self) -> int {
        self.held_balance - self.reserve()
    }

    /// Record well-formedness: the text fits the fixed allocation and the
    /// held balance covers the storage reserve.
    pub open spec fn wf(self) -> bool {
        &&& content_fits(self.name@, self.description@, self.image_url@)
        &&& self.reserve() <= self.held_balance
    }

    /// Whether a donation of `amount` is accepted at the record itself:
    /// it meets the minimum and neither the collected counter nor the held
    /// balance would overflow.
    pub open spec fn donate_allowed(self, amount: u64) -> bool {
        &&& amount >= MIN_DONATION
        &&& self.amount_collected + amount <= u64::MAX
        &&& self.held_balance + amount <= u64::MAX
    }

    /// The record after a donation of `amount`: both the held balance and
    /// the lifetime counter grow by `amount`.
    pub open spec fn donated(self, amount: u64) -> Campaign {
        Campaign {
            amount_collected: (self.amount_collected + amount) as u64,
            held_balance: (self.held_balance + amount) as u64,
            ..self
        }
    }

    /// Whether a withdrawal of `amount` is accepted at the record itself:
    /// only the available (non-reserve) balance may leave.
    pub open spec fn withdraw_allowed(self, amount: u64) -> bool {
        amount <= self.available()
    }

    /// The record after a withdrawal of `amount`: the held balance shrinks,
    /// the lifetime collected counter deliberately does not.
    pub open spec fn withdrawn(self, amount: u64) -> Campaign {
        Campaign { held_balance: (self.held_balance - amount) as u64, ..self }
    }
}

} // verus!
