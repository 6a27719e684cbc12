use vstd::prelude::*;

verus! {

/// The stable, enumerable error kinds. Every rejected operation surfaces
/// exactly one of these and leaves the store untouched.
#[derive(Clone, Copy, PartialEq, Eq, Structural, Debug)]
pub enum ErrorCode {
    /// The caller's identity does not match the record's admin.
    Unauthorized,
    /// The requested withdrawal exceeds the available (non-reserve) balance.
    InsufficientFunds,
    /// The donation amount is below the configured minimum.
    DonationTooSmall,
    /// Creation was attempted at an address that already holds a record.
    DuplicateCampaign,
    /// The operation references a campaign record that does not exist.
    RecordNotFound,
    /// A checked counter or balance update would overflow its range.
    ArithmeticOverflow,
    /// The caller lacks the funds for a transfer or for the creation reserve.
    InsufficientPayerFunds,
    /// The descriptive text would not fit the record's fixed allocation.
    RecordTooLarge,
}

impl ErrorCode {
    /// A human-readable message for the error kind.
    pub fn message(&self) -> (r: &'static str)
        ensures
            r@.len() > 0,
    {
        match self {
            ErrorCode::Unauthorized => {
                proof {
                    reveal_strlit("You are not the admin of this campaign.");
                }
                "You are not the admin of this campaign."
            },
            ErrorCode::InsufficientFunds => {
                proof {
                    reveal_strlit("Not enough funds in the campaign.");
                }
                "Not enough funds in the campaign."
            },
            ErrorCode::DonationTooSmall => {
                proof {
                    reveal_strlit("Donation is below the minimum donation amount.");
                }
                "Donation is below the minimum donation amount."
            },
            ErrorCode::DuplicateCampaign => {
                proof {
                    reveal_strlit("A campaign with this name already exists for this admin.");
                }
                "A campaign with this name already exists for this admin."
            },
            ErrorCode::RecordNotFound => {
                proof {
                    reveal_strlit("No campaign exists at this address.");
                }
                "No campaign exists at this address."
            },
            ErrorCode::ArithmeticOverflow => {
                proof {
                    reveal_strlit("A balance or counter update would overflow.");
                }
                "A balance or counter update would overflow."
            },
            ErrorCode::InsufficientPayerFunds => {
                proof {
                    reveal_strlit("The payer cannot cover this transfer.");
                }
                "The payer cannot cover this transfer."
            },
            ErrorCode::RecordTooLarge => {
                proof {
                    reveal_strlit("The campaign text does not fit the record allocation.");
                }
                "The campaign text does not fit the record allocation."
            },
        }
    }
}

} // verus!
