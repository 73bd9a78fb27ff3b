//! The ways in which a ledger operation can be refused.

use vstd::prelude::*;

verus! {

/// Why the ledger refused an operation. A refused operation changes nothing.
#[derive(Clone, Copy, Debug, PartialEq, Eq, Structural)]
pub enum LedgerError {
    /// The acting identity could not be proven.
    AuthorizationFailure,
    /// No campaign is stored under the identifier.
    CampaignNotFound,
    /// The campaign has been closed.
    CampaignInactive,
    /// The deadline of the campaign has passed.
    CampaignExpired,
    /// Someone other than the creator tried to close a campaign before its deadline.
    Unauthorized,
    /// The contribution would raise the collected amount beyond `u64::MAX`.
    AmountOverflow,
    /// The deadline of the new campaign would lie beyond `u64::MAX` seconds.
    DeadlineOverflow,
    /// Every identifier has been handed out.
    IdentifierOverflow,
}

impl LedgerError {
    /// The text shown to a person when an operation is refused for this reason.
    pub open spec fn message_text(self) -> Seq<char> {
        match self {
            LedgerError::AuthorizationFailure => "Identity could not be proven!"@,
            LedgerError::CampaignNotFound => "Campaign not found!"@,
            LedgerError::CampaignInactive => "Campaign is not active!"@,
            LedgerError::CampaignExpired => "Campaign deadline has passed!"@,
            LedgerError::Unauthorized => "Unauthorized to close campaign!"@,
            LedgerError::AmountOverflow => "Raised amount would overflow!"@,
            LedgerError::DeadlineOverflow => "Campaign deadline would overflow!"@,
            LedgerError::IdentifierOverflow => "Campaign identifiers are exhausted!"@,
        }
    }

    /// Human-readable description of the refusal.
    pub fn message(&self) -> (text: &'static str)
        ensures
            text@ == self.message_text(),
    {
        match self {
            LedgerError::AuthorizationFailure => "Identity could not be proven!",
            LedgerError::CampaignNotFound => "Campaign not found!",
            LedgerError::CampaignInactive => "Campaign is not active!",
            LedgerError::CampaignExpired => "Campaign deadline has passed!",
            LedgerError::Unauthorized => "Unauthorized to close campaign!",
            LedgerError::AmountOverflow => "Raised amount would overflow!",
            LedgerError::DeadlineOverflow => "Campaign deadline would overflow!",
            LedgerError::IdentifierOverflow => "Campaign identifiers are exhausted!",
        }
    }
}

} // verus!
