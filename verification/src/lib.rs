//! A ledger of crowdfunding campaigns: campaigns are created, receive contributions,
//! are closed and can be read back.
//!
//! The ledger does not move value, keeps no clock and proves no identity. A host
//! does that: with every call it hands in the current time and its answer to
//! whether the acting identity was proven. Every operation is then a total function
//! of the ledger, that answer, the time and the caller's arguments; a refused
//! operation returns the reason and changes nothing.
//!
//! - [`campaign`]: one campaign record and its transitions (launch, contribution, close).
//! - [`ledger`]: the ledger itself, with its four operations.
//! - [`history`]: what holds of every sequence of calls.
//! - [`error`]: the reasons for which an operation is refused.

pub mod campaign;
pub mod error;
pub mod history;
pub mod ledger;

pub use campaign::{Campaign, CampaignView};
pub use error::LedgerError;
pub use ledger::{CampaignBook, CrowdfundingContract, LedgerView};
