//! A single campaign record: its mathematical model, and the executable record with
//! the three transitions of its life (launch, contribution, close).

use vstd::prelude::*;
use vstd::string::*;
use crate::error::LedgerError;

verus! {

/// Number of seconds in one day.
pub const SECONDS_PER_DAY: u64 = 86400;

/// A store that lets records lapse is asked to keep the ledger's entries alive once
/// their remaining lifetime, counted in the store's own periods, falls below this.
pub const RETENTION_THRESHOLD: u32 = 5000;

/// Remaining lifetime that a refreshed entry is given.
pub const RETENTION_WINDOW: u32 = 5000;

/// Text that stands in the title and the description of the record that means "no such campaign".
pub open spec fn placeholder_text() -> Seq<char> {
    "Not_Found"@
}

/// Identity that stands in the record that means "no such campaign".
pub open spec fn placeholder_identity() -> Seq<char> {
    "GAAAAAAAAAAAAAAAAAAAAAAAAAAAAAAAAAAAAAAAAAAAAAAAAAAAAWHF"@
}

/// The instant, in seconds, at which a campaign launched at `now` for `duration_days` days ends.
pub open spec fn deadline_of(now: nat, duration_days: nat) -> nat {
    now + duration_days * 86400
}

/// Why a launch is refused, or `None` where it succeeds. `last_id` is the identifier
/// handed out most recently, 0 where none was.
pub open spec fn launch_error(
    identity_proven: bool,
    last_id: nat,
    duration_days: nat,
    now: nat,
) -> Option<LedgerError> {
    if !identity_proven {
        Some(LedgerError::AuthorizationFailure)
    } else if last_id >= u64::MAX {
        Some(LedgerError::IdentifierOverflow)
    } else if deadline_of(now, duration_days) > u64::MAX {
        Some(LedgerError::DeadlineOverflow)
    } else {
        None
    }
}

/// A campaign as a mathematical value.
pub struct CampaignView {
    pub campaign_id: nat,
    pub creator: Seq<char>,
    pub title: Seq<char>,
    pub description: Seq<char>,
    pub goal_amount: nat,
    pub raised_amount: nat,
    pub deadline: nat,
    pub is_active: bool,
}

impl CampaignView {
    /// The record that means "no such campaign": identifier 0, inactive, all amounts 0.
    pub open spec fn not_found() -> CampaignView {
        CampaignView {
            campaign_id: 0,
            creator: placeholder_identity(),
            title: placeholder_text(),
            description: placeholder_text(),
            goal_amount: 0,
            raised_amount: 0,
            deadline: 0,
            is_active: false,
        }
    }

    /// Identifier 0 is never given to a campaign; a record that carries it stands for
    /// the absence of one.
    pub open spec fn is_sentinel(self) -> bool {
        self.campaign_id == 0
    }

    /// The record of a campaign at the moment of its launch: nothing raised, active.
    pub open spec fn launched(
        campaign_id: nat,
        creator: Seq<char>,
        title: Seq<char>,
        description: Seq<char>,
        goal_amount: nat,
        duration_days: nat,
        now: nat,
    ) -> CampaignView {
        CampaignView {
            campaign_id,
            creator,
            title,
            description,
            goal_amount,
            raised_amount: 0,
            deadline: deadline_of(now, duration_days),
            is_active: true,
        }
    }

    /// Whether the deadline lies strictly before `now`.
    pub open spec fn expired_at(self, now: nat) -> bool {
        now > self.deadline
    }

    /// Why a contribution of `amount` at `now` is refused, or `None` where it is accepted.
    pub open spec fn contribution_error(
        self,
        identity_proven: bool,
        amount: nat,
        now: nat,
    ) -> Option<LedgerError> {
        if !identity_proven {
            Some(LedgerError::AuthorizationFailure)
        } else if self.is_sentinel() {
            Some(LedgerError::CampaignNotFound)
        } else if !self.is_active {
            Some(LedgerError::CampaignInactive)
        } else if self.expired_at(now) {
            Some(LedgerError::CampaignExpired)
        } else if self.raised_amount + amount > u64::MAX {
            Some(LedgerError::AmountOverflow)
        } else {
            None
        }
    }

    /// The record after a contribution of `amount` has been accepted.
    pub open spec fn with_contribution(self, amount: nat) -> CampaignView {
        CampaignView { raised_amount: self.raised_amount + amount, ..self }
    }

    /// The creator may close at any time, anyone may close once the deadline has passed.
    pub open spec fn may_be_closed_by(self, caller: Seq<char>, now: nat) -> bool {
        caller == self.creator || self.expired_at(now)
    }

    /// Why `caller` is refused to close the campaign at `now`, or `None` where the
    /// close succeeds. Closing a closed campaign succeeds again.
    pub open spec fn close_error(
        self,
        identity_proven: bool,
        caller: Seq<char>,
        now: nat,
    ) -> Option<LedgerError> {
        if !identity_proven {
            Some(LedgerError::AuthorizationFailure)
        } else if self.is_sentinel() {
            Some(LedgerError::CampaignNotFound)
        } else if !self.may_be_closed_by(caller, now) {
            Some(LedgerError::Unauthorized)
        } else {
            None
        }
    }

    /// The record after a close.
    pub open spec fn after_close(self) -> CampaignView {
        CampaignView { is_active: false, ..self }
    }
}

/// A campaign as it is stored and handed out.
#[derive(Debug, PartialEq, Eq)]
pub struct Campaign {
    /// Unique identifier, at least 1; 0 only in the record that means "no such campaign".
    pub campaign_id: u64,
    /// Identity of the party that launched the campaign.
    pub creator: String,
    pub title: String,
    pub description: String,
    /// Advisory target; contributions beyond it are accepted.
    pub goal_amount: u64,
    /// Sum of the contributions accepted so far.
    pub raised_amount: u64,
    /// Last second, counted from the epoch, at which contributions are accepted.
    pub deadline: u64,
    /// False once the campaign has been closed.
    pub is_active: bool,
}

impl View for Campaign {
    type V = CampaignView;

    open spec fn view(&self) -> CampaignView {
        CampaignView {
            campaign_id: self.campaign_id as nat,
            creator: self.creator@,
            title: self.title@,
            description: self.description@,
            goal_amount: self.goal_amount as nat,
            raised_amount: self.raised_amount as nat,
            deadline: self.deadline as nat,
            is_active: self.is_active,
        }
    }
}

impl Clone for Campaign {
    fn clone(&self) -> (copy: Self)
        ensures
            copy == *self,
    {
        Campaign {
            campaign_id: self.campaign_id,
            creator: self.creator.clone(),
            title: self.title.clone(),
            description: self.description.clone(),
            goal_amount: self.goal_amount,
            raised_amount: self.raised_amount,
            deadline: self.deadline,
            is_active: self.is_active,
        }
    }
}

/// The deadline of a campaign launched at `now` for `duration_days` days, or `None`
/// where that instant lies beyond the last representable second.
pub fn deadline_after(now: u64, duration_days: u64) -> (deadline: Option<u64>)
    ensures
        deadline == if deadline_of(now as nat, duration_days as nat) <= u64::MAX {
            Some(deadline_of(now as nat, duration_days as nat) as u64)
        } else {
            None
        },
{
    match duration_days.checked_mul(SECONDS_PER_DAY) {
        Some(span) => now.checked_add(span),
        None => None,
    }
}

impl Campaign {
    /// The record that is handed out where no campaign is stored.
    pub fn not_found() -> (record: Campaign)
        ensures
            record@ == CampaignView::not_found(),
    {
        Campaign {
            campaign_id: 0,
            creator: String::from_str("GAAAAAAAAAAAAAAAAAAAAAAAAAAAAAAAAAAAAAAAAAAAAAAAAAAAAWHF"),
            title: String::from_str("Not_Found"),
            description: String::from_str("Not_Found"),
            goal_amount: 0,
            raised_amount: 0,
            deadline: 0,
            is_active: false,
        }
    }

    /// Whether this record stands for the absence of a campaign.
    pub fn is_sentinel(&self) -> (absent: bool)
        ensures
            absent == self@.is_sentinel(),
    {
        self.campaign_id == 0
    }

    /// Whether the deadline lies strictly before `now`.
    pub fn expired_at(&self, now: u64) -> (expired: bool)
        ensures
            expired == self@.expired_at(now as nat),
    {
        now > self.deadline
    }

    /// Launches a campaign: the record that follows `last_id`, with nothing raised and
    /// a deadline `duration_days` days after `now`.
    ///
    /// `identity_proven` is the host's answer to whether the caller controls `creator`.
    pub fn launch(
        identity_proven: bool,
        last_id: u64,
        creator: String,
        title: String,
        description: String,
        goal_amount: u64,
        duration_days: u64,
        now: u64,
    ) -> (result: Result<Campaign, LedgerError>)
        ensures
            match result {
                Ok(record) => {
                    &&& launch_error(identity_proven, last_id as nat, duration_days as nat, now as nat)
                        is None
                    &&& record@ == CampaignView::launched(
                        last_id as nat + 1,
                        creator@,
                        title@,
                        description@,
                        goal_amount as nat,
                        duration_days as nat,
                        now as nat,
                    )
                },
                Err(reason) => launch_error(
                    identity_proven,
                    last_id as nat,
                    duration_days as nat,
                    now as nat,
                ) == Some(reason),
            },
    {
        if !identity_proven {
            return Err(LedgerError::AuthorizationFailure);
        }
        if last_id == u64::MAX {
            return Err(LedgerError::IdentifierOverflow);
        }
        match deadline_after(now, duration_days) {
            None => Err(LedgerError::DeadlineOverflow),
            Some(deadline) => Ok(
                Campaign {
                    campaign_id: last_id + 1,
                    creator,
                    title,
                    description,
                    goal_amount,
                    raised_amount: 0,
                    deadline,
                    is_active: true,
                },
            ),
        }
    }

    /// Adds `amount` to what the campaign has raised, provided the campaign exists, is
    /// active and `now` is not past its deadline. A refused contribution changes nothing.
    ///
    /// `identity_proven` is the host's answer to whether the caller controls the
    /// contributing identity.
    pub fn contribute(&mut self, identity_proven: bool, amount: u64, now: u64) -> (result: Result<
        (),
        LedgerError,
    >)
        ensures
            result == match old(self)@.contribution_error(identity_proven, amount as nat, now as nat) {
                Some(reason) => Err::<(), LedgerError>(reason),
                None => Ok(()),
            },
            final(self)@ == if result is Ok {
                old(self)@.with_contribution(amount as nat)
            } else {
                old(self)@
            },
    {
        if !identity_proven {
            return Err(LedgerError::AuthorizationFailure);
        }
        if self.is_sentinel() {
            return Err(LedgerError::CampaignNotFound);
        }
        if !self.is_active {
            return Err(LedgerError::CampaignInactive);
        }
        if self.expired_at(now) {
            return Err(LedgerError::CampaignExpired);
        }
        match self.raised_amount.checked_add(amount) {
            None => Err(LedgerError::AmountOverflow),
            Some(raised) => {
                self.raised_amount = raised;
                Ok(())
            },
        }
    }

    /// Closes the campaign for `caller`: the creator may close at any time, anyone once
    /// `now` is past the deadline. Closing a closed campaign succeeds and leaves it
    /// closed. A refused close changes nothing.
    ///
    /// `identity_proven` is the host's answer to whether the caller controls `caller`.
    pub fn close(&mut self, identity_proven: bool, caller: &String, now: u64) -> (result: Result<
        (),
        LedgerError,
    >)
        ensures
            result == match old(self)@.close_error(identity_proven, caller@, now as nat) {
                Some(reason) => Err::<(), LedgerError>(reason),
                None => Ok(()),
            },
            final(self)@ == if result is Ok {
                old(self)@.after_close()
            } else {
                old(self)@
            },
    {
        if !identity_proven {
            return Err(LedgerError::AuthorizationFailure);
        }
        if self.is_sentinel() {
            return Err(LedgerError::CampaignNotFound);
        }
        let is_creator: bool = self.creator == *caller;
        if !is_creator && !self.expired_at(now) {
            return Err(LedgerError::Unauthorized);
        }
        self.is_active = false;
        Ok(())
    }
}

} // verus!
