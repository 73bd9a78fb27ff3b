//! The campaign ledger: the counter of identifiers and the records, with the four
//! operations on them.

use vstd::prelude::*;
use crate::campaign::{launch_error, Campaign, CampaignView};
use crate::error::LedgerError;

verus! {

/// The ledger as a mathematical value: how many identifiers have been handed out,
/// and the record stored under each.
#[verifier::ext_equal]
pub struct LedgerView {
    pub count: nat,
    pub records: Map<nat, CampaignView>,
}

impl LedgerView {
    /// The ledger before any campaign was created.
    pub open spec fn empty() -> LedgerView {
        LedgerView { count: 0, records: Map::empty() }
    }

    /// Exactly the identifiers from 1 to `count` have a record, and each record
    /// carries the identifier it is stored under.
    pub open spec fn wf(self) -> bool {
        &&& forall|id: nat| #[trigger] self.records.dom().contains(id) <==> 1 <= id <= self.count
        &&& forall|id: nat| #[trigger]
            self.records.dom().contains(id) ==> self.records[id].campaign_id == id
    }

    /// Whether a campaign is stored under `id`.
    pub open spec fn holds(self, id: nat) -> bool {
        self.records.dom().contains(id)
    }

    /// What a reader is shown for `id`: the stored record, or the record that means
    /// "no such campaign".
    pub open spec fn lookup(self, id: nat) -> CampaignView {
        if self.holds(id) {
            self.records[id]
        } else {
            CampaignView::not_found()
        }
    }

    /// Why a creation is refused, or `None` where it succeeds.
    pub open spec fn create_error(self, identity_proven: bool, duration_days: nat, now: nat) -> Option<
        LedgerError,
    > {
        launch_error(identity_proven, self.count, duration_days, now)
    }

    /// The ledger after a successful creation: the next identifier is handed out and
    /// the launched record is stored under it.
    pub open spec fn after_create(
        self,
        creator: Seq<char>,
        title: Seq<char>,
        description: Seq<char>,
        goal_amount: nat,
        duration_days: nat,
        now: nat,
    ) -> LedgerView {
        LedgerView {
            count: self.count + 1,
            records: self.records.insert(
                self.count + 1,
                CampaignView::launched(
                    self.count + 1,
                    creator,
                    title,
                    description,
                    goal_amount,
                    duration_days,
                    now,
                ),
            ),
        }
    }

    /// Why a contribution to `id` is refused, or `None` where it is accepted.
    pub open spec fn contribute_error(
        self,
        identity_proven: bool,
        id: nat,
        amount: nat,
        now: nat,
    ) -> Option<LedgerError> {
        self.lookup(id).contribution_error(identity_proven, amount, now)
    }

    /// The ledger after a contribution of `amount` to `id` has been accepted.
    pub open spec fn after_contribute(self, id: nat, amount: nat) -> LedgerView {
        LedgerView {
            records: self.records.insert(id, self.lookup(id).with_contribution(amount)),
            ..self
        }
    }

    /// Why `caller` is refused to close `id`, or `None` where the close succeeds.
    pub open spec fn close_error(
        self,
        identity_proven: bool,
        id: nat,
        caller: Seq<char>,
        now: nat,
    ) -> Option<LedgerError> {
        self.lookup(id).close_error(identity_proven, caller, now)
    }

    /// The ledger after `id` has been closed.
    pub open spec fn after_close(self, id: nat) -> LedgerView {
        LedgerView { records: self.records.insert(id, self.lookup(id).after_close()), ..self }
    }
}

/// Key under which the ledger stores a record.
#[derive(Clone, Copy, Debug, PartialEq, Eq, Structural)]
pub enum CampaignBook {
    /// The record of the campaign with this identifier.
    Campaign(u64),
}

impl CampaignBook {
    /// The identifier that the key names.
    pub open spec fn id(self) -> nat {
        match self {
            CampaignBook::Campaign(id) => id as nat,
        }
    }

    /// The identifier that the key names.
    pub fn campaign_id(&self) -> (id: u64)
        ensures
            id == self.id(),
    {
        match self {
            CampaignBook::Campaign(id) => *id,
        }
    }
}

/// The ledger. Identifiers are handed out in order, starting at 1, so the record of
/// campaign `id` is kept at position `id - 1`.
pub struct CrowdfundingContract {
    campaigns: Vec<Campaign>,
}

impl View for CrowdfundingContract {
    type V = LedgerView;

    closed spec fn view(&self) -> LedgerView {
        LedgerView {
            count: self.campaigns@.len(),
            records: Map::new(
                |id: nat| 1 <= id <= self.campaigns@.len(),
                |id: nat| self.campaigns@[id - 1]@,
            ),
        }
    }
}

impl CrowdfundingContract {
    #[verifier::type_invariant]
    spec fn numbered_in_order(self) -> bool {
        forall|i: int|
            0 <= i < self.campaigns@.len() ==> (#[trigger] self.campaigns@[i]).campaign_id == i + 1
    }

    /// A ledger without campaigns.
    pub fn new() -> (ledger: CrowdfundingContract)
        ensures
            ledger@ == LedgerView::empty(),
    {
        CrowdfundingContract { campaigns: Vec::new() }
    }

    /// The number of campaigns created so far, which is also the identifier handed
    /// out most recently.
    pub fn campaign_count(&self) -> (count: u64)
        ensures
            self@.wf(),
            count == self@.count,
    {
        proof {
            use_type_invariant(&*self);
        }
        self.campaigns.len() as u64
    }

    /// The record stored under `key`, if there is one.
    pub fn get(&self, key: &CampaignBook) -> (found: Option<&Campaign>)
        ensures
            self@.wf(),
            match found {
                Some(record) => self@.holds(key.id()) && record@ == self@.records[key.id()],
                None => !self@.holds(key.id()),
            },
    {
        proof {
            use_type_invariant(&*self);
        }
        let id: u64 = key.campaign_id();
        if 1 <= id && id <= self.campaigns.len() as u64 {
            let position: usize = (id - 1) as usize;
            Some(&self.campaigns[position])
        } else {
            None
        }
    }

    /// Creates a campaign and returns its identifier, which is one more than the
    /// number of campaigns created before. A refused creation changes nothing.
    ///
    /// `identity_proven` is the host's answer to whether the caller controls `creator`,
    /// `now` the host's current time in seconds.
    pub fn create_campaign(
        &mut self,
        identity_proven: bool,
        creator: String,
        title: String,
        description: String,
        goal_amount: u64,
        duration_days: u64,
        now: u64,
    ) -> (result: Result<u64, LedgerError>)
        ensures
            final(self)@.wf(),
            match result {
                Ok(id) => {
                    &&& old(self)@.create_error(identity_proven, duration_days as nat, now as nat)
                        is None
                    &&& id == old(self)@.count + 1
                    &&& final(self)@ == old(self)@.after_create(
                        creator@,
                        title@,
                        description@,
                        goal_amount as nat,
                        duration_days as nat,
                        now as nat,
                    )
                },
                Err(reason) => {
                    &&& old(self)@.create_error(identity_proven, duration_days as nat, now as nat)
                        == Some(reason)
                    &&& final(self)@ == old(self)@
                },
            },
    {
        proof {
            use_type_invariant(&*self);
        }
        if !identity_proven {
            return Err(LedgerError::AuthorizationFailure);
        }
        let last_id: u64 = self.campaigns.len() as u64;
        match Campaign::launch(
            identity_proven,
            last_id,
            creator,
            title,
            description,
            goal_amount,
            duration_days,
            now,
        ) {
            Err(reason) => Err(reason),
            Ok(record) => {
                let id: u64 = record.campaign_id;
                let mut campaigns: Vec<Campaign> = Vec::new();
                std::mem::swap(&mut campaigns, &mut self.campaigns);
                campaigns.push(record);
                self.campaigns = campaigns;
                Ok(id)
            },
        }
    }

    /// Records a contribution of `amount` to campaign `campaign_id`. A refused
    /// contribution changes nothing.
    ///
    /// `identity_proven` is the host's answer to whether the caller controls the
    /// contributing identity, `now` the host's current time in seconds.
    pub fn contribute(
        &mut self,
        identity_proven: bool,
        campaign_id: u64,
        amount: u64,
        now: u64,
    ) -> (result: Result<(), LedgerError>)
        ensures
            final(self)@.wf(),
            match result {
                Ok(()) => {
                    &&& old(self)@.contribute_error(
                        identity_proven,
                        campaign_id as nat,
                        amount as nat,
                        now as nat,
                    ) is None
                    &&& final(self)@ == old(self)@.after_contribute(
                        campaign_id as nat,
                        amount as nat,
                    )
                },
                Err(reason) => {
                    &&& old(self)@.contribute_error(
                        identity_proven,
                        campaign_id as nat,
                        amount as nat,
                        now as nat,
                    ) == Some(reason)
                    &&& final(self)@ == old(self)@
                },
            },
    {
        proof {
            use_type_invariant(&*self);
        }
        if !identity_proven {
            return Err(LedgerError::AuthorizationFailure);
        }
        let mut record: Campaign = self.view_campaign(campaign_id);
        match record.contribute(identity_proven, amount, now) {
            Err(reason) => Err(reason),
            Ok(()) => {
                self.store(record);
                Ok(())
            },
        }
    }

    /// Closes campaign `campaign_id` for `caller`. Closing a closed campaign succeeds
    /// again. A refused close changes nothing.
    ///
    /// `identity_proven` is the host's answer to whether the caller controls `caller`,
    /// `now` the host's current time in seconds.
    pub fn close_campaign(
        &mut self,
        identity_proven: bool,
        campaign_id: u64,
        caller: &String,
        now: u64,
    ) -> (result: Result<(), LedgerError>)
        ensures
            final(self)@.wf(),
            match result {
                Ok(()) => {
                    &&& old(self)@.close_error(
                        identity_proven,
                        campaign_id as nat,
                        caller@,
                        now as nat,
                    ) is None
                    &&& final(self)@ == old(self)@.after_close(campaign_id as nat)
                },
                Err(reason) => {
                    &&& old(self)@.close_error(
                        identity_proven,
                        campaign_id as nat,
                        caller@,
                        now as nat,
                    ) == Some(reason)
                    &&& final(self)@ == old(self)@
                },
            },
    {
        proof {
            use_type_invariant(&*self);
        }
        if !identity_proven {
            return Err(LedgerError::AuthorizationFailure);
        }
        let mut record: Campaign = self.view_campaign(campaign_id);
        match record.close(identity_proven, caller, now) {
            Err(reason) => Err(reason),
            Ok(()) => {
                self.store(record);
                Ok(())
            },
        }
    }

    /// The record of campaign `campaign_id`, or the record that means "no such
    /// campaign", whose identifier is 0.
    pub fn view_campaign(&self, campaign_id: u64) -> (record: Campaign)
        ensures
            self@.wf(),
            record@ == self@.lookup(campaign_id as nat),
    {
        match self.get(&CampaignBook::Campaign(campaign_id)) {
            Some(stored) => stored.clone(),
            None => Campaign::not_found(),
        }
    }

    /// Puts `record` in the place of the record that carries the same identifier.
    fn store(&mut self, record: Campaign)
        requires
            old(self)@.holds(record@.campaign_id),
        ensures
            final(self)@.wf(),
            final(self)@ == (LedgerView {
                records: old(self)@.records.insert(record@.campaign_id, record@),
                ..old(self)@
            }),
    {
        proof {
            use_type_invariant(&*self);
        }
        let count: usize = self.campaigns.len();
        assert(1 <= record.campaign_id <= count);
        let position: usize = (record.campaign_id - 1) as usize;
        let mut campaigns: Vec<Campaign> = Vec::new();
        std::mem::swap(&mut campaigns, &mut self.campaigns);
        campaigns.set(position, record);
        self.campaigns = campaigns;
        assert(self@.records =~= old(self)@.records.insert(record@.campaign_id, record@));
    }
}

} // verus!
