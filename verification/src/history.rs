//! Histories of the ledger: what holds of every sequence of calls.
//!
//! A history is a sequence of calls, each with what the host reported for it. The
//! ledger's operations are deterministic, so a ledger and a history determine the
//! ledger that results, the identifiers that were handed out and the contributions
//! that were accepted. The lemmas below are stated over those.

use vstd::prelude::*;
use crate::campaign::CampaignView;
use crate::error::LedgerError;
use crate::ledger::LedgerView;

verus! {

/// One call made of the ledger, together with the host's report: whether the acting
/// identity was proven, and the time.
pub enum Call {
    Create {
        identity_proven: bool,
        creator: Seq<char>,
        title: Seq<char>,
        description: Seq<char>,
        goal_amount: nat,
        duration_days: nat,
        now: nat,
    },
    Contribute { identity_proven: bool, campaign_id: nat, amount: nat, now: nat },
    Close { identity_proven: bool, campaign_id: nat, caller: Seq<char>, now: nat },
}

/// The sum of a sequence of amounts.
pub open spec fn total(amounts: Seq<nat>) -> nat
    decreases amounts.len(),
{
    if amounts.len() == 0 {
        0
    } else {
        total(amounts.drop_last()) + amounts.last()
    }
}

impl LedgerView {
    /// Why `call` is refused, or `None` where it succeeds.
    pub open spec fn refusal(self, call: Call) -> Option<LedgerError> {
        match call {
            Call::Create { identity_proven, duration_days, now, .. } => self.create_error(
                identity_proven,
                duration_days,
                now,
            ),
            Call::Contribute { identity_proven, campaign_id, amount, now } => self.contribute_error(
                identity_proven,
                campaign_id,
                amount,
                now,
            ),
            Call::Close { identity_proven, campaign_id, caller, now } => self.close_error(
                identity_proven,
                campaign_id,
                caller,
                now,
            ),
        }
    }

    /// The ledger after `call`: a refused call leaves it as it was.
    pub open spec fn step(self, call: Call) -> LedgerView {
        if self.refusal(call) is Some {
            self
        } else {
            match call {
                Call::Create {
                    creator,
                    title,
                    description,
                    goal_amount,
                    duration_days,
                    now,
                    ..
                } => self.after_create(creator, title, description, goal_amount, duration_days, now),
                Call::Contribute { campaign_id, amount, .. } => self.after_contribute(
                    campaign_id,
                    amount,
                ),
                Call::Close { campaign_id, .. } => self.after_close(campaign_id),
            }
        }
    }

    /// The ledger after the calls of `calls`, made in order.
    pub open spec fn run(self, calls: Seq<Call>) -> LedgerView
        decreases calls.len(),
    {
        if calls.len() == 0 {
            self
        } else {
            self.run(calls.drop_last()).step(calls.last())
        }
    }

    /// The identifiers that the successful creations of `calls` returned, in call order.
    pub open spec fn issued(self, calls: Seq<Call>) -> Seq<nat>
        decreases calls.len(),
    {
        if calls.len() == 0 {
            Seq::empty()
        } else {
            let before = self.run(calls.drop_last());
            let earlier = self.issued(calls.drop_last());
            if calls.last() is Create && before.refusal(calls.last()) is None {
                earlier.push(before.count + 1)
            } else {
                earlier
            }
        }
    }

    /// The amounts of the contributions to `id` that were accepted in `calls`, in call order.
    pub open spec fn accepted(self, calls: Seq<Call>, id: nat) -> Seq<nat>
        decreases calls.len(),
    {
        if calls.len() == 0 {
            Seq::empty()
        } else {
            let before = self.run(calls.drop_last());
            let earlier = self.accepted(calls.drop_last(), id);
            match calls.last() {
                Call::Contribute { campaign_id, amount, .. } => if campaign_id == id
                    && before.refusal(calls.last()) is None {
                    earlier.push(amount)
                } else {
                    earlier
                },
                _ => earlier,
            }
        }
    }

    /// Whether some close of `id` succeeded in `calls`.
    pub open spec fn closed_during(self, calls: Seq<Call>, id: nat) -> bool
        decreases calls.len(),
    {
        if calls.len() == 0 {
            false
        } else {
            let before = self.run(calls.drop_last());
            let earlier = self.closed_during(calls.drop_last(), id);
            match calls.last() {
                Call::Close { campaign_id, .. } => earlier || (campaign_id == id && before.refusal(
                    calls.last(),
                ) is None),
                _ => earlier,
            }
        }
    }
}

/// A call leaves a well-formed ledger well-formed.
pub proof fn lemma_step_keeps_ledger_well_formed(pre: LedgerView, call: Call)
    requires
        pre.wf(),
    ensures
        pre.step(call).wf(),
{
}

/// Every history leaves a well-formed ledger well-formed.
pub proof fn lemma_run_keeps_ledger_well_formed(pre: LedgerView, calls: Seq<Call>)
    requires
        pre.wf(),
    ensures
        pre.run(calls).wf(),
    decreases calls.len(),
{
    if calls.len() > 0 {
        lemma_run_keeps_ledger_well_formed(pre, calls.drop_last());
        lemma_step_keeps_ledger_well_formed(pre.run(calls.drop_last()), calls.last());
    }
}

/// Identifiers are handed out densely and in order: whatever contributions and closes
/// lie between them, the successful creations of a history return, one after the
/// other, the identifiers that follow the ledger's count, and the count ends at the
/// last of them. On a ledger that starts empty these are 1, 2, 3 and so on.
pub proof fn lemma_identifiers_are_dense(pre: LedgerView, calls: Seq<Call>)
    ensures
        pre.run(calls).count == pre.count + pre.issued(calls).len(),
        forall|k: int|
            0 <= k < pre.issued(calls).len() ==> #[trigger] pre.issued(calls)[k] == pre.count + 1
                + k,
        pre == LedgerView::empty() ==> forall|k: int|
            0 <= k < pre.issued(calls).len() ==> #[trigger] pre.issued(calls)[k] == k + 1,
    decreases calls.len(),
{
    if calls.len() > 0 {
        lemma_identifiers_are_dense(pre, calls.drop_last());
    }
}

/// A creation that succeeds returns an identifier of at least 1, one more than the
/// count before it, and nothing but a successful creation moves the count.
pub proof fn lemma_only_creation_moves_the_count(pre: LedgerView, call: Call)
    ensures
        pre.step(call).count == if call is Create && pre.refusal(call) is None {
            pre.count + 1
        } else {
            pre.count
        },
{
}

/// An identifier that the ledger did not hold at the start, and that no creation of
/// the history returned, reads as the record that means "no such campaign", whose
/// identifier is 0.
pub proof fn lemma_unissued_identifier_reads_not_found(pre: LedgerView, calls: Seq<Call>, id: nat)
    requires
        pre.wf(),
        !pre.holds(id),
        !pre.issued(calls).contains(id),
    ensures
        pre.run(calls).lookup(id) == CampaignView::not_found(),
        pre.run(calls).lookup(id).campaign_id == 0,
{
    lemma_run_keeps_ledger_well_formed(pre, calls);
    lemma_identifiers_are_dense(pre, calls);
    let post = pre.run(calls);
    if post.holds(id) {
        let k = id - pre.count - 1;
        assert(pre.issued(calls)[k] == id);
    }
}

/// On a ledger that started empty, an identifier reads as a campaign if and only if
/// a creation of the history returned it.
pub proof fn lemma_identifier_is_known_iff_issued(calls: Seq<Call>, id: nat)
    ensures
        LedgerView::empty().run(calls).holds(id) <==> LedgerView::empty().issued(calls).contains(id),
        !LedgerView::empty().issued(calls).contains(id) ==> LedgerView::empty().run(calls).lookup(
            id,
        ) == CampaignView::not_found(),
{
    let pre = LedgerView::empty();
    lemma_run_keeps_ledger_well_formed(pre, calls);
    lemma_identifiers_are_dense(pre, calls);
    let post = pre.run(calls);
    if post.holds(id) {
        let k = id - 1;
        assert(pre.issued(calls)[k] == id);
    }
}

/// What a campaign has raised is what it had raised before plus the sum of the
/// contributions to it that were accepted since, taken in call order. A campaign
/// created within the history starts from nothing.
pub proof fn lemma_raised_is_sum_of_contributions(pre: LedgerView, calls: Seq<Call>, id: nat)
    requires
        pre.wf(),
    ensures
        pre.run(calls).lookup(id).raised_amount == pre.lookup(id).raised_amount + total(
            pre.accepted(calls, id),
        ),
    decreases calls.len(),
{
    if calls.len() > 0 {
        let earlier = calls.drop_last();
        lemma_raised_is_sum_of_contributions(pre, earlier, id);
        lemma_run_keeps_ledger_well_formed(pre, earlier);
        let before = pre.run(earlier);
        let call = calls.last();
        match call {
            Call::Contribute { campaign_id, amount, .. } => {
                if campaign_id == id && before.refusal(call) is None {
                    let amounts = pre.accepted(earlier, id).push(amount);
                    assert(amounts.drop_last() == pre.accepted(earlier, id));
                }
            },
            _ => {},
        }
    } else {
        assert(total(pre.accepted(calls, id)) == 0);
    }
}

/// Once a campaign has been closed, every later contribution to it is refused,
/// whatever happened in between and whatever the time: as inactive where the
/// contributor's identity was proven, for want of that proof where it was not.
pub proof fn lemma_no_contribution_after_close(
    pre: LedgerView,
    id: nat,
    caller: Seq<char>,
    closed_at: nat,
    later: Seq<Call>,
    identity_proven: bool,
    amount: nat,
    now: nat,
)
    requires
        pre.wf(),
        pre.close_error(true, id, caller, closed_at) is None,
    ensures
        pre.after_close(id).run(later).contribute_error(identity_proven, id, amount, now) == Some(
            if identity_proven {
                LedgerError::CampaignInactive
            } else {
                LedgerError::AuthorizationFailure
            },
        ),
{
    let closed = pre.after_close(id);
    lemma_campaign_keeps_its_terms(closed, later, id);
}

/// The terms of a campaign never change, what it has raised never falls, and a
/// closed campaign stays closed: whatever the history, a campaign that the ledger
/// holds is still held, with its identifier, creator, title, description, goal and
/// deadline, with at least as much raised, and active only if it was active before.
pub proof fn lemma_campaign_keeps_its_terms(pre: LedgerView, calls: Seq<Call>, id: nat)
    requires
        pre.wf(),
        pre.holds(id),
    ensures
        pre.run(calls).holds(id),
        pre.run(calls).lookup(id).campaign_id == id,
        pre.run(calls).lookup(id).creator == pre.lookup(id).creator,
        pre.run(calls).lookup(id).title == pre.lookup(id).title,
        pre.run(calls).lookup(id).description == pre.lookup(id).description,
        pre.run(calls).lookup(id).goal_amount == pre.lookup(id).goal_amount,
        pre.run(calls).lookup(id).deadline == pre.lookup(id).deadline,
        pre.run(calls).lookup(id).raised_amount >= pre.lookup(id).raised_amount,
        pre.run(calls).lookup(id).is_active ==> pre.lookup(id).is_active,
    decreases calls.len(),
{
    if calls.len() > 0 {
        lemma_campaign_keeps_its_terms(pre, calls.drop_last(), id);
        lemma_run_keeps_ledger_well_formed(pre, calls.drop_last());
    }
}

/// What a campaign has raised moves only by a contribution to it that was accepted,
/// and then by the contributed amount; such a contribution finds the campaign active
/// and the time not past its deadline.
pub proof fn lemma_raised_moves_only_by_timely_contribution(pre: LedgerView, call: Call, id: nat)
    requires
        pre.wf(),
    ensures
        pre.step(call).lookup(id).raised_amount != pre.lookup(id).raised_amount ==> {
            &&& call matches Call::Contribute { identity_proven, campaign_id, amount, now }
            &&& identity_proven
            &&& campaign_id == id
            &&& pre.holds(id)
            &&& pre.lookup(id).is_active
            &&& now <= pre.lookup(id).deadline
            &&& pre.step(call).lookup(id).raised_amount == pre.lookup(id).raised_amount + amount
        },
{
}

/// A campaign is inactive if and only if it has been closed: a campaign that was
/// active is still active after a history exactly if no close of it succeeded in
/// the history. The passing of its deadline alone does not make it inactive.
pub proof fn lemma_inactive_iff_closed(pre: LedgerView, calls: Seq<Call>, id: nat)
    requires
        pre.wf(),
        pre.holds(id),
        pre.lookup(id).is_active,
    ensures
        pre.run(calls).lookup(id).is_active <==> !pre.closed_during(calls, id),
    decreases calls.len(),
{
    if calls.len() > 0 {
        lemma_inactive_iff_closed(pre, calls.drop_last(), id);
        lemma_campaign_keeps_its_terms(pre, calls.drop_last(), id);
        lemma_run_keeps_ledger_well_formed(pre, calls.drop_last());
    }
}

/// A campaign that was never closed refuses, once its deadline has passed, every
/// contribution as expired (where the contributor's identity was proven).
pub proof fn lemma_no_contribution_after_deadline(
    pre: LedgerView,
    calls: Seq<Call>,
    id: nat,
    amount: nat,
    now: nat,
)
    requires
        pre.wf(),
        pre.holds(id),
        pre.lookup(id).is_active,
        !pre.closed_during(calls, id),
        now > pre.lookup(id).deadline,
    ensures
        pre.run(calls).contribute_error(true, id, amount, now) == Some(
            LedgerError::CampaignExpired,
        ),
{
    lemma_campaign_keeps_its_terms(pre, calls, id);
    lemma_inactive_iff_closed(pre, calls, id);
}

/// Who may close: up to the deadline only the creator, after it anyone. A close by
/// someone else up to the deadline is refused as unauthorized; a close by the creator,
/// or by anyone after the deadline, succeeds and leaves the campaign inactive, also
/// where it was closed before.
pub proof fn lemma_close_rule(pre: LedgerView, id: nat, caller: Seq<char>, now: nat)
    requires
        pre.wf(),
        pre.holds(id),
    ensures
        caller != pre.lookup(id).creator && now <= pre.lookup(id).deadline ==> pre.close_error(
            true,
            id,
            caller,
            now,
        ) == Some(LedgerError::Unauthorized),
        caller == pre.lookup(id).creator || now > pre.lookup(id).deadline ==> {
            &&& pre.close_error(true, id, caller, now) is None
            &&& !pre.after_close(id).lookup(id).is_active
            &&& pre.after_close(id).after_close(id) == pre.after_close(id)
        },
{
    assert(pre.after_close(id).after_close(id).records =~= pre.after_close(id).records);
}

} // verus!
