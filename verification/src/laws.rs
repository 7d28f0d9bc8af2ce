//! Laws of the vault: properties of its operations taken together, proved
//! over the functions of [`crate::model`] that the operations compute.
use vstd::prelude::*;

use crate::errors::VaultError;
use crate::model::{config_valid, membership_check, VaultView};
use crate::types::{
    ActionView, Address, EffectView, ProposalStatus, SpendingLimit, MAX_SIGNERS, MAX_TIMELOCK_LEDGERS,
};

verus! {

/// Every operation keeps a consistent vault consistent: a valid
/// configuration, proposals stored under their own ids below the counter,
/// distinct approvals, and each proposal executable exactly
/// `timelock_blocks` ledgers after its creation.
pub proof fn law_operations_keep_consistency(
    v: VaultView,
    caller: Address,
    asset: Address,
    signers: Seq<Address>,
    threshold: u32,
    timelock_blocks: u32,
    limit_per_period: i128,
    period_ledgers: u32,
    action: ActionView,
    proposal_id: u64,
    current_ledger: u32,
)
    requires
        v.consistent(),
    ensures
        v.initialize(signers, threshold, timelock_blocks, current_ledger).0.consistent(),
        v.configure_spending_limit(caller, asset, limit_per_period, period_ledgers).0.consistent(),
        v.propose_fits(caller, current_ledger) ==> v.propose(caller, action, current_ledger).0.consistent(),
        v.approve(caller, proposal_id).0.consistent(),
        v.execute(proposal_id, current_ledger).0.consistent(),
{
    let w = v.propose(caller, action, current_ledger).0;
    if v.propose_fits(caller, current_ledger) && v.propose(caller, action, current_ledger).1 is Ok {
        assert forall|id: u64| #[trigger] w.proposals.contains_key(id) implies {
            let p = w.proposals[id];
            &&& p.id == id
            &&& id < w.proposal_counter
            &&& p.approvals.no_duplicates()
            &&& w.config is Some
            &&& p.executable_after_ledger == p.created_at_ledger + w.config->0.timelock_blocks
        } by {
            if id != v.proposal_counter {
                assert(v.proposals.contains_key(id));
            }
        }
    }
    let a = v.approve(caller, proposal_id).0;
    if v.approve(caller, proposal_id).1 is Ok {
        let p = v.proposals[proposal_id];
        assert forall|i: int, j: int|
            0 <= i < p.approvals.push(caller).len() && 0 <= j < p.approvals.push(caller).len() && i
                != j implies #[trigger] p.approvals.push(caller)[i] != #[trigger] p.approvals.push(
            caller,
        )[j] by {
            if i == p.approvals.len() {
                assert(p.approvals[j] != caller);
            } else if j == p.approvals.len() {
                assert(p.approvals[i] != caller);
            }
        }
        assert forall|id: u64| #[trigger] a.proposals.contains_key(id) implies {
            let p = a.proposals[id];
            &&& p.id == id
            &&& id < a.proposal_counter
            &&& p.approvals.no_duplicates()
            &&& a.config is Some
            &&& p.executable_after_ledger == p.created_at_ledger + a.config->0.timelock_blocks
        } by {
            if id != proposal_id {
                assert(v.proposals.contains_key(id));
            }
        }
    }
    let e = v.execute(proposal_id, current_ledger).0;
    if v.execute(proposal_id, current_ledger).1 is Ok {
        assert forall|id: u64| #[trigger] e.proposals.contains_key(id) implies {
            let p = e.proposals[id];
            &&& p.id == id
            &&& id < e.proposal_counter
            &&& p.approvals.no_duplicates()
            &&& e.config is Some
            &&& p.executable_after_ledger == p.created_at_ledger + e.config->0.timelock_blocks
        } by {
            if id != proposal_id {
                assert(v.proposals.contains_key(id));
            }
        }
    }
}

/// A vault is initialized at most once: after a successful `initialize`,
/// every later `initialize` is refused with `AlreadyInitialized` and
/// changes nothing.
pub proof fn law_initialize_only_once(
    v: VaultView,
    signers: Seq<Address>,
    threshold: u32,
    timelock_blocks: u32,
    current_ledger: u32,
    signers2: Seq<Address>,
    threshold2: u32,
    timelock_blocks2: u32,
    current_ledger2: u32,
)
    requires
        v.initialize(signers, threshold, timelock_blocks, current_ledger).1 is Ok,
    ensures
        ({
            let w = v.initialize(signers, threshold, timelock_blocks, current_ledger).0;
            w.initialize(signers2, threshold2, timelock_blocks2, current_ledger2) == (
                w,
                Err::<(), VaultError>(VaultError::AlreadyInitialized),
            )
        }),
{
}

/// Once initialized, a vault stays initialized, and its timelock and
/// creation ledger never change.
pub proof fn law_configuration_persists(
    v: VaultView,
    caller: Address,
    asset: Address,
    signers: Seq<Address>,
    threshold: u32,
    timelock_blocks: u32,
    limit_per_period: i128,
    period_ledgers: u32,
    action: ActionView,
    proposal_id: u64,
    current_ledger: u32,
)
    requires
        v.config is Some,
    ensures
        ({
            let c = v.config->0;
            let after = seq![
                v.initialize(signers, threshold, timelock_blocks, current_ledger).0,
                v.configure_spending_limit(caller, asset, limit_per_period, period_ledgers).0,
                v.propose(caller, action, current_ledger).0,
                v.approve(caller, proposal_id).0,
                v.execute(proposal_id, current_ledger).0,
            ];
            forall|i: int|
                0 <= i < after.len() ==> {
                    &&& (#[trigger] after[i]).config is Some
                    &&& after[i].config->0.timelock_blocks == c.timelock_blocks
                    &&& after[i].config->0.created_at_ledger == c.created_at_ledger
                }
        }),
{
}

/// Proposal ids are handed out in order: two successive successful
/// proposals receive consecutive ids.
pub proof fn law_proposal_ids_increment(
    v: VaultView,
    proposer: Address,
    action: ActionView,
    current_ledger: u32,
    proposer2: Address,
    action2: ActionView,
    current_ledger2: u32,
)
    requires
        v.propose(proposer, action, current_ledger).1 is Ok,
        v.propose(proposer, action, current_ledger).0.propose(proposer2, action2, current_ledger2).1 is Ok,
        v.propose_fits(proposer, current_ledger),
    ensures
        v.propose(proposer, action, current_ledger).0.propose(proposer2, action2, current_ledger2).1->Ok_0
            == v.propose(proposer, action, current_ledger).1->Ok_0 + 1,
{
}

/// A new proposal never takes the place of an existing one, and no
/// operation removes a stored proposal.
pub proof fn law_proposals_are_never_lost(
    v: VaultView,
    caller: Address,
    asset: Address,
    signers: Seq<Address>,
    threshold: u32,
    timelock_blocks: u32,
    limit_per_period: i128,
    period_ledgers: u32,
    action: ActionView,
    proposal_id: u64,
    current_ledger: u32,
    id: u64,
)
    requires
        v.consistent(),
        v.proposals.contains_key(id),
    ensures
        v.propose(caller, action, current_ledger).1 matches Ok(new_id) ==> new_id != id,
        v.initialize(signers, threshold, timelock_blocks, current_ledger).0.proposals.contains_key(id),
        v.configure_spending_limit(caller, asset, limit_per_period, period_ledgers).0.proposals.contains_key(id),
        v.propose(caller, action, current_ledger).0.proposals.contains_key(id),
        v.approve(caller, proposal_id).0.proposals.contains_key(id),
        v.execute(proposal_id, current_ledger).0.proposals.contains_key(id),
{
}

/// An approval adds exactly the approving signer, and leaves the proposal
/// ready exactly when it then holds at least `threshold` approvals.
pub proof fn law_approval_reaches_threshold(v: VaultView, signer: Address, proposal_id: u64)
    requires
        v.approve(signer, proposal_id).1 is Ok,
    ensures
        ({
            let before = v.proposals[proposal_id];
            let after = v.approve(signer, proposal_id).0.proposals[proposal_id];
            &&& v.is_signer(signer)
            &&& before.status == ProposalStatus::Pending
            &&& !before.approvals.contains(signer)
            &&& after.approvals == before.approvals.push(signer)
            &&& (after.status == ProposalStatus::Ready <==> after.approvals.len()
                >= v.config->0.threshold)
            &&& (after.status == ProposalStatus::Pending <==> after.approvals.len()
                < v.config->0.threshold)
        }),
{
}

/// Executed proposals are terminal: approving one is refused with
/// `ProposalNotPending`, executing it again with `ProposalNotReady`, and no
/// operation changes it.
pub proof fn law_executed_is_terminal(
    v: VaultView,
    caller: Address,
    asset: Address,
    signers: Seq<Address>,
    threshold: u32,
    timelock_blocks: u32,
    limit_per_period: i128,
    period_ledgers: u32,
    action: ActionView,
    proposal_id: u64,
    current_ledger: u32,
    id: u64,
)
    requires
        v.consistent(),
        v.proposals.contains_key(id),
        v.proposals[id].status == ProposalStatus::Executed,
    ensures
        v.is_signer(caller) ==> v.approve(caller, id) == (v, Err::<(), VaultError>(VaultError::ProposalNotPending)),
        v.execute(id, current_ledger) == (v, Err::<EffectView, VaultError>(VaultError::ProposalNotReady)),
        v.initialize(signers, threshold, timelock_blocks, current_ledger).0.proposals[id] == v.proposals[id],
        v.configure_spending_limit(caller, asset, limit_per_period, period_ledgers).0.proposals[id]
            == v.proposals[id],
        v.propose(caller, action, current_ledger).0.proposals[id] == v.proposals[id],
        v.approve(caller, proposal_id).0.proposals[id] == v.proposals[id],
        v.execute(proposal_id, current_ledger).0.proposals[id] == v.proposals[id],
{
}

/// Nothing is executed without its gate: a successful execution was of a
/// ready proposal, at or after its executable ledger (at least
/// `timelock_blocks` after its creation), with at least `threshold`
/// approvals; it leaves the proposal executed.
pub proof fn law_execution_needs_quorum_and_timelock(v: VaultView, proposal_id: u64, current_ledger: u32)
    requires
        v.consistent(),
        v.execute(proposal_id, current_ledger).1 is Ok,
    ensures
        ({
            let p = v.proposals[proposal_id];
            &&& p.status == ProposalStatus::Ready
            &&& current_ledger >= p.executable_after_ledger
            &&& current_ledger >= p.created_at_ledger + v.config->0.timelock_blocks
            &&& p.approvals.len() >= v.config->0.threshold
            &&& v.execute(proposal_id, current_ledger).0.proposals[proposal_id].status
                == ProposalStatus::Executed
        }),
{
}

/// A transfer under a configured limit never takes the asset's spending in
/// the current period beyond the limit: after a successful execution the
/// recorded usage is the period's earlier spending plus the amount, and at
/// most the limit.
pub proof fn law_spending_stays_within_limit(v: VaultView, proposal_id: u64, current_ledger: u32)
    requires
        v.execute(proposal_id, current_ledger).1 is Ok,
        v.proposals[proposal_id].action is Transfer,
        v.spending_limits.contains_key(v.proposals[proposal_id].action->Transfer_0.asset),
    ensures
        ({
            let t = v.proposals[proposal_id].action->Transfer_0;
            let limit = v.spending_limits[t.asset];
            let usage = v.execute(proposal_id, current_ledger).0.spending_usage[t.asset];
            &&& v.execute(proposal_id, current_ledger).0.spending_usage.contains_key(t.asset)
            &&& usage.spent == v.window_usage(t.asset, limit, current_ledger).spent + t.amount
            &&& usage.spent <= limit.limit_per_period
        }),
{
}

/// A refused operation changes nothing.
pub proof fn law_refusals_change_nothing(
    v: VaultView,
    caller: Address,
    asset: Address,
    signers: Seq<Address>,
    threshold: u32,
    timelock_blocks: u32,
    limit_per_period: i128,
    period_ledgers: u32,
    action: ActionView,
    proposal_id: u64,
    current_ledger: u32,
)
    ensures
        v.initialize(signers, threshold, timelock_blocks, current_ledger).1 is Err ==> v.initialize(
            signers,
            threshold,
            timelock_blocks,
            current_ledger,
        ).0 == v,
        v.configure_spending_limit(caller, asset, limit_per_period, period_ledgers).1 is Err
            ==> v.configure_spending_limit(caller, asset, limit_per_period, period_ledgers).0 == v,
        v.propose(caller, action, current_ledger).1 is Err ==> v.propose(caller, action, current_ledger).0
            == v,
        v.approve(caller, proposal_id).1 is Err ==> v.approve(caller, proposal_id).0 == v,
        v.execute(proposal_id, current_ledger).1 is Err ==> v.execute(proposal_id, current_ledger).0
            == v,
{
}

/// Only current signers configure limits, propose and approve.
pub proof fn law_only_signers_act(
    v: VaultView,
    caller: Address,
    asset: Address,
    limit_per_period: i128,
    period_ledgers: u32,
    action: ActionView,
    proposal_id: u64,
    current_ledger: u32,
)
    ensures
        v.configure_spending_limit(caller, asset, limit_per_period, period_ledgers).1 is Ok
            ==> v.is_signer(caller),
        v.propose(caller, action, current_ledger).1 is Ok ==> v.is_signer(caller),
        v.approve(caller, proposal_id).1 is Ok ==> v.is_signer(caller),
{
}

/// A signer update installs exactly the new signers and threshold, and
/// only when they pass the same checks as `initialize`.
pub proof fn law_signer_update_is_validated(v: VaultView, proposal_id: u64, current_ledger: u32)
    requires
        v.consistent(),
        v.execute(proposal_id, current_ledger).1 is Ok,
        v.proposals[proposal_id].action is UpdateSigners,
    ensures
        ({
            let u = v.proposals[proposal_id].action->UpdateSigners_0;
            let c = v.execute(proposal_id, current_ledger).0.config->0;
            &&& membership_check(u.signers, u.threshold) is Ok
            &&& c.signers == u.signers
            &&& c.threshold == u.threshold
            &&& config_valid(c)
        }),
{
}

/// Configuring a spending limit moves nothing: it changes only the limit of
/// its own asset, never the configuration, the counter, the recorded
/// spending, or any proposal.
pub proof fn law_limit_configuration_moves_nothing(
    v: VaultView,
    caller: Address,
    asset: Address,
    limit_per_period: i128,
    period_ledgers: u32,
    other: Address,
)
    requires
        other != asset,
    ensures
        ({
            let w = v.configure_spending_limit(caller, asset, limit_per_period, period_ledgers).0;
            &&& w.config == v.config
            &&& w.proposal_counter == v.proposal_counter
            &&& w.spending_usage == v.spending_usage
            &&& w.proposals == v.proposals
            &&& w.spending_limits.contains_key(other) == v.spending_limits.contains_key(other)
            &&& w.spending_limits[other] == v.spending_limits[other]
        }),
{
}

/// A successful execution of a transfer owes exactly the proposal's own
/// transfer (same asset, recipient and amount), with or without a
/// spending limit on the asset; without a limit, no spending is recorded.
pub proof fn law_transfer_owes_the_proposed_transfer(v: VaultView, proposal_id: u64, current_ledger: u32)
    requires
        v.execute(proposal_id, current_ledger).1 is Ok,
        v.proposals[proposal_id].action is Transfer,
    ensures
        ({
            let t = v.proposals[proposal_id].action->Transfer_0;
            let w = v.execute(proposal_id, current_ledger).0;
            &&& v.execute(proposal_id, current_ledger).1 == Ok::<EffectView, VaultError>(
                EffectView::TransferFunds(t),
            )
            &&& !v.spending_limits.contains_key(t.asset) ==> w.spending_usage == v.spending_usage
        }),
{
}

/// A successful `configure_spending_limit(caller, asset, L, P)` stores for
/// `asset` exactly `{ asset, L, P }`, whatever limit was stored before.
pub proof fn law_configured_limit_is_stored_as_given(
    v: VaultView,
    caller: Address,
    asset: Address,
    limit_per_period: i128,
    period_ledgers: u32,
)
    requires
        v.configure_spending_limit(caller, asset, limit_per_period, period_ledgers).1 is Ok,
    ensures
        ({
            let w = v.configure_spending_limit(caller, asset, limit_per_period, period_ledgers).0;
            &&& w.spending_limits.contains_key(asset)
            &&& w.spending_limits[asset] == (SpendingLimit { asset, limit_per_period, period_ledgers })
        }),
{
}

/// The later of two successful configurations of the same asset wins:
/// lowering a limit lowers it.
pub proof fn law_reconfiguring_replaces_the_limit(
    v: VaultView,
    caller: Address,
    caller2: Address,
    asset: Address,
    limit_per_period: i128,
    period_ledgers: u32,
    limit_per_period2: i128,
    period_ledgers2: u32,
)
    requires
        v.configure_spending_limit(caller, asset, limit_per_period, period_ledgers).1 is Ok,
        v.configure_spending_limit(caller, asset, limit_per_period, period_ledgers).0.configure_spending_limit(
            caller2,
            asset,
            limit_per_period2,
            period_ledgers2,
        ).1 is Ok,
    ensures
        v.configure_spending_limit(caller, asset, limit_per_period, period_ledgers).0.configure_spending_limit(
            caller2,
            asset,
            limit_per_period2,
            period_ledgers2,
        ).0.spending_limits[asset] == (SpendingLimit {
            asset,
            limit_per_period: limit_per_period2,
            period_ledgers: period_ledgers2,
        }),
{
}

/// A vault is only ever configured with a signer list in which no address
/// occurs twice: an accepted signer list is free of repeats, and a list of
/// at most `MAX_SIGNERS` addresses with a repeat is refused with
/// `DuplicateSigner`, leaving the vault as it was.
pub proof fn law_signers_are_distinct(
    v: VaultView,
    signers: Seq<Address>,
    threshold: u32,
    timelock_blocks: u32,
    current_ledger: u32,
)
    ensures
        v.initialize(signers, threshold, timelock_blocks, current_ledger).1 is Ok ==> forall|i: int, j: int|
            0 <= i < signers.len() && 0 <= j < signers.len() && i != j ==> signers[i] != signers[j],
        (v.config is None && signers.len() <= MAX_SIGNERS && exists|i: int, j: int|
            0 <= i < signers.len() && 0 <= j < signers.len() && i != j && signers[i] == signers[j])
            ==> v.initialize(signers, threshold, timelock_blocks, current_ledger) == (
            v,
            Err::<(), VaultError>(VaultError::DuplicateSigner),
        ),
{
    if v.config is None && signers.len() <= MAX_SIGNERS && exists|i: int, j: int|
        0 <= i < signers.len() && 0 <= j < signers.len() && i != j && signers[i] == signers[j] {
        let (i, j) = choose|i: int, j: int|
            0 <= i < signers.len() && 0 <= j < signers.len() && i != j && signers[i] == signers[j];
        assert(!signers.no_duplicates());
    }
}

/// Every pending proposal can be approved by every current signer that has
/// not approved it yet; the approval is appended to its approvals.
pub proof fn law_pending_proposals_accept_new_approvals(v: VaultView, signer: Address, proposal_id: u64)
    requires
        v.config is Some,
        v.config->0.signers.contains(signer),
        v.proposals.contains_key(proposal_id),
        v.proposals[proposal_id].status == ProposalStatus::Pending,
        !v.proposals[proposal_id].approvals.contains(signer),
    ensures
        v.approve(signer, proposal_id).1 is Ok,
        v.approve(signer, proposal_id).0.proposals[proposal_id].approvals
            == v.proposals[proposal_id].approvals.push(signer),
{
}

/// Spending periods: after a successful transfer of an asset with a limit
/// at ledger `L`, the recorded period is the earlier one when `L` falls
/// before that period's end, and otherwise a new period that starts at `L`;
/// the recorded spending is that period's earlier spending (none for a new
/// period) plus the amount, and at most the limit.
pub proof fn law_spending_periods_start_at_the_current_ledger(
    v: VaultView,
    proposal_id: u64,
    current_ledger: u32,
)
    requires
        v.execute(proposal_id, current_ledger).1 is Ok,
        v.proposals[proposal_id].action is Transfer,
        v.spending_limits.contains_key(v.proposals[proposal_id].action->Transfer_0.asset),
    ensures
        ({
            let t = v.proposals[proposal_id].action->Transfer_0;
            let limit = v.spending_limits[t.asset];
            let w = v.execute(proposal_id, current_ledger).0;
            let in_period = v.spending_usage.contains_key(t.asset) && current_ledger
                < v.spending_usage[t.asset].period_start_ledger + limit.period_ledgers;
            &&& w.spending_usage.contains_key(t.asset)
            &&& w.spending_usage[t.asset].period_start_ledger == if in_period {
                v.spending_usage[t.asset].period_start_ledger
            } else {
                current_ledger
            }
            &&& w.spending_usage[t.asset].spent == if in_period {
                v.spending_usage[t.asset].spent + t.amount
            } else {
                t.amount as int
            }
            &&& w.spending_usage[t.asset].spent <= limit.limit_per_period
        }),
{
}

/// `initialize` succeeds exactly on an uninitialized vault with a
/// non-empty list of at most `MAX_SIGNERS` distinct signers, a threshold
/// between one and their number, and a timelock within
/// `MAX_TIMELOCK_LEDGERS`; it then stores exactly that configuration,
/// created at the current ledger.
pub proof fn law_initialize_accepts_exactly_valid_configurations(
    v: VaultView,
    signers: Seq<Address>,
    threshold: u32,
    timelock_blocks: u32,
    current_ledger: u32,
)
    ensures
        v.initialize(signers, threshold, timelock_blocks, current_ledger).1 is Ok <==> {
            &&& v.config is None
            &&& 0 < signers.len() <= MAX_SIGNERS
            &&& forall|i: int, j: int|
                0 <= i < signers.len() && 0 <= j < signers.len() && i != j ==> signers[i] != signers[j]
            &&& 1 <= threshold <= signers.len()
            &&& timelock_blocks <= MAX_TIMELOCK_LEDGERS
        },
        v.initialize(signers, threshold, timelock_blocks, current_ledger).1 is Ok ==> {
            let c = v.initialize(signers, threshold, timelock_blocks, current_ledger).0.config->0;
            &&& v.initialize(signers, threshold, timelock_blocks, current_ledger).0.config is Some
            &&& c.signers == signers
            &&& c.threshold == threshold
            &&& c.timelock_blocks == timelock_blocks
            &&& c.created_at_ledger == current_ledger
        },
{
}

/// A successful `propose` records exactly what was submitted: the
/// proposer and action, no approvals, `Pending`, created at the current
/// ledger and executable `timelock_blocks` later, under the returned id.
pub proof fn law_proposal_is_recorded_as_submitted(
    v: VaultView,
    proposer: Address,
    action: ActionView,
    current_ledger: u32,
)
    requires
        v.propose_fits(proposer, current_ledger),
        v.propose(proposer, action, current_ledger).1 is Ok,
    ensures
        ({
            let id = v.propose(proposer, action, current_ledger).1->Ok_0;
            let p = v.propose(proposer, action, current_ledger).0.proposals[id];
            &&& v.propose(proposer, action, current_ledger).0.proposals.contains_key(id)
            &&& p.id == id
            &&& p.proposer == proposer
            &&& p.action == action
            &&& p.approvals.len() == 0
            &&& p.status == ProposalStatus::Pending
            &&& p.created_at_ledger == current_ledger
            &&& p.executable_after_ledger == current_ledger + v.config->0.timelock_blocks
        }),
{
}

/// A proposal that is not a transfer or a signer update (a contract
/// invocation) executes exactly when the vault is initialized and the
/// proposal is ready, past its executable ledger, and holds at least
/// `threshold` approvals; it then owes exactly the proposed invocation.
pub proof fn law_invocation_executes_exactly_behind_its_gate(
    v: VaultView,
    proposal_id: u64,
    current_ledger: u32,
)
    requires
        v.proposals.contains_key(proposal_id),
        v.proposals[proposal_id].action is GenericInvoke,
    ensures
        v.execute(proposal_id, current_ledger).1 is Ok <==> {
            &&& v.config is Some
            &&& v.proposals[proposal_id].status == ProposalStatus::Ready
            &&& current_ledger >= v.proposals[proposal_id].executable_after_ledger
            &&& v.proposals[proposal_id].approvals.len() >= v.config->0.threshold
        },
        v.execute(proposal_id, current_ledger).1 is Ok ==> v.execute(proposal_id, current_ledger).1
            == Ok::<EffectView, VaultError>(
            EffectView::InvokeContract(v.proposals[proposal_id].action->GenericInvoke_0),
        ),
{
}

/// Execution refusals name their cause: a missing proposal, one that is
/// not ready, and one whose executable ledger is still ahead.
pub proof fn law_execution_refusals_name_their_cause(v: VaultView, proposal_id: u64, current_ledger: u32)
    requires
        v.config is Some,
    ensures
        !v.proposals.contains_key(proposal_id) ==> v.execute(proposal_id, current_ledger).1
            == Err::<EffectView, VaultError>(VaultError::ProposalNotFound),
        v.proposals.contains_key(proposal_id) && v.proposals[proposal_id].status
            != ProposalStatus::Ready ==> v.execute(proposal_id, current_ledger).1 == Err::<
            EffectView,
            VaultError,
        >(VaultError::ProposalNotReady),
        v.proposals.contains_key(proposal_id) && v.proposals[proposal_id].status
            == ProposalStatus::Ready && current_ledger < v.proposals[proposal_id].executable_after_ledger
            ==> v.execute(proposal_id, current_ledger).1 == Err::<EffectView, VaultError>(
            VaultError::TimelockNotExpired,
        ),
{
}

} // verus!
