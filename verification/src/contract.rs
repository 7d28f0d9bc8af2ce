//! The vault's operations: initialization, spending-limit configuration,
//! proposal creation and approval, execution, and deployment of a child
//! vault. Each is proved to compute its function of [`crate::model`].
use vstd::prelude::*;

use crate::errors::VaultError;
use crate::model::{membership_check, signer_set_check, VaultView};
use crate::types::{
    contains_address, copy_addresses, Address, ExecutionEffect, Proposal, ProposalAction,
    ProposalStatus, SpendingLimit, SpendingUsage, TransferAction, UsageEntry, VaultConfig,
    MAX_SIGNERS, MAX_TIMELOCK_LEDGERS,
};

verus! {

/// A vault's storage; its operations are the methods below.
pub struct VaultFactory {
    pub config: Option<VaultConfig>,
    pub proposal_counter: u64,
    pub spending_limits: Vec<SpendingLimit>,
    pub spending_usage: Vec<UsageEntry>,
    pub proposals: Vec<Proposal>,
}

impl VaultFactory {
    /// A vault with nothing stored yet.
    pub fn new() -> (v: VaultFactory)
        ensures
            v.well_formed(),
            v@ == VaultView::empty(),
    {
        let v = VaultFactory {
            config: None,
            proposal_counter: 0,
            spending_limits: Vec::new(),
            spending_usage: Vec::new(),
            proposals: Vec::new(),
        };
        assert(v@.spending_limits =~= Map::empty());
        assert(v@.spending_usage =~= Map::empty());
        assert(v@.proposals =~= Map::empty());
        v
    }

    /// One-time setup of this vault as an M-of-N vault: the signer set must
    /// be non-empty, free of duplicates and at most [`MAX_SIGNERS`] long,
    /// `1 <= threshold <= signers.len()`, and `timelock_blocks` at most
    /// [`MAX_TIMELOCK_LEDGERS`]. Every signer's authorization is the
    /// caller's to require before the new state is kept.
    pub fn initialize(
        &mut self,
        signers: Vec<Address>,
        threshold: u32,
        timelock_blocks: u32,
        current_ledger: u32,
    ) -> (r: Result<(), VaultError>)
        requires
            old(self).well_formed(),
        ensures
            final(self).well_formed(),
            (final(self)@, r) == old(self)@.initialize(
                signers@,
                threshold,
                timelock_blocks,
                current_ledger,
            ),
    {
        if self.has_config() {
            return Err(VaultError::AlreadyInitialized);
        }
        match validate_signer_set(&signers) {
            Err(e) => {
                return Err(e);
            },
            Ok(()) => {},
        }
        if threshold == 0 || threshold as usize > signers.len() {
            return Err(VaultError::InvalidThreshold);
        }
        if timelock_blocks > MAX_TIMELOCK_LEDGERS {
            return Err(VaultError::InvalidTimelockDuration);
        }
        let config = VaultConfig {
            signers,
            threshold,
            timelock_blocks,
            created_at_ledger: current_ledger,
        };
        self.set_config(config);
        Ok(())
    }

    /// Sets (or replaces) the spending limit of `asset`; `caller` must be a
    /// current signer, and its authorization is the caller's to require.
    pub fn configure_spending_limit(
        &mut self,
        caller: Address,
        asset: Address,
        limit_per_period: i128,
        period_ledgers: u32,
    ) -> (r: Result<(), VaultError>)
        requires
            old(self).well_formed(),
        ensures
            final(self).well_formed(),
            (final(self)@, r) == old(self)@.configure_spending_limit(
                caller,
                asset,
                limit_per_period,
                period_ledgers,
            ),
    {
        let is_signer = match self.get_config() {
            Err(e) => {
                return Err(e);
            },
            Ok(config) => contains_address(&config.signers, &caller),
        };
        if !is_signer {
            return Err(VaultError::SignerNotFound);
        }
        let limit = SpendingLimit { asset, limit_per_period, period_ledgers };
        self.set_spending_limit(limit);
        Ok(())
    }

    /// Whether `propose` by `proposer` at `current_ledger` stays within the
    /// bounds of its counter and ledger arithmetic.
    pub fn propose_within_bounds(&self, proposer: &Address, current_ledger: u32) -> (r: bool)
        ensures
            r == self@.propose_fits(*proposer, current_ledger),
    {
        match &self.config {
            None => true,
            Some(config) => {
                !contains_address(&config.signers, proposer) || (self.proposal_counter < u64::MAX
                    && current_ledger as u64 + config.timelock_blocks as u64 <= u32::MAX as u64)
            },
        }
    }

    /// Submits a new proposal for `action` under the next id. It starts
    /// pending with no approvals, and becomes executable `timelock_blocks`
    /// ledgers after `current_ledger`. `proposer` must be a current signer.
    pub fn propose(&mut self, proposer: Address, action: ProposalAction, current_ledger: u32) -> (r:
        Result<u64, VaultError>)
        requires
            old(self).well_formed(),
            old(self)@.propose_fits(proposer, current_ledger),
        ensures
            final(self).well_formed(),
            (final(self)@, r) == old(self)@.propose(proposer, action@, current_ledger),
    {
        let timelock_blocks: u32 = match self.get_config() {
            Err(e) => {
                return Err(e);
            },
            Ok(config) => {
                if !contains_address(&config.signers, &proposer) {
                    return Err(VaultError::SignerNotFound);
                }
                config.timelock_blocks
            },
        };
        let id: u64 = self.next_proposal_id();
        let proposal = Proposal {
            id,
            proposer,
            action,
            approvals: Vec::new(),
            created_at_ledger: current_ledger,
            executable_after_ledger: current_ledger + timelock_blocks,
            status: ProposalStatus::Pending,
        };
        self.set_proposal(proposal);
        Ok(id)
    }

    /// Records `signer`'s approval of a pending proposal; the proposal
    /// becomes ready once it holds `threshold` approvals.
    pub fn approve(&mut self, signer: Address, proposal_id: u64) -> (r: Result<(), VaultError>)
        requires
            old(self).well_formed(),
        ensures
            final(self).well_formed(),
            (final(self)@, r) == old(self)@.approve(signer, proposal_id),
    {
        let threshold: u32 = match self.get_config() {
            Err(e) => {
                return Err(e);
            },
            Ok(config) => {
                if !contains_address(&config.signers, &signer) {
                    return Err(VaultError::SignerNotFound);
                }
                config.threshold
            },
        };
        let i: usize = match self.find_proposal(proposal_id) {
            None => {
                return Err(VaultError::ProposalNotFound);
            },
            Some(i) => i,
        };
        if self.proposals[i].status != ProposalStatus::Pending {
            return Err(VaultError::ProposalNotPending);
        }
        if contains_address(&self.proposals[i].approvals, &signer) {
            return Err(VaultError::DuplicateApproval);
        }
        let ghost before = self@;
        let count: usize = self.push_approval(proposal_id, signer);
        let ghost pushed = self@;
        if count >= threshold as usize {
            self.set_proposal_status(proposal_id, ProposalStatus::Ready);
            assert(self@.proposals =~= before.approve(signer, proposal_id).0.proposals);
        } else {
            assert(pushed.proposals =~= before.approve(signer, proposal_id).0.proposals);
        }
        Ok(())
    }
    /// Whether `execute` of `proposal_id` at `current_ledger` stays within
    /// the bounds of its ledger arithmetic.
    pub fn execute_within_bounds(&self, proposal_id: u64, current_ledger: u32) -> (r: bool)
        requires
            self.well_formed(),
        ensures
            r == self@.execute_fits(proposal_id, current_ledger),
    {
        let threshold: u32 = match &self.config {
            None => {
                return true;
            },
            Some(config) => config.threshold,
        };
        let i: usize = match self.find_proposal(proposal_id) {
            None => {
                return true;
            },
            Some(i) => i,
        };
        let p = &self.proposals[i];
        if p.status != ProposalStatus::Ready || current_ledger < p.executable_after_ledger
            || p.approvals.len() < threshold as usize {
            return true;
        }
        match &p.action {
            ProposalAction::Transfer(t) => match (
                self.get_spending_limit(&t.asset),
                self.get_spending_usage(&t.asset),
            ) {
                (Some(limit), Some(usage)) => usage.period_start_ledger as u64
                    + limit.period_ledgers as u64 <= u32::MAX as u64,
                _ => true,
            },
            _ => true,
        }
    }

    /// Executes a ready proposal whose timelock has elapsed and which holds
    /// at least `threshold` approvals. A transfer of an asset with a
    /// configured limit is counted against the asset's current period
    /// (a new period starts once `period_ledgers` have passed) and refused
    /// beyond the limit; a signer update is validated as `initialize`
    /// validates. The proposal ends executed, and the result names the
    /// outside work owed. Execution is permissionless: `_executor` is not
    /// checked.
    pub fn execute(&mut self, _executor: Address, proposal_id: u64, current_ledger: u32) -> (r:
        Result<ExecutionEffect, VaultError>)
        requires
            old(self).well_formed(),
            old(self)@.execute_fits(proposal_id, current_ledger),
        ensures
            final(self).well_formed(),
            (final(self)@, match r {
                Ok(effect) => Ok(effect@),
                Err(e) => Err(e),
            }) == old(self)@.execute(proposal_id, current_ledger),
    {
        let ghost start = self@;
        let (threshold, timelock_blocks, created_at_ledger) = match self.get_config() {
            Err(e) => {
                return Err(e);
            },
            Ok(config) => (config.threshold, config.timelock_blocks, config.created_at_ledger),
        };
        let i: usize = match self.find_proposal(proposal_id) {
            None => {
                return Err(VaultError::ProposalNotFound);
            },
            Some(i) => i,
        };
        if self.proposals[i].status != ProposalStatus::Ready {
            return Err(VaultError::ProposalNotReady);
        }
        if current_ledger < self.proposals[i].executable_after_ledger {
            return Err(VaultError::TimelockNotExpired);
        }
        if self.proposals[i].approvals.len() < threshold as usize {
            return Err(VaultError::InsufficientApprovals);
        }
        let (effect, new_config) = match &self.proposals[i].action {
            ProposalAction::Transfer(t) => (ExecutionEffect::TransferFunds(*t), None),
            ProposalAction::GenericInvoke(g) => (ExecutionEffect::InvokeContract(g.duplicate()), None),
            ProposalAction::UpdateSigners(u) => {
                match validate_signer_set(&u.signers) {
                    Err(e) => {
                        return Err(e);
                    },
                    Ok(()) => {},
                }
                if u.threshold == 0 || u.threshold as usize > u.signers.len() {
                    return Err(VaultError::InvalidThreshold);
                }
                let config = VaultConfig {
                    signers: copy_addresses(&u.signers),
                    threshold: u.threshold,
                    timelock_blocks,
                    created_at_ledger,
                };
                (ExecutionEffect::SignersUpdated, Some(config))
            },
        };
        if let ExecutionEffect::TransferFunds(t) = effect {
            self.charge_spending(t, current_ledger)?;
        }
        if let Some(config) = new_config {
            self.set_config(config);
        }
        self.set_proposal_status(proposal_id, ProposalStatus::Executed);
        Ok(effect)
    }

    /// Counts transfer `t` against the spending limit of its asset, if one
    /// is configured.
    fn charge_spending(&mut self, t: TransferAction, current_ledger: u32) -> (r: Result<(), VaultError>)
        requires
            old(self).well_formed(),
            (old(self)@.spending_limits.contains_key(t.asset) && old(self)@.spending_usage.contains_key(t.asset))
                ==> old(self)@.spending_usage[t.asset].period_start_ledger
                + old(self)@.spending_limits[t.asset].period_ledgers <= u32::MAX,
        ensures
            final(self).well_formed(),
            ({
                let v = old(self)@;
                if v.spending_limits.contains_key(t.asset) {
                    let limit = v.spending_limits[t.asset];
                    let usage = v.window_usage(t.asset, limit, current_ledger);
                    let total = usage.spent + t.amount;
                    if total < i128::MIN || total > i128::MAX {
                        final(self)@ == v && r == Err::<(), VaultError>(VaultError::ArithmeticError)
                    } else if total > limit.limit_per_period {
                        final(self)@ == v && r == Err::<(), VaultError>(VaultError::SpendingLimitExceeded)
                    } else {
                        r is Ok && final(self)@ == (VaultView {
                            spending_usage: v.spending_usage.insert(
                                t.asset,
                                SpendingUsage {
                                    spent: total as i128,
                                    period_start_ledger: usage.period_start_ledger,
                                },
                            ),
                            ..v
                        })
                    }
                } else {
                    r is Ok && final(self)@ == v
                }
            }),
    {
        let limit = match self.get_spending_limit(&t.asset) {
            None => {
                return Ok(());
            },
            Some(limit) => limit,
        };
        let fresh = SpendingUsage { spent: 0, period_start_ledger: current_ledger };
        let usage = match self.get_spending_usage(&t.asset) {
            Some(u) => if current_ledger < u.period_start_ledger + limit.period_ledgers {
                u
            } else {
                fresh
            },
            None => fresh,
        };
        let new_spent: i128 = match usage.spent.checked_add(t.amount) {
            Some(x) => x,
            None => {
                return Err(VaultError::ArithmeticError);
            },
        };
        if new_spent > limit.limit_per_period {
            return Err(VaultError::SpendingLimitExceeded);
        }
        self.set_spending_usage(
            t.asset,
            SpendingUsage { spent: new_spent, period_start_ledger: usage.period_start_ledger },
        );
        Ok(())
    }

    /// Stands up a fresh, independent vault initialized with `signers`,
    /// `threshold` and `timelock_blocks`: the child that the factory
    /// deploys. Any failure of the child's initialization is reported as
    /// `DeploymentFailed`.
    pub fn deploy_vault(
        signers: Vec<Address>,
        threshold: u32,
        timelock_blocks: u32,
        current_ledger: u32,
    ) -> (r: Result<VaultFactory, VaultError>)
        ensures
            match r {
                Ok(child) => {
                    &&& child.well_formed()
                    &&& (child@, Ok::<(), VaultError>(())) == VaultView::empty().initialize(
                        signers@,
                        threshold,
                        timelock_blocks,
                        current_ledger,
                    )
                },
                Err(e) => {
                    &&& e == VaultError::DeploymentFailed
                    &&& VaultView::empty().initialize(
                        signers@,
                        threshold,
                        timelock_blocks,
                        current_ledger,
                    ).1 is Err
                },
            },
    {
        let mut child = VaultFactory::new();
        match child.initialize(signers, threshold, timelock_blocks, current_ledger) {
            Ok(()) => Ok(child),
            Err(_) => Err(VaultError::DeploymentFailed),
        }
    }
}

/// Shared validation of a candidate signer set: non-empty, at most
/// [`MAX_SIGNERS`] long, free of duplicates.
pub fn validate_signer_set(signers: &Vec<Address>) -> (r: Result<(), VaultError>)
    ensures
        r == signer_set_check(signers@),
{
    if signers.len() == 0 {
        return Err(VaultError::EmptySignerSet);
    }
    if signers.len() > MAX_SIGNERS as usize {
        return Err(VaultError::InvalidThreshold);
    }
    let n: usize = signers.len();
    let mut i: usize = 0;
    while i < n
        invariant
            n == signers@.len(),
            0 < n <= MAX_SIGNERS,
            i <= n,
            forall|a: int, b: int| 0 <= a < i && a < b < n ==> signers@[a] != signers@[b],
        decreases n - i,
    {
        let mut j: usize = i + 1;
        while j < n
            invariant
                n == signers@.len(),
                0 < n <= MAX_SIGNERS,
                i < n,
                i + 1 <= j <= n,
                forall|a: int, b: int| 0 <= a < i && a < b < n ==> signers@[a] != signers@[b],
                forall|b: int| i < b < j ==> signers@[i as int] != signers@[b],
            decreases n - j,
        {
            if signers[i] == signers[j] {
                proof {
                    assert(!signers@.no_duplicates()) by {
                        assert(signers@[i as int] == signers@[j as int]);
                    }
                }
                return Err(VaultError::DuplicateSigner);
            }
            j = j + 1;
        }
        i = i + 1;
    }
    proof {
        assert forall|a: int, b: int| 0 <= a < n && 0 <= b < n && a != b implies signers@[a] != signers@[b] by {
            if a > b {
                assert(signers@[b] != signers@[a]);
            }
        }
    }
    Ok(())
}

} // verus!
