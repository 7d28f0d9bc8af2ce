//! The mathematical model of a vault: its whole storage as one value, and
//! each operation as a function from a vault and the operation's inputs to
//! the next vault and the operation's result. The executable operations in
//! [`crate::contract`] are proved to compute exactly these functions.
use vstd::prelude::*;

use crate::errors::VaultError;
use crate::types::{
    ActionView, Address, ConfigView, EffectView, ProposalStatus, ProposalView, SpendingLimit,
    SpendingUsage, MAX_SIGNERS, MAX_TIMELOCK_LEDGERS,
};

verus! {

/// A vault's storage: configuration, proposal counter, spending limits and
/// usage keyed by asset, and proposals keyed by id.
pub struct VaultView {
    pub config: Option<ConfigView>,
    pub proposal_counter: u64,
    pub spending_limits: Map<Address, SpendingLimit>,
    pub spending_usage: Map<Address, SpendingUsage>,
    pub proposals: Map<u64, ProposalView>,
}

/// The verdict on a candidate signer set: non-empty, at most
/// [`MAX_SIGNERS`] long, and free of duplicates, checked in that order.
pub open spec fn signer_set_check(signers: Seq<Address>) -> Result<(), VaultError> {
    if signers.len() == 0 {
        Err(VaultError::EmptySignerSet)
    } else if signers.len() > MAX_SIGNERS {
        Err(VaultError::InvalidThreshold)
    } else if !signers.no_duplicates() {
        Err(VaultError::DuplicateSigner)
    } else {
        Ok(())
    }
}

/// The verdict on a signer set together with its threshold: the signer set
/// first, then `1 <= threshold <= signers.len()`.
pub open spec fn membership_check(signers: Seq<Address>, threshold: u32) -> Result<(), VaultError> {
    match signer_set_check(signers) {
        Err(e) => Err(e),
        Ok(_) => if threshold == 0 || threshold > signers.len() {
            Err(VaultError::InvalidThreshold)
        } else {
            Ok(())
        },
    }
}

/// A configuration that `initialize` could have accepted.
pub open spec fn config_valid(c: ConfigView) -> bool {
    &&& membership_check(c.signers, c.threshold) is Ok
    &&& c.timelock_blocks <= MAX_TIMELOCK_LEDGERS
}

impl VaultView {
    /// A vault with nothing stored yet.
    pub open spec fn empty() -> VaultView {
        VaultView {
            config: None,
            proposal_counter: 0,
            spending_limits: Map::empty(),
            spending_usage: Map::empty(),
            proposals: Map::empty(),
        }
    }

    /// Whether `a` is a current signer of the vault.
    pub open spec fn is_signer(self, a: Address) -> bool {
        match self.config {
            Some(c) => c.signers.contains(a),
            None => false,
        }
    }

    /// What holds of every reachable vault: a valid configuration; each
    /// proposal stored under its own id, below the counter, with distinct
    /// approvals, and executable exactly `timelock_blocks` after creation;
    /// and no proposal without a configuration.
    pub open spec fn consistent(self) -> bool {
        &&& (self.config matches Some(c) ==> config_valid(c))
        &&& forall|id: u64| #[trigger] self.proposals.contains_key(id) ==> {
            let p = self.proposals[id];
            &&& p.id == id
            &&& id < self.proposal_counter
            &&& p.approvals.no_duplicates()
            &&& self.config is Some
            &&& p.executable_after_ledger == p.created_at_ledger
                + self.config->0.timelock_blocks
        }
    }

    /// `initialize`: store a fresh configuration, once.
    pub open spec fn initialize(
        self,
        signers: Seq<Address>,
        threshold: u32,
        timelock_blocks: u32,
        current_ledger: u32,
    ) -> (VaultView, Result<(), VaultError>) {
        if self.config is Some {
            (self, Err(VaultError::AlreadyInitialized))
        } else {
            match membership_check(signers, threshold) {
                Err(e) => (self, Err(e)),
                Ok(_) => if timelock_blocks > MAX_TIMELOCK_LEDGERS {
                    (self, Err(VaultError::InvalidTimelockDuration))
                } else {
                    (
                        VaultView {
                            config: Some(
                                ConfigView {
                                    signers,
                                    threshold,
                                    timelock_blocks,
                                    created_at_ledger: current_ledger,
                                },
                            ),
                            ..self
                        },
                        Ok(()),
                    )
                },
            }
        }
    }

    /// `configure_spending_limit`: a current signer sets (or replaces) the
    /// limit of an asset.
    pub open spec fn configure_spending_limit(
        self,
        caller: Address,
        asset: Address,
        limit_per_period: i128,
        period_ledgers: u32,
    ) -> (VaultView, Result<(), VaultError>) {
        if self.config is None {
            (self, Err(VaultError::NotInitialized))
        } else if !self.is_signer(caller) {
            (self, Err(VaultError::SignerNotFound))
        } else {
            (
                VaultView {
                    spending_limits: self.spending_limits.insert(
                        asset,
                        SpendingLimit { asset, limit_per_period, period_ledgers },
                    ),
                    ..self
                },
                Ok(()),
            )
        }
    }

    /// Whether `propose` stays within `u64` and `u32` arithmetic: the
    /// counter can still be incremented and the timelock added to the
    /// current ledger, wherever the operation gets that far.
    pub open spec fn propose_fits(self, proposer: Address, current_ledger: u32) -> bool {
        self.is_signer(proposer) ==> {
            &&& self.proposal_counter < u64::MAX
            &&& current_ledger + self.config->0.timelock_blocks <= u32::MAX
        }
    }

    /// `propose`: a current signer submits a new pending proposal with no
    /// approvals, under the next id.
    pub open spec fn propose(self, proposer: Address, action: ActionView, current_ledger: u32) -> (
        VaultView,
        Result<u64, VaultError>,
    ) {
        if self.config is None {
            (self, Err(VaultError::NotInitialized))
        } else if !self.is_signer(proposer) {
            (self, Err(VaultError::SignerNotFound))
        } else {
            let id = self.proposal_counter;
            let p = ProposalView {
                id,
                proposer,
                action,
                approvals: Seq::empty(),
                created_at_ledger: current_ledger,
                executable_after_ledger: (current_ledger + self.config->0.timelock_blocks) as u32,
                status: ProposalStatus::Pending,
            };
            (
                VaultView {
                    proposal_counter: (id + 1) as u64,
                    proposals: self.proposals.insert(id, p),
                    ..self
                },
                Ok(id),
            )
        }
    }

    /// `approve`: a current signer adds its approval to a pending proposal;
    /// the proposal becomes ready once it holds `threshold` approvals.
    pub open spec fn approve(self, signer: Address, proposal_id: u64) -> (
        VaultView,
        Result<(), VaultError>,
    ) {
        if self.config is None {
            (self, Err(VaultError::NotInitialized))
        } else if !self.is_signer(signer) {
            (self, Err(VaultError::SignerNotFound))
        } else if !self.proposals.contains_key(proposal_id) {
            (self, Err(VaultError::ProposalNotFound))
        } else {
            let p = self.proposals[proposal_id];
            if p.status != ProposalStatus::Pending {
                (self, Err(VaultError::ProposalNotPending))
            } else if p.approvals.contains(signer) {
                (self, Err(VaultError::DuplicateApproval))
            } else {
                let approvals = p.approvals.push(signer);
                let status = if approvals.len() >= self.config->0.threshold {
                    ProposalStatus::Ready
                } else {
                    ProposalStatus::Pending
                };
                (
                    VaultView {
                        proposals: self.proposals.insert(
                            proposal_id,
                            ProposalView { approvals, status, ..p },
                        ),
                        ..self
                    },
                    Ok(()),
                )
            }
        }
    }

    /// The usage against which a transfer of `asset` at `current_ledger`
    /// counts: the recorded usage while its period lasts, else a fresh
    /// period that starts now.
    pub open spec fn window_usage(self, asset: Address, limit: SpendingLimit, current_ledger: u32) -> SpendingUsage {
        if self.spending_usage.contains_key(asset) && current_ledger
            < self.spending_usage[asset].period_start_ledger + limit.period_ledgers {
            self.spending_usage[asset]
        } else {
            SpendingUsage { spent: 0, period_start_ledger: current_ledger }
        }
    }

    /// The vault with proposal `proposal_id` marked executed.
    pub open spec fn mark_executed(self, proposal_id: u64) -> VaultView {
        VaultView {
            proposals: self.proposals.insert(
                proposal_id,
                ProposalView { status: ProposalStatus::Executed, ..self.proposals[proposal_id] },
            ),
            ..self
        }
    }

    /// The checks that gate every execution, in order: configuration,
    /// proposal, `Ready` status, elapsed timelock, enough approvals.
    pub open spec fn execution_gate(self, proposal_id: u64, current_ledger: u32) -> Result<(), VaultError> {
        if self.config is None {
            Err(VaultError::NotInitialized)
        } else if !self.proposals.contains_key(proposal_id) {
            Err(VaultError::ProposalNotFound)
        } else if self.proposals[proposal_id].status != ProposalStatus::Ready {
            Err(VaultError::ProposalNotReady)
        } else if current_ledger < self.proposals[proposal_id].executable_after_ledger {
            Err(VaultError::TimelockNotExpired)
        } else if self.proposals[proposal_id].approvals.len() < self.config->0.threshold {
            Err(VaultError::InsufficientApprovals)
        } else {
            Ok(())
        }
    }

    /// Whether `execute` stays within `u32` arithmetic: wherever it compares
    /// the current ledger with the end of a recorded spending period, that
    /// end fits in `u32`.
    pub open spec fn execute_fits(self, proposal_id: u64, current_ledger: u32) -> bool {
        (self.execution_gate(proposal_id, current_ledger) is Ok && self.proposals[proposal_id].action is Transfer) ==> {
            let t = self.proposals[proposal_id].action->Transfer_0;
            (self.spending_limits.contains_key(t.asset) && self.spending_usage.contains_key(t.asset))
                ==> self.spending_usage[t.asset].period_start_ledger
                + self.spending_limits[t.asset].period_ledgers <= u32::MAX
        }
    }

    /// `execute`: carry out a ready proposal whose timelock has elapsed.
    /// A transfer under a configured limit is counted against the asset's
    /// current period and refused beyond the limit; a signer update is
    /// validated as `initialize` validates; the proposal ends executed, and
    /// the result names the outside work that is owed.
    pub open spec fn execute(self, proposal_id: u64, current_ledger: u32) -> (
        VaultView,
        Result<EffectView, VaultError>,
    ) {
        match self.execution_gate(proposal_id, current_ledger) {
            Err(e) => (self, Err(e)),
            Ok(_) => match self.proposals[proposal_id].action {
                ActionView::Transfer(t) => if self.spending_limits.contains_key(t.asset) {
                    let limit = self.spending_limits[t.asset];
                    let usage = self.window_usage(t.asset, limit, current_ledger);
                    let total = usage.spent + t.amount;
                    if total < i128::MIN || total > i128::MAX {
                        (self, Err(VaultError::ArithmeticError))
                    } else if total > limit.limit_per_period {
                        (self, Err(VaultError::SpendingLimitExceeded))
                    } else {
                        let recorded = VaultView {
                            spending_usage: self.spending_usage.insert(
                                t.asset,
                                SpendingUsage {
                                    spent: total as i128,
                                    period_start_ledger: usage.period_start_ledger,
                                },
                            ),
                            ..self
                        };
                        (recorded.mark_executed(proposal_id), Ok(EffectView::TransferFunds(t)))
                    }
                } else {
                    (self.mark_executed(proposal_id), Ok(EffectView::TransferFunds(t)))
                },
                ActionView::GenericInvoke(g) => (
                    self.mark_executed(proposal_id),
                    Ok(EffectView::InvokeContract(g)),
                ),
                ActionView::UpdateSigners(u) => match membership_check(u.signers, u.threshold) {
                    Err(e) => (self, Err(e)),
                    Ok(_) => {
                        let updated = VaultView {
                            config: Some(
                                ConfigView {
                                    signers: u.signers,
                                    threshold: u.threshold,
                                    ..self.config->0
                                },
                            ),
                            ..self
                        };
                        (updated.mark_executed(proposal_id), Ok(EffectView::SignersUpdated))
                    },
                },
            },
        }
    }
}

} // verus!
