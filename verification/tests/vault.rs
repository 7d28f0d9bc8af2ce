//! Scenarios of the vault, driven through its operations the way the
//! contract shell drives them: a fresh vault, a 2-of-3 signer set, and a
//! 100-ledger timelock.

use soroban_vault_factory::contract::VaultFactory;
use soroban_vault_factory::errors::VaultError;
use soroban_vault_factory::types::{
    Address, AddressKind, ExecutionEffect, ProposalAction, TransferAction, UpdateSignersAction,
    MAX_TIMELOCK_LEDGERS,
};

const DEFAULT_THRESHOLD: u32 = 2;
const DEFAULT_TIMELOCK_BLOCKS: u32 = 100;
const START_LEDGER: u32 = 0;

/// A distinct address for each `n`.
fn address(n: u128) -> Address {
    Address { kind: AddressKind::Account, high: 0, low: n }
}

/// A distinct contract address for each `n`.
fn contract_address(n: u128) -> Address {
    Address { kind: AddressKind::Contract, high: 7, low: n }
}

/// A fresh vault and three signers, not yet initialized.
fn setup_uninitialized() -> (VaultFactory, Vec<Address>) {
    (VaultFactory::new(), vec![address(1), address(2), address(3)])
}

/// A fresh 2-of-3 vault with the default timelock.
fn setup() -> (VaultFactory, Vec<Address>) {
    let (mut vault, signers) = setup_uninitialized();
    vault
        .initialize(signers.clone(), DEFAULT_THRESHOLD, DEFAULT_TIMELOCK_BLOCKS, START_LEDGER)
        .unwrap();
    (vault, signers)
}

fn transfer(asset: Address, to: Address, amount: i128) -> ProposalAction {
    ProposalAction::Transfer(TransferAction { asset, to, amount })
}

/// Balances of one token, kept by the test as the host would keep them.
struct TokenLedger {
    asset: Address,
    balances: Vec<(Address, i128)>,
}

impl TokenLedger {
    fn funded(asset: Address, holder: Address, amount: i128) -> TokenLedger {
        TokenLedger { asset, balances: vec![(holder, amount)] }
    }

    fn balance(&self, who: &Address) -> i128 {
        self.balances.iter().find(|(a, _)| a == who).map(|(_, b)| *b).unwrap_or(0)
    }

    fn credit(&mut self, who: Address, amount: i128) {
        match self.balances.iter_mut().find(|(a, _)| *a == who) {
            Some(entry) => entry.1 += amount,
            None => self.balances.push((who, amount)),
        }
    }

    /// Performs a transfer that an execution owes, from `vault`.
    fn perform(&mut self, vault: Address, effect: &ExecutionEffect) {
        if let ExecutionEffect::TransferFunds(t) = effect {
            assert_eq!(t.asset, self.asset);
            self.credit(vault, -t.amount);
            self.credit(t.to, t.amount);
        }
    }
}

#[test]
fn initialize_succeeds_with_valid_config() {
    let (mut vault, signers) = setup_uninitialized();

    vault
        .initialize(signers.clone(), DEFAULT_THRESHOLD, DEFAULT_TIMELOCK_BLOCKS, START_LEDGER)
        .unwrap();
    let result =
        vault.initialize(signers, DEFAULT_THRESHOLD, DEFAULT_TIMELOCK_BLOCKS, START_LEDGER);
    assert_eq!(result, Err(VaultError::AlreadyInitialized));
}

#[test]
fn initialize_rejects_empty_signer_set() {
    let (mut vault, _signers) = setup_uninitialized();
    let empty: Vec<Address> = vec![];

    let result = vault.initialize(empty, 1, DEFAULT_TIMELOCK_BLOCKS, START_LEDGER);
    assert_eq!(result, Err(VaultError::EmptySignerSet));
}

#[test]
fn initialize_rejects_duplicate_signers() {
    let (mut vault, _signers) = setup_uninitialized();
    let signer = address(42);
    let duplicated = vec![signer, signer];

    let result = vault.initialize(duplicated, 1, DEFAULT_TIMELOCK_BLOCKS, START_LEDGER);
    assert_eq!(result, Err(VaultError::DuplicateSigner));
}

#[test]
fn initialize_rejects_threshold_above_signer_count() {
    let (mut vault, signers) = setup_uninitialized();
    let too_many = signers.len() as u32 + 1;

    let result = vault.initialize(signers, too_many, DEFAULT_TIMELOCK_BLOCKS, START_LEDGER);
    assert_eq!(result, Err(VaultError::InvalidThreshold));
}

#[test]
fn initialize_rejects_timelock_beyond_ceiling() {
    let (mut vault, signers) = setup_uninitialized();

    let result =
        vault.initialize(signers, DEFAULT_THRESHOLD, MAX_TIMELOCK_LEDGERS + 1, START_LEDGER);
    assert_eq!(result, Err(VaultError::InvalidTimelockDuration));
}

#[test]
fn configure_spending_limit_by_current_signer_succeeds() {
    let (mut vault, signers) = setup();
    let asset = contract_address(1);

    let result = vault.configure_spending_limit(signers[0], asset, 1_000_000i128, 17_280u32);
    assert_eq!(result, Ok(()));
}

#[test]
fn configure_spending_limit_rejects_non_signer() {
    let (mut vault, _signers) = setup();
    let asset = contract_address(1);
    let stranger = address(99);

    let result = vault.configure_spending_limit(stranger, asset, 1_000_000i128, 17_280u32);
    assert_eq!(result, Err(VaultError::SignerNotFound));
}

#[test]
fn propose_by_signer_returns_incrementing_ids() {
    let (mut vault, signers) = setup();

    let first_id =
        vault.propose(signers[0], transfer(contract_address(1), address(50), 500), START_LEDGER).unwrap();
    let second_id =
        vault.propose(signers[1], transfer(contract_address(1), address(50), 500), START_LEDGER).unwrap();
    assert_eq!(second_id, first_id + 1);
}

#[test]
fn propose_rejects_non_signer() {
    let (mut vault, _signers) = setup();
    let stranger = address(99);

    let result = vault.propose(stranger, transfer(contract_address(1), address(50), 500), START_LEDGER);
    assert_eq!(result, Err(VaultError::SignerNotFound));
}

#[test]
fn approve_transitions_proposal_to_ready_once_threshold_met() {
    let (mut vault, signers) = setup();
    let id =
        vault.propose(signers[0], transfer(contract_address(1), address(50), 500), START_LEDGER).unwrap();

    vault.approve(signers[0], id).unwrap();
    vault.approve(signers[1], id).unwrap();

    // A third signer approving a ready (no longer pending) proposal fails.
    let result = vault.approve(signers[2], id);
    assert_eq!(result, Err(VaultError::ProposalNotPending));
}

#[test]
fn approve_rejects_non_signer() {
    let (mut vault, signers) = setup();
    let stranger = address(99);
    let id =
        vault.propose(signers[0], transfer(contract_address(1), address(50), 500), START_LEDGER).unwrap();

    let result = vault.approve(stranger, id);
    assert_eq!(result, Err(VaultError::SignerNotFound));
}

#[test]
fn approve_rejects_duplicate_approval_from_the_same_signer() {
    let (mut vault, signers) = setup();
    let id =
        vault.propose(signers[0], transfer(contract_address(1), address(50), 500), START_LEDGER).unwrap();

    vault.approve(signers[0], id).unwrap();
    let result = vault.approve(signers[0], id);
    assert_eq!(result, Err(VaultError::DuplicateApproval));
}

#[test]
fn approve_rejects_unknown_proposal() {
    let (mut vault, signers) = setup();

    let result = vault.approve(signers[0], 999u64);
    assert_eq!(result, Err(VaultError::ProposalNotFound));
}

#[test]
fn execute_rejects_before_timelock_elapses() {
    let (mut vault, signers) = setup();
    let id =
        vault.propose(signers[0], transfer(contract_address(1), address(50), 500), START_LEDGER).unwrap();
    vault.approve(signers[0], id).unwrap();
    vault.approve(signers[1], id).unwrap();

    let result = vault.execute(signers[0], id, START_LEDGER);
    assert_eq!(result, Err(VaultError::TimelockNotExpired));
}

#[test]
fn execute_rejects_a_still_pending_proposal() {
    let (mut vault, signers) = setup();
    let id =
        vault.propose(signers[0], transfer(contract_address(1), address(50), 500), START_LEDGER).unwrap();
    // Only one of the two required approvals.
    vault.approve(signers[0], id).unwrap();

    let result = vault.execute(signers[0], id, START_LEDGER);
    assert_eq!(result, Err(VaultError::ProposalNotReady));
}

#[test]
fn execute_transfers_funds_after_timelock_elapses() {
    let (mut vault, signers) = setup();
    let vault_address = contract_address(0);
    let recipient = address(50);
    let asset = contract_address(1);
    let mut token = TokenLedger::funded(asset, vault_address, 10_000i128);

    let id = vault.propose(signers[0], transfer(asset, recipient, 4_000i128), START_LEDGER).unwrap();
    vault.approve(signers[0], id).unwrap();
    vault.approve(signers[1], id).unwrap();

    let effect = vault.execute(signers[0], id, START_LEDGER + DEFAULT_TIMELOCK_BLOCKS).unwrap();
    assert_eq!(
        effect,
        ExecutionEffect::TransferFunds(TransferAction { asset, to: recipient, amount: 4_000i128 })
    );
    token.perform(vault_address, &effect);
    assert_eq!(token.balance(&recipient), 4_000i128);
    assert_eq!(token.balance(&vault_address), 6_000i128);

    // Executed proposals are terminal: a second execute must fail.
    let result = vault.execute(signers[0], id, START_LEDGER + DEFAULT_TIMELOCK_BLOCKS);
    assert_eq!(result, Err(VaultError::ProposalNotReady));
}

#[test]
fn execute_rejects_transfer_exceeding_the_spending_limit() {
    let (mut vault, signers) = setup();
    let recipient = address(50);
    let asset = contract_address(1);
    vault.configure_spending_limit(signers[0], asset, 1_000i128, 17_280u32).unwrap();

    // 4,000 exceeds the 1,000 limit configured above.
    let id = vault.propose(signers[0], transfer(asset, recipient, 4_000i128), START_LEDGER).unwrap();
    vault.approve(signers[0], id).unwrap();
    vault.approve(signers[1], id).unwrap();

    let result = vault.execute(signers[0], id, START_LEDGER + DEFAULT_TIMELOCK_BLOCKS);
    assert_eq!(result, Err(VaultError::SpendingLimitExceeded));
}

#[test]
fn execute_applies_update_signers_action() {
    let (mut vault, signers) = setup();
    let new_signer = address(77);
    let new_signers = vec![signers[0], new_signer];

    let action =
        ProposalAction::UpdateSigners(UpdateSignersAction { signers: new_signers, threshold: 1 });
    let id = vault.propose(signers[0], action, START_LEDGER).unwrap();
    vault.approve(signers[0], id).unwrap();
    vault.approve(signers[1], id).unwrap();
    let effect = vault.execute(signers[0], id, START_LEDGER + DEFAULT_TIMELOCK_BLOCKS).unwrap();
    assert_eq!(effect, ExecutionEffect::SignersUpdated);

    // The old third signer is no longer part of the vault...
    let stale = transfer(contract_address(1), address(50), 1);
    let result = vault.propose(signers[2], stale, START_LEDGER + DEFAULT_TIMELOCK_BLOCKS);
    assert_eq!(result, Err(VaultError::SignerNotFound));

    // ...while the newly-added signer now is.
    let stale = transfer(contract_address(1), address(50), 1);
    vault.propose(new_signer, stale, START_LEDGER + DEFAULT_TIMELOCK_BLOCKS).unwrap();
}

#[test]
fn deploy_vault_returns_a_freshly_initialized_child_vault() {
    let (_vault, signers) = setup();

    let mut child = match VaultFactory::deploy_vault(
        signers.clone(),
        DEFAULT_THRESHOLD,
        DEFAULT_TIMELOCK_BLOCKS,
        START_LEDGER,
    ) {
        Ok(child) => child,
        Err(e) => panic!("deployment failed: {:?}", e),
    };

    // The child is a separate, already-initialized vault: a second
    // `initialize` must fail.
    let result =
        child.initialize(signers, DEFAULT_THRESHOLD, DEFAULT_TIMELOCK_BLOCKS, START_LEDGER);
    assert_eq!(result, Err(VaultError::AlreadyInitialized));
}

#[test]
fn deploy_vault_reports_deployment_failed_for_an_uninitializable_config() {
    let (_vault, _signers) = setup();
    let empty: Vec<Address> = vec![];

    // An empty signer set fails the child's own `initialize` validation.
    let result = VaultFactory::deploy_vault(empty, 1, DEFAULT_TIMELOCK_BLOCKS, START_LEDGER);
    assert!(matches!(result, Err(VaultError::DeploymentFailed)));
}
