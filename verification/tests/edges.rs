//! Edge cases, error variants, spending periods, and the laws of the
//! vault on concrete values.

use soroban_vault_factory::contract::{validate_signer_set, VaultFactory};
use soroban_vault_factory::errors::VaultError;
use soroban_vault_factory::types::{
    Address, AddressKind, ExecutionEffect, GenericInvokeAction, ProposalAction, ProposalStatus,
    TransferAction, UpdateSignersAction, MAX_SIGNERS, MAX_TIMELOCK_LEDGERS,
};

fn address(n: u128) -> Address {
    Address { kind: AddressKind::Account, high: 0, low: n }
}

fn asset(n: u128) -> Address {
    Address { kind: AddressKind::Contract, high: 1, low: n }
}

fn transfer(asset: Address, to: Address, amount: i128) -> ProposalAction {
    ProposalAction::Transfer(TransferAction { asset, to, amount })
}

fn vault_2_of_3(timelock: u32) -> (VaultFactory, Vec<Address>) {
    let mut vault = VaultFactory::new();
    let signers = vec![address(1), address(2), address(3)];
    vault.initialize(signers.clone(), 2, timelock, 1_000).unwrap();
    (vault, signers)
}

/// Proposes `action` and has the first two signers approve it.
fn ready(vault: &mut VaultFactory, signers: &[Address], action: ProposalAction, ledger: u32) -> u64 {
    let id = vault.propose(signers[0], action, ledger).unwrap();
    vault.approve(signers[0], id).unwrap();
    vault.approve(signers[1], id).unwrap();
    id
}

fn proposal_status(vault: &VaultFactory, id: u64) -> ProposalStatus {
    vault.proposals.iter().find(|p| p.id == id).unwrap().status
}

#[test]
fn operations_before_initialize_report_not_initialized() {
    let mut vault = VaultFactory::new();
    assert_eq!(
        vault.configure_spending_limit(address(1), asset(1), 10, 10),
        Err(VaultError::NotInitialized)
    );
    assert_eq!(
        vault.propose(address(1), transfer(asset(1), address(2), 1), 5),
        Err(VaultError::NotInitialized)
    );
    assert_eq!(vault.approve(address(1), 0), Err(VaultError::NotInitialized));
    assert_eq!(vault.execute(address(1), 0, 5), Err(VaultError::NotInitialized));
}

#[test]
fn signer_set_checks_come_in_order() {
    assert_eq!(validate_signer_set(&vec![]), Err(VaultError::EmptySignerSet));
    let too_many: Vec<Address> = (0..(MAX_SIGNERS as u128 + 1)).map(address).collect();
    assert_eq!(validate_signer_set(&too_many), Err(VaultError::InvalidThreshold));
    let most: Vec<Address> = (0..MAX_SIGNERS as u128).map(address).collect();
    assert_eq!(validate_signer_set(&most), Ok(()));
    assert_eq!(
        validate_signer_set(&vec![address(1), address(2), address(1)]),
        Err(VaultError::DuplicateSigner)
    );
    // Same payload, different kind: different addresses.
    let a = Address { kind: AddressKind::Account, high: 5, low: 5 };
    let c = Address { kind: AddressKind::Contract, high: 5, low: 5 };
    assert_eq!(validate_signer_set(&vec![a, c]), Ok(()));
}

#[test]
fn initialize_rejects_zero_threshold_and_accepts_the_ceiling() {
    let mut vault = VaultFactory::new();
    assert_eq!(
        vault.initialize(vec![address(1)], 0, 10, 0),
        Err(VaultError::InvalidThreshold)
    );
    assert!(vault.config.is_none());
    assert_eq!(vault.initialize(vec![address(1)], 1, MAX_TIMELOCK_LEDGERS, 0), Ok(()));
    let config = vault.config.as_ref().unwrap();
    assert_eq!(config.signers, vec![address(1)]);
    assert_eq!(config.threshold, 1);
    assert_eq!(config.timelock_blocks, MAX_TIMELOCK_LEDGERS);
    assert_eq!(config.created_at_ledger, 0);
}

#[test]
fn proposal_is_snapshotted_with_the_timelock() {
    let (mut vault, signers) = vault_2_of_3(100);
    let id = vault.propose(signers[2], transfer(asset(1), address(9), 7), 1_234).unwrap();
    assert_eq!(id, 0);
    assert_eq!(vault.proposal_counter, 1);
    let p = vault.proposals.iter().find(|p| p.id == id).unwrap();
    assert_eq!(p.proposer, signers[2]);
    assert_eq!(p.created_at_ledger, 1_234);
    assert_eq!(p.executable_after_ledger, 1_334);
    assert_eq!(p.status, ProposalStatus::Pending);
    assert!(p.approvals.is_empty());
}

#[test]
fn execution_waits_exactly_until_the_executable_ledger() {
    let (mut vault, signers) = vault_2_of_3(100);
    let id = ready(&mut vault, &signers, transfer(asset(1), address(9), 7), 1_000);
    assert_eq!(vault.execute(signers[0], id, 1_099), Err(VaultError::TimelockNotExpired));
    assert_eq!(proposal_status(&vault, id), ProposalStatus::Ready);
    assert!(vault.execute(signers[0], id, 1_100).is_ok());
    assert_eq!(proposal_status(&vault, id), ProposalStatus::Executed);
}

#[test]
fn execute_rejects_unknown_proposal() {
    let (mut vault, signers) = vault_2_of_3(0);
    assert_eq!(vault.execute(signers[0], 5, 2_000), Err(VaultError::ProposalNotFound));
}

#[test]
fn executor_need_not_be_a_signer() {
    let (mut vault, signers) = vault_2_of_3(0);
    let id = ready(&mut vault, &signers, transfer(asset(1), address(9), 7), 1_000);
    assert!(vault.execute(address(1234), id, 1_000).is_ok());
}

#[test]
fn raised_threshold_leaves_older_ready_proposal_short_of_approvals() {
    let (mut vault, signers) = vault_2_of_3(10);
    let payout = ready(&mut vault, &signers, transfer(asset(1), address(9), 7), 1_000);
    let update = ProposalAction::UpdateSigners(UpdateSignersAction {
        signers: vec![signers[0], signers[1], signers[2], address(4)],
        threshold: 3,
    });
    let raise = ready(&mut vault, &signers, update, 1_000);
    assert_eq!(vault.execute(signers[0], raise, 1_010), Ok(ExecutionEffect::SignersUpdated));
    assert_eq!(vault.config.as_ref().unwrap().threshold, 3);
    assert_eq!(vault.execute(signers[0], payout, 1_010), Err(VaultError::InsufficientApprovals));
}

#[test]
fn invalid_signer_update_is_refused_and_leaves_the_proposal_ready() {
    let (mut vault, signers) = vault_2_of_3(0);
    let dup = ProposalAction::UpdateSigners(UpdateSignersAction {
        signers: vec![address(8), address(8)],
        threshold: 1,
    });
    let id = ready(&mut vault, &signers, dup, 1_000);
    assert_eq!(vault.execute(signers[0], id, 1_000), Err(VaultError::DuplicateSigner));
    assert_eq!(proposal_status(&vault, id), ProposalStatus::Ready);
    assert_eq!(vault.config.as_ref().unwrap().signers, signers);

    let high = ProposalAction::UpdateSigners(UpdateSignersAction {
        signers: vec![address(8)],
        threshold: 2,
    });
    let id2 = ready(&mut vault, &signers, high, 1_000);
    assert_eq!(vault.execute(signers[0], id2, 1_000), Err(VaultError::InvalidThreshold));

    let empty = ProposalAction::UpdateSigners(UpdateSignersAction { signers: vec![], threshold: 1 });
    let id3 = ready(&mut vault, &signers, empty, 1_000);
    assert_eq!(vault.execute(signers[0], id3, 1_000), Err(VaultError::EmptySignerSet));
}

#[test]
fn signer_update_keeps_timelock_and_creation_ledger() {
    let (mut vault, signers) = vault_2_of_3(25);
    let update = ProposalAction::UpdateSigners(UpdateSignersAction {
        signers: vec![address(5)],
        threshold: 1,
    });
    let id = ready(&mut vault, &signers, update, 2_000);
    vault.execute(signers[0], id, 2_025).unwrap();
    let config = vault.config.as_ref().unwrap();
    assert_eq!(config.signers, vec![address(5)]);
    assert_eq!(config.threshold, 1);
    assert_eq!(config.timelock_blocks, 25);
    assert_eq!(config.created_at_ledger, 1_000);
}

#[test]
fn generic_invoke_hands_back_the_same_invocation() {
    let (mut vault, signers) = vault_2_of_3(0);
    let invoke = GenericInvokeAction {
        contract: asset(3),
        function: String::from("swap"),
        args: vec![vec![0, 0, 0, 3], vec![], vec![9, 8, 7]],
    };
    let expected = GenericInvokeAction {
        contract: asset(3),
        function: String::from("swap"),
        args: vec![vec![0, 0, 0, 3], vec![], vec![9, 8, 7]],
    };
    let id = ready(&mut vault, &signers, ProposalAction::GenericInvoke(invoke), 1_000);
    assert_eq!(vault.execute(signers[1], id, 1_000), Ok(ExecutionEffect::InvokeContract(expected)));
}

#[test]
fn transfer_without_a_limit_is_not_metered() {
    let (mut vault, signers) = vault_2_of_3(0);
    let id = ready(&mut vault, &signers, transfer(asset(1), address(9), 1_000_000), 1_000);
    assert!(vault.execute(signers[0], id, 1_000).is_ok());
    assert!(vault.spending_usage.is_empty());
}

#[test]
fn spending_accumulates_within_a_period_and_resets_after_it() {
    let (mut vault, signers) = vault_2_of_3(0);
    vault.configure_spending_limit(signers[0], asset(1), 1_000, 50).unwrap();

    let a = ready(&mut vault, &signers, transfer(asset(1), address(9), 600), 1_000);
    vault.execute(signers[0], a, 1_000).unwrap();
    assert_eq!(vault.get_spending_usage(&asset(1)).unwrap().spent, 600);

    let b = ready(&mut vault, &signers, transfer(asset(1), address(9), 400), 1_000);
    vault.execute(signers[0], b, 1_049).unwrap();
    let usage = vault.get_spending_usage(&asset(1)).unwrap();
    assert_eq!((usage.spent, usage.period_start_ledger), (1_000, 1_000));

    let c = ready(&mut vault, &signers, transfer(asset(1), address(9), 1), 1_000);
    assert_eq!(vault.execute(signers[0], c, 1_049), Err(VaultError::SpendingLimitExceeded));
    // The period that began at ledger 1,000 ends at 1,050: a new one starts.
    vault.execute(signers[0], c, 1_050).unwrap();
    let usage = vault.get_spending_usage(&asset(1)).unwrap();
    assert_eq!((usage.spent, usage.period_start_ledger), (1, 1_050));
}

#[test]
fn spending_overflow_reports_arithmetic_error() {
    let (mut vault, signers) = vault_2_of_3(0);
    vault.configure_spending_limit(signers[0], asset(1), i128::MAX, 1_000).unwrap();
    let a = ready(&mut vault, &signers, transfer(asset(1), address(9), i128::MAX), 1_000);
    vault.execute(signers[0], a, 1_000).unwrap();
    let b = ready(&mut vault, &signers, transfer(asset(1), address(9), 1), 1_000);
    assert_eq!(vault.execute(signers[0], b, 1_001), Err(VaultError::ArithmeticError));
    assert_eq!(proposal_status(&vault, b), ProposalStatus::Ready);
}

#[test]
fn reconfiguring_a_limit_replaces_it() {
    let (mut vault, signers) = vault_2_of_3(0);
    vault.configure_spending_limit(signers[0], asset(1), 10, 5).unwrap();
    vault.configure_spending_limit(signers[1], asset(1), 20, 6).unwrap();
    vault.configure_spending_limit(signers[1], asset(2), 30, 7).unwrap();
    assert_eq!(vault.spending_limits.len(), 2);
    let limit = vault.get_spending_limit(&asset(1)).unwrap();
    assert_eq!((limit.limit_per_period, limit.period_ledgers), (20, 6));
    assert_eq!(vault.get_spending_limit(&asset(3)), None);
}

#[test]
fn bounds_checks_flag_the_overflowing_inputs() {
    let (mut vault, signers) = vault_2_of_3(100);
    assert!(vault.propose_within_bounds(&signers[0], 1_000));
    assert!(!vault.propose_within_bounds(&signers[0], u32::MAX - 50));
    // A stranger is refused before any arithmetic happens.
    assert!(vault.propose_within_bounds(&address(99), u32::MAX - 50));

    vault.configure_spending_limit(signers[0], asset(1), 1_000, u32::MAX).unwrap();
    let a = ready(&mut vault, &signers, transfer(asset(1), address(9), 1), 1_000);
    assert!(vault.execute_within_bounds(a, 1_100));
    vault.execute(signers[0], a, 1_100).unwrap();
    let b = ready(&mut vault, &signers, transfer(asset(1), address(9), 1), 1_000);
    // The recorded period starts at 1,100; adding u32::MAX overflows.
    assert!(!vault.execute_within_bounds(b, 1_100));
    // Before the timelock elapses the check is never reached.
    assert!(vault.execute_within_bounds(b, 1_099));
}

// --- laws on concrete values ---------------------------------------------

#[test]
fn law_initialize_only_once_on_values() {
    let (mut vault, signers) = vault_2_of_3(10);
    assert_eq!(
        vault.initialize(vec![address(50)], 1, 1, 2),
        Err(VaultError::AlreadyInitialized)
    );
    assert_eq!(vault.config.as_ref().unwrap().signers, signers);
}

#[test]
fn law_proposal_ids_increment_on_values() {
    let (mut vault, signers) = vault_2_of_3(10);
    let ids: Vec<u64> = (0..5)
        .map(|i| vault.propose(signers[i % 3], transfer(asset(1), address(9), 1), 1_000).unwrap())
        .collect();
    assert_eq!(ids, vec![0, 1, 2, 3, 4]);
    assert_eq!(vault.proposals.len(), 5);
}

#[test]
fn law_approval_reaches_threshold_on_values() {
    let mut vault = VaultFactory::new();
    let signers = vec![address(1), address(2), address(3)];
    vault.initialize(signers.clone(), 3, 0, 0).unwrap();
    let id = vault.propose(signers[0], transfer(asset(1), address(9), 1), 0).unwrap();
    vault.approve(signers[2], id).unwrap();
    assert_eq!(proposal_status(&vault, id), ProposalStatus::Pending);
    vault.approve(signers[0], id).unwrap();
    assert_eq!(proposal_status(&vault, id), ProposalStatus::Pending);
    vault.approve(signers[1], id).unwrap();
    assert_eq!(proposal_status(&vault, id), ProposalStatus::Ready);
    let p = vault.proposals.iter().find(|p| p.id == id).unwrap();
    assert_eq!(p.approvals, vec![signers[2], signers[0], signers[1]]);
}

#[test]
fn law_executed_is_terminal_on_values() {
    let (mut vault, signers) = vault_2_of_3(0);
    let id = ready(&mut vault, &signers, transfer(asset(1), address(9), 1), 1_000);
    vault.execute(signers[0], id, 1_000).unwrap();
    assert_eq!(vault.approve(signers[2], id), Err(VaultError::ProposalNotPending));
    assert_eq!(vault.execute(signers[0], id, 5_000), Err(VaultError::ProposalNotReady));
    assert_eq!(proposal_status(&vault, id), ProposalStatus::Executed);
}

#[test]
fn law_refusals_change_nothing_on_values() {
    let (mut vault, signers) = vault_2_of_3(0);
    vault.configure_spending_limit(signers[0], asset(1), 5, 100).unwrap();
    let id = ready(&mut vault, &signers, transfer(asset(1), address(9), 6), 1_000);
    let counter = vault.proposal_counter;
    assert_eq!(vault.execute(signers[0], id, 1_000), Err(VaultError::SpendingLimitExceeded));
    assert!(vault.spending_usage.is_empty());
    assert_eq!(proposal_status(&vault, id), ProposalStatus::Ready);
    assert_eq!(vault.propose(address(99), transfer(asset(1), address(9), 6), 1_000), Err(VaultError::SignerNotFound));
    assert_eq!(vault.proposal_counter, counter);
}

#[test]
fn law_spending_stays_within_limit_on_values() {
    let (mut vault, signers) = vault_2_of_3(0);
    vault.configure_spending_limit(signers[0], asset(1), 100, 1_000).unwrap();
    for amount in [30i128, 30, 40] {
        let id = ready(&mut vault, &signers, transfer(asset(1), address(9), amount), 1_000);
        vault.execute(signers[0], id, 1_000).unwrap();
        assert!(vault.get_spending_usage(&asset(1)).unwrap().spent <= 100);
    }
    assert_eq!(vault.get_spending_usage(&asset(1)).unwrap().spent, 100);
}
