//! Core data of the vault: addresses, signer/threshold configuration,
//! spending limits, proposals and their actions, each with the
//! mathematical view that the contracts of the operations speak of.
use vstd::prelude::*;

verus! {

/// Hard ceiling on `timelock_blocks`, in ledgers (about one year at ~5s per
/// ledger). It keeps `executable_after_ledger` well inside `u32` and stops a
/// misconfigured vault from locking funds for an unbounded time.
pub const MAX_TIMELOCK_LEDGERS: u32 = 6_307_200;

/// Largest signer set that a vault accepts.
pub const MAX_SIGNERS: u32 = 20;

/// The two kinds of on-chain address.
#[derive(Clone, Copy, Debug, PartialEq, Eq, Structural)]
pub enum AddressKind {
    /// An account (its 32-byte Ed25519 public key).
    Account,
    /// A contract (its 32-byte contract id hash).
    Contract,
}

/// The identity of an on-chain address: its kind and its 32-byte payload,
/// held as the big-endian high and low halves. Two addresses are the same
/// address exactly when all three fields agree.
#[derive(Clone, Copy, Debug, PartialEq, Eq, Structural)]
pub struct Address {
    pub kind: AddressKind,
    pub high: u128,
    pub low: u128,
}

/// Signer set, approval threshold and timelock of a vault.
#[derive(Debug)]
pub struct VaultConfig {
    pub signers: Vec<Address>,
    pub threshold: u32,
    pub timelock_blocks: u32,
    pub created_at_ledger: u32,
}

pub struct ConfigView {
    pub signers: Seq<Address>,
    pub threshold: u32,
    pub timelock_blocks: u32,
    pub created_at_ledger: u32,
}

impl View for VaultConfig {
    type V = ConfigView;

    open spec fn view(&self) -> ConfigView {
        ConfigView {
            signers: self.signers@,
            threshold: self.threshold,
            timelock_blocks: self.timelock_blocks,
            created_at_ledger: self.created_at_ledger,
        }
    }
}

/// A per-asset ceiling on the amount that transfers may move within one
/// period of `period_ledgers` ledgers.
#[derive(Clone, Copy, Debug, PartialEq, Eq, Structural)]
pub struct SpendingLimit {
    pub asset: Address,
    pub limit_per_period: i128,
    pub period_ledgers: u32,
}

/// How much of an asset was spent in the period that began at
/// `period_start_ledger`.
#[derive(Clone, Copy, Debug, PartialEq, Eq, Structural)]
pub struct SpendingUsage {
    pub spent: i128,
    pub period_start_ledger: u32,
}

/// The spending usage recorded for one asset.
#[derive(Clone, Copy, Debug, PartialEq, Eq, Structural)]
pub struct UsageEntry {
    pub asset: Address,
    pub usage: SpendingUsage,
}

/// Where a proposal stands in its lifecycle.
#[derive(Clone, Copy, Debug, PartialEq, Eq, Structural)]
pub enum ProposalStatus {
    /// Collecting approvals.
    Pending,
    /// Holds enough approvals; executable once its timelock has elapsed.
    Ready,
    /// Carried out; terminal.
    Executed,
}

/// Move `amount` of the token `asset` from the vault to `to`.
#[derive(Clone, Copy, Debug, PartialEq, Eq, Structural)]
pub struct TransferAction {
    pub asset: Address,
    pub to: Address,
    pub amount: i128,
}

/// Invoke `function` on the contract `contract`, with arguments given as
/// their XDR encodings (they are decoded into host values at execution).
#[derive(Debug, PartialEq, Eq)]
pub struct GenericInvokeAction {
    pub contract: Address,
    pub function: String,
    pub args: Vec<Vec<u8>>,
}

pub struct InvokeView {
    pub contract: Address,
    pub function: Seq<char>,
    pub args: Seq<Seq<u8>>,
}

impl View for GenericInvokeAction {
    type V = InvokeView;

    open spec fn view(&self) -> InvokeView {
        InvokeView { contract: self.contract, function: self.function@, args: self.args.deep_view() }
    }
}

/// Replace the vault's signer set and threshold.
#[derive(Debug, PartialEq, Eq)]
pub struct UpdateSignersAction {
    pub signers: Vec<Address>,
    pub threshold: u32,
}

pub struct UpdateView {
    pub signers: Seq<Address>,
    pub threshold: u32,
}

impl View for UpdateSignersAction {
    type V = UpdateView;

    open spec fn view(&self) -> UpdateView {
        UpdateView { signers: self.signers@, threshold: self.threshold }
    }
}

/// What a proposal asks the vault to do.
#[derive(Debug, PartialEq, Eq)]
pub enum ProposalAction {
    Transfer(TransferAction),
    GenericInvoke(GenericInvokeAction),
    UpdateSigners(UpdateSignersAction),
}

pub enum ActionView {
    Transfer(TransferAction),
    GenericInvoke(InvokeView),
    UpdateSigners(UpdateView),
}

impl View for ProposalAction {
    type V = ActionView;

    open spec fn view(&self) -> ActionView {
        match self {
            ProposalAction::Transfer(t) => ActionView::Transfer(*t),
            ProposalAction::GenericInvoke(g) => ActionView::GenericInvoke(g@),
            ProposalAction::UpdateSigners(u) => ActionView::UpdateSigners(u@),
        }
    }
}

/// A proposed action with the approvals that it has collected.
#[derive(Debug)]
pub struct Proposal {
    pub id: u64,
    pub proposer: Address,
    pub action: ProposalAction,
    pub approvals: Vec<Address>,
    pub created_at_ledger: u32,
    pub executable_after_ledger: u32,
    pub status: ProposalStatus,
}

pub struct ProposalView {
    pub id: u64,
    pub proposer: Address,
    pub action: ActionView,
    pub approvals: Seq<Address>,
    pub created_at_ledger: u32,
    pub executable_after_ledger: u32,
    pub status: ProposalStatus,
}

impl View for Proposal {
    type V = ProposalView;

    open spec fn view(&self) -> ProposalView {
        ProposalView {
            id: self.id,
            proposer: self.proposer,
            action: self.action@,
            approvals: self.approvals@,
            created_at_ledger: self.created_at_ledger,
            executable_after_ledger: self.executable_after_ledger,
            status: self.status,
        }
    }
}

/// The outside work that a successful execution owes: the contract shell
/// performs it with the host.
#[derive(Debug, PartialEq, Eq)]
pub enum ExecutionEffect {
    /// Transfer tokens from the vault.
    TransferFunds(TransferAction),
    /// Invoke another contract.
    InvokeContract(GenericInvokeAction),
    /// The signer set was replaced; nothing is owed outside the vault.
    SignersUpdated,
}

pub enum EffectView {
    TransferFunds(TransferAction),
    InvokeContract(InvokeView),
    SignersUpdated,
}

impl View for ExecutionEffect {
    type V = EffectView;

    open spec fn view(&self) -> EffectView {
        match self {
            ExecutionEffect::TransferFunds(t) => EffectView::TransferFunds(*t),
            ExecutionEffect::InvokeContract(g) => EffectView::InvokeContract(g@),
            ExecutionEffect::SignersUpdated => EffectView::SignersUpdated,
        }
    }
}

/// Whether `a` occurs in `v`.
pub fn contains_address(v: &Vec<Address>, a: &Address) -> (found: bool)
    ensures
        found == v@.contains(*a),
{
    let mut i: usize = 0;
    while i < v.len()
        invariant
            i <= v@.len(),
            forall|j: int| 0 <= j < i ==> v@[j] != *a,
        decreases v@.len() - i,
    {
        if v[i] == *a {
            return true;
        }
        i = i + 1;
    }
    false
}

/// A copy of `v`, element by element.
pub fn copy_addresses(v: &Vec<Address>) -> (r: Vec<Address>)
    ensures
        r@ == v@,
{
    let mut r: Vec<Address> = Vec::new();
    let mut i: usize = 0;
    while i < v.len()
        invariant
            i <= v@.len(),
            r@ == v@.subrange(0, i as int),
        decreases v@.len() - i,
    {
        r.push(v[i]);
        i = i + 1;
    }
    r
}

/// A copy of a byte string.
pub fn copy_bytes(b: &Vec<u8>) -> (r: Vec<u8>)
    ensures
        r@ == b@,
{
    let mut r: Vec<u8> = Vec::new();
    let mut i: usize = 0;
    while i < b.len()
        invariant
            i <= b@.len(),
            r@ == b@.subrange(0, i as int),
        decreases b@.len() - i,
    {
        r.push(b[i]);
        i = i + 1;
    }
    r
}

impl GenericInvokeAction {
    /// A copy of this invocation.
    pub fn duplicate(&self) -> (r: GenericInvokeAction)
        ensures
            r@ == self@,
    {
        let mut args: Vec<Vec<u8>> = Vec::new();
        let mut i: usize = 0;
        while i < self.args.len()
            invariant
                i <= self.args@.len(),
                args@.len() == i,
                forall|j: int| 0 <= j < i ==> (#[trigger] args@[j])@ == self.args@[j]@,
            decreases self.args@.len() - i,
        {
            let b = copy_bytes(&self.args[i]);
            args.push(b);
            i = i + 1;
        }
        let r = GenericInvokeAction { contract: self.contract, function: self.function.clone(), args };
        assert(r.args.deep_view() =~= self.args.deep_view());
        r
    }
}

} // verus!
