//! The vault's keyed storage: the configuration and proposal counter,
//! spending limits and usage keyed by asset, proposals keyed by id, with
//! typed accessors proved against the map view of [`VaultView`].
//!
//! Each keyed collection is a list in which no key occurs twice; its view
//! is the map from each key to the entry stored under it.
use vstd::prelude::*;

use crate::contract::VaultFactory;
use crate::errors::VaultError;
use crate::model::VaultView;
use crate::types::{
    Address, ConfigView, Proposal, ProposalStatus, ProposalView, SpendingLimit, SpendingUsage, UsageEntry,
    VaultConfig,
};

verus! {

// ---------------------------------------------------------------------------
// Spending limits, keyed by asset.
pub open spec fn limit_slot(s: Seq<SpendingLimit>, asset: Address, i: int) -> bool {
    0 <= i < s.len() && s[i].asset == asset
}

pub open spec fn limits_unique(s: Seq<SpendingLimit>) -> bool {
    forall|i: int, j: int| 0 <= i < s.len() && 0 <= j < s.len() && i != j ==> s[i].asset != s[j].asset
}

pub open spec fn limits_map(s: Seq<SpendingLimit>) -> Map<Address, SpendingLimit> {
    Map::new(
        |a: Address| exists|i: int| limit_slot(s, a, i),
        |a: Address| s[choose|i: int| limit_slot(s, a, i)],
    )
}

proof fn lemma_limits_at(s: Seq<SpendingLimit>, k: int)
    requires
        limits_unique(s),
        0 <= k < s.len(),
    ensures
        limits_map(s).contains_key(s[k].asset),
        limits_map(s)[s[k].asset] == s[k],
{
    assert(limit_slot(s, s[k].asset, k));
}

proof fn lemma_limits_update(s: Seq<SpendingLimit>, k: int, v: SpendingLimit)
    requires
        limits_unique(s),
        0 <= k < s.len(),
        s[k].asset == v.asset,
    ensures
        limits_unique(s.update(k, v)),
        limits_map(s.update(k, v)) == limits_map(s).insert(v.asset, v),
{
    let t = s.update(k, v);
    assert forall|a: Address| #[trigger] limits_map(t).contains_key(a) == limits_map(s).insert(v.asset, v).contains_key(a) by {
        if limits_map(s).contains_key(a) {
            let i = choose|i: int| limit_slot(s, a, i);
            assert(limit_slot(t, a, i));
        }
        if a == v.asset {
            assert(limit_slot(t, a, k));
        }
        if limits_map(t).contains_key(a) {
            let i = choose|i: int| limit_slot(t, a, i);
            if i != k {
                assert(limit_slot(s, a, i));
            }
        }
    }
    assert forall|a: Address| #[trigger] limits_map(t).contains_key(a) implies limits_map(t)[a] == limits_map(s).insert(v.asset, v)[a] by {
        let i = choose|i: int| limit_slot(t, a, i);
        if a == v.asset {
            assert(i == k);
        } else {
            assert(limit_slot(s, a, i));
            lemma_limits_at(s, i);
        }
    }
    assert(limits_map(t) =~= limits_map(s).insert(v.asset, v));
}

proof fn lemma_limits_push(s: Seq<SpendingLimit>, v: SpendingLimit)
    requires
        limits_unique(s),
        !limits_map(s).contains_key(v.asset),
    ensures
        limits_unique(s.push(v)),
        limits_map(s.push(v)) == limits_map(s).insert(v.asset, v),
{
    let t = s.push(v);
    assert forall|i: int| 0 <= i < s.len() implies s[i].asset != v.asset by {
        if s[i].asset == v.asset {
            assert(limit_slot(s, v.asset, i));
        }
    }
    assert forall|a: Address| #[trigger] limits_map(t).contains_key(a) == limits_map(s).insert(v.asset, v).contains_key(a) by {
        if limits_map(s).contains_key(a) {
            let i = choose|i: int| limit_slot(s, a, i);
            assert(limit_slot(t, a, i));
        }
        if a == v.asset {
            assert(limit_slot(t, a, s.len() as int));
        }
        if limits_map(t).contains_key(a) {
            let i = choose|i: int| limit_slot(t, a, i);
            if i < s.len() {
                assert(limit_slot(s, a, i));
            }
        }
    }
    assert forall|a: Address| #[trigger] limits_map(t).contains_key(a) implies limits_map(t)[a] == limits_map(s).insert(v.asset, v)[a] by {
        let i = choose|i: int| limit_slot(t, a, i);
        if a == v.asset {
            assert(i == s.len());
        } else {
            assert(limit_slot(s, a, i));
            lemma_limits_at(s, i);
        }
    }
    assert(limits_map(t) =~= limits_map(s).insert(v.asset, v));
}

// ---------------------------------------------------------------------------
// Spending usage, keyed by asset.
pub open spec fn usage_slot(s: Seq<UsageEntry>, asset: Address, i: int) -> bool {
    0 <= i < s.len() && s[i].asset == asset
}

pub open spec fn usage_unique(s: Seq<UsageEntry>) -> bool {
    forall|i: int, j: int| 0 <= i < s.len() && 0 <= j < s.len() && i != j ==> s[i].asset != s[j].asset
}

pub open spec fn usage_map(s: Seq<UsageEntry>) -> Map<Address, SpendingUsage> {
    Map::new(
        |a: Address| exists|i: int| usage_slot(s, a, i),
        |a: Address| s[choose|i: int| usage_slot(s, a, i)].usage,
    )
}

proof fn lemma_usage_at(s: Seq<UsageEntry>, k: int)
    requires
        usage_unique(s),
        0 <= k < s.len(),
    ensures
        usage_map(s).contains_key(s[k].asset),
        usage_map(s)[s[k].asset] == s[k].usage,
{
    assert(usage_slot(s, s[k].asset, k));
}

proof fn lemma_usage_update(s: Seq<UsageEntry>, k: int, v: UsageEntry)
    requires
        usage_unique(s),
        0 <= k < s.len(),
        s[k].asset == v.asset,
    ensures
        usage_unique(s.update(k, v)),
        usage_map(s.update(k, v)) == usage_map(s).insert(v.asset, v.usage),
{
    let t = s.update(k, v);
    assert forall|a: Address| #[trigger] usage_map(t).contains_key(a) == usage_map(s).insert(v.asset, v.usage).contains_key(a) by {
        if usage_map(s).contains_key(a) {
            let i = choose|i: int| usage_slot(s, a, i);
            assert(usage_slot(t, a, i));
        }
        if a == v.asset {
            assert(usage_slot(t, a, k));
        }
        if usage_map(t).contains_key(a) {
            let i = choose|i: int| usage_slot(t, a, i);
            if i != k {
                assert(usage_slot(s, a, i));
            }
        }
    }
    assert forall|a: Address| #[trigger] usage_map(t).contains_key(a) implies usage_map(t)[a] == usage_map(s).insert(v.asset, v.usage)[a] by {
        let i = choose|i: int| usage_slot(t, a, i);
        if a == v.asset {
            assert(i == k);
        } else {
            assert(usage_slot(s, a, i));
            lemma_usage_at(s, i);
        }
    }
    assert(usage_map(t) =~= usage_map(s).insert(v.asset, v.usage));
}

proof fn lemma_usage_push(s: Seq<UsageEntry>, v: UsageEntry)
    requires
        usage_unique(s),
        !usage_map(s).contains_key(v.asset),
    ensures
        usage_unique(s.push(v)),
        usage_map(s.push(v)) == usage_map(s).insert(v.asset, v.usage),
{
    let t = s.push(v);
    assert forall|i: int| 0 <= i < s.len() implies s[i].asset != v.asset by {
        if s[i].asset == v.asset {
            assert(usage_slot(s, v.asset, i));
        }
    }
    assert forall|a: Address| #[trigger] usage_map(t).contains_key(a) == usage_map(s).insert(v.asset, v.usage).contains_key(a) by {
        if usage_map(s).contains_key(a) {
            let i = choose|i: int| usage_slot(s, a, i);
            assert(usage_slot(t, a, i));
        }
        if a == v.asset {
            assert(usage_slot(t, a, s.len() as int));
        }
        if usage_map(t).contains_key(a) {
            let i = choose|i: int| usage_slot(t, a, i);
            if i < s.len() {
                assert(usage_slot(s, a, i));
            }
        }
    }
    assert forall|a: Address| #[trigger] usage_map(t).contains_key(a) implies usage_map(t)[a] == usage_map(s).insert(v.asset, v.usage)[a] by {
        let i = choose|i: int| usage_slot(t, a, i);
        if a == v.asset {
            assert(i == s.len());
        } else {
            assert(usage_slot(s, a, i));
            lemma_usage_at(s, i);
        }
    }
    assert(usage_map(t) =~= usage_map(s).insert(v.asset, v.usage));
}

// ---------------------------------------------------------------------------
// Proposals, keyed by id.
pub open spec fn proposal_slot(s: Seq<Proposal>, id: u64, i: int) -> bool {
    0 <= i < s.len() && s[i].id == id
}

pub open spec fn proposals_unique(s: Seq<Proposal>) -> bool {
    forall|i: int, j: int| 0 <= i < s.len() && 0 <= j < s.len() && i != j ==> s[i].id != s[j].id
}

pub open spec fn proposals_map(s: Seq<Proposal>) -> Map<u64, ProposalView> {
    Map::new(
        |id: u64| exists|i: int| proposal_slot(s, id, i),
        |id: u64| s[choose|i: int| proposal_slot(s, id, i)]@,
    )
}

proof fn lemma_proposals_at(s: Seq<Proposal>, k: int)
    requires
        proposals_unique(s),
        0 <= k < s.len(),
    ensures
        proposals_map(s).contains_key(s[k].id),
        proposals_map(s)[s[k].id] == s[k]@,
{
    assert(proposal_slot(s, s[k].id, k));
}

proof fn lemma_proposals_update(s: Seq<Proposal>, k: int, v: Proposal)
    requires
        proposals_unique(s),
        0 <= k < s.len(),
        s[k].id == v.id,
    ensures
        proposals_unique(s.update(k, v)),
        proposals_map(s.update(k, v)) == proposals_map(s).insert(v.id, v@),
{
    let t = s.update(k, v);
    assert forall|a: u64| #[trigger] proposals_map(t).contains_key(a) == proposals_map(s).insert(v.id, v@).contains_key(a) by {
        if proposals_map(s).contains_key(a) {
            let i = choose|i: int| proposal_slot(s, a, i);
            assert(proposal_slot(t, a, i));
        }
        if a == v.id {
            assert(proposal_slot(t, a, k));
        }
        if proposals_map(t).contains_key(a) {
            let i = choose|i: int| proposal_slot(t, a, i);
            if i != k {
                assert(proposal_slot(s, a, i));
            }
        }
    }
    assert forall|a: u64| #[trigger] proposals_map(t).contains_key(a) implies proposals_map(t)[a] == proposals_map(s).insert(v.id, v@)[a] by {
        let i = choose|i: int| proposal_slot(t, a, i);
        if a == v.id {
            assert(i == k);
        } else {
            assert(proposal_slot(s, a, i));
            lemma_proposals_at(s, i);
        }
    }
    assert(proposals_map(t) =~= proposals_map(s).insert(v.id, v@));
}

proof fn lemma_proposals_push(s: Seq<Proposal>, v: Proposal)
    requires
        proposals_unique(s),
        !proposals_map(s).contains_key(v.id),
    ensures
        proposals_unique(s.push(v)),
        proposals_map(s.push(v)) == proposals_map(s).insert(v.id, v@),
{
    let t = s.push(v);
    assert forall|i: int| 0 <= i < s.len() implies s[i].id != v.id by {
        if s[i].id == v.id {
            assert(proposal_slot(s, v.id, i));
        }
    }
    assert forall|a: u64| #[trigger] proposals_map(t).contains_key(a) == proposals_map(s).insert(v.id, v@).contains_key(a) by {
        if proposals_map(s).contains_key(a) {
            let i = choose|i: int| proposal_slot(s, a, i);
            assert(proposal_slot(t, a, i));
        }
        if a == v.id {
            assert(proposal_slot(t, a, s.len() as int));
        }
        if proposals_map(t).contains_key(a) {
            let i = choose|i: int| proposal_slot(t, a, i);
            if i < s.len() {
                assert(proposal_slot(s, a, i));
            }
        }
    }
    assert forall|a: u64| #[trigger] proposals_map(t).contains_key(a) implies proposals_map(t)[a] == proposals_map(s).insert(v.id, v@)[a] by {
        let i = choose|i: int| proposal_slot(t, a, i);
        if a == v.id {
            assert(i == s.len());
        } else {
            assert(proposal_slot(s, a, i));
            lemma_proposals_at(s, i);
        }
    }
    assert(proposals_map(t) =~= proposals_map(s).insert(v.id, v@));
}

// ---------------------------------------------------------------------------
// The whole storage.
pub open spec fn config_view(c: Option<VaultConfig>) -> Option<ConfigView> {
    match c {
        Some(c) => Some(c@),
        None => None,
    }
}

impl View for VaultFactory {
    type V = VaultView;

    open spec fn view(&self) -> VaultView {
        VaultView {
            config: config_view(self.config),
            proposal_counter: self.proposal_counter,
            spending_limits: limits_map(self.spending_limits@),
            spending_usage: usage_map(self.spending_usage@),
            proposals: proposals_map(self.proposals@),
        }
    }
}

impl VaultFactory {
    /// No key occurs twice in any keyed collection.
    pub open spec fn well_formed(&self) -> bool {
        &&& limits_unique(self.spending_limits@)
        &&& usage_unique(self.spending_usage@)
        &&& proposals_unique(self.proposals@)
    }

    /// Whether a configuration is stored.
    pub fn has_config(&self) -> (r: bool)
        ensures
            r == (self@.config is Some),
    {
        self.config.is_some()
    }

    /// The stored configuration, or `NotInitialized`.
    pub fn get_config(&self) -> (r: Result<&VaultConfig, VaultError>)
        ensures
            match r {
                Ok(c) => self@.config == Some(c@),
                Err(e) => self@.config is None && e == VaultError::NotInitialized,
            },
    {
        match &self.config {
            Some(c) => Ok(c),
            None => Err(VaultError::NotInitialized),
        }
    }

    /// Store `config`, replacing any earlier one.
    pub fn set_config(&mut self, config: VaultConfig)
        requires
            old(self).well_formed(),
        ensures
            final(self).well_formed(),
            final(self)@ == (VaultView { config: Some(config@), ..old(self)@ }),
    {
        self.config = Some(config);
    }

    /// Hand out the next proposal id and advance the counter.
    pub fn next_proposal_id(&mut self) -> (id: u64)
        requires
            old(self).well_formed(),
            old(self).proposal_counter < u64::MAX,
        ensures
            final(self).well_formed(),
            id == old(self)@.proposal_counter,
            final(self)@ == (VaultView { proposal_counter: (id + 1) as u64, ..old(self)@ }),
    {
        let id: u64 = self.proposal_counter;
        self.proposal_counter = id + 1;
        id
    }

    /// The position of the spending limit of `asset`, if one is stored.
    fn find_limit(&self, asset: &Address) -> (r: Option<usize>)
        requires
            self.well_formed(),
        ensures
            match r {
                Some(i) => limit_slot(self.spending_limits@, *asset, i as int),
                None => !self@.spending_limits.contains_key(*asset),
            },
    {
        let mut i: usize = 0;
        while i < self.spending_limits.len()
            invariant
                i <= self.spending_limits@.len(),
                forall|j: int| 0 <= j < i ==> self.spending_limits@[j].asset != *asset,
            decreases self.spending_limits@.len() - i,
        {
            if self.spending_limits[i].asset == *asset {
                return Some(i);
            }
            i = i + 1;
        }
        proof {
            if self@.spending_limits.contains_key(*asset) {
                let k = choose|k: int| limit_slot(self.spending_limits@, *asset, k);
                assert(self.spending_limits@[k].asset == *asset);
            }
        }
        None
    }

    /// The spending limit stored for `asset`.
    pub fn get_spending_limit(&self, asset: &Address) -> (r: Option<SpendingLimit>)
        requires
            self.well_formed(),
        ensures
            r == (if self@.spending_limits.contains_key(*asset) {
                Some(self@.spending_limits[*asset])
            } else {
                None
            }),
    {
        match self.find_limit(asset) {
            Some(i) => {
                proof {
                    lemma_limits_at(self.spending_limits@, i as int);
                }
                Some(self.spending_limits[i])
            },
            None => None,
        }
    }

    /// Store `limit` under its asset, replacing any earlier limit.
    pub fn set_spending_limit(&mut self, limit: SpendingLimit)
        requires
            old(self).well_formed(),
        ensures
            final(self).well_formed(),
            final(self)@ == (VaultView {
                spending_limits: old(self)@.spending_limits.insert(limit.asset, limit),
                ..old(self)@
            }),
    {
        match self.find_limit(&limit.asset) {
            Some(i) => {
                proof {
                    lemma_limits_update(self.spending_limits@, i as int, limit);
                }
                self.spending_limits[i] = limit;
            },
            None => {
                proof {
                    lemma_limits_push(self.spending_limits@, limit);
                }
                self.spending_limits.push(limit);
            },
        }
    }

    /// The position of the usage entry of `asset`, if one is stored.
    fn find_usage(&self, asset: &Address) -> (r: Option<usize>)
        requires
            self.well_formed(),
        ensures
            match r {
                Some(i) => usage_slot(self.spending_usage@, *asset, i as int),
                None => !self@.spending_usage.contains_key(*asset),
            },
    {
        let mut i: usize = 0;
        while i < self.spending_usage.len()
            invariant
                i <= self.spending_usage@.len(),
                forall|j: int| 0 <= j < i ==> self.spending_usage@[j].asset != *asset,
            decreases self.spending_usage@.len() - i,
        {
            if self.spending_usage[i].asset == *asset {
                return Some(i);
            }
            i = i + 1;
        }
        proof {
            if self@.spending_usage.contains_key(*asset) {
                let k = choose|k: int| usage_slot(self.spending_usage@, *asset, k);
                assert(self.spending_usage@[k].asset == *asset);
            }
        }
        None
    }

    /// The spending usage stored for `asset`.
    pub fn get_spending_usage(&self, asset: &Address) -> (r: Option<SpendingUsage>)
        requires
            self.well_formed(),
        ensures
            r == (if self@.spending_usage.contains_key(*asset) {
                Some(self@.spending_usage[*asset])
            } else {
                None
            }),
    {
        match self.find_usage(asset) {
            Some(i) => {
                proof {
                    lemma_usage_at(self.spending_usage@, i as int);
                }
                Some(self.spending_usage[i].usage)
            },
            None => None,
        }
    }

    /// Store `usage` under `asset`, replacing any earlier usage.
    pub fn set_spending_usage(&mut self, asset: Address, usage: SpendingUsage)
        requires
            old(self).well_formed(),
        ensures
            final(self).well_formed(),
            final(self)@ == (VaultView {
                spending_usage: old(self)@.spending_usage.insert(asset, usage),
                ..old(self)@
            }),
    {
        let entry = UsageEntry { asset, usage };
        match self.find_usage(&asset) {
            Some(i) => {
                proof {
                    lemma_usage_update(self.spending_usage@, i as int, entry);
                }
                self.spending_usage[i] = entry;
            },
            None => {
                proof {
                    lemma_usage_push(self.spending_usage@, entry);
                }
                self.spending_usage.push(entry);
            },
        }
    }

    /// The position of proposal `id`, if one is stored.
    pub fn find_proposal(&self, id: u64) -> (r: Option<usize>)
        requires
            self.well_formed(),
        ensures
            match r {
                Some(i) => {
                    &&& proposal_slot(self.proposals@, id, i as int)
                    &&& self@.proposals.contains_key(id)
                    &&& self@.proposals[id] == self.proposals@[i as int]@
                },
                None => !self@.proposals.contains_key(id),
            },
    {
        let mut i: usize = 0;
        while i < self.proposals.len()
            invariant
                i <= self.proposals@.len(),
                self.well_formed(),
                forall|j: int| 0 <= j < i ==> self.proposals@[j].id != id,
            decreases self.proposals@.len() - i,
        {
            if self.proposals[i].id == id {
                proof {
                    lemma_proposals_at(self.proposals@, i as int);
                }
                return Some(i);
            }
            i = i + 1;
        }
        proof {
            if self@.proposals.contains_key(id) {
                let k = choose|k: int| proposal_slot(self.proposals@, id, k);
                assert(self.proposals@[k].id == id);
            }
        }
        None
    }

    /// Store `proposal` under its id, replacing any earlier proposal.
    pub fn set_proposal(&mut self, proposal: Proposal)
        requires
            old(self).well_formed(),
        ensures
            final(self).well_formed(),
            final(self)@ == (VaultView {
                proposals: old(self)@.proposals.insert(proposal.id, proposal@),
                ..old(self)@
            }),
    {
        match self.find_proposal(proposal.id) {
            Some(i) => {
                proof {
                    lemma_proposals_update(self.proposals@, i as int, proposal);
                }
                self.proposals[i] = proposal;
            },
            None => {
                proof {
                    lemma_proposals_push(self.proposals@, proposal);
                }
                self.proposals.push(proposal);
            },
        }
    }
    /// Set the status of the stored proposal `id`.
    pub fn set_proposal_status(&mut self, id: u64, status: ProposalStatus)
        requires
            old(self).well_formed(),
            old(self)@.proposals.contains_key(id),
        ensures
            final(self).well_formed(),
            final(self)@ == (VaultView {
                proposals: old(self)@.proposals.insert(
                    id,
                    ProposalView { status, ..old(self)@.proposals[id] },
                ),
                ..old(self)@
            }),
    {
        let i: usize = match self.find_proposal(id) {
            Some(i) => i,
            None => {
                return;
            },
        };
        let ghost s = self.proposals@;
        let mut p = self.proposals.remove(i);
        p.status = status;
        self.proposals.insert(i, p);
        proof {
            assert(self.proposals@ =~= s.update(i as int, p));
            lemma_proposals_update(s, i as int, p);
        }
    }

    /// Append `signer` to the approvals of the stored proposal `id`;
    /// returns the new number of approvals.
    pub fn push_approval(&mut self, id: u64, signer: Address) -> (count: usize)
        requires
            old(self).well_formed(),
            old(self)@.proposals.contains_key(id),
        ensures
            final(self).well_formed(),
            count == old(self)@.proposals[id].approvals.len() + 1,
            final(self)@ == (VaultView {
                proposals: old(self)@.proposals.insert(
                    id,
                    ProposalView {
                        approvals: old(self)@.proposals[id].approvals.push(signer),
                        ..old(self)@.proposals[id]
                    },
                ),
                ..old(self)@
            }),
    {
        let i: usize = match self.find_proposal(id) {
            Some(i) => i,
            None => {
                return 0;
            },
        };
        let ghost s = self.proposals@;
        let mut p = self.proposals.remove(i);
        p.approvals.push(signer);
        let count: usize = p.approvals.len();
        self.proposals.insert(i, p);
        proof {
            assert(self.proposals@ =~= s.update(i as int, p));
            lemma_proposals_update(s, i as int, p);
        }
        count
    }
}

} // verus!
