//! An in-memory stand-in for the external multisig program: it accepts the
//! argument records that the operations build and applies the program's
//! rules for membership, permissions and transaction indices, so that a
//! governance flow can be exercised without a chain.
use crate::accounts::same_key;
use crate::instructions::{founding_args, Member, MultisigCreateArgsV2, ProposalCreateArgs, VaultTransactionCreateArgs};
use crate::permissions::{grants, Permission};
use vstd::prelude::*;

verus! {

/// A multisig as the backend holds it.
pub struct MultisigModel {
    pub address: Seq<u8>,
    pub members: Seq<(Seq<u8>, u8)>,
    pub threshold: u16,
    pub transaction_index: u64,
}

/// A vault transaction as the backend holds it.
pub struct TransactionModel {
    pub multisig: Seq<u8>,
    pub index: u64,
    pub message: Seq<u8>,
}

/// A proposal as the backend holds it, with the members that approved it.
pub struct ProposalModel {
    pub multisig: Seq<u8>,
    pub index: u64,
    pub approvals: Seq<Seq<u8>>,
    pub draft: bool,
}

/// Everything the backend holds.
pub struct BackendModel {
    pub multisigs: Seq<MultisigModel>,
    pub transactions: Seq<TransactionModel>,
    pub proposals: Seq<ProposalModel>,
}

/// Why the backend rejects a call.
#[derive(Clone, Copy, Debug, PartialEq, Eq, Structural)]
pub enum BackendError {
    /// A multisig already lives at the address.
    AccountInUse,
    /// The member list is empty.
    EmptyMembers,
    /// The threshold is zero or exceeds the number of members.
    InvalidThreshold,
    /// No multisig lives at the address.
    MultisigNotFound,
    /// The caller is not a member with the permission the call needs.
    Unauthorized,
    /// The multisig's transaction index cannot grow further.
    IndexOverflow,
    /// The index is past the multisig's last transaction.
    InvalidTransactionIndex,
    /// No vault transaction has the index.
    TransactionNotFound,
    /// A proposal for the index already exists.
    ProposalExists,
    /// No proposal has the index.
    ProposalNotFound,
    /// The member already approved the proposal.
    AlreadyApproved,
}

/// The members of an argument record as (address, permission mask) pairs.
pub open spec fn members_model(ms: Seq<Member>) -> Seq<(Seq<u8>, u8)> {
    ms.map_values(|m: Member| (m.key@, m.permissions.mask))
}

/// Whether `key` is a member whose mask grants `p`.
pub open spec fn member_grants(members: Seq<(Seq<u8>, u8)>, key: Seq<u8>, p: Permission) -> bool {
    exists|j: int| 0 <= j < members.len() && #[trigger] members[j].0 == key && grants(members[j].1, p)
}

/// Whether a multisig lives at `addr`.
pub open spec fn has_multisig(s: BackendModel, addr: Seq<u8>) -> bool {
    exists|i: int| 0 <= i < s.multisigs.len() && #[trigger] s.multisigs[i].address == addr
}

/// The position of the multisig at `addr`.
pub open spec fn multisig_slot(s: BackendModel, addr: Seq<u8>) -> int {
    choose|i: int| 0 <= i < s.multisigs.len() && #[trigger] s.multisigs[i].address == addr
}

/// Whether the multisig at `addr` has a vault transaction with index `k`.
pub open spec fn has_transaction(s: BackendModel, addr: Seq<u8>, k: u64) -> bool {
    exists|i: int| 0 <= i < s.transactions.len() && #[trigger] s.transactions[i].multisig == addr && s.transactions[i].index == k
}

/// Whether the multisig at `addr` has a proposal for transaction `k`.
pub open spec fn has_proposal(s: BackendModel, addr: Seq<u8>, k: u64) -> bool {
    exists|i: int| 0 <= i < s.proposals.len() && #[trigger] s.proposals[i].multisig == addr && s.proposals[i].index == k
}

/// The position of the proposal for transaction `k` of the multisig at `addr`.
pub open spec fn proposal_slot(s: BackendModel, addr: Seq<u8>, k: u64) -> int {
    choose|i: int| 0 <= i < s.proposals.len() && #[trigger] s.proposals[i].multisig == addr && s.proposals[i].index == k
}

/// Multisig addresses are unique, and so is each multisig's proposal for an index.
pub open spec fn wf(s: BackendModel) -> bool {
    &&& forall|i: int, j: int| #![trigger s.multisigs[i], s.multisigs[j]]
        0 <= i < s.multisigs.len() && 0 <= j < s.multisigs.len() && i != j
            ==> s.multisigs[i].address != s.multisigs[j].address
    &&& forall|i: int, j: int| #![trigger s.proposals[i], s.proposals[j]]
        0 <= i < s.proposals.len() && 0 <= j < s.proposals.len() && i != j
            ==> !(s.proposals[i].multisig == s.proposals[j].multisig && s.proposals[i].index == s.proposals[j].index)
}

/// Creating a multisig at `addr`.
pub open spec fn create_step(s: BackendModel, addr: Seq<u8>, members: Seq<(Seq<u8>, u8)>, threshold: u16)
    -> (BackendModel, Result<(), BackendError>)
{
    if has_multisig(s, addr) {
        (s, Err(BackendError::AccountInUse))
    } else if members.len() == 0 {
        (s, Err(BackendError::EmptyMembers))
    } else if threshold == 0 || threshold > members.len() {
        (s, Err(BackendError::InvalidThreshold))
    } else {
        (BackendModel {
            multisigs: s.multisigs.push(MultisigModel { address: addr, members, threshold, transaction_index: 0 }),
            ..s
        }, Ok(()))
    }
}

/// Creating a vault transaction for the multisig at `addr`: it takes the
/// next transaction index, which the call returns.
pub open spec fn vault_step(s: BackendModel, addr: Seq<u8>, creator: Seq<u8>, message: Seq<u8>)
    -> (BackendModel, Result<u64, BackendError>)
{
    if !has_multisig(s, addr) {
        (s, Err(BackendError::MultisigNotFound))
    } else {
        let m = s.multisigs[multisig_slot(s, addr)];
        if !member_grants(m.members, creator, Permission::Initiate) {
            (s, Err(BackendError::Unauthorized))
        } else if m.transaction_index == u64::MAX {
            (s, Err(BackendError::IndexOverflow))
        } else {
            let n = (m.transaction_index + 1) as u64;
            (BackendModel {
                multisigs: s.multisigs.update(multisig_slot(s, addr), MultisigModel { transaction_index: n, ..m }),
                transactions: s.transactions.push(TransactionModel { multisig: addr, index: n, message }),
                ..s
            }, Ok(n))
        }
    }
}

/// Creating a proposal for transaction `k` of the multisig at `addr`.
pub open spec fn proposal_step(s: BackendModel, addr: Seq<u8>, creator: Seq<u8>, k: u64, draft: bool)
    -> (BackendModel, Result<(), BackendError>)
{
    if !has_multisig(s, addr) {
        (s, Err(BackendError::MultisigNotFound))
    } else {
        let m = s.multisigs[multisig_slot(s, addr)];
        if !member_grants(m.members, creator, Permission::Initiate) && !member_grants(m.members, creator, Permission::Vote) {
            (s, Err(BackendError::Unauthorized))
        } else if k > m.transaction_index {
            (s, Err(BackendError::InvalidTransactionIndex))
        } else if !has_transaction(s, addr, k) {
            (s, Err(BackendError::TransactionNotFound))
        } else if has_proposal(s, addr, k) {
            (s, Err(BackendError::ProposalExists))
        } else {
            (BackendModel {
                proposals: s.proposals.push(ProposalModel { multisig: addr, index: k, approvals: Seq::empty(), draft }),
                ..s
            }, Ok(()))
        }
    }
}

/// Approving the proposal for transaction `k` of the multisig at `addr`.
pub open spec fn approve_step(s: BackendModel, addr: Seq<u8>, k: u64, member: Seq<u8>)
    -> (BackendModel, Result<(), BackendError>)
{
    if !has_proposal(s, addr, k) {
        (s, Err(BackendError::ProposalNotFound))
    } else if !has_multisig(s, addr) {
        (s, Err(BackendError::MultisigNotFound))
    } else if !member_grants(s.multisigs[multisig_slot(s, addr)].members, member, Permission::Vote) {
        (s, Err(BackendError::Unauthorized))
    } else {
        let p = s.proposals[proposal_slot(s, addr, k)];
        if p.approvals.contains(member) {
            (s, Err(BackendError::AlreadyApproved))
        } else {
            (BackendModel {
                proposals: s.proposals.update(proposal_slot(s, addr, k), ProposalModel { approvals: p.approvals.push(member), ..p }),
                ..s
            }, Ok(()))
        }
    }
}

struct MultisigAccount {
    address: [u8; 32],
    members: Vec<Member>,
    threshold: u16,
    transaction_index: u64,
}

struct TransactionAccount {
    multisig: [u8; 32],
    index: u64,
    message: Vec<u8>,
}

struct ProposalAccount {
    multisig: [u8; 32],
    index: u64,
    approvals: Vec<[u8; 32]>,
    draft: bool,
}

impl View for MultisigAccount {
    type V = MultisigModel;

    closed spec fn view(&self) -> MultisigModel {
        MultisigModel {
            address: self.address@,
            members: members_model(self.members@),
            threshold: self.threshold,
            transaction_index: self.transaction_index,
        }
    }
}

impl View for TransactionAccount {
    type V = TransactionModel;

    closed spec fn view(&self) -> TransactionModel {
        TransactionModel { multisig: self.multisig@, index: self.index, message: self.message@ }
    }
}

impl View for ProposalAccount {
    type V = ProposalModel;

    closed spec fn view(&self) -> ProposalModel {
        ProposalModel {
            multisig: self.multisig@,
            index: self.index,
            approvals: self.approvals@.map_values(|a: [u8; 32]| a@),
            draft: self.draft,
        }
    }
}

/// The in-memory backend.
pub struct MemoryBackend {
    multisigs: Vec<MultisigAccount>,
    transactions: Vec<TransactionAccount>,
    proposals: Vec<ProposalAccount>,
}

impl View for MemoryBackend {
    type V = BackendModel;

    closed spec fn view(&self) -> BackendModel {
        BackendModel {
            multisigs: self.multisigs@.map_values(|m: MultisigAccount| m@),
            transactions: self.transactions@.map_values(|t: TransactionAccount| t@),
            proposals: self.proposals@.map_values(|p: ProposalAccount| p@),
        }
    }
}

/// A copy of a vector of plain values.
fn copy_vec<T: Copy>(v: &Vec<T>) -> (r: Vec<T>)
    ensures
        r@ == v@,
{
    let mut r: Vec<T> = Vec::new();
    let mut i: usize = 0;
    while i < v.len()
        invariant
            i <= v@.len(),
            r@ == v@.subrange(0, i as int),
        decreases v@.len() - i,
    {
        r.push(v[i]);
        i = i + 1;
        assert(r@ =~= v@.subrange(0, i as int));
    }
    assert(r@ =~= v@);
    r
}

/// Whether `key` is among `members` with a mask that grants `p`.
fn member_may(members: &Vec<Member>, key: &[u8; 32], p: Permission) -> (r: bool)
    ensures
        r == member_grants(members_model(members@), key@, p),
{
    let ghost ms = members_model(members@);
    let mut j: usize = 0;
    while j < members.len()
        invariant
            j <= members@.len(),
            ms == members_model(members@),
            forall|q: int| 0 <= q < j ==> !(#[trigger] ms[q].0 == key@ && grants(ms[q].1, p)),
        decreases members@.len() - j,
    {
        if same_key(&members[j].key, key) && members[j].permissions.has(p) {
            assert(ms[j as int].0 == key@ && grants(ms[j as int].1, p));
            return true;
        }
        j = j + 1;
    }
    false
}

impl MemoryBackend {
    /// A backend that holds nothing.
    pub fn new() -> (r: MemoryBackend)
        ensures
            r@.multisigs.len() == 0,
            r@.transactions.len() == 0,
            r@.proposals.len() == 0,
            wf(r@),
    {
        MemoryBackend { multisigs: Vec::new(), transactions: Vec::new(), proposals: Vec::new() }
    }

    /// The position of the multisig at `addr`, if any.
    fn find_multisig(&self, addr: &[u8; 32]) -> (r: Option<usize>)
        ensures
            r matches Some(i) ==> i < self@.multisigs.len() && self@.multisigs[i as int].address == addr@,
            r is None ==> !has_multisig(self@, addr@),
    {
        let mut i: usize = 0;
        while i < self.multisigs.len()
            invariant
                i <= self.multisigs@.len(),
                forall|q: int| 0 <= q < i ==> #[trigger] self@.multisigs[q].address != addr@,
            decreases self.multisigs@.len() - i,
        {
            if same_key(&self.multisigs[i].address, addr) {
                return Some(i);
            }
            i = i + 1;
        }
        None
    }

    /// The position of the proposal for transaction `k` of `addr`, if any.
    fn find_proposal(&self, addr: &[u8; 32], k: u64) -> (r: Option<usize>)
        ensures
            r matches Some(i) ==> i < self@.proposals.len() && self@.proposals[i as int].multisig == addr@
                && self@.proposals[i as int].index == k,
            r is None ==> !has_proposal(self@, addr@, k),
    {
        let mut i: usize = 0;
        while i < self.proposals.len()
            invariant
                i <= self.proposals@.len(),
                forall|q: int| 0 <= q < i ==> !(#[trigger] self@.proposals[q].multisig == addr@ && self@.proposals[q].index == k),
            decreases self.proposals@.len() - i,
        {
            if self.proposals[i].index == k && same_key(&self.proposals[i].multisig, addr) {
                return Some(i);
            }
            i = i + 1;
        }
        None
    }

    /// Whether the multisig at `addr` has a vault transaction with index `k`.
    fn transaction_exists(&self, addr: &[u8; 32], k: u64) -> (r: bool)
        ensures
            r == has_transaction(self@, addr@, k),
    {
        let mut i: usize = 0;
        while i < self.transactions.len()
            invariant
                i <= self.transactions@.len(),
                forall|q: int| 0 <= q < i ==> !(#[trigger] self@.transactions[q].multisig == addr@ && self@.transactions[q].index == k),
            decreases self.transactions@.len() - i,
        {
            if self.transactions[i].index == k && same_key(&self.transactions[i].multisig, addr) {
                assert(self@.transactions[i as int].multisig == addr@);
                return true;
            }
            i = i + 1;
        }
        false
    }

    /// The transaction index of the multisig at `addr`, if one lives there.
    pub fn transaction_index_of(&self, addr: &[u8; 32]) -> (r: Option<u64>)
        requires
            wf(self@),
        ensures
            r == (if has_multisig(self@, addr@) {
                Some(self@.multisigs[multisig_slot(self@, addr@)].transaction_index)
            } else {
                None::<u64>
            }),
    {
        match self.find_multisig(addr) {
            Some(i) => {
                proof {
                    assert(has_multisig(self@, addr@));
                    let c = multisig_slot(self@, addr@);
                    assert(self@.multisigs[c].address == addr@);
                    assert(c == i);
                }
                Some(self.multisigs[i].transaction_index)
            },
            None => None,
        }
    }

    /// The members that approved the proposal for transaction `k` of the
    /// multisig at `addr`, in the order they voted, if that proposal exists.
    pub fn approvals_of(&self, addr: &[u8; 32], k: u64) -> (r: Option<Vec<[u8; 32]>>)
        requires
            wf(self@),
        ensures
            r is Some <==> has_proposal(self@, addr@, k),
            r matches Some(v) ==> v@.map_values(|a: [u8; 32]| a@)
                == self@.proposals[proposal_slot(self@, addr@, k)].approvals,
    {
        match self.find_proposal(addr, k) {
            Some(p) => {
                proof {
                    assert(has_proposal(self@, addr@, k));
                    let c = proposal_slot(self@, addr@, k);
                    assert(self@.proposals[c].multisig == addr@ && self@.proposals[c].index == k);
                    assert(c == p);
                }
                Some(copy_vec(&self.proposals[p].approvals))
            },
            None => None,
        }
    }

    /// Creates a multisig at `address` from a creation record.
    pub fn multisig_create(&mut self, address: &[u8; 32], args: &MultisigCreateArgsV2) -> (r: Result<(), BackendError>)
        requires
            wf(old(self)@),
        ensures
            wf(final(self)@),
            (final(self)@, r) == create_step(old(self)@, address@, members_model(args.members@), args.threshold),
    {
        if let Some(_) = self.find_multisig(address) {
            return Err(BackendError::AccountInUse);
        }
        if args.members.len() == 0 {
            return Err(BackendError::EmptyMembers);
        }
        if args.threshold == 0 || args.threshold as usize > args.members.len() {
            return Err(BackendError::InvalidThreshold);
        }
        let account = MultisigAccount {
            address: *address,
            members: copy_vec(&args.members),
            threshold: args.threshold,
            transaction_index: 0,
        };
        self.multisigs.push(account);
        proof {
            let s0 = old(self)@;
            assert(self@.multisigs =~= s0.multisigs.push(account@));
            assert(self@.transactions =~= s0.transactions);
            assert(self@.proposals =~= s0.proposals);
            assert forall|i: int| 0 <= i < s0.multisigs.len() implies #[trigger] s0.multisigs[i].address != address@ by {
                if s0.multisigs[i].address == address@ {
                    assert(has_multisig(s0, address@));
                }
            }
        }
        Ok(())
    }

    /// Records a vault transaction for the multisig at `multisig` under the
    /// next transaction index, which it returns.
    pub fn vault_transaction_create(&mut self, multisig: &[u8; 32], creator: &[u8; 32], args: &VaultTransactionCreateArgs)
        -> (r: Result<u64, BackendError>)
        requires
            wf(old(self)@),
        ensures
            wf(final(self)@),
            (final(self)@, r) == vault_step(old(self)@, multisig@, creator@, args.transaction_message@),
    {
        let ghost s0 = self@;
        let i = match self.find_multisig(multisig) {
            Some(i) => i,
            None => return Err(BackendError::MultisigNotFound),
        };
        proof {
            assert(has_multisig(s0, multisig@));
            let c = multisig_slot(s0, multisig@);
            assert(s0.multisigs[c].address == multisig@);
            assert(c == i);
        }
        if !member_may(&self.multisigs[i].members, creator, Permission::Initiate) {
            return Err(BackendError::Unauthorized);
        }
        let current = self.multisigs[i].transaction_index;
        if current == u64::MAX {
            return Err(BackendError::IndexOverflow);
        }
        let n = current + 1;
        self.multisigs[i].transaction_index = n;
        let t = TransactionAccount { multisig: *multisig, index: n, message: copy_vec(&args.transaction_message) };
        self.transactions.push(t);
        proof {
            let m = s0.multisigs[i as int];
            assert(self@.multisigs =~= s0.multisigs.update(i as int, MultisigModel { transaction_index: n, ..m }));
            assert(self@.transactions =~= s0.transactions.push(t@));
            assert(self@.proposals =~= s0.proposals);
            assert forall|a: int, b: int| #![trigger self@.multisigs[a], self@.multisigs[b]]
                0 <= a < self@.multisigs.len() && 0 <= b < self@.multisigs.len() && a != b
                implies self@.multisigs[a].address != self@.multisigs[b].address by {
                assert(s0.multisigs[a].address == self@.multisigs[a].address);
                assert(s0.multisigs[b].address == self@.multisigs[b].address);
            }
        }
        Ok(n)
    }

    /// Opens a proposal for transaction `args.transaction_index` of the
    /// multisig at `multisig`.
    pub fn proposal_create(&mut self, multisig: &[u8; 32], creator: &[u8; 32], args: &ProposalCreateArgs)
        -> (r: Result<(), BackendError>)
        requires
            wf(old(self)@),
        ensures
            wf(final(self)@),
            (final(self)@, r) == proposal_step(old(self)@, multisig@, creator@, args.transaction_index, args.draft),
    {
        let ghost s0 = self@;
        let i = match self.find_multisig(multisig) {
            Some(i) => i,
            None => return Err(BackendError::MultisigNotFound),
        };
        proof {
            assert(has_multisig(s0, multisig@));
            let c = multisig_slot(s0, multisig@);
            assert(s0.multisigs[c].address == multisig@);
            assert(c == i);
        }
        if !member_may(&self.multisigs[i].members, creator, Permission::Initiate)
            && !member_may(&self.multisigs[i].members, creator, Permission::Vote) {
            return Err(BackendError::Unauthorized);
        }
        let k = args.transaction_index;
        if k > self.multisigs[i].transaction_index {
            return Err(BackendError::InvalidTransactionIndex);
        }
        if !self.transaction_exists(multisig, k) {
            return Err(BackendError::TransactionNotFound);
        }
        if let Some(_) = self.find_proposal(multisig, k) {
            return Err(BackendError::ProposalExists);
        }
        let p = ProposalAccount { multisig: *multisig, index: k, approvals: Vec::new(), draft: args.draft };
        self.proposals.push(p);
        proof {
            assert(p@.approvals =~= Seq::<Seq<u8>>::empty());
            assert(self@.multisigs =~= s0.multisigs);
            assert(self@.transactions =~= s0.transactions);
            assert(self@.proposals =~= s0.proposals.push(p@));
            assert forall|q: int| 0 <= q < s0.proposals.len()
                implies !(#[trigger] s0.proposals[q].multisig == multisig@ && s0.proposals[q].index == k) by {
                if s0.proposals[q].multisig == multisig@ && s0.proposals[q].index == k {
                    assert(has_proposal(s0, multisig@, k));
                }
            }
        }
        Ok(())
    }

    /// Records `member`'s approval of the proposal for transaction `k` of
    /// the multisig at `multisig`.
    pub fn proposal_approve(&mut self, multisig: &[u8; 32], k: u64, member: &[u8; 32]) -> (r: Result<(), BackendError>)
        requires
            wf(old(self)@),
        ensures
            wf(final(self)@),
            (final(self)@, r) == approve_step(old(self)@, multisig@, k, member@),
    {
        let ghost s0 = self@;
        let p = match self.find_proposal(multisig, k) {
            Some(p) => p,
            None => return Err(BackendError::ProposalNotFound),
        };
        proof {
            assert(has_proposal(s0, multisig@, k));
            let c = proposal_slot(s0, multisig@, k);
            assert(s0.proposals[c].multisig == multisig@ && s0.proposals[c].index == k);
            assert(c == p);
        }
        let i = match self.find_multisig(multisig) {
            Some(i) => i,
            None => return Err(BackendError::MultisigNotFound),
        };
        proof {
            assert(has_multisig(s0, multisig@));
            let c = multisig_slot(s0, multisig@);
            assert(s0.multisigs[c].address == multisig@);
            assert(c == i);
        }
        if !member_may(&self.multisigs[i].members, member, Permission::Vote) {
            return Err(BackendError::Unauthorized);
        }
        let ghost approvals = s0.proposals[p as int].approvals;
        let mut j: usize = 0;
        while j < self.proposals[p].approvals.len()
            invariant
                self@ == s0,
                s0 == old(self)@,
                wf(s0),
                p == proposal_slot(s0, multisig@, k),
                i == multisig_slot(s0, multisig@),
                has_proposal(s0, multisig@, k),
                has_multisig(s0, multisig@),
                member_grants(s0.multisigs[i as int].members, member@, Permission::Vote),
                p < self.proposals@.len(),
                approvals == self.proposals@[p as int]@.approvals,
                j <= approvals.len(),
                forall|q: int| 0 <= q < j ==> #[trigger] approvals[q] != member@,
            decreases approvals.len() - j,
        {
            if same_key(&self.proposals[p].approvals[j], member) {
                assert(approvals[j as int] == member@);
                return Err(BackendError::AlreadyApproved);
            }
            j = j + 1;
        }
        self.proposals[p].approvals.push(*member);
        proof {
            let old_p = s0.proposals[p as int];
            assert(!approvals.contains(member@));
            assert(self@.proposals[p as int].approvals =~= approvals.push(member@));
            assert(self@.proposals =~= s0.proposals.update(p as int, ProposalModel { approvals: approvals.push(member@), ..old_p }));
            assert(self@.multisigs =~= s0.multisigs);
            assert(self@.transactions =~= s0.transactions);
            assert forall|a: int, b: int| #![trigger self@.proposals[a], self@.proposals[b]]
                0 <= a < self@.proposals.len() && 0 <= b < self@.proposals.len() && a != b
                implies !(self@.proposals[a].multisig == self@.proposals[b].multisig
                    && self@.proposals[a].index == self@.proposals[b].index) by {
                assert(s0.proposals[a].multisig == self@.proposals[a].multisig);
                assert(s0.proposals[b].multisig == self@.proposals[b].multisig);
                assert(s0.proposals[a].index == self@.proposals[a].index);
                assert(s0.proposals[b].index == self@.proposals[b].index);
            }
        }
        Ok(())
    }
}

/// Voting on a proposal that does not exist fails with `ProposalNotFound`
/// and leaves every account as it was.
pub proof fn lemma_vote_on_missing_proposal(s: BackendModel, addr: Seq<u8>, k: u64, member: Seq<u8>)
    requires
        !has_proposal(s, addr, k),
    ensures
        approve_step(s, addr, k, member) == (s, Err::<(), BackendError>(BackendError::ProposalNotFound)),
{
}

/// Founding a multisig at a fresh address with the arguments that
/// `create_multisig` builds for `signer`, then creating a vault transaction,
/// a proposal bound to the transaction index the multisig holds at that
/// moment, and `signer`'s approval, one after another, all succeed; the
/// proposal ends with exactly one approval, from `signer`.
pub proof fn lemma_round_trip(
    s: BackendModel,
    addr: Seq<u8>,
    signer: Seq<u8>,
    create: MultisigCreateArgsV2,
    message: Seq<u8>,
)
    requires
        wf(s),
        !has_multisig(s, addr),
        forall|i: int| 0 <= i < s.proposals.len() ==> #[trigger] s.proposals[i].multisig != addr,
        founding_args(create, signer),
    ensures
        ({
            let (s1, r1) = create_step(s, addr, members_model(create.members@), create.threshold);
            let (s2, r2) = vault_step(s1, addr, signer, message);
            let k = s2.multisigs[multisig_slot(s2, addr)].transaction_index;
            let (s3, r3) = proposal_step(s2, addr, signer, k, false);
            let (s4, r4) = approve_step(s3, addr, k, signer);
            &&& r1 is Ok
            &&& r2 == Ok::<u64, BackendError>(1)
            &&& k == 1
            &&& r3 is Ok
            &&& r4 is Ok
            &&& has_proposal(s4, addr, 1)
            &&& s4.proposals[proposal_slot(s4, addr, 1)].approvals == seq![signer]
        }),
{
    let members = members_model(create.members@);
    assert(members[0] == (signer, 7u8));
    let (s1, r1) = create_step(s, addr, members, create.threshold);
    let last = s.multisigs.len() as int;
    assert(s1.multisigs[last].address == addr);
    assert(has_multisig(s1, addr));
    assert forall|i: int| 0 <= i < s1.multisigs.len() && #[trigger] s1.multisigs[i].address == addr implies i == last by {
        if i < last {
            assert(s.multisigs[i].address == addr);
        }
    }
    assert(multisig_slot(s1, addr) == last);
    assert(member_grants(s1.multisigs[last].members, signer, Permission::Initiate)) by {
        assert(s1.multisigs[last].members[0].0 == signer);
    }
    let (s2, r2) = vault_step(s1, addr, signer, message);
    assert(s2.multisigs[last].address == addr);
    assert forall|i: int| 0 <= i < s2.multisigs.len() && #[trigger] s2.multisigs[i].address == addr implies i == last by {
        assert(s1.multisigs[i].address == addr);
    }
    assert(multisig_slot(s2, addr) == last);
    let k = s2.multisigs[last].transaction_index;
    assert(k == 1);
    let tl = s1.transactions.len() as int;
    assert(s2.transactions[tl].multisig == addr && s2.transactions[tl].index == 1);
    assert(has_transaction(s2, addr, 1));
    assert(!has_proposal(s2, addr, 1));
    assert(member_grants(s2.multisigs[last].members, signer, Permission::Initiate)) by {
        assert(s2.multisigs[last].members[0].0 == signer);
    }
    assert(member_grants(s2.multisigs[last].members, signer, Permission::Vote)) by {
        assert(s2.multisigs[last].members[0].0 == signer);
    }
    let (s3, r3) = proposal_step(s2, addr, signer, k, false);
    let pl = s2.proposals.len() as int;
    assert(s3.proposals[pl].multisig == addr && s3.proposals[pl].index == 1);
    assert(has_proposal(s3, addr, 1));
    assert forall|i: int| 0 <= i < s3.proposals.len() && #[trigger] s3.proposals[i].multisig == addr
        && s3.proposals[i].index == 1 implies i == pl by {
        if i < pl {
            assert(s.proposals[i].multisig == addr);
        }
    }
    assert(proposal_slot(s3, addr, 1) == pl);
    assert(s3.multisigs == s2.multisigs);
    assert(multisig_slot(s3, addr) == last);
    assert(!s3.proposals[pl].approvals.contains(signer));
    let (s4, r4) = approve_step(s3, addr, k, signer);
    assert(s4.proposals[pl].multisig == addr && s4.proposals[pl].index == 1);
    assert(has_proposal(s4, addr, 1));
    assert forall|i: int| 0 <= i < s4.proposals.len() && #[trigger] s4.proposals[i].multisig == addr
        && s4.proposals[i].index == 1 implies i == pl by {
        if i != pl {
            assert(s3.proposals[i].multisig == addr);
        }
    }
    assert(proposal_slot(s4, addr, 1) == pl);
    assert(s4.proposals[pl].approvals =~= seq![signer]);
}

/// Once a proposal for transaction `k` of the multisig at `addr` exists, a
/// second proposal for the same index is rejected, whether it comes right
/// after the first or after another vault transaction: two create-transaction
/// and create-proposal pairs that observe the same index cannot both succeed.
pub proof fn lemma_no_index_collision(
    s: BackendModel,
    addr: Seq<u8>,
    k: u64,
    first: Seq<u8>,
    second: Seq<u8>,
    first_draft: bool,
    second_draft: bool,
    between: Seq<u8>,
    message: Seq<u8>,
)
    ensures
        ({
            let (s1, r1) = proposal_step(s, addr, first, k, first_draft);
            let r2 = proposal_step(s1, addr, second, k, second_draft).1;
            !(r1 is Ok && r2 is Ok)
        }),
        ({
            let (s1, r1) = proposal_step(s, addr, first, k, first_draft);
            let s2 = vault_step(s1, addr, between, message).0;
            let r2 = proposal_step(s2, addr, second, k, second_draft).1;
            !(r1 is Ok && r2 is Ok)
        }),
{
    let (s1, r1) = proposal_step(s, addr, first, k, first_draft);
    if r1 is Ok {
        let pl = s.proposals.len() as int;
        assert(s1.proposals[pl].multisig == addr && s1.proposals[pl].index == k);
        assert(has_proposal(s1, addr, k));
        let s2 = vault_step(s1, addr, between, message).0;
        assert(s2.proposals == s1.proposals);
        assert(s2.proposals[pl].multisig == addr && s2.proposals[pl].index == k);
        assert(has_proposal(s2, addr, k));
    }
}

} // verus!
