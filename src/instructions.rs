//! The four governance operations: each checks the roles of the accounts it
//! was handed and builds the argument record for one entry point of the
//! external multisig program.
use crate::accounts::{
    check_multisig_program, check_role, check_system_program, first_failure, program_failure,
    role_failure, AccountRef, GovernanceError,
};
use crate::message::{system_program_key, transfer_message, transfer_message_bytes};
use crate::permissions::{grants, Permission, Permissions};
use vstd::prelude::*;
use vstd::string::StringExecFns;

verus! {

/// Approval threshold of a newly created multisig.
pub const THRESHOLD: u16 = 1;

/// Seconds between approval and execution for a newly created multisig.
pub const TIME_LOCK: u32 = 0;

/// Base units in one whole unit of the native currency.
pub const LAMPORTS_PER_UNIT: u64 = 1_000_000_000;

/// Amount moved by the vault transfer, in base units.
pub const TRANSFER_LAMPORTS: u64 = 1 * LAMPORTS_PER_UNIT;

/// Vault that a vault transaction draws on.
pub const VAULT_INDEX: u8 = 0;

/// Extra signers a vault transaction asks the program to derive.
pub const EPHEMERAL_SIGNERS: u8 = 0;

/// Memo attached to a new multisig.
pub open spec fn multisig_memo() -> Seq<char> {
    "Json serialized metadata can be used here."@
}

/// Memo attached to the vault transaction.
pub open spec fn transaction_memo() -> Seq<char> {
    "send 1 SOL"@
}

/// Memo attached to an approval vote.
pub open spec fn vote_memo() -> Seq<char> {
    "approving proposal"@
}

/// Whether an optional memo holds exactly `text`.
pub open spec fn memo_is(m: Option<String>, text: Seq<char>) -> bool {
    m matches Some(s) && s@ == text
}

/// A member of a multisig: an address and the permissions it holds.
#[derive(Clone, Copy, Debug)]
pub struct Member {
    pub key: [u8; 32],
    pub permissions: Permissions,
}

/// Arguments of the program's multisig creation.
#[derive(Clone, Debug)]
pub struct MultisigCreateArgsV2 {
    pub config_authority: Option<[u8; 32]>,
    pub threshold: u16,
    pub members: Vec<Member>,
    pub time_lock: u32,
    pub rent_collector: Option<[u8; 32]>,
    pub memo: Option<String>,
}

/// Arguments of the program's vault-transaction creation.
#[derive(Clone, Debug)]
pub struct VaultTransactionCreateArgs {
    pub vault_index: u8,
    pub ephemeral_signers: u8,
    pub transaction_message: Vec<u8>,
    pub memo: Option<String>,
}

/// Arguments of the program's proposal creation.
#[derive(Clone, Copy, Debug)]
pub struct ProposalCreateArgs {
    pub transaction_index: u64,
    pub draft: bool,
}

/// Arguments of the program's proposal vote.
#[derive(Clone, Debug)]
pub struct ProposalVoteArgs {
    pub memo: Option<String>,
}

/// Accounts for creating a multisig.
#[derive(Clone, Copy, Debug)]
pub struct CreateMultisig {
    /// Pays for the new account and becomes its sole member; signs, writable.
    pub signer: AccountRef,
    /// The multisig account to create; writable.
    pub multisig: AccountRef,
    /// Key that seeds the multisig address; signs.
    pub create_key: AccountRef,
    /// The system program.
    pub system_program: AccountRef,
    /// The external program's configuration.
    pub program_config: AccountRef,
    /// The external program's fee treasury; writable.
    pub sqauds_program_treasury: AccountRef,
    /// The external multisig program.
    pub squads_multisig_program: AccountRef,
}

/// Accounts for creating a vault transaction.
#[derive(Clone, Copy, Debug)]
pub struct CreateVaultTransaction {
    /// Creator and rent payer, and the receiver of the transfer; signs, writable.
    pub signer: AccountRef,
    /// The transaction account to create; writable.
    pub vault_transaction: AccountRef,
    /// Signs.
    pub create_key: AccountRef,
    /// The system program.
    pub system_program: AccountRef,
    /// The multisig; writable.
    pub multisig: AccountRef,
    /// The multisig's vault, source of the transfer; writable.
    pub multisig_vault: AccountRef,
    /// The external multisig program.
    pub sqauds_multisig_program: AccountRef,
}

/// Accounts for creating a proposal, with the transaction index that the
/// multisig account holds at call time.
#[derive(Clone, Copy, Debug)]
pub struct CreateProposal {
    /// Creator and rent payer; signs, writable.
    pub signer: AccountRef,
    /// The proposal account to create; writable.
    pub proposal: AccountRef,
    /// The system program.
    pub system_program: AccountRef,
    /// The multisig; writable.
    pub multisig: AccountRef,
    /// The `transaction_index` field read from the multisig account.
    pub multisig_transaction_index: u64,
    /// The multisig's vault; writable.
    pub multisig_vault: AccountRef,
    /// The external multisig program.
    pub sqauds_multisig_program: AccountRef,
}

/// Accounts for approving a proposal.
#[derive(Clone, Copy, Debug)]
pub struct ApproveProposal {
    /// The voting member; signs, writable.
    pub signer: AccountRef,
    /// The proposal voted on; writable.
    pub proposal: AccountRef,
    /// The system program.
    pub system_program: AccountRef,
    /// The multisig; writable.
    pub multisig: AccountRef,
    /// The multisig's vault; writable.
    pub multisig_vault: AccountRef,
    /// The external multisig program.
    pub sqauds_multisig_program: AccountRef,
}

/// The first role that the accounts for multisig creation fail, if any.
pub open spec fn create_multisig_failure(ctx: CreateMultisig, program_id: Seq<u8>) -> Option<GovernanceError> {
    first_failure(role_failure(ctx.signer, true, true),
    first_failure(role_failure(ctx.multisig, false, true),
    first_failure(role_failure(ctx.create_key, true, false),
    first_failure(program_failure(ctx.system_program, system_program_key(), GovernanceError::WrongSystemProgram),
    first_failure(role_failure(ctx.sqauds_program_treasury, false, true),
    program_failure(ctx.squads_multisig_program, program_id, GovernanceError::WrongMultisigProgram))))))
}

/// The first role that the accounts for vault-transaction creation fail, if any.
pub open spec fn create_vault_transaction_failure(ctx: CreateVaultTransaction, program_id: Seq<u8>) -> Option<GovernanceError> {
    first_failure(role_failure(ctx.signer, true, true),
    first_failure(role_failure(ctx.vault_transaction, false, true),
    first_failure(role_failure(ctx.create_key, true, false),
    first_failure(program_failure(ctx.system_program, system_program_key(), GovernanceError::WrongSystemProgram),
    first_failure(role_failure(ctx.multisig, false, true),
    first_failure(role_failure(ctx.multisig_vault, false, true),
    program_failure(ctx.sqauds_multisig_program, program_id, GovernanceError::WrongMultisigProgram)))))))
}

/// The first role that the accounts for proposal creation fail, if any.
pub open spec fn create_proposal_failure(ctx: CreateProposal, program_id: Seq<u8>) -> Option<GovernanceError> {
    first_failure(role_failure(ctx.signer, true, true),
    first_failure(role_failure(ctx.proposal, false, true),
    first_failure(program_failure(ctx.system_program, system_program_key(), GovernanceError::WrongSystemProgram),
    first_failure(role_failure(ctx.multisig, false, true),
    first_failure(role_failure(ctx.multisig_vault, false, true),
    program_failure(ctx.sqauds_multisig_program, program_id, GovernanceError::WrongMultisigProgram))))))
}

/// The first role that the accounts for a vote fail, if any.
pub open spec fn approve_proposal_failure(ctx: ApproveProposal, program_id: Seq<u8>) -> Option<GovernanceError> {
    first_failure(role_failure(ctx.signer, true, true),
    first_failure(role_failure(ctx.proposal, false, true),
    first_failure(program_failure(ctx.system_program, system_program_key(), GovernanceError::WrongSystemProgram),
    first_failure(role_failure(ctx.multisig, false, true),
    first_failure(role_failure(ctx.multisig_vault, false, true),
    program_failure(ctx.sqauds_multisig_program, program_id, GovernanceError::WrongMultisigProgram))))))
}

/// The arguments that found a multisig owned by `creator` alone: no config
/// authority, `creator` as its one member with every permission, threshold
/// one, no time lock, and `creator` collecting rent.
pub open spec fn founding_args(args: MultisigCreateArgsV2, creator: Seq<u8>) -> bool {
    &&& args.config_authority is None
    &&& args.members@.len() == 1
    &&& args.members@[0].key@ == creator
    &&& args.members@[0].permissions.mask == 7
    &&& grants(args.members@[0].permissions.mask, Permission::Initiate)
    &&& grants(args.members@[0].permissions.mask, Permission::Vote)
    &&& grants(args.members@[0].permissions.mask, Permission::Execute)
    &&& args.threshold == 1
    &&& args.time_lock == 0
    &&& args.rent_collector matches Some(k) && k@ == creator
    &&& memo_is(args.memo, multisig_memo())
}

/// The arguments of a vault transaction that moves one whole unit from
/// `vault` to `receiver`, paid for by `vault`, from vault zero with no
/// ephemeral signers.
pub open spec fn transfer_args(args: VaultTransactionCreateArgs, vault: Seq<u8>, receiver: Seq<u8>) -> bool {
    &&& args.vault_index == 0
    &&& args.ephemeral_signers == 0
    &&& args.transaction_message@ == transfer_message(vault, receiver, 1_000_000_000)
    &&& memo_is(args.memo, transaction_memo())
}

/// Checks the accounts for creating a multisig and builds its arguments.
pub fn create_multisig(ctx: &CreateMultisig, program_id: &[u8; 32]) -> (r: Result<MultisigCreateArgsV2, GovernanceError>)
    ensures
        create_multisig_failure(*ctx, program_id@) matches Some(e) ==> r == Err::<MultisigCreateArgsV2, GovernanceError>(e),
        create_multisig_failure(*ctx, program_id@) is None ==> (r matches Ok(args) && founding_args(args, ctx.signer.key@)),
{
    if let Err(e) = check_role(&ctx.signer, true, true) {
        return Err(e);
    }
    if let Err(e) = check_role(&ctx.multisig, false, true) {
        return Err(e);
    }
    if let Err(e) = check_role(&ctx.create_key, true, false) {
        return Err(e);
    }
    if let Err(e) = check_system_program(&ctx.system_program) {
        return Err(e);
    }
    if let Err(e) = check_role(&ctx.sqauds_program_treasury, false, true) {
        return Err(e);
    }
    if let Err(e) = check_multisig_program(&ctx.squads_multisig_program, program_id) {
        return Err(e);
    }
    let flags: [Permission; 3] = [Permission::Initiate, Permission::Vote, Permission::Execute];
    let permissions = Permissions::from_vec(&flags);
    proof {
        crate::permissions::lemma_all_flags_mask();
        assert(flags@ =~= seq![Permission::Initiate, Permission::Vote, Permission::Execute]);
    }
    let mut members: Vec<Member> = Vec::new();
    members.push(Member { key: ctx.signer.key, permissions });
    Ok(MultisigCreateArgsV2 {
        config_authority: None,
        threshold: THRESHOLD,
        members,
        time_lock: TIME_LOCK,
        rent_collector: Some(ctx.signer.key),
        memo: Some(String::from_str("Json serialized metadata can be used here.")),
    })
}

/// Checks the accounts for creating a vault transaction and builds its
/// arguments: a serialized transfer of one whole unit from the vault to the
/// signer.
pub fn create_vault_transaction(ctx: &CreateVaultTransaction, program_id: &[u8; 32]) -> (r: Result<VaultTransactionCreateArgs, GovernanceError>)
    ensures
        create_vault_transaction_failure(*ctx, program_id@) matches Some(e) ==> r == Err::<VaultTransactionCreateArgs, GovernanceError>(e),
        create_vault_transaction_failure(*ctx, program_id@) is None ==> (r matches Ok(args) && transfer_args(args, ctx.multisig_vault.key@, ctx.signer.key@)),
{
    if let Err(e) = check_role(&ctx.signer, true, true) {
        return Err(e);
    }
    if let Err(e) = check_role(&ctx.vault_transaction, false, true) {
        return Err(e);
    }
    if let Err(e) = check_role(&ctx.create_key, true, false) {
        return Err(e);
    }
    if let Err(e) = check_system_program(&ctx.system_program) {
        return Err(e);
    }
    if let Err(e) = check_role(&ctx.multisig, false, true) {
        return Err(e);
    }
    if let Err(e) = check_role(&ctx.multisig_vault, false, true) {
        return Err(e);
    }
    if let Err(e) = check_multisig_program(&ctx.sqauds_multisig_program, program_id) {
        return Err(e);
    }
    let message = transfer_message_bytes(&ctx.multisig_vault.key, &ctx.signer.key, TRANSFER_LAMPORTS);
    Ok(VaultTransactionCreateArgs {
        vault_index: VAULT_INDEX,
        ephemeral_signers: EPHEMERAL_SIGNERS,
        transaction_message: message,
        memo: Some(String::from_str("send 1 SOL")),
    })
}

/// Checks the accounts for creating a proposal and builds its arguments: the
/// proposal is bound to the multisig's current transaction index and is
/// ready for voting.
pub fn create_proposal(ctx: &CreateProposal, program_id: &[u8; 32]) -> (r: Result<ProposalCreateArgs, GovernanceError>)
    ensures
        create_proposal_failure(*ctx, program_id@) matches Some(e) ==> r == Err::<ProposalCreateArgs, GovernanceError>(e),
        create_proposal_failure(*ctx, program_id@) is None ==> r == Ok::<ProposalCreateArgs, GovernanceError>(
            ProposalCreateArgs { transaction_index: ctx.multisig_transaction_index, draft: false }),
{
    if let Err(e) = check_role(&ctx.signer, true, true) {
        return Err(e);
    }
    if let Err(e) = check_role(&ctx.proposal, false, true) {
        return Err(e);
    }
    if let Err(e) = check_system_program(&ctx.system_program) {
        return Err(e);
    }
    if let Err(e) = check_role(&ctx.multisig, false, true) {
        return Err(e);
    }
    if let Err(e) = check_role(&ctx.multisig_vault, false, true) {
        return Err(e);
    }
    if let Err(e) = check_multisig_program(&ctx.sqauds_multisig_program, program_id) {
        return Err(e);
    }
    Ok(ProposalCreateArgs { transaction_index: ctx.multisig_transaction_index, draft: false })
}

/// Checks the accounts for approving a proposal and builds the vote's
/// arguments.
pub fn approve_proposal(ctx: &ApproveProposal, program_id: &[u8; 32]) -> (r: Result<ProposalVoteArgs, GovernanceError>)
    ensures
        approve_proposal_failure(*ctx, program_id@) matches Some(e) ==> r == Err::<ProposalVoteArgs, GovernanceError>(e),
        approve_proposal_failure(*ctx, program_id@) is None ==> (r matches Ok(args) && memo_is(args.memo, vote_memo())),
{
    if let Err(e) = check_role(&ctx.signer, true, true) {
        return Err(e);
    }
    if let Err(e) = check_role(&ctx.proposal, false, true) {
        return Err(e);
    }
    if let Err(e) = check_system_program(&ctx.system_program) {
        return Err(e);
    }
    if let Err(e) = check_role(&ctx.multisig, false, true) {
        return Err(e);
    }
    if let Err(e) = check_role(&ctx.multisig_vault, false, true) {
        return Err(e);
    }
    if let Err(e) = check_multisig_program(&ctx.sqauds_multisig_program, program_id) {
        return Err(e);
    }
    Ok(ProposalVoteArgs { memo: Some(String::from_str("approving proposal")) })
}

} // verus!
