use rust_anchor_cpi::accounts::AccountRef;
use rust_anchor_cpi::backend::{BackendError, MemoryBackend};
use rust_anchor_cpi::instructions::{
    approve_proposal, create_multisig, create_proposal, create_vault_transaction, ApproveProposal,
    CreateMultisig, CreateProposal, CreateVaultTransaction, Member, MultisigCreateArgsV2,
    ProposalCreateArgs, VaultTransactionCreateArgs,
};
use rust_anchor_cpi::permissions::{Permission, Permissions};

const PROGRAM: [u8; 32] = [7u8; 32];
const MULTISIG: [u8; 32] = [2u8; 32];
const SIGNER: [u8; 32] = [1u8; 32];

fn acct(key: [u8; 32], is_signer: bool, is_writable: bool) -> AccountRef {
    AccountRef { key, is_signer, is_writable }
}

fn founded() -> MemoryBackend {
    let ctx = CreateMultisig {
        signer: acct(SIGNER, true, true),
        multisig: acct(MULTISIG, false, true),
        create_key: acct([3; 32], true, false),
        system_program: acct([0; 32], false, false),
        program_config: acct([4; 32], false, false),
        sqauds_program_treasury: acct([5; 32], false, true),
        squads_multisig_program: acct(PROGRAM, false, false),
    };
    let mut b = MemoryBackend::new();
    let args = create_multisig(&ctx, &PROGRAM).unwrap();
    b.multisig_create(&MULTISIG, &args).unwrap();
    b
}

fn add_transaction(b: &mut MemoryBackend, creator: [u8; 32]) -> Result<u64, BackendError> {
    let ctx = CreateVaultTransaction {
        signer: acct(creator, true, true),
        vault_transaction: acct([8; 32], false, true),
        create_key: acct([3; 32], true, false),
        system_program: acct([0; 32], false, false),
        multisig: acct(MULTISIG, false, true),
        multisig_vault: acct([9; 32], false, true),
        sqauds_multisig_program: acct(PROGRAM, false, false),
    };
    let args = create_vault_transaction(&ctx, &PROGRAM).unwrap();
    b.vault_transaction_create(&MULTISIG, &creator, &args)
}

fn proposal_args(b: &MemoryBackend) -> ProposalCreateArgs {
    let ctx = CreateProposal {
        signer: acct(SIGNER, true, true),
        proposal: acct([10; 32], false, true),
        system_program: acct([0; 32], false, false),
        multisig: acct(MULTISIG, false, true),
        multisig_transaction_index: b.transaction_index_of(&MULTISIG).unwrap(),
        multisig_vault: acct([9; 32], false, true),
        sqauds_multisig_program: acct(PROGRAM, false, false),
    };
    create_proposal(&ctx, &PROGRAM).unwrap()
}

#[test]
fn round_trip_records_one_approval() {
    let mut b = founded();
    assert_eq!(b.transaction_index_of(&MULTISIG), Some(0));
    assert_eq!(add_transaction(&mut b, SIGNER), Ok(1));
    let pargs = proposal_args(&b);
    assert_eq!(pargs.transaction_index, 1);
    b.proposal_create(&MULTISIG, &SIGNER, &pargs).unwrap();
    let ctx = ApproveProposal {
        signer: acct(SIGNER, true, true),
        proposal: acct([10; 32], false, true),
        system_program: acct([0; 32], false, false),
        multisig: acct(MULTISIG, false, true),
        multisig_vault: acct([9; 32], false, true),
        sqauds_multisig_program: acct(PROGRAM, false, false),
    };
    approve_proposal(&ctx, &PROGRAM).unwrap();
    b.proposal_approve(&MULTISIG, 1, &SIGNER).unwrap();
    assert_eq!(b.approvals_of(&MULTISIG, 1), Some(vec![SIGNER]));
}

#[test]
fn vote_on_missing_proposal_changes_nothing() {
    let mut b = founded();
    add_transaction(&mut b, SIGNER).unwrap();
    assert_eq!(b.proposal_approve(&MULTISIG, 1, &SIGNER), Err(BackendError::ProposalNotFound));
    assert_eq!(b.approvals_of(&MULTISIG, 1), None);
    assert_eq!(b.transaction_index_of(&MULTISIG), Some(1));
}

#[test]
fn concurrent_pairs_observing_one_index_collide() {
    let mut b = founded();
    add_transaction(&mut b, SIGNER).unwrap();
    add_transaction(&mut b, SIGNER).unwrap();
    let first = proposal_args(&b);
    let second = proposal_args(&b);
    assert_eq!(first.transaction_index, 2);
    assert_eq!(b.proposal_create(&MULTISIG, &SIGNER, &first), Ok(()));
    assert_eq!(b.proposal_create(&MULTISIG, &SIGNER, &second), Err(BackendError::ProposalExists));
}

#[test]
fn sequential_pairs_get_distinct_indices() {
    let mut b = founded();
    add_transaction(&mut b, SIGNER).unwrap();
    let first = proposal_args(&b);
    b.proposal_create(&MULTISIG, &SIGNER, &first).unwrap();
    add_transaction(&mut b, SIGNER).unwrap();
    let second = proposal_args(&b);
    assert_eq!(second.transaction_index, 2);
    assert_eq!(b.proposal_create(&MULTISIG, &SIGNER, &second), Ok(()));
}

#[test]
fn backend_rejections() {
    let mut b = founded();
    let again = MultisigCreateArgsV2 {
        config_authority: None,
        threshold: 1,
        members: vec![],
        time_lock: 0,
        rent_collector: None,
        memo: None,
    };
    assert_eq!(b.multisig_create(&MULTISIG, &again), Err(BackendError::AccountInUse));
    assert_eq!(b.multisig_create(&[20; 32], &again), Err(BackendError::EmptyMembers));
    let voter = Member { key: [21; 32], permissions: Permissions::from_vec(&[Permission::Vote]) };
    let too_high = MultisigCreateArgsV2 { threshold: 2, members: vec![voter], ..again.clone() };
    assert_eq!(b.multisig_create(&[20; 32], &too_high), Err(BackendError::InvalidThreshold));
    let vargs = VaultTransactionCreateArgs { vault_index: 0, ephemeral_signers: 0, transaction_message: vec![1, 2], memo: None };
    assert_eq!(b.vault_transaction_create(&[20; 32], &SIGNER, &vargs), Err(BackendError::MultisigNotFound));
    assert_eq!(b.vault_transaction_create(&MULTISIG, &[21; 32], &vargs), Err(BackendError::Unauthorized));
    let pargs = ProposalCreateArgs { transaction_index: 1, draft: false };
    assert_eq!(b.proposal_create(&MULTISIG, &SIGNER, &pargs), Err(BackendError::InvalidTransactionIndex));
    let zero = ProposalCreateArgs { transaction_index: 0, draft: false };
    assert_eq!(b.proposal_create(&MULTISIG, &SIGNER, &zero), Err(BackendError::TransactionNotFound));
    add_transaction(&mut b, SIGNER).unwrap();
    b.proposal_create(&MULTISIG, &SIGNER, &pargs).unwrap();
    assert_eq!(b.proposal_approve(&MULTISIG, 1, &[21; 32]), Err(BackendError::Unauthorized));
    b.proposal_approve(&MULTISIG, 1, &SIGNER).unwrap();
    assert_eq!(b.proposal_approve(&MULTISIG, 1, &SIGNER), Err(BackendError::AlreadyApproved));
    assert_eq!(b.approvals_of(&MULTISIG, 1), Some(vec![SIGNER]));
}
