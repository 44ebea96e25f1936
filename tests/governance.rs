use rust_anchor_cpi::accounts::{AccountRef, GovernanceError};
use rust_anchor_cpi::instructions::{
    approve_proposal, create_multisig, create_proposal, create_vault_transaction, ApproveProposal,
    CreateMultisig, CreateProposal, CreateVaultTransaction, TRANSFER_LAMPORTS,
};
use rust_anchor_cpi::message::transfer_message_bytes;
use rust_anchor_cpi::permissions::{Permission, Permissions};

const PROGRAM: [u8; 32] = [7u8; 32];

fn signer(b: u8) -> AccountRef {
    AccountRef { key: [b; 32], is_signer: true, is_writable: true }
}

fn writable(b: u8) -> AccountRef {
    AccountRef { key: [b; 32], is_signer: false, is_writable: true }
}

fn readonly(b: u8) -> AccountRef {
    AccountRef { key: [b; 32], is_signer: false, is_writable: false }
}

fn system() -> AccountRef {
    readonly(0)
}

fn program() -> AccountRef {
    readonly(7)
}

fn multisig_ctx() -> CreateMultisig {
    CreateMultisig {
        signer: signer(1),
        multisig: writable(2),
        create_key: AccountRef { key: [3; 32], is_signer: true, is_writable: false },
        system_program: system(),
        program_config: readonly(4),
        sqauds_program_treasury: writable(5),
        squads_multisig_program: program(),
    }
}

fn vault_ctx() -> CreateVaultTransaction {
    CreateVaultTransaction {
        signer: signer(1),
        vault_transaction: writable(8),
        create_key: AccountRef { key: [3; 32], is_signer: true, is_writable: false },
        system_program: system(),
        multisig: writable(2),
        multisig_vault: writable(9),
        sqauds_multisig_program: program(),
    }
}

fn proposal_ctx(index: u64) -> CreateProposal {
    CreateProposal {
        signer: signer(1),
        proposal: writable(10),
        system_program: system(),
        multisig: writable(2),
        multisig_transaction_index: index,
        multisig_vault: writable(9),
        sqauds_multisig_program: program(),
    }
}

fn approve_ctx() -> ApproveProposal {
    ApproveProposal {
        signer: signer(1),
        proposal: writable(10),
        system_program: system(),
        multisig: writable(2),
        multisig_vault: writable(9),
        sqauds_multisig_program: program(),
    }
}

#[test]
fn permissions_mask_of_all_flags() {
    let p = Permissions::from_vec(&[Permission::Initiate, Permission::Vote, Permission::Execute]);
    assert_eq!(p.mask, 7);
    assert!(p.has(Permission::Initiate) && p.has(Permission::Vote) && p.has(Permission::Execute));
}

#[test]
fn permissions_mask_of_some_flags() {
    assert_eq!(Permissions::from_vec(&[]).mask, 0);
    let p = Permissions::from_vec(&[Permission::Vote]);
    assert_eq!(p.mask, 2);
    assert!(p.has(Permission::Vote));
    assert!(!p.has(Permission::Initiate));
    assert!(!p.has(Permission::Execute));
    assert_eq!(Permissions::from_vec(&[Permission::Execute, Permission::Initiate, Permission::Execute]).mask, 5);
}

#[test]
fn multisig_has_one_member_with_all_permissions() {
    let args = create_multisig(&multisig_ctx(), &PROGRAM).unwrap();
    assert_eq!(args.members.len(), 1);
    assert_eq!(args.members[0].key, [1u8; 32]);
    assert_eq!(args.members[0].permissions.mask, 7);
    assert_eq!(args.threshold, 1);
    assert_eq!(args.time_lock, 0);
    assert!(args.config_authority.is_none());
    assert_eq!(args.rent_collector, Some([1u8; 32]));
    assert_eq!(args.memo.as_deref(), Some("Json serialized metadata can be used here."));
}

#[test]
fn multisig_rejects_unsigned_creator() {
    let mut ctx = multisig_ctx();
    ctx.signer.is_signer = false;
    assert_eq!(create_multisig(&ctx, &PROGRAM).unwrap_err(), GovernanceError::MissingSignature);
}

#[test]
fn multisig_rejects_readonly_treasury() {
    let mut ctx = multisig_ctx();
    ctx.sqauds_program_treasury.is_writable = false;
    assert_eq!(create_multisig(&ctx, &PROGRAM).unwrap_err(), GovernanceError::NotWritable);
}

#[test]
fn multisig_rejects_wrong_system_program() {
    let mut ctx = multisig_ctx();
    ctx.system_program.key[31] = 1;
    assert_eq!(create_multisig(&ctx, &PROGRAM).unwrap_err(), GovernanceError::WrongSystemProgram);
}

#[test]
fn multisig_rejects_wrong_program() {
    let mut ctx = multisig_ctx();
    ctx.squads_multisig_program.key = [6; 32];
    assert_eq!(create_multisig(&ctx, &PROGRAM).unwrap_err(), GovernanceError::WrongMultisigProgram);
}

#[test]
fn first_failing_role_is_reported() {
    let mut ctx = multisig_ctx();
    ctx.squads_multisig_program.key = [6; 32];
    ctx.create_key.is_signer = false;
    assert_eq!(create_multisig(&ctx, &PROGRAM).unwrap_err(), GovernanceError::MissingSignature);
}

fn expected_transfer_message(vault: [u8; 32], receiver: [u8; 32]) -> Vec<u8> {
    let mut m = vec![1u8, 0, 1, 3];
    m.extend_from_slice(&vault);
    m.extend_from_slice(&receiver);
    m.extend_from_slice(&[0u8; 32]);
    m.extend_from_slice(&[0u8; 32]);
    m.extend_from_slice(&[1, 2, 2, 0, 1, 12, 2, 0, 0, 0, 0x00, 0xca, 0x9a, 0x3b, 0, 0, 0, 0]);
    m
}

#[test]
fn transfer_message_has_exact_bytes() {
    let bytes = transfer_message_bytes(&[9; 32], &[1; 32], 1_000_000_000);
    assert_eq!(bytes.len(), 150);
    assert_eq!(bytes, expected_transfer_message([9; 32], [1; 32]));
}

#[test]
fn vault_transaction_moves_one_unit_from_vault_to_signer() {
    let args = create_vault_transaction(&vault_ctx(), &PROGRAM).unwrap();
    assert_eq!(TRANSFER_LAMPORTS, 1_000_000_000);
    assert_eq!(args.vault_index, 0);
    assert_eq!(args.ephemeral_signers, 0);
    assert_eq!(args.transaction_message, expected_transfer_message([9; 32], [1; 32]));
    assert_eq!(args.memo.as_deref(), Some("send 1 SOL"));
}

#[test]
fn vault_transaction_rejects_readonly_vault() {
    let mut ctx = vault_ctx();
    ctx.multisig_vault.is_writable = false;
    assert_eq!(create_vault_transaction(&ctx, &PROGRAM).unwrap_err(), GovernanceError::NotWritable);
}

#[test]
fn proposal_binds_current_transaction_index() {
    for index in [0u64, 1, 41, u64::MAX] {
        let args = create_proposal(&proposal_ctx(index), &PROGRAM).unwrap();
        assert_eq!(args.transaction_index, index);
        assert!(!args.draft);
    }
}

#[test]
fn proposal_rejects_wrong_program() {
    assert_eq!(create_proposal(&proposal_ctx(3), &[8; 32]).unwrap_err(), GovernanceError::WrongMultisigProgram);
}

#[test]
fn approval_carries_fixed_memo() {
    let args = approve_proposal(&approve_ctx(), &PROGRAM).unwrap();
    assert_eq!(args.memo.as_deref(), Some("approving proposal"));
}

#[test]
fn approval_rejects_unsigned_voter() {
    let mut ctx = approve_ctx();
    ctx.signer.is_signer = false;
    assert_eq!(approve_proposal(&ctx, &PROGRAM).unwrap_err(), GovernanceError::MissingSignature);
}

