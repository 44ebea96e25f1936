//! Native instructions and the serialized message that carries them as an
//! opaque vault-transaction payload.
use anchor_lang::solana_program::{instruction, message::Message, pubkey::Pubkey};
use vstd::arithmetic::power2::pow2;
use vstd::prelude::*;

verus! {

/// An account reference of an instruction, with the role it plays there.
#[derive(Clone, Copy, Debug)]
pub struct AccountMeta {
    pub pubkey: [u8; 32],
    pub is_signer: bool,
    pub is_writable: bool,
}

/// The mathematical value of an `AccountMeta`.
pub struct AccountMetaModel {
    pub pubkey: Seq<u8>,
    pub is_signer: bool,
    pub is_writable: bool,
}

impl View for AccountMeta {
    type V = AccountMetaModel;

    open spec fn view(&self) -> AccountMetaModel {
        AccountMetaModel { pubkey: self.pubkey@, is_signer: self.is_signer, is_writable: self.is_writable }
    }
}

/// One instruction for an on-chain program: the program, its accounts and
/// its opaque argument bytes.
#[derive(Clone, Debug)]
pub struct Instruction {
    pub program_id: [u8; 32],
    pub accounts: Vec<AccountMeta>,
    pub data: Vec<u8>,
}

/// The mathematical value of an `Instruction`.
pub struct InstructionModel {
    pub program_id: Seq<u8>,
    pub accounts: Seq<AccountMetaModel>,
    pub data: Seq<u8>,
}

impl View for Instruction {
    type V = InstructionModel;

    open spec fn view(&self) -> InstructionModel {
        InstructionModel {
            program_id: self.program_id@,
            accounts: self.accounts@.map_values(|m: AccountMeta| m@),
            data: self.data@,
        }
    }
}

/// The address of the native system program: thirty-two zero bytes.
pub open spec fn system_program_key() -> Seq<u8> {
    Seq::new(32, |i: int| 0u8)
}

/// The eight little-endian bytes of `x`.
pub open spec fn le_bytes(x: u64) -> Seq<u8> {
    Seq::new(8, |i: int| ((x as int / pow2((8 * i) as nat) as int) % 256) as u8)
}

/// The encoded argument of a native transfer of `lamports`: the variant
/// number two as a little-endian `u32`, then the amount as a little-endian
/// `u64`.
pub open spec fn transfer_data(lamports: u64) -> Seq<u8> {
    seq![2u8, 0u8, 0u8, 0u8] + le_bytes(lamports)
}

/// The native transfer of `lamports` from `from` (which signs) to `to`.
pub open spec fn transfer_model(from: Seq<u8>, to: Seq<u8>, lamports: u64) -> InstructionModel {
    InstructionModel {
        program_id: system_program_key(),
        accounts: seq![
            AccountMetaModel { pubkey: from, is_signer: true, is_writable: true },
            AccountMetaModel { pubkey: to, is_signer: false, is_writable: true },
        ],
        data: transfer_data(lamports),
    }
}

/// Relies on solana_program::system_instruction::transfer: an instruction for
/// the system program with the source as a writable signer, the destination
/// as a writable non-signer, and the amount encoded by bincode as data.
#[verifier::external_body]
fn system_transfer(from: &[u8; 32], to: &[u8; 32], lamports: u64) -> (r: Instruction)
    ensures
        r@ == transfer_model(from@, to@, lamports),
        r.data@ == transfer_data(lamports),
{
    let ix = anchor_lang::solana_program::system_instruction::transfer(
        &Pubkey::new_from_array(*from), &Pubkey::new_from_array(*to), lamports);
    Instruction {
        program_id: ix.program_id.to_bytes(),
        accounts: ix.accounts.iter().map(|m| AccountMeta {
            pubkey: m.pubkey.to_bytes(), is_signer: m.is_signer, is_writable: m.is_writable,
        }).collect(),
        data: ix.data,
    }
}

/// The bytes of the legacy message that compiles `instructions` with `payer`
/// as fee payer and the default blockhash.
pub uninterp spec fn legacy_message_bytes(instructions: Seq<InstructionModel>, payer: Seq<u8>) -> Seq<u8>;

/// Whether a list of instructions is small enough to be compiled into one
/// message: at most eight instructions, sixteen accounts each, and data whose
/// length fits a compact 16-bit prefix.
pub open spec fn compilable(ixs: Seq<Instruction>) -> bool {
    &&& ixs.len() <= 8
    &&& forall|i: int| 0 <= i < ixs.len() ==> {
        &&& #[trigger] ixs[i].accounts@.len() <= 16
        &&& ixs[i].data@.len() <= 0xffff
    }
}

/// Relies on solana_program::message::Message::new, which compiles the
/// instructions with the payer and the default blockhash, and on
/// Message::serialize, which encodes the result; both depend on their
/// arguments alone.
#[verifier::external_body]
fn legacy_message(ixs: &Vec<Instruction>, payer: &[u8; 32]) -> (r: Vec<u8>)
    requires
        compilable(ixs@),
    ensures
        r@ == legacy_message_bytes(ixs@.map_values(|ix: Instruction| ix@), payer@),
{
    let native: Vec<instruction::Instruction> = ixs.iter().map(|ix| instruction::Instruction {
        program_id: Pubkey::new_from_array(ix.program_id),
        accounts: ix.accounts.iter().map(|m| instruction::AccountMeta {
            pubkey: Pubkey::new_from_array(m.pubkey), is_signer: m.is_signer, is_writable: m.is_writable,
        }).collect(),
        data: ix.data.clone(),
    }).collect();
    Message::new(&native, Some(&Pubkey::new_from_array(*payer))).serialize()
}

/// The serialized message holding one native transfer of `lamports` from
/// `from` to `to`, with `from` as fee payer.
pub open spec fn transfer_message(from: Seq<u8>, to: Seq<u8>, lamports: u64) -> Seq<u8> {
    legacy_message_bytes(seq![transfer_model(from, to, lamports)], from)
}

/// Builds a native transfer of `lamports` from `from` to `to` and serializes
/// it as a message paid for by `from`.
pub fn transfer_message_bytes(from: &[u8; 32], to: &[u8; 32], lamports: u64) -> (r: Vec<u8>)
    ensures
        r@ == transfer_message(from@, to@, lamports),
{
    let ix = system_transfer(from, to, lamports);
    let mut ixs: Vec<Instruction> = Vec::new();
    ixs.push(ix);
    assert(ixs@ =~= seq![ix]);
    assert(ix@.accounts.len() == ix.accounts@.len());
    assert(ix.data@.len() == 12);
    assert(ixs[0] == ix);
    let r = legacy_message(&ixs, from);
    assert(ixs@.map_values(|i: Instruction| i@) =~= seq![transfer_model(from@, to@, lamports)]);
    r
}

} // verus!
