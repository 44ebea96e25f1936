//! Account references as handed to an operation, and the checks of the role
//! each must play before the external program is invoked.
use crate::message::system_program_key;
use vstd::prelude::*;

verus! {

/// An account as the caller handed it over: its address, and whether it
/// signed the current call and may be written.
#[derive(Clone, Copy, Debug)]
pub struct AccountRef {
    pub key: [u8; 32],
    pub is_signer: bool,
    pub is_writable: bool,
}

/// Why an account bundle cannot be forwarded.
#[derive(Clone, Copy, Debug, PartialEq, Eq, Structural)]
pub enum GovernanceError {
    /// An account that must sign did not.
    MissingSignature,
    /// An account that must be writable is not.
    NotWritable,
    /// The account in the system-program role is not the system program.
    WrongSystemProgram,
    /// The account in the external-program role is not the multisig program.
    WrongMultisigProgram,
}

/// The failure of one account against its role, if any: a missing signature
/// is reported before a missing write permission.
pub open spec fn role_failure(a: AccountRef, signer: bool, writable: bool) -> Option<GovernanceError> {
    if signer && !a.is_signer {
        Some(GovernanceError::MissingSignature)
    } else if writable && !a.is_writable {
        Some(GovernanceError::NotWritable)
    } else {
        None
    }
}

/// The failure of an account that must be a given program, if any.
pub open spec fn program_failure(a: AccountRef, program: Seq<u8>, e: GovernanceError) -> Option<GovernanceError> {
    if a.key@ == program {
        None
    } else {
        Some(e)
    }
}

/// The first of two outcomes that is a failure.
pub open spec fn first_failure(a: Option<GovernanceError>, b: Option<GovernanceError>) -> Option<GovernanceError> {
    if a is Some {
        a
    } else {
        b
    }
}

/// What a check returns for a given outcome.
pub open spec fn outcome(f: Option<GovernanceError>) -> Result<(), GovernanceError> {
    match f {
        Some(e) => Err(e),
        None => Ok(()),
    }
}

/// Whether two addresses are equal.
pub fn same_key(a: &[u8; 32], b: &[u8; 32]) -> (r: bool)
    ensures
        r == (a@ == b@),
{
    let mut i: usize = 0;
    while i < 32
        invariant
            i <= 32,
            forall|j: int| 0 <= j < i ==> a@[j] == b@[j],
        decreases 32 - i,
    {
        if a[i] != b[i] {
            return false;
        }
        i = i + 1;
    }
    assert(a@ =~= b@);
    true
}

/// Checks that an account signed and may be written as its role asks.
pub fn check_role(a: &AccountRef, signer: bool, writable: bool) -> (r: Result<(), GovernanceError>)
    ensures
        r == outcome(role_failure(*a, signer, writable)),
{
    if signer && !a.is_signer {
        Err(GovernanceError::MissingSignature)
    } else if writable && !a.is_writable {
        Err(GovernanceError::NotWritable)
    } else {
        Ok(())
    }
}

/// Checks that an account is the system program.
pub fn check_system_program(a: &AccountRef) -> (r: Result<(), GovernanceError>)
    ensures
        r == outcome(program_failure(*a, system_program_key(), GovernanceError::WrongSystemProgram)),
{
    let zero: [u8; 32] = [0u8; 32];
    assert(zero@ =~= system_program_key());
    if same_key(&a.key, &zero) {
        Ok(())
    } else {
        Err(GovernanceError::WrongSystemProgram)
    }
}

/// Checks that an account is the multisig program at `program_id`.
pub fn check_multisig_program(a: &AccountRef, program_id: &[u8; 32]) -> (r: Result<(), GovernanceError>)
    ensures
        r == outcome(program_failure(*a, program_id@, GovernanceError::WrongMultisigProgram)),
{
    if same_key(&a.key, program_id) {
        Ok(())
    } else {
        Err(GovernanceError::WrongMultisigProgram)
    }
}

} // verus!
