//! Member permissions of a multisig: a bitmask built from individual flags.
use vstd::prelude::*;

verus! {

/// One capability a multisig member may hold.
#[derive(Clone, Copy, Debug, PartialEq, Eq, Structural)]
pub enum Permission {
    Initiate,
    Vote,
    Execute,
}

impl Permission {
    /// The bit this flag occupies in a permission mask.
    pub open spec fn bit(self) -> u8 {
        match self {
            Permission::Initiate => 1,
            Permission::Vote => 2,
            Permission::Execute => 4,
        }
    }
}

/// The mask obtained by or-ing together the bits of the given flags.
pub open spec fn mask_of(ps: Seq<Permission>) -> u8
    decreases ps.len(),
{
    if ps.len() == 0 {
        0
    } else {
        mask_of(ps.drop_last()) | ps.last().bit()
    }
}

/// Whether a mask grants the given flag.
pub open spec fn grants(mask: u8, p: Permission) -> bool {
    mask & p.bit() != 0
}

/// Relies on squads_multisig_program::Permissions::from_vec, which ors the
/// bit of each flag into a mask that starts at zero.
#[verifier::external_body]
fn squads_mask(ps: &[Permission]) -> (r: u8)
    ensures
        r == mask_of(ps@),
{
    let flags: Vec<squads_multisig_program::Permission> = ps.iter().map(|p| match p {
        Permission::Initiate => squads_multisig_program::Permission::Initiate,
        Permission::Vote => squads_multisig_program::Permission::Vote,
        Permission::Execute => squads_multisig_program::Permission::Execute,
    }).collect();
    squads_multisig_program::Permissions::from_vec(&flags).mask
}

/// A set of permissions, held as a bitmask.
#[derive(Clone, Copy, Debug, PartialEq, Eq, Structural)]
pub struct Permissions {
    pub mask: u8,
}

impl Permissions {
    /// The set holding exactly the given flags.
    pub fn from_vec(ps: &[Permission]) -> (r: Permissions)
        ensures
            r.mask == mask_of(ps@),
    {
        Permissions { mask: squads_mask(ps) }
    }

    /// Whether the set holds a flag.
    pub fn has(&self, p: Permission) -> (r: bool)
        ensures
            r == grants(self.mask, p),
    {
        let bit: u8 = match p {
            Permission::Initiate => 1,
            Permission::Vote => 2,
            Permission::Execute => 4,
        };
        self.mask & bit != 0
    }
}

/// The mask of the three flags, in any listing Initiate, Vote, Execute, is
/// seven, and it grants each of them.
pub proof fn lemma_all_flags_mask()
    ensures
        mask_of(seq![Permission::Initiate, Permission::Vote, Permission::Execute]) == 7,
        grants(7, Permission::Initiate),
        grants(7, Permission::Vote),
        grants(7, Permission::Execute),
{
    let s = seq![Permission::Initiate, Permission::Vote, Permission::Execute];
    assert(s.drop_last() =~= seq![Permission::Initiate, Permission::Vote]);
    assert(s.drop_last().drop_last() =~= seq![Permission::Initiate]);
    assert(s.drop_last().drop_last().drop_last() =~= Seq::<Permission>::empty());
    reveal_with_fuel(mask_of, 4);
    assert(((0u8 | 1u8) | 2u8) | 4u8 == 7u8) by (bit_vector);
    assert(7u8 & 1u8 != 0 && 7u8 & 2u8 != 0 && 7u8 & 4u8 != 0) by (bit_vector);
}

} // verus!
