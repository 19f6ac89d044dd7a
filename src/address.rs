use vstd::prelude::*;

use crate::Key;

verus! {

/// The program's own identity.
pub const PROGRAM_ID: [u8; 32] = [
    146, 91, 9, 127, 202, 7, 113, 192, 241, 193, 226, 57, 87, 175, 11, 90,
    139, 89, 186, 61, 72, 235, 208, 78, 218, 16, 153, 61, 38, 184, 82, 220,
];

/// Domain-separation tag of the sale record's address.
pub const ITEM_METADATA_SEED: [u8; 13] = [105, 116, 101, 109, 95, 109, 101, 116, 97, 100, 97, 116, 97];

/// Domain-separation tag of the custodial authority's address.
pub const ITEM_SEED: [u8; 4] = [105, 116, 101, 109];

/// The address and bump reached from a tag and an asset identity under a program,
/// or `None` where no bump gives an address off the curve.
pub uninterp spec fn program_address(tag: Seq<u8>, mint: Seq<u8>, program: Seq<u8>) -> Option<(Seq<u8>, u8)>;

/// Relies on `solana_program::pubkey::Pubkey::try_find_program_address`: it is a function
/// of the seeds and the program identity alone, and the address it returns is 32 bytes.
#[verifier::external_body]
fn try_find_program_address(tag: &[u8], mint: &[u8; 32], program: &[u8; 32]) -> (r: Option<([u8; 32], u8)>)
    ensures
        match r {
            Some((a, b)) => program_address(tag@, mint@, program@) == Some((a@, b)),
            None => program_address(tag@, mint@, program@) is None,
        },
{
    let program = solana_program::pubkey::Pubkey::new_from_array(*program);
    solana_program::pubkey::Pubkey::try_find_program_address(&[tag, &mint[..]], &program)
        .map(|(a, b)| (a.to_bytes(), b))
}

/// The derived address of `tag` and `mint` under this program.
pub open spec fn derived(tag: Seq<u8>, mint: Seq<u8>) -> Option<(Seq<u8>, u8)> {
    program_address(tag, mint, PROGRAM_ID@)
}

fn find_address(tag: &[u8], mint: &Key) -> (r: Option<(Key, u8)>)
    ensures
        match r {
            Some((a, b)) => derived(tag@, mint@) == Some((a@, b)),
            None => derived(tag@, mint@) is None,
        },
{
    let program: [u8; 32] = PROGRAM_ID;
    match try_find_program_address(tag, &mint.bytes, &program) {
        Some((a, b)) => Some((Key::new(a), b)),
        None => None,
    }
}

/// Address and bump of the sale record of `mint`.
pub fn find_item_metadata_address(mint: &Key) -> (r: Option<(Key, u8)>)
    ensures
        match r {
            Some((a, b)) => derived(ITEM_METADATA_SEED@, mint@) == Some((a@, b)),
            None => derived(ITEM_METADATA_SEED@, mint@) is None,
        },
{
    let seed: [u8; 13] = ITEM_METADATA_SEED;
    find_address(seed.as_slice(), mint)
}

/// Address and bump of the custodial authority of `mint`.
pub fn find_item_address(mint: &Key) -> (r: Option<(Key, u8)>)
    ensures
        match r {
            Some((a, b)) => derived(ITEM_SEED@, mint@) == Some((a@, b)),
            None => derived(ITEM_SEED@, mint@) is None,
        },
{
    let seed: [u8; 4] = ITEM_SEED;
    find_address(seed.as_slice(), mint)
}

} // verus!
