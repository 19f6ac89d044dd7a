use vstd::prelude::*;

use crate::codec::le_u64;
use crate::error::ProgramError;
use crate::Key;
use solana_program::program_error::ProgramError as HostError;
use solana_program::program_pack::Pack;
use solana_program::pubkey::Pubkey;
use spl_token::state::{Account, AccountState, Mint};

verus! {

/// Identity of the fungible-asset ledger program.
pub const TOKEN_PROGRAM_ID: [u8; 32] = [
    6, 221, 246, 225, 215, 101, 161, 147, 217, 203, 225, 70, 206, 235, 121, 172,
    28, 180, 133, 237, 95, 91, 55, 145, 58, 140, 245, 133, 126, 255, 0, 169,
];

/// Bytes of a stored asset definition.
pub const MINT_LEN: usize = 82;

/// Bytes of a stored balance account.
pub const ACCOUNT_LEN: usize = 165;

/// The fields of an asset definition that listing reads.
#[derive(Clone, Copy, Debug)]
pub struct MintState {
    pub mint_authority: Option<Key>,
    pub supply: u64,
    pub decimals: u8,
    pub is_initialized: bool,
}

/// Life stage of a balance account.
#[derive(Clone, Copy, Debug, PartialEq, Eq, Structural)]
pub enum AccountStatus {
    Uninitialized,
    Initialized,
    Frozen,
}

/// The fields of a balance account that the transitions read.
#[derive(Clone, Copy, Debug)]
pub struct TokenAccountState {
    pub mint: Key,
    pub owner: Key,
    pub amount: u64,
    pub state: AccountStatus,
}

impl TokenAccountState {
    pub open spec fn spec_is_initialized(&self) -> bool {
        self.state != AccountStatus::Uninitialized
    }

    pub fn is_initialized(&self) -> (r: bool)
        ensures
            r == self.spec_is_initialized(),
    {
        self.state != AccountStatus::Uninitialized
    }
}

/// A four-byte option tag at `i`: `[0,0,0,0]` or `[1,0,0,0]`.
pub open spec fn tag_valid(d: Seq<u8>, i: int) -> bool {
    (d[i] == 0 || d[i] == 1) && d[i + 1] == 0 && d[i + 2] == 0 && d[i + 3] == 0
}

/// Why an asset definition cannot be read, if it cannot.
pub open spec fn mint_error(d: Seq<u8>) -> Option<ProgramError> {
    if d.len() != MINT_LEN || !tag_valid(d, 0) || d[45] > 1 || !tag_valid(d, 46) {
        Some(ProgramError::InvalidAccountData)
    } else if d[45] == 0 {
        Some(ProgramError::UninitializedAccount)
    } else {
        None
    }
}

/// `m` holds the fields stored in `d`.
pub open spec fn mint_fields(d: Seq<u8>, m: MintState) -> bool {
    &&& (m.mint_authority is Some) == (d[0] == 1)
    &&& (m.mint_authority matches Some(k) ==> k@ == d.subrange(4, 36))
    &&& m.supply == le_u64(d.subrange(36, 44))
    &&& m.decimals == d[44]
    &&& m.is_initialized == (d[45] == 1)
}

pub open spec fn status_of(b: u8) -> AccountStatus {
    if b == 0 {
        AccountStatus::Uninitialized
    } else if b == 1 {
        AccountStatus::Initialized
    } else {
        AccountStatus::Frozen
    }
}

/// Why a balance account cannot be read, if it cannot.
pub open spec fn account_error(d: Seq<u8>) -> Option<ProgramError> {
    if d.len() != ACCOUNT_LEN || !tag_valid(d, 72) || d[108] > 2 || !tag_valid(d, 109) || !tag_valid(d, 129) {
        Some(ProgramError::InvalidAccountData)
    } else if d[108] == 0 {
        Some(ProgramError::UninitializedAccount)
    } else {
        None
    }
}

/// `a` holds the fields stored in `d`.
pub open spec fn account_fields(d: Seq<u8>, a: TokenAccountState) -> bool {
    &&& a.mint@ == d.subrange(0, 32)
    &&& a.owner@ == d.subrange(32, 64)
    &&& a.amount == le_u64(d.subrange(64, 72))
    &&& a.state == status_of(d[108])
}

/// Relies on `Pack::unpack` of `spl_token::state::Mint`: an 82-byte layout of option tag and
/// authority, supply, decimals, an initialized flag and a second option; a wrong length, tag or
/// flag byte is `InvalidAccountData`, an uninitialized definition `UninitializedAccount`.
#[verifier::external_body]
pub(crate) fn unpack_mint(data: &[u8]) -> (r: Result<MintState, ProgramError>)
    ensures
        match r {
            Ok(m) => mint_error(data@) is None && mint_fields(data@, m),
            Err(e) => mint_error(data@) == Some(e),
        },
{
    match Mint::unpack(data) {
        Ok(m) => Ok(MintState {
            mint_authority: Option::<Pubkey>::from(m.mint_authority).map(|k| Key { bytes: k.to_bytes() }),
            supply: m.supply,
            decimals: m.decimals,
            is_initialized: m.is_initialized,
        }),
        Err(HostError::UninitializedAccount) => Err(ProgramError::UninitializedAccount),
        Err(_) => Err(ProgramError::InvalidAccountData),
    }
}

/// Relies on `Pack::unpack` of `spl_token::state::Account`: a 165-byte layout of asset, owner,
/// amount, optional delegate, state byte, two more options and a delegated amount; a wrong length,
/// tag or state byte is `InvalidAccountData`, an uninitialized account `UninitializedAccount`.
#[verifier::external_body]
pub(crate) fn unpack_account(data: &[u8]) -> (r: Result<TokenAccountState, ProgramError>)
    ensures
        match r {
            Ok(a) => account_error(data@) is None && account_fields(data@, a),
            Err(e) => account_error(data@) == Some(e),
        },
{
    match Account::unpack(data) {
        Ok(a) => Ok(TokenAccountState {
            mint: Key { bytes: a.mint.to_bytes() },
            owner: Key { bytes: a.owner.to_bytes() },
            amount: a.amount,
            state: match a.state {
                AccountState::Uninitialized => AccountStatus::Uninitialized,
                AccountState::Initialized => AccountStatus::Initialized,
                AccountState::Frozen => AccountStatus::Frozen,
            },
        }),
        Err(HostError::UninitializedAccount) => Err(ProgramError::UninitializedAccount),
        Err(_) => Err(ProgramError::InvalidAccountData),
    }
}

/// Relies on `spl_token::check_program_account`: it accepts exactly the ledger program's
/// identity and otherwise fails with `IncorrectProgramId`.
#[verifier::external_body]
pub(crate) fn check_program_account(id: &Key) -> (r: Result<(), ProgramError>)
    ensures
        match r {
            Ok(_) => id@ == TOKEN_PROGRAM_ID@,
            Err(e) => id@ != TOKEN_PROGRAM_ID@ && e == ProgramError::IncorrectProgramId,
        },
{
    spl_token::check_program_account(&Pubkey::new_from_array(id.bytes))
        .map_err(|_| ProgramError::IncorrectProgramId)
}

} // verus!
