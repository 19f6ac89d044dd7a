use vstd::prelude::*;

use crate::address::{derived, find_item_address, find_item_metadata_address, ITEM_METADATA_SEED, ITEM_SEED};
use crate::codec::le_u64;
use crate::error::ProgramError;
use crate::instruction::{unpack_spec, Args, FixedPriceSaleInstruction};
use crate::state::{encode_metadata, ItemMetadata, ITEM_METADATA_LEN};
use crate::token::{account_error, check_program_account, mint_error, unpack_account, unpack_mint, TOKEN_PROGRAM_ID};
use crate::Key;

verus! {

/// A snapshot of one account handed in with a request.
#[derive(Clone, Debug)]
pub struct AccountView {
    pub key: Key,
    /// The program that owns the account's storage.
    pub owner: Key,
    pub lamports: u64,
    pub data: Vec<u8>,
}

/// Storage the host is to allocate for a new sale record, signed for by its derivation.
#[derive(Clone, Debug)]
pub struct SellPlan {
    /// Who funds the storage.
    pub payer: Key,
    /// Where the record lives.
    pub record: Key,
    /// Storage-exempt balance moved from the payer to the record.
    pub rent_lamports: u64,
    pub space: usize,
    /// Owner of the new storage: this program.
    pub owner: Key,
    /// Asset identity and bump of the record's derivation.
    pub mint: Key,
    pub bump: u8,
    pub metadata: ItemMetadata,
    /// The stored form of `metadata`.
    pub data: Vec<u8>,
}

/// One transfer on the fungible-asset ledger.
#[derive(Clone, Copy, Debug)]
pub struct TokenTransfer {
    pub source: Key,
    pub destination: Key,
    pub authority: Key,
    pub amount: u64,
}

/// The steps of a purchase, to be committed all together or not at all.
#[derive(Clone, Copy, Debug)]
pub struct BuyPlan {
    /// Price from the buyer to the seller, signed by the buyer.
    pub payment: TokenTransfer,
    /// The asset from custody to the buyer, signed for by the custodial derivation.
    pub item: TokenTransfer,
    pub mint: Key,
    pub item_bump: u8,
    /// The record that is destroyed, and who gets its deposit.
    pub record: Key,
    pub buyer: Key,
    /// The buyer's balance once the deposit is added.
    pub buyer_lamports: u64,
    pub metadata: ItemMetadata,
}

/// What a request asks the host to do.
#[derive(Clone, Debug)]
pub enum Transition {
    Sell(SellPlan),
    Buy(BuyPlan),
}

/// The asset definition qualifies as a single non-fungible unit.
pub open spec fn mint_qualifies(d: Seq<u8>) -> bool {
    &&& d[0] == 0
    &&& le_u64(d.subrange(36, 44)) == 1
    &&& d[45] == 1
    &&& d[44] == 0
}

/// The custodial account holds the one unit of `mint` for `authority`.
pub open spec fn custody_holds(d: Seq<u8>, authority: Seq<u8>, mint: Seq<u8>) -> bool {
    &&& d.subrange(32, 64) == authority
    &&& le_u64(d.subrange(64, 72)) == 1
    &&& d.subrange(0, 32) == mint
    &&& d[108] != 0
}

/// The custodial authority's address for `mint`.
pub open spec fn custody_authority(mint: Seq<u8>) -> Seq<u8> {
    match derived(ITEM_SEED@, mint) {
        Some((a, _)) => a,
        None => Seq::empty(),
    }
}

/// The first check a listing request fails, if any.
pub open spec fn sell_error(accounts: Seq<AccountView>, args: Args) -> Option<ProgramError> {
    if args.lamports is None || args.metadata_bump is None {
        Some(ProgramError::InvalidInstructionData)
    } else if accounts.len() < 6 {
        Some(ProgramError::NotEnoughAccountKeys)
    } else if accounts[2].owner@ != TOKEN_PROGRAM_ID@ || accounts[1].owner@ != TOKEN_PROGRAM_ID@
        || accounts[4].owner@ != TOKEN_PROGRAM_ID@ {
        Some(ProgramError::IncorrectProgramId)
    } else if mint_error(accounts[2].data@) is Some {
        mint_error(accounts[2].data@)
    } else if !mint_qualifies(accounts[2].data@) {
        Some(ProgramError::InvalidAccountData)
    } else if derived(ITEM_SEED@, accounts[2].key@) is None {
        Some(ProgramError::InvalidSeeds)
    } else if account_error(accounts[1].data@) is Some {
        account_error(accounts[1].data@)
    } else if !custody_holds(
        accounts[1].data@,
        custody_authority(accounts[2].key@),
        accounts[2].key@,
    ) {
        Some(ProgramError::InvalidAccountData)
    } else if account_error(accounts[4].data@) is Some {
        account_error(accounts[4].data@)
    } else if !(derived(ITEM_METADATA_SEED@, accounts[2].key@) matches Some((a, b)) && a == accounts[3].key@
        && Some(b) == args.metadata_bump) {
        Some(ProgramError::InvalidSeeds)
    } else {
        None
    }
}

/// The plan of a listing that passed every check.
pub open spec fn sell_plan_of(
    program_id: Key,
    accounts: Seq<AccountView>,
    args: Args,
    rent_lamports: u64,
    p: SellPlan,
) -> bool {
    &&& p.payer == accounts[0].key
    &&& p.record == accounts[3].key
    &&& p.rent_lamports == rent_lamports
    &&& p.space == ITEM_METADATA_LEN
    &&& p.owner == program_id
    &&& p.mint == accounts[2].key
    &&& Some(p.bump) == args.metadata_bump
    &&& derived(ITEM_METADATA_SEED@, p.mint@) == Some((p.record@, p.bump))
    &&& p.metadata.seller == accounts[0].key
    &&& p.metadata.mint == accounts[2].key
    &&& Some(p.metadata.lamports) == args.lamports
    &&& p.metadata.payment == accounts[4].key
    &&& p.metadata.item == accounts[1].key
    &&& p.data@ == encode_metadata(p.metadata)
}

/// The first check a purchase request fails, if any.
pub open spec fn buy_error(program_id: Key, accounts: Seq<AccountView>) -> Option<ProgramError> {
    if accounts.len() < 8 {
        Some(ProgramError::NotEnoughAccountKeys)
    } else if accounts[5].owner@ != program_id@ {
        Some(ProgramError::IllegalOwner)
    } else if accounts[5].data@.len() != ITEM_METADATA_LEN {
        Some(ProgramError::BorshIoError)
    } else if !(derived(ITEM_METADATA_SEED@, accounts[5].data@.subrange(32, 64)) matches Some((a, _))
        && a == accounts[5].key@) {
        Some(ProgramError::InvalidSeeds)
    } else if accounts[6].key@ != TOKEN_PROGRAM_ID@ {
        Some(ProgramError::IncorrectProgramId)
    } else if derived(ITEM_SEED@, accounts[5].data@.subrange(32, 64)) is None {
        Some(ProgramError::InvalidSeeds)
    } else if accounts[0].lamports + accounts[5].lamports > u64::MAX {
        Some(ProgramError::ArithmeticOverflow)
    } else {
        None
    }
}

/// The plan of a purchase that passed every check.
pub open spec fn buy_plan_of(accounts: Seq<AccountView>, p: BuyPlan) -> bool {
    let m = p.metadata;
    &&& encode_metadata(m) == accounts[5].data@
    &&& p.payment == (TokenTransfer {
        source: accounts[1].key,
        destination: m.payment,
        authority: accounts[0].key,
        amount: m.lamports,
    })
    &&& p.item.source == m.item
    &&& p.item.destination == accounts[2].key
    &&& derived(ITEM_SEED@, m.mint@) == Some((p.item.authority@, p.item_bump))
    &&& p.item.amount == 1
    &&& p.mint == m.mint
    &&& p.record == accounts[5].key
    &&& derived(ITEM_METADATA_SEED@, m.mint@) matches Some((a, _)) && a == p.record@
    &&& p.buyer == accounts[0].key
    &&& p.buyer_lamports == accounts[0].lamports + accounts[5].lamports
}

/// Checks a listing request against the accounts it names and, when every check passes,
/// returns the storage the host is to allocate for the new record.
pub fn sell(program_id: &Key, accounts: &[AccountView], args: Args, rent_lamports: u64) -> (r: Result<SellPlan, ProgramError>)
    ensures
        match r {
            Ok(p) => sell_error(accounts@, args) is None && sell_plan_of(*program_id, accounts@, args, rent_lamports, p),
            Err(e) => sell_error(accounts@, args) == Some(e),
        },
{
    // A listing names its price and the bump of its record's address.
    let (lamports, bump) = match (args.lamports, args.metadata_bump) {
        (Some(l), Some(b)) => (l, b),
        _ => return Err(ProgramError::InvalidInstructionData),
    };
    if accounts.len() < 6 {
        return Err(ProgramError::NotEnoughAccountKeys);
    }
    let seller = &accounts[0];
    let program_item_wallet = &accounts[1];
    let mint = &accounts[2];
    let item_metadata = &accounts[3];
    let seller_payment_wallet = &accounts[4];

    check_program_account(&mint.owner)?;
    check_program_account(&program_item_wallet.owner)?;
    check_program_account(&seller_payment_wallet.owner)?;

    // The asset must be a single, non-divisible unit that nobody can mint again.
    let mint_data = unpack_mint(mint.data.as_slice())?;
    if mint_data.mint_authority.is_some() || mint_data.supply != 1 || !mint_data.is_initialized
        || mint_data.decimals != 0 {
        return Err(ProgramError::InvalidAccountData);
    }

    // The asset must already sit in the custodial account.
    let (item_addr, _) = match find_item_address(&mint.key) {
        Some(found) => found,
        None => return Err(ProgramError::InvalidSeeds),
    };
    let item_data = unpack_account(program_item_wallet.data.as_slice())?;
    if !item_data.owner.same(&item_addr) || item_data.amount != 1 || !item_data.mint.same(&mint.key)
        || !item_data.is_initialized() {
        return Err(ProgramError::InvalidAccountData);
    }

    // The payment destination must be a live balance account.
    let payment_data = unpack_account(seller_payment_wallet.data.as_slice())?;
    if !payment_data.is_initialized() {
        return Err(ProgramError::UninitializedAccount);
    }

    // The record must stand at the address derived from the asset, with the given bump.
    match find_item_metadata_address(&mint.key) {
        Some((addr, derived_bump)) => {
            if !addr.same(&item_metadata.key) || derived_bump != bump {
                return Err(ProgramError::InvalidSeeds);
            }
        },
        None => return Err(ProgramError::InvalidSeeds),
    }
    let metadata = ItemMetadata {
        seller: seller.key,
        mint: mint.key,
        lamports,
        payment: seller_payment_wallet.key,
        item: program_item_wallet.key,
    };
    let data = metadata.to_vec();
    Ok(SellPlan {
        payer: seller.key,
        record: item_metadata.key,
        rent_lamports,
        space: data.len(),
        owner: *program_id,
        mint: mint.key,
        bump,
        metadata,
        data,
    })
}

/// Checks a purchase request and, when the record is genuine, returns the transfers that
/// complete the swap and the destruction of the record.
pub fn buy(program_id: &Key, accounts: &[AccountView]) -> (r: Result<BuyPlan, ProgramError>)
    ensures
        match r {
            Ok(p) => buy_error(*program_id, accounts@) is None && buy_plan_of(accounts@, p),
            Err(e) => buy_error(*program_id, accounts@) == Some(e),
        },
{
    if accounts.len() < 8 {
        return Err(ProgramError::NotEnoughAccountKeys);
    }
    let buyer = &accounts[0];
    let buyer_payment_wallet = &accounts[1];
    let buyer_item_wallet = &accounts[2];
    let item_metadata = &accounts[5];
    let spl_token = &accounts[6];

    if !item_metadata.owner.same(program_id) {
        return Err(ProgramError::IllegalOwner);
    }
    let metadata = match ItemMetadata::try_from_slice(item_metadata.data.as_slice()) {
        Some(m) => m,
        None => return Err(ProgramError::BorshIoError),
    };
    proof {
        assert(metadata.mint@ =~= item_metadata.data@.subrange(32, 64));
    }
    // The record must stand at the address derived from the asset it names.
    match find_item_metadata_address(&metadata.mint) {
        Some((addr, _)) => {
            if !addr.same(&item_metadata.key) {
                return Err(ProgramError::InvalidSeeds);
            }
        },
        None => return Err(ProgramError::InvalidSeeds),
    }
    check_program_account(&spl_token.key)?;
    let (item_addr, item_bump) = match find_item_address(&metadata.mint) {
        Some(found) => found,
        None => return Err(ProgramError::InvalidSeeds),
    };
    let buyer_lamports = match buyer.lamports.checked_add(item_metadata.lamports) {
        Some(l) => l,
        None => return Err(ProgramError::ArithmeticOverflow),
    };
    Ok(BuyPlan {
        payment: TokenTransfer {
            source: buyer_payment_wallet.key,
            destination: metadata.payment,
            authority: buyer.key,
            amount: metadata.lamports,
        },
        item: TokenTransfer {
            source: metadata.item,
            destination: buyer_item_wallet.key,
            authority: item_addr,
            amount: 1,
        },
        mint: metadata.mint,
        item_bump,
        record: item_metadata.key,
        buyer: buyer.key,
        buyer_lamports,
        metadata,
    })
}

/// Decodes a request and answers it.
pub fn instruction_processor(
    program_id: &Key,
    accounts: &[AccountView],
    instruction_data: &[u8],
    rent_lamports: u64,
) -> (r: Result<Transition, ProgramError>)
    ensures
        match unpack_spec(instruction_data@) {
            Err(e) => r == Err::<Transition, ProgramError>(e),
            Ok((FixedPriceSaleInstruction::Sell, args)) => match r {
                Ok(Transition::Sell(p)) => sell_error(accounts@, args) is None
                    && sell_plan_of(*program_id, accounts@, args, rent_lamports, p),
                Ok(Transition::Buy(_)) => false,
                Err(e) => sell_error(accounts@, args) == Some(e),
            },
            Ok((FixedPriceSaleInstruction::Buy, _)) => match r {
                Ok(Transition::Buy(p)) => buy_error(*program_id, accounts@) is None && buy_plan_of(accounts@, p),
                Ok(Transition::Sell(_)) => false,
                Err(e) => buy_error(*program_id, accounts@) == Some(e),
            },
        },
{
    let (instruction, args) = FixedPriceSaleInstruction::unpack(instruction_data)?;
    match instruction {
        FixedPriceSaleInstruction::Sell => Ok(Transition::Sell(sell(program_id, accounts, args, rent_lamports)?)),
        FixedPriceSaleInstruction::Buy => Ok(Transition::Buy(buy(program_id, accounts)?)),
    }
}

/// A listing whose asset is not a single non-divisible unit without a mint authority is
/// refused as invalid account data, and so allocates nothing.
pub proof fn lemma_non_qualifying_asset_rejected(accounts: Seq<AccountView>, args: Args)
    requires
        args.lamports is Some,
        args.metadata_bump is Some,
        accounts.len() >= 6,
        accounts[1].owner@ == TOKEN_PROGRAM_ID@,
        accounts[2].owner@ == TOKEN_PROGRAM_ID@,
        accounts[4].owner@ == TOKEN_PROGRAM_ID@,
        mint_error(accounts[2].data@) is None,
        // stored supply, decimals and mint-authority tag
        le_u64(accounts[2].data@.subrange(36, 44)) != 1 || accounts[2].data@[44] != 0
            || accounts[2].data@[0] == 1,
    ensures
        sell_error(accounts, args) == Some(ProgramError::InvalidAccountData),
{
}

/// A purchase whose record is not owned by this program is refused as an illegal owner,
/// before any transfer is planned.
pub proof fn lemma_forged_record_rejected(program_id: Key, accounts: Seq<AccountView>)
    requires
        accounts.len() >= 8,
        accounts[5].owner@ != program_id@,
    ensures
        buy_error(program_id, accounts) == Some(ProgramError::IllegalOwner),
{
}

} // verus!
