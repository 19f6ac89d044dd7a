use fixed_price_sale::address::{find_item_address, find_item_metadata_address, PROGRAM_ID};
use fixed_price_sale::error::{ProgramError, ACCOUNT_ALREADY_IN_USE, INSUFFICIENT_FUNDS};
use fixed_price_sale::instruction::{self, Args, FixedPriceSaleInstruction, Payload};
use fixed_price_sale::ledger::{Balance, Ledger, Storage};
use fixed_price_sale::processor::{buy, instruction_processor, sell, AccountView, Transition};
use fixed_price_sale::state::ItemMetadata;
use fixed_price_sale::token::TOKEN_PROGRAM_ID;
use fixed_price_sale::Key;

use solana_program::program_option::COption;
use solana_program::program_pack::Pack;
use solana_program::pubkey::Pubkey;
use std::str::FromStr;

fn key(n: u8) -> Key {
    Key::new([n; 32])
}

fn program() -> Key {
    Key::new(PROGRAM_ID)
}

fn token_program() -> Key {
    Key::new(TOKEN_PROGRAM_ID)
}

fn mint_data(authority: Option<Key>, supply: u64, decimals: u8) -> Vec<u8> {
    let m = spl_token::state::Mint {
        mint_authority: match authority {
            Some(k) => COption::Some(Pubkey::new_from_array(k.bytes)),
            None => COption::None,
        },
        supply,
        decimals,
        is_initialized: true,
        freeze_authority: COption::None,
    };
    let mut buf = vec![0u8; spl_token::state::Mint::LEN];
    spl_token::state::Mint::pack(m, &mut buf).unwrap();
    buf
}

fn account_data(mint: Key, owner: Key, amount: u64) -> Vec<u8> {
    let a = spl_token::state::Account {
        mint: Pubkey::new_from_array(mint.bytes),
        owner: Pubkey::new_from_array(owner.bytes),
        amount,
        delegate: COption::None,
        state: spl_token::state::AccountState::Initialized,
        is_native: COption::None,
        delegated_amount: 0,
        close_authority: COption::None,
    };
    let mut buf = vec![0u8; spl_token::state::Account::LEN];
    spl_token::state::Account::pack(a, &mut buf).unwrap();
    buf
}

fn view(k: Key, owner: Key, lamports: u64, data: Vec<u8>) -> AccountView {
    AccountView { key: k, owner, lamports, data }
}

const SELLER: u8 = 1;
const MINT: u8 = 2;
const SELLER_PAY: u8 = 4;
const BUYER: u8 = 5;
const BUYER_PAY: u8 = 6;
const BUYER_ITEM: u8 = 7;
const PAYMENT_MINT: u8 = 8;
const CUSTODY: u8 = 9;
const PRICE: u64 = 200000000;

fn custody_authority() -> Key {
    find_item_address(&key(MINT)).unwrap().0
}

fn sell_accounts(mint: Vec<u8>) -> Vec<AccountView> {
    let record = find_item_metadata_address(&key(MINT)).unwrap().0;
    vec![
        view(key(SELLER), Key::new(instruction::SYSTEM_PROGRAM_ID), 10_000_000_000, vec![]),
        view(key(CUSTODY), token_program(), 0, account_data(key(MINT), custody_authority(), 1)),
        view(key(MINT), token_program(), 0, mint),
        view(record, Key::new(instruction::SYSTEM_PROGRAM_ID), 0, vec![]),
        view(key(SELLER_PAY), token_program(), 0, account_data(key(PAYMENT_MINT), key(SELLER), 0)),
        view(Key::new(instruction::SYSTEM_PROGRAM_ID), Key::new(instruction::SYSTEM_PROGRAM_ID), 0, vec![]),
    ]
}

fn sell_args() -> Args {
    Args { lamports: Some(PRICE), metadata_bump: Some(find_item_metadata_address(&key(MINT)).unwrap().1) }
}

fn ledger() -> Ledger {
    Ledger {
        balances: vec![
            Balance { key: key(CUSTODY), mint: key(MINT), owner: custody_authority(), amount: 1 },
            Balance { key: key(SELLER_PAY), mint: key(PAYMENT_MINT), owner: key(SELLER), amount: 0 },
            Balance { key: key(BUYER_PAY), mint: key(PAYMENT_MINT), owner: key(BUYER), amount: PRICE },
            Balance { key: key(BUYER_ITEM), mint: key(MINT), owner: key(BUYER), amount: 0 },
        ],
        storage: vec![
            Storage { key: key(SELLER), owner: Key::new(instruction::SYSTEM_PROGRAM_ID), lamports: 10_000_000_000, data: vec![] },
            Storage { key: key(BUYER), owner: Key::new(instruction::SYSTEM_PROGRAM_ID), lamports: 10_000_000_000, data: vec![] },
        ],
    }
}

fn amount(l: &Ledger, k: u8) -> u64 {
    l.balances.iter().find(|b| b.key == key(k)).unwrap().amount
}

fn stored(l: &Ledger, k: Key) -> Option<&Storage> {
    l.storage.iter().find(|s| s.key == k)
}

fn buy_accounts(l: &Ledger, record_owner: Key) -> Vec<AccountView> {
    let record = find_item_metadata_address(&key(MINT)).unwrap().0;
    let rec = stored(l, record).unwrap();
    vec![
        view(key(BUYER), Key::new(instruction::SYSTEM_PROGRAM_ID), stored(l, key(BUYER)).unwrap().lamports, vec![]),
        view(key(BUYER_PAY), token_program(), 0, vec![]),
        view(key(BUYER_ITEM), token_program(), 0, vec![]),
        view(key(CUSTODY), token_program(), 0, vec![]),
        view(key(SELLER_PAY), token_program(), 0, vec![]),
        view(record, record_owner, rec.lamports, rec.data.clone()),
        view(token_program(), Key::new(instruction::SYSTEM_PROGRAM_ID), 0, vec![]),
        view(custody_authority(), Key::new(instruction::SYSTEM_PROGRAM_ID), 0, vec![]),
    ]
}

const RENT: u64 = 1_837_440;

fn listed_ledger() -> Ledger {
    let mut l = ledger();
    let plan = sell(&program(), &sell_accounts(mint_data(None, 1, 0)), sell_args(), RENT).unwrap();
    l.apply_sell(plan).unwrap();
    l
}

#[test]
fn instruction_unpack() {
    let args = Args { lamports: Some(1000000000), metadata_bump: None };
    let payload = Payload { instruction: 0, args }.to_vec();
    let invalid_payload = Payload { instruction: 3, args }.to_vec();

    let unpacked = FixedPriceSaleInstruction::unpack(&payload);
    let invalid_unpacked = FixedPriceSaleInstruction::unpack(&invalid_payload);

    assert_eq!(unpacked, Ok((FixedPriceSaleInstruction::Sell, args)));
    assert_eq!(invalid_unpacked, Err(ProgramError::InvalidInstructionData));
}

#[test]
fn payload_encoding_matches_borsh() {
    let bytes = borsh::to_vec(&(0u8, Some(1000000000u64), None::<u8>)).unwrap();
    let args = Args { lamports: Some(1000000000), metadata_bump: None };
    assert_eq!(Payload { instruction: 0, args }.to_vec(), bytes);
    let bytes = borsh::to_vec(&(1u8, None::<u64>, Some(254u8))).unwrap();
    let args = Args { lamports: None, metadata_bump: Some(254) };
    assert_eq!(Payload { instruction: 1, args }.to_vec(), bytes);
    assert_eq!(bytes, vec![1, 0, 1, 254]);
}

#[test]
fn unpack_round_trips_every_kind() {
    for (op, kind) in [(0u8, FixedPriceSaleInstruction::Sell), (1u8, FixedPriceSaleInstruction::Buy)] {
        for args in [
            Args { lamports: None, metadata_bump: None },
            Args { lamports: Some(u64::MAX), metadata_bump: Some(255) },
            Args { lamports: Some(0), metadata_bump: None },
        ] {
            let bytes = Payload { instruction: op, args }.to_vec();
            assert_eq!(FixedPriceSaleInstruction::unpack(&bytes), Ok((kind, args)));
        }
    }
}

#[test]
fn unpack_rejects_malformed_bytes() {
    assert_eq!(FixedPriceSaleInstruction::unpack(&[]), Err(ProgramError::InvalidInstructionData));
    assert_eq!(FixedPriceSaleInstruction::unpack(&[0, 0, 0, 7]), Err(ProgramError::InvalidInstructionData));
    assert_eq!(FixedPriceSaleInstruction::unpack(&[0, 2, 0]), Err(ProgramError::InvalidInstructionData));
    assert_eq!(FixedPriceSaleInstruction::unpack(&[0, 1, 5, 0]), Err(ProgramError::InvalidInstructionData));
    assert_eq!(FixedPriceSaleInstruction::unpack(&[5]), Err(ProgramError::InvalidInstructionData));
    assert_eq!(FixedPriceSaleInstruction::unpack(&[2, 0, 0]), Err(ProgramError::InvalidInstructionData));
    assert_eq!(FixedPriceSaleInstruction::unpack(&[255, 0, 0]), Err(ProgramError::InvalidInstructionData));
}

#[test]
fn constants_match_outside_identities() {
    let id = Pubkey::from_str("ArK3BKiUg7dbU4pNQuWZ73arMp6uunSuuBjzm4gSwk8T").unwrap();
    assert_eq!(PROGRAM_ID, id.to_bytes());
    assert_eq!(TOKEN_PROGRAM_ID, spl_token::id().to_bytes());
}

#[test]
fn derived_addresses_match_the_host() {
    let id = Pubkey::new_from_array(PROGRAM_ID);
    let mint = key(MINT);
    let (addr, bump) = Pubkey::find_program_address(&[b"item", &mint.bytes], &id);
    let found = find_item_address(&mint).unwrap();
    assert_eq!(found.0.bytes, addr.to_bytes());
    assert_eq!(found.1, bump);
    let (addr, bump) = Pubkey::find_program_address(&[b"item_metadata", &mint.bytes], &id);
    let found = find_item_metadata_address(&mint).unwrap();
    assert_eq!(found.0.bytes, addr.to_bytes());
    assert_eq!(found.1, bump);
    assert_ne!(found.0, custody_authority());
}

#[test]
fn metadata_round_trip() {
    let m = ItemMetadata { seller: key(1), mint: key(2), lamports: 0x0102030405060708, payment: key(3), item: key(4) };
    let bytes = m.to_vec();
    assert_eq!(bytes.len(), 136);
    assert_eq!(&bytes[64..72], &[8, 7, 6, 5, 4, 3, 2, 1]);
    let back = ItemMetadata::try_from_slice(&bytes).unwrap();
    assert_eq!(back.seller, m.seller);
    assert_eq!(back.lamports, m.lamports);
    assert_eq!(back.item, m.item);
    assert!(ItemMetadata::try_from_slice(&bytes[..135]).is_none());
}

#[test]
fn processor_sell() {
    let ix = instruction::sell(&key(SELLER), &key(CUSTODY), &key(MINT), &key(SELLER_PAY), PRICE).unwrap();
    assert_eq!(ix.accounts.len(), 6);
    let accounts = sell_accounts(mint_data(None, 1, 0));
    let plan = match instruction_processor(&program(), &accounts, &ix.data, RENT).unwrap() {
        Transition::Sell(p) => p,
        Transition::Buy(_) => panic!("a listing was planned as a purchase"),
    };
    assert_eq!(plan.metadata.lamports, PRICE);
    assert_eq!(plan.metadata.payment, key(SELLER_PAY));
    assert_eq!(plan.metadata.seller, key(SELLER));
    assert_eq!(plan.metadata.item, key(CUSTODY));
    assert_eq!(plan.metadata.mint, key(MINT));
    assert_eq!(plan.record, ix.accounts[3].pubkey);
    assert_eq!(plan.space, 136);
    assert_eq!(plan.owner, program());

    let mut l = ledger();
    l.apply_sell(plan).unwrap();
    assert_eq!(amount(&l, CUSTODY), 1);
    let rec = stored(&l, ix.accounts[3].pubkey).unwrap();
    assert_eq!(rec.lamports, RENT);
    let m = ItemMetadata::try_from_slice(&rec.data).unwrap();
    assert_eq!(m.lamports, PRICE);
    assert_eq!(stored(&l, key(SELLER)).unwrap().lamports, 10_000_000_000 - RENT);
}

#[test]
fn processor_buy() {
    let mut l = listed_ledger();
    let record = find_item_metadata_address(&key(MINT)).unwrap().0;
    let ix = instruction::buy(
        &key(BUYER), &key(BUYER_PAY), &key(BUYER_ITEM), &key(CUSTODY), &key(SELLER_PAY), &record, &custody_authority(),
    );
    let plan = match instruction_processor(&program(), &buy_accounts(&l, program()), &ix.data, RENT).unwrap() {
        Transition::Buy(p) => p,
        Transition::Sell(_) => panic!("a purchase was planned as a listing"),
    };
    assert_eq!(plan.payment.amount, PRICE);
    assert_eq!(plan.item.amount, 1);
    l.apply_buy(&plan).unwrap();

    assert_eq!(amount(&l, CUSTODY), 0);
    assert_eq!(amount(&l, BUYER_ITEM), 1);
    assert_eq!(amount(&l, BUYER_PAY), 0);
    assert_eq!(amount(&l, SELLER_PAY), PRICE);
    assert!(stored(&l, record).is_none());
    assert_eq!(stored(&l, key(BUYER)).unwrap().lamports, 10_000_000_000 + RENT);
}

#[test]
fn second_listing_is_refused() {
    let mut l = listed_ledger();
    let record = find_item_metadata_address(&key(MINT)).unwrap().0;
    let before = stored(&l, record).unwrap().data.clone();
    let mut args = sell_args();
    args.lamports = Some(1);
    let plan = sell(&program(), &sell_accounts(mint_data(None, 1, 0)), args, RENT).unwrap();
    assert_eq!(l.apply_sell(plan), Err(ProgramError::Custom(ACCOUNT_ALREADY_IN_USE)));
    assert_eq!(stored(&l, record).unwrap().data, before);
    assert_eq!(l.storage.len(), 3);
}

#[test]
fn purchase_without_funds_changes_nothing() {
    let mut l = listed_ledger();
    l.balances[2].amount = PRICE - 1;
    let plan = buy(&program(), &buy_accounts(&l, program())).unwrap();
    assert_eq!(l.apply_buy(&plan), Err(ProgramError::Custom(INSUFFICIENT_FUNDS)));
    assert_eq!(amount(&l, BUYER_PAY), PRICE - 1);
    assert_eq!(amount(&l, SELLER_PAY), 0);
    assert_eq!(amount(&l, CUSTODY), 1);
    assert_eq!(amount(&l, BUYER_ITEM), 0);
    assert_eq!(l.storage.len(), 3);
}

#[test]
fn non_qualifying_assets_are_refused() {
    for mint in [mint_data(None, 2, 0), mint_data(None, 1, 9), mint_data(Some(key(SELLER)), 1, 0), mint_data(None, 0, 0)] {
        assert_eq!(sell(&program(), &sell_accounts(mint), sell_args(), RENT).unwrap_err(), ProgramError::InvalidAccountData);
    }
}

#[test]
fn forged_record_is_refused() {
    let l = listed_ledger();
    assert_eq!(buy(&program(), &buy_accounts(&l, key(42))).unwrap_err(), ProgramError::IllegalOwner);
}

#[test]
fn sell_error_kinds() {
    let accounts = sell_accounts(mint_data(None, 1, 0));
    assert_eq!(sell(&program(), &accounts[..5], sell_args(), RENT).unwrap_err(), ProgramError::NotEnoughAccountKeys);

    let mut wrong_owner = sell_accounts(mint_data(None, 1, 0));
    wrong_owner[4].owner = key(42);
    assert_eq!(sell(&program(), &wrong_owner, sell_args(), RENT).unwrap_err(), ProgramError::IncorrectProgramId);

    let mut short_mint = sell_accounts(mint_data(None, 1, 0));
    short_mint[2].data.pop();
    assert_eq!(sell(&program(), &short_mint, sell_args(), RENT).unwrap_err(), ProgramError::InvalidAccountData);

    let mut uninit_mint = sell_accounts(mint_data(None, 1, 0));
    uninit_mint[2].data[45] = 0;
    assert_eq!(sell(&program(), &uninit_mint, sell_args(), RENT).unwrap_err(), ProgramError::UninitializedAccount);

    let mut uninit_pay = sell_accounts(mint_data(None, 1, 0));
    uninit_pay[4].data[108] = 0;
    assert_eq!(sell(&program(), &uninit_pay, sell_args(), RENT).unwrap_err(), ProgramError::UninitializedAccount);

    let mut not_in_custody = sell_accounts(mint_data(None, 1, 0));
    not_in_custody[1].data = account_data(key(MINT), key(SELLER), 1);
    assert_eq!(sell(&program(), &not_in_custody, sell_args(), RENT).unwrap_err(), ProgramError::InvalidAccountData);

    let no_price = Args { lamports: None, metadata_bump: Some(1) };
    assert_eq!(sell(&program(), &accounts, no_price, RENT).unwrap_err(), ProgramError::InvalidInstructionData);
    assert_eq!(sell(&program(), &accounts[..2], no_price, RENT).unwrap_err(), ProgramError::InvalidInstructionData);
    let no_bump = Args { lamports: Some(PRICE), metadata_bump: None };
    assert_eq!(sell(&program(), &[], no_bump, RENT).unwrap_err(), ProgramError::InvalidInstructionData);

    let mut wrong_record = sell_accounts(mint_data(None, 1, 0));
    wrong_record[3].key = key(43);
    assert_eq!(sell(&program(), &wrong_record, sell_args(), RENT).unwrap_err(), ProgramError::InvalidSeeds);

    let mut wrong_bump = sell_args();
    wrong_bump.metadata_bump = Some(wrong_bump.metadata_bump.unwrap().wrapping_sub(1));
    assert_eq!(sell(&program(), &accounts, wrong_bump, RENT).unwrap_err(), ProgramError::InvalidSeeds);
}

#[test]
fn buy_error_kinds() {
    let l = listed_ledger();
    let accounts = buy_accounts(&l, program());
    assert_eq!(buy(&program(), &accounts[..7]).unwrap_err(), ProgramError::NotEnoughAccountKeys);

    let mut bad_record = buy_accounts(&l, program());
    bad_record[5].data.push(0);
    assert_eq!(buy(&program(), &bad_record).unwrap_err(), ProgramError::BorshIoError);

    let mut moved_record = buy_accounts(&l, program());
    moved_record[5].key = key(43);
    assert_eq!(buy(&program(), &moved_record).unwrap_err(), ProgramError::InvalidSeeds);

    let mut bad_token = buy_accounts(&l, program());
    bad_token[6].key = key(42);
    assert_eq!(buy(&program(), &bad_token).unwrap_err(), ProgramError::IncorrectProgramId);

    let mut rich = buy_accounts(&l, program());
    rich[0].lamports = u64::MAX;
    assert_eq!(buy(&program(), &rich).unwrap_err(), ProgramError::ArithmeticOverflow);
}

#[test]
fn listing_with_wrong_record_address_is_refused() {
    let mut l = ledger();
    let mut plan = sell(&program(), &sell_accounts(mint_data(None, 1, 0)), sell_args(), RENT).unwrap();
    plan.record = key(43);
    assert_eq!(l.apply_sell(plan), Err(ProgramError::MissingRequiredSignature));
    assert_eq!(l.storage.len(), 2);
}
