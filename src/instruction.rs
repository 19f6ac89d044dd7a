use vstd::prelude::*;

use crate::address::{derived, find_item_metadata_address, ITEM_METADATA_SEED, PROGRAM_ID};
use crate::codec::{le_u64, lemma_u64_round_trip, u64_le};
use crate::error::ProgramError;
use crate::token::TOKEN_PROGRAM_ID;
use crate::Key;

verus! {

/// The two requests the program answers.
#[derive(Clone, Copy, Debug, PartialEq, Eq, Structural)]
pub enum FixedPriceSaleInstruction {
    Sell,
    Buy,
}

/// Arguments of a request; a listing carries both, a purchase neither.
#[derive(Clone, Copy, Debug, PartialEq, Eq, Structural)]
pub struct Args {
    /// The asking price in the smallest payment unit.
    pub lamports: Option<u64>,
    pub metadata_bump: Option<u8>,
}

/// A request as it travels: the opcode byte and its arguments.
#[derive(Clone, Copy, Debug, PartialEq, Eq, Structural)]
pub struct Payload {
    pub instruction: u8,
    pub args: Args,
}

pub open spec fn option_u64_bytes(o: Option<u64>) -> Seq<u8> {
    match o {
        Some(v) => seq![1u8] + u64_le(v),
        None => seq![0u8],
    }
}

pub open spec fn option_u8_bytes(o: Option<u8>) -> Seq<u8> {
    match o {
        Some(v) => seq![1u8, v],
        None => seq![0u8],
    }
}

/// The wire form of a payload: opcode, then each optional field as a tag byte and its value.
pub open spec fn encode_payload(p: Payload) -> Seq<u8> {
    seq![p.instruction] + option_u64_bytes(p.args.lamports) + option_u8_bytes(p.args.metadata_bump)
}

/// The optional `u64` at `i` and the offset after it.
pub open spec fn option_u64_at(s: Seq<u8>, i: int) -> Option<(Option<u64>, int)> {
    if i >= s.len() {
        None
    } else if s[i] == 0 {
        Some((None, i + 1))
    } else if s[i] == 1 && i + 9 <= s.len() {
        Some((Some(le_u64(s.subrange(i + 1, i + 9))), i + 9))
    } else {
        None
    }
}

/// The optional `u8` at `i` and the offset after it.
pub open spec fn option_u8_at(s: Seq<u8>, i: int) -> Option<(Option<u8>, int)> {
    if i >= s.len() {
        None
    } else if s[i] == 0 {
        Some((None, i + 1))
    } else if s[i] == 1 && i + 2 <= s.len() {
        Some((Some(s[i + 1]), i + 2))
    } else {
        None
    }
}

/// The payload that `s` holds, with every byte read.
pub open spec fn decode_payload(s: Seq<u8>) -> Option<Payload> {
    if s.len() < 1 {
        None
    } else {
        match option_u64_at(s, 1) {
            Some((lamports, j)) => match option_u8_at(s, j) {
                Some((metadata_bump, k)) => if k == s.len() {
                    Some(Payload { instruction: s[0], args: Args { lamports, metadata_bump } })
                } else {
                    None
                },
                None => None,
            },
            None => None,
        }
    }
}

/// What a request's bytes ask for; bytes that do not decode are a malformed request.
pub open spec fn unpack_spec(s: Seq<u8>) -> Result<(FixedPriceSaleInstruction, Args), ProgramError> {
    match decode_payload(s) {
        None => Err(ProgramError::InvalidInstructionData),
        Some(p) => if p.instruction == 0 {
            Ok((FixedPriceSaleInstruction::Sell, p.args))
        } else if p.instruction == 1 {
            Ok((FixedPriceSaleInstruction::Buy, p.args))
        } else {
            Err(ProgramError::InvalidInstructionData)
        },
    }
}

pub open spec fn opcode_of(i: FixedPriceSaleInstruction) -> u8 {
    match i {
        FixedPriceSaleInstruction::Sell => 0,
        FixedPriceSaleInstruction::Buy => 1,
    }
}

/// Relies on borsh's `try_from_slice` for `(u8, Option<u64>, Option<u8>)`: fields in order, an
/// option as a tag byte (0 absent, 1 present, else an error) and its little-endian value, and an
/// error where bytes are left over.
#[verifier::external_body]
fn borsh_decode(data: &[u8]) -> (r: Option<(u8, Option<u64>, Option<u8>)>)
    ensures
        match (r, decode_payload(data@)) {
            (Some((i, l, b)), Some(p)) => p == (Payload { instruction: i, args: Args { lamports: l, metadata_bump: b } }),
            (None, None) => true,
            _ => false,
        },
{
    <(u8, Option<u64>, Option<u8>) as borsh::BorshDeserialize>::try_from_slice(data).ok()
}

/// Relies on `borsh::to_vec` for `(u8, Option<u64>, Option<u8>)`: the same wire form; writing
/// into a `Vec` does not fail.
#[verifier::external_body]
fn borsh_encode(instruction: u8, lamports: Option<u64>, metadata_bump: Option<u8>) -> (r: Vec<u8>)
    ensures
        r@ == encode_payload(Payload { instruction, args: Args { lamports, metadata_bump } }),
{
    match borsh::to_vec(&(instruction, lamports, metadata_bump)) {
        Ok(v) => v,
        Err(_) => Vec::new(),
    }
}

impl Payload {
    /// Reads a payload, every byte of `data` included.
    pub fn try_from_slice(data: &[u8]) -> (r: Option<Payload>)
        ensures
            r == decode_payload(data@),
    {
        match borsh_decode(data) {
            Some((instruction, lamports, metadata_bump)) => Some(
                Payload { instruction, args: Args { lamports, metadata_bump } },
            ),
            None => None,
        }
    }

    /// The wire form of the payload.
    pub fn to_vec(&self) -> (r: Vec<u8>)
        ensures
            r@ == encode_payload(*self),
    {
        borsh_encode(self.instruction, self.args.lamports, self.args.metadata_bump)
    }
}

impl FixedPriceSaleInstruction {
    /// Decodes a request: its kind and its arguments.
    pub fn unpack(instruction_data: &[u8]) -> (r: Result<(FixedPriceSaleInstruction, Args), ProgramError>)
        ensures
            r == unpack_spec(instruction_data@),
    {
        let payload = match Payload::try_from_slice(instruction_data) {
            Some(p) => p,
            None => return Err(ProgramError::InvalidInstructionData),
        };
        let instruction = if payload.instruction == 0 {
            FixedPriceSaleInstruction::Sell
        } else if payload.instruction == 1 {
            FixedPriceSaleInstruction::Buy
        } else {
            return Err(ProgramError::InvalidInstructionData);
        };
        Ok((instruction, payload.args))
    }
}

/// Decoding the encoding of a request gives the request back.
pub proof fn lemma_decode_encode(p: Payload)
    ensures
        decode_payload(encode_payload(p)) == Some(p),
{
    let s = encode_payload(p);
    match p.args.lamports {
        Some(v) => {
            lemma_u64_round_trip(v);
            assert(s.subrange(2, 10) =~= u64_le(v));
        },
        None => {},
    }
    match p.args.metadata_bump {
        Some(b) => {},
        None => {},
    }
}

/// Every request kind with any arguments survives encoding and decoding; a byte string
/// whose opcode is neither kind is refused as malformed.
pub proof fn lemma_unpack_round_trip(
    instruction: FixedPriceSaleInstruction,
    args: Args,
    s: Seq<u8>,
)
    ensures
        unpack_spec(encode_payload(Payload { instruction: opcode_of(instruction), args })) == Ok::<
            (FixedPriceSaleInstruction, Args),
            ProgramError,
        >((instruction, args)),
        s.len() >= 1 && s[0] > 1 ==> unpack_spec(s) == Err::<(FixedPriceSaleInstruction, Args), ProgramError>(
            ProgramError::InvalidInstructionData,
        ),
{
    lemma_decode_encode(Payload { instruction: opcode_of(instruction), args });
}

/// Identity of the host's storage allocator.
pub const SYSTEM_PROGRAM_ID: [u8; 32] = [
    0, 0, 0, 0, 0, 0, 0, 0, 0, 0, 0, 0, 0, 0, 0, 0,
    0, 0, 0, 0, 0, 0, 0, 0, 0, 0, 0, 0, 0, 0, 0, 0,
];

/// One account a request names, with what the request may do with it.
#[derive(Clone, Copy, Debug)]
pub struct AccountMeta {
    pub pubkey: Key,
    pub is_signer: bool,
    pub is_writable: bool,
}

/// A request addressed to a program.
#[derive(Clone, Debug)]
pub struct Instruction {
    pub program_id: Key,
    pub accounts: Vec<AccountMeta>,
    pub data: Vec<u8>,
}

pub open spec fn meta(k: Key, is_signer: bool, is_writable: bool) -> AccountMeta {
    AccountMeta { pubkey: k, is_signer, is_writable }
}

/// Builds a listing request for `mint` at `lamports`, or `None` where the record's address
/// cannot be derived.
pub fn sell(
    seller: &Key,
    program_item_wallet: &Key,
    mint: &Key,
    seller_payment_wallet: &Key,
    lamports: u64,
) -> (r: Option<Instruction>)
    ensures
        match r {
            Some(ix) => derived(ITEM_METADATA_SEED@, mint@) matches Some((addr, bump))
                && ix.program_id@ == PROGRAM_ID@
                && ix.data@ == encode_payload(
                    Payload { instruction: 0, args: Args { lamports: Some(lamports), metadata_bump: Some(bump) } },
                ) && ix.accounts@.len() == 6
                && ix.accounts@[0] == meta(*seller, true, false)
                && ix.accounts@[1] == meta(*program_item_wallet, false, false)
                && ix.accounts@[2] == meta(*mint, false, false)
                && ix.accounts@[3].pubkey@ == addr && !ix.accounts@[3].is_signer && ix.accounts@[3].is_writable
                && ix.accounts@[4] == meta(*seller_payment_wallet, false, false)
                && ix.accounts@[5].pubkey@ == SYSTEM_PROGRAM_ID@ && !ix.accounts@[5].is_signer
                && !ix.accounts@[5].is_writable,
            None => derived(ITEM_METADATA_SEED@, mint@) is None,
        },
{
    let (item_metadata_addr, item_metadata_bump) = match find_item_metadata_address(mint) {
        Some(found) => found,
        None => return None,
    };
    let payload = Payload {
        instruction: 0,
        args: Args { lamports: Some(lamports), metadata_bump: Some(item_metadata_bump) },
    };
    let accounts: Vec<AccountMeta> = vec![
        AccountMeta { pubkey: *seller, is_signer: true, is_writable: false },
        AccountMeta { pubkey: *program_item_wallet, is_signer: false, is_writable: false },
        AccountMeta { pubkey: *mint, is_signer: false, is_writable: false },
        AccountMeta { pubkey: item_metadata_addr, is_signer: false, is_writable: true },
        AccountMeta { pubkey: *seller_payment_wallet, is_signer: false, is_writable: false },
        AccountMeta { pubkey: Key::new(SYSTEM_PROGRAM_ID), is_signer: false, is_writable: false },
    ];
    Some(Instruction { program_id: Key::new(PROGRAM_ID), accounts, data: payload.to_vec() })
}

/// Builds a purchase request for the asset held in `program_item_wallet`.
pub fn buy(
    buyer: &Key,
    buyer_payment_wallet: &Key,
    buyer_item_wallet: &Key,
    program_item_wallet: &Key,
    seller_payment_wallet: &Key,
    item_metadata: &Key,
    program_item: &Key,
) -> (r: Instruction)
    ensures
        r.program_id@ == PROGRAM_ID@,
        r.data@ == encode_payload(Payload { instruction: 1, args: Args { lamports: None, metadata_bump: None } }),
        r.accounts@.len() == 8,
        r.accounts@[0] == meta(*buyer, true, true),
        r.accounts@[1] == meta(*buyer_payment_wallet, false, true),
        r.accounts@[2] == meta(*buyer_item_wallet, false, true),
        r.accounts@[3] == meta(*program_item_wallet, false, true),
        r.accounts@[4] == meta(*seller_payment_wallet, false, true),
        r.accounts@[5] == meta(*item_metadata, false, true),
        r.accounts@[6].pubkey@ == TOKEN_PROGRAM_ID@ && !r.accounts@[6].is_signer && !r.accounts@[6].is_writable,
        r.accounts@[7] == meta(*program_item, false, false),
{
    let payload = Payload { instruction: 1, args: Args { lamports: None, metadata_bump: None } };
    let accounts: Vec<AccountMeta> = vec![
        AccountMeta { pubkey: *buyer, is_signer: true, is_writable: true },
        AccountMeta { pubkey: *buyer_payment_wallet, is_signer: false, is_writable: true },
        AccountMeta { pubkey: *buyer_item_wallet, is_signer: false, is_writable: true },
        AccountMeta { pubkey: *program_item_wallet, is_signer: false, is_writable: true },
        AccountMeta { pubkey: *seller_payment_wallet, is_signer: false, is_writable: true },
        AccountMeta { pubkey: *item_metadata, is_signer: false, is_writable: true },
        AccountMeta { pubkey: Key::new(TOKEN_PROGRAM_ID), is_signer: false, is_writable: false },
        AccountMeta { pubkey: *program_item, is_signer: false, is_writable: false },
    ];
    Instruction { program_id: Key::new(PROGRAM_ID), accounts, data: payload.to_vec() }
}

} // verus!
