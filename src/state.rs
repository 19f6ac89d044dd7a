use vstd::prelude::*;

use crate::codec::{le_u64, read_bytes32, read_u64, u64_le, write_bytes32, write_u64};
use crate::Key;

verus! {

/// The sale record of one listed asset.
#[derive(Clone, Copy, Debug)]
pub struct ItemMetadata {
    /// Seller address
    pub seller: Key,
    /// Identity of the asset for sale
    pub mint: Key,
    /// Asking price
    pub lamports: u64,
    /// Account that receives the payment
    pub payment: Key,
    /// Custodial account that holds the asset
    pub item: Key,
}

/// Bytes of a stored sale record.
pub const ITEM_METADATA_LEN: usize = 136;

/// The stored form of a record: its fields in order, the price little-endian.
pub open spec fn encode_metadata(m: ItemMetadata) -> Seq<u8> {
    m.seller@ + m.mint@ + u64_le(m.lamports) + m.payment@ + m.item@
}

impl ItemMetadata {
    pub fn to_vec(&self) -> (r: Vec<u8>)
        ensures
            r@ == encode_metadata(*self),
            r@.len() == ITEM_METADATA_LEN,
    {
        let mut out: Vec<u8> = Vec::new();
        write_bytes32(&mut out, &self.seller.bytes);
        write_bytes32(&mut out, &self.mint.bytes);
        write_u64(&mut out, self.lamports);
        write_bytes32(&mut out, &self.payment.bytes);
        write_bytes32(&mut out, &self.item.bytes);
        out
    }

    /// Reads a stored record; it must fill `data` exactly.
    pub fn try_from_slice(data: &[u8]) -> (r: Option<ItemMetadata>)
        ensures
            match r {
                Some(m) => encode_metadata(m) == data@,
                None => data@.len() != ITEM_METADATA_LEN,
            },
    {
        if data.len() != ITEM_METADATA_LEN {
            return None;
        }
        let m = ItemMetadata {
            seller: Key::new(read_bytes32(data, 0)),
            mint: Key::new(read_bytes32(data, 32)),
            lamports: read_u64(data, 64),
            payment: Key::new(read_bytes32(data, 72)),
            item: Key::new(read_bytes32(data, 104)),
        };
        proof {
            let s = data@.subrange(64, 72);
            assert(u64_le(le_u64(s)) =~= s) by {
                lemma_le_bytes(s);
            }
        }
        assert(encode_metadata(m) =~= data@);
        Some(m)
    }
}

proof fn lemma_le_bytes(s: Seq<u8>)
    requires
        s.len() == 8,
    ensures
        u64_le(le_u64(s)) =~= s,
{
    let b0 = s[0];
    let b1 = s[1];
    let b2 = s[2];
    let b3 = s[3];
    let b4 = s[4];
    let b5 = s[5];
    let b6 = s[6];
    let b7 = s[7];
    let v = le_u64(s);
    assert(v == (b0 as u64) | ((b1 as u64) << 8u64) | ((b2 as u64) << 16u64) | ((b3 as u64) << 24u64)
        | ((b4 as u64) << 32u64) | ((b5 as u64) << 40u64) | ((b6 as u64) << 48u64) | ((b7 as u64) << 56u64));
    assert(v as u8 == b0 && (v >> 8u64) as u8 == b1 && (v >> 16u64) as u8 == b2 && (v >> 24u64) as u8 == b3
        && (v >> 32u64) as u8 == b4 && (v >> 40u64) as u8 == b5 && (v >> 48u64) as u8 == b6
        && (v >> 56u64) as u8 == b7) by (bit_vector)
        requires
            v == (b0 as u64) | ((b1 as u64) << 8u64) | ((b2 as u64) << 16u64) | ((b3 as u64) << 24u64)
                | ((b4 as u64) << 32u64) | ((b5 as u64) << 40u64) | ((b6 as u64) << 48u64) | ((b7 as u64) << 56u64),
    ;
}

} // verus!
