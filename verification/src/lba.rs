//! The Logical Block Address (LBA).
//!
//! LBA is the linear 32-bit sector index that superseded CHS addressing.
//! The MBR stores each LBA field as four little-endian bytes; decoding and
//! encoding both use that byte order, so the two are mutual inverses.

use vstd::prelude::*;

use crate::MbrError;

verus! {

/// The 32-bit value stored little-endian in four bytes:
/// `b0` is the least significant byte, `b3` the most significant.
pub open spec fn u32_from_le_parts(b0: u8, b1: u8, b2: u8, b3: u8) -> u32 {
    (b0 as u32) | ((b1 as u32) << 8) | ((b2 as u32) << 16) | ((b3 as u32) << 24)
}

/// The 32-bit value stored little-endian in the first four bytes of `b`.
pub open spec fn u32_from_le_seq(b: Seq<u8>) -> u32
    recommends
        b.len() >= 4,
{
    u32_from_le_parts(b[0], b[1], b[2], b[3])
}

/// The four little-endian bytes of a 32-bit value, least significant first.
pub open spec fn u32_to_le_seq(v: u32) -> Seq<u8> {
    seq![
        (v & 0xff) as u8,
        ((v >> 8) & 0xff) as u8,
        ((v >> 16) & 0xff) as u8,
        ((v >> 24) & 0xff) as u8,
    ]
}

/// A logical block address: an unsigned 32-bit linear sector index.
///
/// The view of a value is the index itself.
#[derive(Clone, Copy, Debug, PartialEq, Eq, Structural)]
pub struct LogicalBlockAddress {
    data: u32,
}

impl View for LogicalBlockAddress {
    type V = u32;

    closed spec fn view(&self) -> u32 {
        self.data
    }
}

impl LogicalBlockAddress {
    /// The zero block address.
    pub fn empty() -> (r: Self)
        ensures
            r@ == 0,
    {
        LogicalBlockAddress { data: 0 }
    }

    /// Decode an LBA from the head of a buffer, advancing the buffer past
    /// the four bytes consumed.
    ///
    /// Fails with `TruncatedInput`, consuming nothing, when fewer than
    /// four bytes remain.
    pub fn read_from_bytes(bytes: &mut &[u8]) -> (r: Result<Self, MbrError>)
        ensures
            (*old(bytes))@.len() >= 4 ==> {
                &&& r matches Ok(l) && l@ == u32_from_le_seq((*old(bytes))@)
                &&& (*final(bytes))@ == (*old(bytes))@.skip(4)
            },
            (*old(bytes))@.len() < 4 ==> {
                &&& r == Err::<Self, MbrError>(MbrError::TruncatedInput)
                &&& *final(bytes) == *old(bytes)
            },
    {
        let s: &[u8] = *bytes;
        if s.len() < 4 {
            return Err(MbrError::TruncatedInput);
        }
        let b0 = *vstd::slice::slice_index_get(s, 0);
        let b1 = *vstd::slice::slice_index_get(s, 1);
        let b2 = *vstd::slice::slice_index_get(s, 2);
        let b3 = *vstd::slice::slice_index_get(s, 3);
        *bytes = vstd::slice::slice_subrange(s, 4, s.len());
        proof {
            assert((*bytes)@ =~= s@.skip(4));
        }
        let data = (b0 as u32) | ((b1 as u32) << 8) | ((b2 as u32) << 16) | ((b3 as u32) << 24);
        Ok(LogicalBlockAddress { data })
    }

    /// Get the block address.
    pub fn get_address(&self) -> (a: u32)
        ensures
            a == self@,
    {
        self.data
    }

    /// Store a block address.
    pub fn set_address(&mut self, address: u32)
        ensures
            final(self)@ == address,
    {
        self.data = address;
    }

    /// Encode the block address as its four little-endian on-disk bytes.
    pub fn write_to_bytes(&self) -> (r: [u8; 4])
        ensures
            r@ == u32_to_le_seq(self@),
    {
        let v = self.data;
        let r = [(v & 0xff) as u8, ((v >> 8) & 0xff) as u8, ((v >> 16) & 0xff) as u8, ((v >> 24)
            & 0xff) as u8];
        proof {
            assert(r@ =~= u32_to_le_seq(v));
        }
        r
    }
}

/// Law: encoding a 32-bit value little-endian and decoding the four bytes
/// gives the value back, for every value.
pub proof fn lemma_u32_le_round_trip(v: u32)
    ensures
        u32_to_le_seq(v).len() == 4,
        u32_from_le_seq(u32_to_le_seq(v)) == v,
{
    assert(u32_from_le_parts(
        (v & 0xff) as u8,
        ((v >> 8) & 0xff) as u8,
        ((v >> 16) & 0xff) as u8,
        ((v >> 24) & 0xff) as u8,
    ) == v) by (bit_vector);
}

/// Law: decoding four little-endian bytes and encoding the value again
/// reproduces the bytes, for every four bytes.
pub proof fn lemma_u32_le_bytes_round_trip(b0: u8, b1: u8, b2: u8, b3: u8)
    ensures
        u32_to_le_seq(u32_from_le_parts(b0, b1, b2, b3)) == seq![b0, b1, b2, b3],
{
    let v = u32_from_le_parts(b0, b1, b2, b3);
    assert(((v & 0xff) as u8) == b0 && (((v >> 8) & 0xff) as u8) == b1 && (((v >> 16)
        & 0xff) as u8) == b2 && (((v >> 24) & 0xff) as u8) == b3) by (bit_vector)
        requires
            v == u32_from_le_parts(b0, b1, b2, b3),
    ;
    assert(u32_to_le_seq(v) =~= seq![b0, b1, b2, b3]);
}

/// Law: the view determines the value. Two LBAs with the same index are
/// equal.
pub proof fn lemma_lba_view_injective(a: LogicalBlockAddress, b: LogicalBlockAddress)
    requires
        a@ == b@,
    ensures
        a == b,
{
}

} // verus!
