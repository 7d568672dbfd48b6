//! The packed Cylinder-Head-Sector (CHS) address.
//!
//! CHS is the legacy three-coordinate disk addressing scheme. On disk it
//! occupies three bytes:
//!
//! - byte 0: the Head (0–255), stored verbatim;
//! - byte 1: the upper two bits hold the high bits of the 10-bit Cylinder,
//!   the lower six bits hold the Sector (1–63);
//! - byte 2: the low eight bits of the 10-bit Cylinder.
//!
//! The two sub-fields sharing byte 1 never overlap: the cylinder-high mask
//! is `0xC0` and the sector mask is `0x3F`. Only masked accessors are
//! exposed, so a mutation of one sub-field always preserves the other.

use vstd::prelude::*;

use crate::MbrError;

verus! {

/// Mask selecting the cylinder-high bits within the shared byte.
pub const CYLINDER_MASK: u8 = 0xc0;

/// Mask selecting the sector bits within the shared byte.
pub const SECTOR_MASK: u8 = 0x3f;

/// The cylinder value packed into the shared byte and the low byte:
/// the two high bits of `packed` become bits 8–9, `low` supplies bits 0–7.
pub open spec fn cylinder_of(packed: u8, low: u8) -> u16 {
    (((packed & CYLINDER_MASK) as u16) << 2) | (low as u16)
}

/// The sector value packed into the shared byte: its low six bits.
pub open spec fn sector_of(packed: u8) -> u8 {
    packed & SECTOR_MASK
}

/// A packed CHS address: three raw bytes, as they appear on disk.
///
/// Every byte pattern is a valid (if semantically odd) CHS value, so
/// construction and mutation never fail. The view of a value is the
/// sequence of its three on-disk bytes.
#[derive(Clone, Copy, Debug, PartialEq, Eq, Structural)]
pub struct CylinderHeadSectorAddress {
    head: u8,
    packed: u8,
    cylinder_low: u8,
}

impl View for CylinderHeadSectorAddress {
    type V = Seq<u8>;

    closed spec fn view(&self) -> Seq<u8> {
        seq![self.head, self.packed, self.cylinder_low]
    }
}

/// The view of a CHS address always holds exactly its three bytes.
pub broadcast proof fn lemma_chs_view_len(c: CylinderHeadSectorAddress)
    ensures
        (#[trigger] c@).len() == 3,
{
}

/// `c` holds exactly the first three bytes of `b`.
pub open spec fn chs_decoded(b: Seq<u8>, c: CylinderHeadSectorAddress) -> bool
    recommends
        b.len() >= 3,
{
    c@ == seq![b[0], b[1], b[2]]
}

impl CylinderHeadSectorAddress {
    /// The all-zero CHS address.
    pub fn empty() -> (r: Self)
        ensures
            r@ == seq![0u8, 0u8, 0u8],
    {
        CylinderHeadSectorAddress { head: 0, packed: 0, cylinder_low: 0 }
    }

    /// Decode a CHS address from the first three bytes of a buffer.
    ///
    /// Fails with `TruncatedInput`, reading nothing, when fewer than three
    /// bytes are available.
    pub fn read_from_bytes(bytes: &[u8]) -> (r: Result<Self, MbrError>)
        ensures
            bytes@.len() >= 3 ==> (r matches Ok(c) && chs_decoded(bytes@, c)),
            bytes@.len() < 3 ==> r == Err::<Self, MbrError>(MbrError::TruncatedInput),
    {
        if bytes.len() < 3 {
            return Err(MbrError::TruncatedInput);
        }
        let head = *vstd::slice::slice_index_get(bytes, 0);
        let packed = *vstd::slice::slice_index_get(bytes, 1);
        let cylinder_low = *vstd::slice::slice_index_get(bytes, 2);
        Ok(CylinderHeadSectorAddress { head, packed, cylinder_low })
    }

    /// Encode the CHS address as its three on-disk bytes.
    pub fn write_to_bytes(&self) -> (r: [u8; 3])
        ensures
            r@ == self@,
    {
        [self.head, self.packed, self.cylinder_low]
    }

    /// Get the Cylinder out of a packed CHS address. Always in `[0, 1023]`.
    pub fn get_cylinder(&self) -> (c: u16)
        ensures
            c == cylinder_of(self@[1], self@[2]),
            c <= 1023,
    {
        let packed = self.packed;
        let low = self.cylinder_low;
        proof {
            assert(((((packed & 0xc0u8) as u16) << 2) | (low as u16)) <= 1023) by (bit_vector);
        }
        (((packed & CYLINDER_MASK) as u16) << 2) | (low as u16)
    }

    /// Get the Head out of a packed CHS address.
    pub fn get_head(&self) -> (h: u8)
        ensures
            h == self@[0],
    {
        self.head
    }

    /// Get the Sector out of a packed CHS address. Always in `[0, 63]`.
    pub fn get_sector(&self) -> (s: u8)
        ensures
            s == sector_of(self@[1]),
            s <= 63,
    {
        let packed = self.packed;
        proof {
            assert((packed & 0x3fu8) <= 63) by (bit_vector);
        }
        self.packed & SECTOR_MASK
    }

    /// Set the Cylinder in a packed CHS address.
    ///
    /// Writes only the cylinder-high bits of the shared byte and the low
    /// byte; the sector bits and the head byte are untouched. A value
    /// above 1023 is silently truncated to its low ten bits, matching the
    /// fixed-width on-disk field.
    pub fn set_cylinder(&mut self, cylinder: u16)
        ensures
            final(self)@.len() == 3,
            final(self)@[0] == old(self)@[0],
            final(self)@[1] == ((((cylinder >> 2) as u8) & CYLINDER_MASK) | (old(self)@[1]
                & SECTOR_MASK)),
            final(self)@[2] == cylinder as u8,
            sector_of(final(self)@[1]) == sector_of(old(self)@[1]),
            cylinder_of(final(self)@[1], final(self)@[2]) == cylinder & 0x3ff,
            cylinder <= 1023 ==> cylinder_of(final(self)@[1], final(self)@[2]) == cylinder,
    {
        let old_packed = self.packed;
        let high_cylinder: u8 = (#[verifier::truncate] ((cylinder >> 2) as u8)) & CYLINDER_MASK;
        self.packed = high_cylinder | (old_packed & SECTOR_MASK);
        self.cylinder_low = #[verifier::truncate] (cylinder as u8);
        proof {
            let p = self.packed;
            let l = self.cylinder_low;
            assert((p & 0x3fu8) == (old_packed & 0x3fu8) && ((((p & 0xc0u8) as u16) << 2) | (
            l as u16)) == (cylinder & 0x3ff)) by (bit_vector)
                requires
                    p == ((((cylinder >> 2) as u8) & 0xc0u8) | (old_packed & 0x3fu8)),
                    l == cylinder as u8,
            ;
            assert(cylinder <= 1023 ==> (cylinder & 0x3ff) == cylinder) by (bit_vector);
        }
    }

    /// Set the Head in a packed CHS address.
    pub fn set_head(&mut self, head: u8)
        ensures
            final(self)@ == old(self)@.update(0, head),
    {
        self.head = head;
        proof {
            assert(self@ =~= old(self)@.update(0, head));
        }
    }

    /// Set the Sector in a packed CHS address.
    ///
    /// Writes only the sector bits of the shared byte; the cylinder bits
    /// and the other two bytes are untouched. A value above 63 is silently
    /// truncated to its low six bits.
    pub fn set_sector(&mut self, sector: u8)
        ensures
            final(self)@.len() == 3,
            final(self)@[0] == old(self)@[0],
            final(self)@[1] == ((old(self)@[1] & CYLINDER_MASK) | (sector & SECTOR_MASK)),
            final(self)@[2] == old(self)@[2],
            sector_of(final(self)@[1]) == sector & 0x3f,
            cylinder_of(final(self)@[1], final(self)@[2]) == cylinder_of(
                old(self)@[1],
                old(self)@[2],
            ),
    {
        let old_packed = self.packed;
        self.packed = (old_packed & CYLINDER_MASK) | (sector & SECTOR_MASK);
        proof {
            let p = self.packed;
            assert((p & 0x3fu8) == (sector & 0x3fu8) && (p & 0xc0u8) == (old_packed & 0xc0u8))
                by (bit_vector)
                requires
                    p == ((old_packed & 0xc0u8) | (sector & 0x3fu8)),
            ;
        }
    }
}

/// Law: a CHS address decoded from a three-byte buffer encodes back to that
/// buffer exactly. In particular the head byte, the cylinder-low byte, and
/// the sector bits of the shared byte all survive the round trip.
pub proof fn lemma_chs_encode_of_decoded(b: Seq<u8>, c: CylinderHeadSectorAddress)
    requires
        b.len() == 3,
        chs_decoded(b, c),
    ensures
        c@ == b,
        c@[0] == b[0],
        c@[2] == b[2],
        sector_of(c@[1]) == sector_of(b[1]),
{
    assert(c@ =~= b);
}

/// Law: writing a cylinder value into the packed byte pair and reading it
/// back yields the value for every cylinder in `[0, 1023]` (and its low
/// ten bits otherwise), while the sector bits of the shared byte are
/// untouched — whatever they held before.
pub proof fn lemma_set_cylinder_round_trip(packed: u8, cylinder: u16)
    ensures
        cylinder_of(
            (((cylinder >> 2) as u8) & CYLINDER_MASK) | (packed & SECTOR_MASK),
            cylinder as u8,
        ) == cylinder & 0x3ff,
        cylinder <= 1023 ==> cylinder_of(
            (((cylinder >> 2) as u8) & CYLINDER_MASK) | (packed & SECTOR_MASK),
            cylinder as u8,
        ) == cylinder,
        sector_of((((cylinder >> 2) as u8) & CYLINDER_MASK) | (packed & SECTOR_MASK)) == sector_of(
            packed,
        ),
{
    assert(cylinder_of(
        (((cylinder >> 2) as u8) & 0xc0u8) | (packed & 0x3fu8),
        cylinder as u8,
    ) == (cylinder & 0x3ff) && sector_of((((cylinder >> 2) as u8) & 0xc0u8) | (packed & 0x3fu8))
        == sector_of(packed) && (cylinder <= 1023 ==> (cylinder & 0x3ff) == cylinder))
        by (bit_vector);
}

/// Law: the view determines the value. Two CHS addresses with the same
/// three on-disk bytes are equal.
pub proof fn lemma_chs_view_injective(a: CylinderHeadSectorAddress, b: CylinderHeadSectorAddress)
    requires
        a@ == b@,
    ensures
        a == b,
{
    assert(a@[0] == b@[0]);
    assert(a@[1] == b@[1]);
    assert(a@[2] == b@[2]);
}

} // verus!
