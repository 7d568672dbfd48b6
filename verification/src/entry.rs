//! The 16-byte partition entry record.
//!
//! One entry describes a single partition. Its on-disk layout is:
//!
//! | offset | length | field |
//! |---|---|---|
//! | 0 | 1 | status byte |
//! | 1 | 3 | CHS address of the first absolute sector |
//! | 4 | 1 | partition type byte |
//! | 5 | 3 | CHS address of the last absolute sector |
//! | 8 | 4 | LBA of the first absolute sector, little-endian |
//! | 12 | 4 | length in sectors, little-endian |
//!
//! The CHS fields are legacy and advisory: they may be inconsistent with
//! the LBA fields on disk and are retained only for compatibility, never
//! treated as authoritative. An all-zero entry (type byte `0x00` and zero
//! length) denotes an unused slot.

use vstd::prelude::*;

use crate::MbrError;
use crate::chsa::CylinderHeadSectorAddress;
use crate::lba::LogicalBlockAddress;
use crate::lba::u32_from_le_parts;
use crate::lba::u32_to_le_seq;
use crate::lba::lemma_u32_le_round_trip;
use crate::lba::lemma_u32_le_bytes_round_trip;
use crate::part::PartitionStatus;
use crate::part::status_byte_round_trips;
use crate::part::status_from_byte;
use crate::part::status_to_byte;

verus! {

broadcast use crate::chsa::lemma_chs_view_len;

/// The on-disk size of one partition entry, in bytes.
pub const ENTRY_SIZE: u8 = 16;

/// A partition entry in the MBR table.
///
/// Constructed empty as a template, or decoded from 16 bytes. The four
/// entries making up a table are positionally fixed and never reordered.
#[derive(Clone, Copy, Debug, PartialEq, Eq, Structural)]
pub struct PartitionEntry {
    status: PartitionStatus,
    chs_first_absolute_sector: CylinderHeadSectorAddress,
    partition_type: u8,
    chs_last_absolute_sector: CylinderHeadSectorAddress,
    lba_first_absolute_sector: LogicalBlockAddress,
    lba_length: LogicalBlockAddress,
}

/// `e` holds exactly what the first 16 bytes of `b` describe.
pub open spec fn entry_decoded(b: Seq<u8>, e: PartitionEntry) -> bool
    recommends
        b.len() >= 16,
{
    &&& e.spec_status() == status_from_byte(b[0])
    &&& e.spec_chs_first()@ == seq![b[1], b[2], b[3]]
    &&& e.spec_partition_type() == b[4]
    &&& e.spec_chs_last()@ == seq![b[5], b[6], b[7]]
    &&& e.spec_lba_first()@ == u32_from_le_parts(b[8], b[9], b[10], b[11])
    &&& e.spec_lba_length()@ == u32_from_le_parts(b[12], b[13], b[14], b[15])
}

impl PartitionEntry {
    /// The status of the described partition.
    pub closed spec fn spec_status(self) -> PartitionStatus {
        self.status
    }

    /// The CHS address of the first absolute sector.
    pub closed spec fn spec_chs_first(self) -> CylinderHeadSectorAddress {
        self.chs_first_absolute_sector
    }

    /// The raw partition type byte.
    pub closed spec fn spec_partition_type(self) -> u8 {
        self.partition_type
    }

    /// The CHS address of the last absolute sector.
    pub closed spec fn spec_chs_last(self) -> CylinderHeadSectorAddress {
        self.chs_last_absolute_sector
    }

    /// The LBA of the first absolute sector.
    pub closed spec fn spec_lba_first(self) -> LogicalBlockAddress {
        self.lba_first_absolute_sector
    }

    /// The length of the partition in sectors.
    pub closed spec fn spec_lba_length(self) -> LogicalBlockAddress {
        self.lba_length
    }

    /// The 16 bytes the entry encodes as.
    pub open spec fn spec_bytes(self) -> Seq<u8> {
        seq![status_to_byte(self.spec_status())] + self.spec_chs_first()@ + seq![
            self.spec_partition_type(),
        ] + self.spec_chs_last()@ + u32_to_le_seq(self.spec_lba_first()@) + u32_to_le_seq(
            self.spec_lba_length()@,
        )
    }

    /// The canonical unused-slot entry: status `NotBootable`, zeroed CHS
    /// addresses, type byte `0x00`, and both LBA fields zero.
    pub fn empty() -> (r: Self)
        ensures
            r.spec_status() == PartitionStatus::NotBootable,
            r.spec_chs_first()@ == seq![0u8, 0u8, 0u8],
            r.spec_partition_type() == 0,
            r.spec_chs_last()@ == seq![0u8, 0u8, 0u8],
            r.spec_lba_first()@ == 0,
            r.spec_lba_length()@ == 0,
            r.spec_bytes() == Seq::new(16, (|i: int| 0u8)),
    {
        let r = PartitionEntry {
            status: PartitionStatus::NotBootable,
            chs_first_absolute_sector: CylinderHeadSectorAddress::empty(),
            partition_type: 0,
            chs_last_absolute_sector: CylinderHeadSectorAddress::empty(),
            lba_first_absolute_sector: LogicalBlockAddress::empty(),
            lba_length: LogicalBlockAddress::empty(),
        };
        proof {
            assert((0u32 & 0xff) as u8 == 0u8 && ((0u32 >> 8) & 0xff) as u8 == 0u8 && ((0u32 >> 16)
                & 0xff) as u8 == 0u8 && ((0u32 >> 24) & 0xff) as u8 == 0u8) by (bit_vector);
            assert(r.spec_bytes() =~= Seq::new(16, (|i: int| 0u8)));
        }
        r
    }

    /// The status of the described partition.
    pub fn get_status(&self) -> (r: PartitionStatus)
        ensures
            r == self.spec_status(),
    {
        self.status
    }

    /// The CHS address of the first absolute sector.
    pub fn get_chs_first(&self) -> (r: CylinderHeadSectorAddress)
        ensures
            r == self.spec_chs_first(),
    {
        self.chs_first_absolute_sector
    }

    /// The raw partition type byte.
    pub fn get_partition_type(&self) -> (r: u8)
        ensures
            r == self.spec_partition_type(),
    {
        self.partition_type
    }

    /// The CHS address of the last absolute sector.
    pub fn get_chs_last(&self) -> (r: CylinderHeadSectorAddress)
        ensures
            r == self.spec_chs_last(),
    {
        self.chs_last_absolute_sector
    }

    /// The LBA of the first absolute sector.
    pub fn get_lba_first(&self) -> (r: LogicalBlockAddress)
        ensures
            r == self.spec_lba_first(),
    {
        self.lba_first_absolute_sector
    }

    /// The length of the partition in sectors.
    pub fn get_lba_length(&self) -> (r: LogicalBlockAddress)
        ensures
            r == self.spec_lba_length(),
    {
        self.lba_length
    }

    /// Decode a partition entry from the first 16 bytes of a buffer.
    ///
    /// Fails with `TruncatedInput`, reading nothing, when fewer than 16
    /// bytes are available.
    pub fn read_from_bytes(bytes: &[u8]) -> (r: Result<Self, MbrError>)
        ensures
            bytes@.len() >= 16 ==> (r matches Ok(e) && entry_decoded(bytes@, e)),
            bytes@.len() < 16 ==> r == Err::<Self, MbrError>(MbrError::TruncatedInput),
    {
        if bytes.len() < ENTRY_SIZE as usize {
            return Err(MbrError::TruncatedInput);
        }
        let status = PartitionStatus::from(*vstd::slice::slice_index_get(bytes, 0));
        let chs_first = match CylinderHeadSectorAddress::read_from_bytes(
            vstd::slice::slice_subrange(bytes, 1, 4),
        ) {
            Ok(c) => c,
            Err(e) => { return Err(e) },
        };
        let partition_type = *vstd::slice::slice_index_get(bytes, 4);
        let chs_last = match CylinderHeadSectorAddress::read_from_bytes(
            vstd::slice::slice_subrange(bytes, 5, 8),
        ) {
            Ok(c) => c,
            Err(e) => { return Err(e) },
        };
        let mut rest: &[u8] = vstd::slice::slice_subrange(bytes, 8, 16);
        let lba_first = match LogicalBlockAddress::read_from_bytes(&mut rest) {
            Ok(l) => l,
            Err(e) => { return Err(e) },
        };
        let lba_length = match LogicalBlockAddress::read_from_bytes(&mut rest) {
            Ok(l) => l,
            Err(e) => { return Err(e) },
        };
        Ok(
            PartitionEntry {
                status,
                chs_first_absolute_sector: chs_first,
                partition_type,
                chs_last_absolute_sector: chs_last,
                lba_first_absolute_sector: lba_first,
                lba_length,
            },
        )
    }

    /// Encode the entry as its 16 on-disk bytes.
    pub fn write_to_bytes(&self) -> (r: [u8; 16])
        ensures
            r@ == self.spec_bytes(),
    {
        let status_byte = self.status.to_byte();
        let chs_first = self.chs_first_absolute_sector.write_to_bytes();
        let chs_last = self.chs_last_absolute_sector.write_to_bytes();
        let lba_first = self.lba_first_absolute_sector.write_to_bytes();
        let lba_length = self.lba_length.write_to_bytes();
        let r: [u8; 16] = [
            status_byte,
            chs_first[0],
            chs_first[1],
            chs_first[2],
            self.partition_type,
            chs_last[0],
            chs_last[1],
            chs_last[2],
            lba_first[0],
            lba_first[1],
            lba_first[2],
            lba_first[3],
            lba_length[0],
            lba_length[1],
            lba_length[2],
            lba_length[3],
        ];
        proof {
            assert(r@ =~= self.spec_bytes());
        }
        r
    }
}

/// Law: the bytes an entry encodes as decode back to that entry — the
/// decode of an encode is the identity, for every reachable entry.
pub proof fn lemma_entry_decode_of_encoded(e: PartitionEntry)
    ensures
        e.spec_bytes().len() == 16,
        entry_decoded(e.spec_bytes(), e),
{
    let b = e.spec_bytes();
    lemma_u32_le_round_trip(e.spec_lba_first()@);
    lemma_u32_le_round_trip(e.spec_lba_length()@);
    assert(e.spec_chs_first()@ =~= seq![b[1], b[2], b[3]]);
    assert(e.spec_chs_last()@ =~= seq![b[5], b[6], b[7]]);
}

/// Law: a 16-byte buffer decodes to an entry that encodes back to the
/// buffer exactly, provided the status byte is one that round-trips (the
/// bare status enumeration cannot remember which unrecognized byte it
/// came from).
pub proof fn lemma_entry_encode_of_decoded(b: Seq<u8>, e: PartitionEntry)
    requires
        b.len() == 16,
        entry_decoded(b, e),
        status_byte_round_trips(b[0]),
    ensures
        e.spec_bytes() == b,
{
    lemma_u32_le_bytes_round_trip(b[8], b[9], b[10], b[11]);
    lemma_u32_le_bytes_round_trip(b[12], b[13], b[14], b[15]);
    assert(e.spec_bytes() =~= b);
}

/// Law: 16 bytes determine the entry. Two entries decoded from the same
/// buffer are equal.
pub proof fn lemma_entry_decoded_unique(b: Seq<u8>, e1: PartitionEntry, e2: PartitionEntry)
    requires
        b.len() >= 16,
        entry_decoded(b, e1),
        entry_decoded(b, e2),
    ensures
        e1 == e2,
{
    crate::chsa::lemma_chs_view_injective(e1.spec_chs_first(), e2.spec_chs_first());
    crate::chsa::lemma_chs_view_injective(e1.spec_chs_last(), e2.spec_chs_last());
    crate::lba::lemma_lba_view_injective(e1.spec_lba_first(), e2.spec_lba_first());
    crate::lba::lemma_lba_view_injective(e1.spec_lba_length(), e2.spec_lba_length());
}

} // verus!
