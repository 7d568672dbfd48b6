//! The 512-byte MBR sector container.
//!
//! A sector is exactly 512 bytes: offsets 0–445 hold bootstrap code that
//! is opaque to the codec, offsets 446–509 hold the four consecutive
//! 16-byte partition entries, and offsets 510–511 hold the fixed boot
//! signature `0x55 0xAA`. A buffer is a well-formed MBR sector only if
//! the signature matches; decoding refuses a buffer lacking it.
//!
//! The bootstrap bytes are passed through: decoding keeps them and
//! encoding writes them back unchanged, so a read-modify-write cycle
//! preserves the boot code. A sector constructed from scratch with
//! [`MbrSector::empty`] zero-fills them.

use vstd::prelude::*;

use crate::MBR_SIZE;
use crate::MbrError;
use crate::entry::PartitionEntry;
use crate::entry::entry_decoded;
use crate::entry::lemma_entry_decode_of_encoded;
use crate::entry::lemma_entry_encode_of_decoded;
use crate::part::status_byte_round_trips;

verus! {

broadcast use crate::chsa::lemma_chs_view_len;

/// The size of the bootstrap code area at the start of the sector.
pub const BOOTSTRAP_SIZE: u16 = 446;

/// The number of partition entries in the table.
pub const ENTRY_COUNT: u8 = 4;

/// The first byte of the boot signature, at offset 510.
pub const SIGNATURE_FIRST: u8 = 0x55;

/// The second byte of the boot signature, at offset 511.
pub const SIGNATURE_SECOND: u8 = 0xaa;

/// A decoded MBR sector: the pass-through bootstrap bytes and the four
/// positionally fixed partition entries.
#[derive(Debug)]
pub struct MbrSector {
    bootstrap: Vec<u8>,
    entries: Vec<PartitionEntry>,
}

impl MbrSector {
    /// The bootstrap code bytes, offsets 0–445 of the sector.
    pub closed spec fn spec_bootstrap(self) -> Seq<u8> {
        self.bootstrap@
    }

    /// The four partition entries, in table order.
    pub closed spec fn spec_entries(self) -> Seq<PartitionEntry> {
        self.entries@
    }

    /// Well-formedness: 446 bootstrap bytes and exactly four entries.
    /// Constructors establish this and methods preserve it.
    pub open spec fn wf(self) -> bool {
        &&& self.spec_bootstrap().len() == 446
        &&& self.spec_entries().len() == 4
    }

    /// The 512 bytes the sector encodes as: bootstrap code, the four
    /// entries at their fixed offsets, and the boot signature.
    pub open spec fn spec_bytes(self) -> Seq<u8>
        recommends
            self.wf(),
    {
        self.spec_bootstrap() + self.spec_entries()[0].spec_bytes()
            + self.spec_entries()[1].spec_bytes() + self.spec_entries()[2].spec_bytes()
            + self.spec_entries()[3].spec_bytes() + seq![SIGNATURE_FIRST, SIGNATURE_SECOND]
    }
}

/// The boot signature `0x55 0xAA` stands at offsets 510–511 of `b`.
pub open spec fn signature_valid(b: Seq<u8>) -> bool
    recommends
        b.len() == 512,
{
    b[510] == SIGNATURE_FIRST && b[511] == SIGNATURE_SECOND
}

/// `s` holds exactly what the 512-byte buffer `b` describes: the
/// bootstrap bytes verbatim, and each entry decoded from its fixed
/// 16-byte region.
pub open spec fn sector_decoded(b: Seq<u8>, s: MbrSector) -> bool
    recommends
        b.len() == 512,
{
    &&& s.wf()
    &&& s.spec_bootstrap() == b.subrange(0, 446)
    &&& forall|i: int|
        0 <= i < 4 ==> entry_decoded(
            b.subrange(446 + 16 * i, 446 + 16 * i + 16),
            #[trigger] s.spec_entries()[i],
        )
}

impl MbrSector {
    /// A sector constructed from scratch: zero-filled bootstrap code and
    /// four unused slots. Encoding it yields 510 zero bytes followed by
    /// the boot signature.
    pub fn empty() -> (r: Self)
        ensures
            r.wf(),
            r.spec_bootstrap() == Seq::new(446, (|i: int| 0u8)),
            forall|i: int|
                0 <= i < 4 ==> (#[trigger] r.spec_entries()[i]).spec_bytes() == Seq::new(
                    16,
                    (|j: int| 0u8),
                ),
    {
        let mut bootstrap: Vec<u8> = Vec::new();
        let mut i: usize = 0;
        while i < BOOTSTRAP_SIZE as usize
            invariant
                i <= 446,
                bootstrap@.len() == i,
                forall|j: int| 0 <= j < i ==> bootstrap@[j] == 0u8,
            decreases 446 - i,
        {
            bootstrap.push(0u8);
            i = i + 1;
        }
        let mut entries: Vec<PartitionEntry> = Vec::new();
        let slot = PartitionEntry::empty();
        entries.push(slot);
        entries.push(slot);
        entries.push(slot);
        entries.push(slot);
        let r = MbrSector { bootstrap, entries };
        proof {
            assert(r.spec_bootstrap() =~= Seq::new(446, (|i: int| 0u8)));
        }
        r
    }

    /// The bootstrap code bytes the sector carries.
    pub fn get_bootstrap(&self) -> (r: &Vec<u8>)
        ensures
            r@ == self.spec_bootstrap(),
    {
        &self.bootstrap
    }

    /// The partition entry in the given table slot.
    pub fn get_entry(&self, index: usize) -> (r: &PartitionEntry)
        requires
            self.wf(),
            index < ENTRY_COUNT as usize,
        ensures
            *r == self.spec_entries()[index as int],
    {
        vstd::std_specs::vec::vec_index(&self.entries, index)
    }

    /// Replace the partition entry in the given table slot. The other
    /// slots and the bootstrap bytes are untouched.
    pub fn set_entry(&mut self, index: usize, entry: PartitionEntry)
        requires
            old(self).wf(),
            index < ENTRY_COUNT as usize,
        ensures
            final(self).wf(),
            final(self).spec_bootstrap() == old(self).spec_bootstrap(),
            final(self).spec_entries() == old(self).spec_entries().update(index as int, entry),
    {
        let slot = vstd::std_specs::vec::vec_index_mut(&mut self.entries, index);
        *slot = entry;
    }

    /// Decode a sector from a buffer of exactly 512 bytes.
    ///
    /// Fails with `TruncatedInput` when the buffer is not exactly 512
    /// bytes long, and with `InvalidSignature` when the boot signature
    /// `0x55 0xAA` is missing at offsets 510–511; the codec never claims
    /// success on a buffer lacking it. The bootstrap bytes are kept
    /// verbatim for a later re-encode.
    pub fn read_from_bytes(bytes: &[u8]) -> (r: Result<Self, MbrError>)
        ensures
            bytes@.len() != 512 ==> r == Err::<Self, MbrError>(MbrError::TruncatedInput),
            bytes@.len() == 512 && !signature_valid(bytes@) ==> r == Err::<Self, MbrError>(
                MbrError::InvalidSignature,
            ),
            bytes@.len() == 512 && signature_valid(bytes@) ==> (r matches Ok(s) && sector_decoded(
                bytes@,
                s,
            )),
    {
        if bytes.len() != MBR_SIZE as usize {
            return Err(MbrError::TruncatedInput);
        }
        let sig_first = *vstd::slice::slice_index_get(bytes, 510);
        let sig_second = *vstd::slice::slice_index_get(bytes, 511);
        if sig_first != SIGNATURE_FIRST || sig_second != SIGNATURE_SECOND {
            return Err(MbrError::InvalidSignature);
        }
        let bootstrap = vstd::slice::slice_to_vec(vstd::slice::slice_subrange(bytes, 0, 446));
        let e0 = match PartitionEntry::read_from_bytes(
            vstd::slice::slice_subrange(bytes, 446, 462),
        ) {
            Ok(e) => e,
            Err(err) => { return Err(err) },
        };
        let e1 = match PartitionEntry::read_from_bytes(
            vstd::slice::slice_subrange(bytes, 462, 478),
        ) {
            Ok(e) => e,
            Err(err) => { return Err(err) },
        };
        let e2 = match PartitionEntry::read_from_bytes(
            vstd::slice::slice_subrange(bytes, 478, 494),
        ) {
            Ok(e) => e,
            Err(err) => { return Err(err) },
        };
        let e3 = match PartitionEntry::read_from_bytes(
            vstd::slice::slice_subrange(bytes, 494, 510),
        ) {
            Ok(e) => e,
            Err(err) => { return Err(err) },
        };
        let mut entries: Vec<PartitionEntry> = Vec::new();
        entries.push(e0);
        entries.push(e1);
        entries.push(e2);
        entries.push(e3);
        let s = MbrSector { bootstrap, entries };
        proof {
            assert forall|i: int|
                0 <= i < 4 implies entry_decoded(
                bytes@.subrange(446 + 16 * i, 446 + 16 * i + 16),
                #[trigger] s.spec_entries()[i],
            ) by {
                if i == 0 {
                    assert(entry_decoded(bytes@.subrange(446, 462), e0));
                } else if i == 1 {
                    assert(entry_decoded(bytes@.subrange(462, 478), e1));
                } else if i == 2 {
                    assert(entry_decoded(bytes@.subrange(478, 494), e2));
                } else {
                    assert(entry_decoded(bytes@.subrange(494, 510), e3));
                }
            }
        }
        Ok(s)
    }

    /// Encode the sector as its 512 on-disk bytes: the bootstrap code it
    /// carries, the four entries at their fixed offsets, and the boot
    /// signature stamped at the end.
    pub fn write_to_bytes(&self) -> (r: Vec<u8>)
        requires
            self.wf(),
        ensures
            r@.len() == 512,
            r@ == self.spec_bytes(),
    {
        let mut out: Vec<u8> = Vec::new();
        let mut i: usize = 0;
        while i < BOOTSTRAP_SIZE as usize
            invariant
                self.wf(),
                i <= 446,
                out@ == self.spec_bootstrap().subrange(0, i as int),
            decreases 446 - i,
        {
            let b = *vstd::std_specs::vec::vec_index(&self.bootstrap, i);
            out.push(b);
            i = i + 1;
            proof {
                assert(out@ =~= self.spec_bootstrap().subrange(0, i as int));
            }
        }
        proof {
            assert(out@ =~= self.spec_bootstrap());
        }
        push_entry_bytes(&mut out, vstd::std_specs::vec::vec_index(&self.entries, 0));
        push_entry_bytes(&mut out, vstd::std_specs::vec::vec_index(&self.entries, 1));
        push_entry_bytes(&mut out, vstd::std_specs::vec::vec_index(&self.entries, 2));
        push_entry_bytes(&mut out, vstd::std_specs::vec::vec_index(&self.entries, 3));
        out.push(SIGNATURE_FIRST);
        out.push(SIGNATURE_SECOND);
        proof {
            assert(out@ =~= self.spec_bytes());
        }
        out
    }
}

/// Append the 16 encoded bytes of one entry to the output buffer.
fn push_entry_bytes(out: &mut Vec<u8>, entry: &PartitionEntry)
    ensures
        final(out)@ == old(out)@ + entry.spec_bytes(),
{
    let encoded = entry.write_to_bytes();
    let mut k: usize = 0;
    while k < 16
        invariant
            k <= 16,
            encoded@ == entry.spec_bytes(),
            encoded@.len() == 16,
            out@ == old(out)@ + encoded@.subrange(0, k as int),
        decreases 16 - k,
    {
        let b = *vstd::array::array_index_get(&encoded, k);
        out.push(b);
        k = k + 1;
        proof {
            assert(out@ =~= old(out)@ + encoded@.subrange(0, k as int));
        }
    }
    proof {
        assert(out@ =~= old(out)@ + entry.spec_bytes());
    }
}

/// Law: the bytes a well-formed sector encodes as decode back to that
/// sector — the signature is present and every entry decodes from its
/// fixed region.
#[verifier::rlimit(50)]
pub proof fn lemma_sector_decode_of_encoded(s: MbrSector)
    requires
        s.wf(),
    ensures
        s.spec_bytes().len() == 512,
        signature_valid(s.spec_bytes()),
        sector_decoded(s.spec_bytes(), s),
{
    let b = s.spec_bytes();
    assert forall|i: int|
        0 <= i < 4 implies entry_decoded(
        b.subrange(446 + 16 * i, 446 + 16 * i + 16),
        #[trigger] s.spec_entries()[i],
    ) by {
        let e = s.spec_entries()[i];
        lemma_entry_decode_of_encoded(e);
        assert(b.subrange(446 + 16 * i, 446 + 16 * i + 16) =~= e.spec_bytes());
    }
    assert(s.spec_bootstrap() =~= b.subrange(0, 446));
}

/// Law: a 512-byte buffer with a valid signature decodes to a sector
/// that encodes back to the buffer exactly, provided each entry's status
/// byte is one that round-trips.
#[verifier::rlimit(50)]
pub proof fn lemma_sector_encode_of_decoded(b: Seq<u8>, s: MbrSector)
    requires
        b.len() == 512,
        signature_valid(b),
        sector_decoded(b, s),
        forall|i: int| 0 <= i < 4 ==> status_byte_round_trips(#[trigger] b[446 + 16 * i]),
    ensures
        s.spec_bytes() == b,
{
    assert forall|i: int|
        0 <= i < 4 implies (#[trigger] s.spec_entries()[i]).spec_bytes() == b.subrange(
        446 + 16 * i,
        446 + 16 * i + 16,
    ) by {
        let sub = b.subrange(446 + 16 * i, 446 + 16 * i + 16);
        assert(sub[0] == b[446 + 16 * i]);
        lemma_entry_encode_of_decoded(sub, s.spec_entries()[i]);
    }
    assert(s.spec_bytes() =~= b);
}

} // verus!
