//! Capabilities in PCI configuration space: what each of them answers when the
//! guest reads its registers, and the vendor-specific capability by which a
//! virtio device says where its structures lie.
use vstd::prelude::*;

use crate::bits::{le_value, lemma_bytes_join, lemma_le_value};
use crate::error::HvResult;

verus! {

/// An offset in configuration space, or in one capability of it.
pub type PciConfigAddress = u64;

/// A capability that the guest reads and writes through configuration space.
/// Offsets are relative to the start of the capability.
pub trait PciCapabilityRegion: Sized {
    /// What a read of `size` bytes at `offset` gives.
    spec fn read_value(&self, offset: PciConfigAddress, size: usize) -> u32;

    /// The capability once `value` was written.
    spec fn after_write(self, offset: PciConfigAddress, size: usize, value: u32) -> Self;

    /// The number of bytes that the capability takes.
    spec fn byte_size(&self) -> usize;

    /// Where the next capability of the list starts, or 0 at its end.
    spec fn next_offset(&self) -> PciConfigAddress;

    /// Answers a read. A size of zero is none that a guest can ask for.
    fn read(&self, offset: PciConfigAddress, size: usize) -> (result: HvResult<u32>)
        requires
            size != 0,
        ensures
            result == Ok::<u32, crate::error::HvError>(self.read_value(offset, size)),
    ;

    /// Takes in a write.
    fn write(&mut self, offset: PciConfigAddress, size: usize, value: u32) -> (result: HvResult<()>)
        ensures
            result is Ok,
            *final(self) == old(self).after_write(offset, size, value),
    ;

    /// The capability does not know its own place in configuration space.
    fn get_offset(&self) -> (offset: PciConfigAddress)
        ensures
            offset == 0,
    ;

    /// The number of bytes that the capability takes.
    fn get_size(&self) -> (size: usize)
        ensures
            size == self.byte_size(),
    ;

    /// Where the next capability of the list starts.
    fn next_cap(&self) -> (next: HvResult<PciConfigAddress>)
        ensures
            next == Ok::<PciConfigAddress, crate::error::HvError>(self.next_offset()),
    ;
}

/// A 32-bit register from its bytes, the most significant one first.
pub fn put_together(src: (u8, u8, u8, u8)) -> (word: u32)
    ensures
        word == src.0 * 0x100_0000 + src.1 * 0x1_0000 + src.2 * 0x100 + src.3,
{
    proof {
        lemma_bytes_join(src.0, src.1, src.2, src.3);
    }
    (src.0 as u32) << 24 | (src.1 as u32) << 16 | (src.2 as u32) << 8 | (src.3 as u32)
}

/// The kind of structure that a virtio capability points at. A notification
/// structure comes with the multiplier of its queues' offsets.
#[derive(Clone, Copy, Debug, PartialEq, Eq)]
pub enum VirtioCfgType {
    CommonCfg,
    NotifyCfg(u32),
    IsrCfg,
    DeviceCfg,
    PciCfg,
    SharedMemoryCfg,
    VendorCfg,
}

impl VirtioCfgType {
    /// The code that stands for the kind in a capability.
    pub open spec fn code(self) -> u8 {
        match self {
            VirtioCfgType::CommonCfg => 1,
            VirtioCfgType::NotifyCfg(_) => 2,
            VirtioCfgType::IsrCfg => 3,
            VirtioCfgType::DeviceCfg => 4,
            VirtioCfgType::PciCfg => 5,
            VirtioCfgType::SharedMemoryCfg => 8,
            VirtioCfgType::VendorCfg => 9,
        }
    }
}

impl vstd::std_specs::convert::FromSpecImpl<VirtioCfgType> for u8 {
    open spec fn obeys_from_spec() -> bool {
        true
    }

    open spec fn from_spec(value: VirtioCfgType) -> u8 {
        value.code()
    }
}

impl From<VirtioCfgType> for u8 {
    fn from(value: VirtioCfgType) -> (code: u8) {
        match value {
            VirtioCfgType::CommonCfg => 1,
            VirtioCfgType::NotifyCfg(_) => 2,
            VirtioCfgType::IsrCfg => 3,
            VirtioCfgType::DeviceCfg => 4,
            VirtioCfgType::PciCfg => 5,
            VirtioCfgType::SharedMemoryCfg => 8,
            VirtioCfgType::VendorCfg => 9,
        }
    }
}

/// The structure `virtio_pci_cap` of the virtio manual (virtio-v1.2-csd01).
#[derive(Clone, Copy, Debug, PartialEq, Eq)]
pub struct VirtioPciCap {
    pub cap_vndr: u8,
    pub cap_next: u8,
    pub cap_len: u8,
    pub cfg_type: VirtioCfgType,
    pub bar: u8,
    pub id: u8,
    pub padding: [u8; 2],
    pub offset: u32,
    pub length: u32,
}

impl VirtioPciCap {
    /// The first eight bytes as the guest reads them: the padding reads as zero.
    pub open spec fn header(&self) -> Seq<u8> {
        seq![
            self.cap_vndr,
            self.cap_next,
            self.cap_len,
            self.cfg_type.code(),
            self.bar,
            self.id,
            0u8,
            0u8,
        ]
    }

    /// The capability that describes `length` bytes at `offset` in `bar`.
    pub open spec fn describing(
        config_type: VirtioCfgType,
        cap_next: u8,
        cap_len: u8,
        bar: u8,
        offset: u32,
        length: u32,
    ) -> VirtioPciCap {
        VirtioPciCap {
            cap_vndr: 0x09,
            cap_next,
            cap_len,
            cfg_type: config_type,
            bar,
            id: 0x00,
            padding: [0u8, 0u8],
            offset,
            length,
        }
    }

    /// Describes `length` bytes at `offset` in `bar`. Every capability that virtio
    /// defines is a vendor-specific one, so `cap_vndr` is 0x09; `id` tells several
    /// capabilities of one kind apart, and is 0 where a kind occurs once.
    pub fn new(
        config_type: VirtioCfgType,
        cap_next: u8,
        cap_len: u8,
        bar: u8,
        offset: u32,
        length: u32,
    ) -> (cap: Self)
        ensures
            cap == VirtioPciCap::describing(config_type, cap_next, cap_len, bar, offset, length),
    {
        VirtioPciCap {
            cap_vndr: 0x09,
            cap_next,
            cap_len,
            cfg_type: config_type,
            bar,
            id: 0x00,
            padding: [0, 0],
            offset,
            length,
        }
    }
}

impl PciCapabilityRegion for VirtioPciCap {
    /// Aligned reads inside the first eight bytes give those bytes, little-endian.
    /// Beyond them `offset` and `length` are read as 32-bit words, and so is the
    /// multiplier that follows in the capability of a notification structure.
    /// Every other read gives 0.
    open spec fn read_value(&self, offset: PciConfigAddress, size: usize) -> u32 {
        if (offset as usize) % size != 0 {
            0
        } else if size != 1 && size != 2 && size != 4 {
            0
        } else if offset + size <= 8 {
            le_value(self.header().subrange(offset as int, offset + size)) as u32
        } else if size != 4 {
            0
        } else {
            match (offset, self.cfg_type) {
                (8, _) => self.offset,
                (12, _) => self.length,
                (16, VirtioCfgType::NotifyCfg(multiplier)) => multiplier,
                _ => 0,
            }
        }
    }

    /// All fields are read-only for the guest.
    open spec fn after_write(self, offset: PciConfigAddress, size: usize, value: u32) -> Self {
        self
    }

    open spec fn byte_size(&self) -> usize {
        self.cap_len as usize
    }

    open spec fn next_offset(&self) -> PciConfigAddress {
        self.cap_next as u64
    }

    fn read(&self, offset: PciConfigAddress, size: usize) -> (result: HvResult<u32>) {
        proof {
            assert forall|n: int| 0 <= offset && 0 < n && offset + n <= 8 implies
                #[trigger] self.header().subrange(offset as int, offset + n).len() == n by {}
            if offset + size <= 8 {
                lemma_le_value(self.header().subrange(offset as int, offset + size));
            }
        }
        if offset as usize % size != 0 {
            return Ok(0);
        }
        if let VirtioCfgType::NotifyCfg(multiplier) = self.cfg_type {
            if offset == 16 && size == 4 {
                return Ok(multiplier);
            }
        }
        if size == 1 {
            match offset {
                0 => return Ok(self.cap_vndr as u32),
                1 => return Ok(self.cap_next as u32),
                2 => return Ok(self.cap_len as u32),
                3 => return Ok(u8::from(self.cfg_type) as u32),
                4 => return Ok(self.bar as u32),
                5 => return Ok(self.id as u32),
                _ => return Ok(0),
            }
        }
        if size == 2 {
            match offset {
                0 => return Ok(put_together((0, 0, self.cap_next, self.cap_vndr))),
                2 => return Ok(put_together((0, 0, u8::from(self.cfg_type), self.cap_len))),
                4 => return Ok(put_together((0, 0, self.id, self.bar))),
                _ => return Ok(0),
            }
        }
        if size == 4 {
            match offset {
                0 => return Ok(
                    put_together(
                        (u8::from(self.cfg_type), self.cap_len, self.cap_next, self.cap_vndr),
                    ),
                ),
                4 => return Ok(put_together((0, 0, self.id, self.bar))),
                8 => return Ok(self.offset),
                12 => return Ok(self.length),
                _ => return Ok(0),
            }
        }
        Ok(0)
    }

    fn write(
        &mut self,
        _offset: PciConfigAddress,
        _size: usize,
        _value: u32,
    ) -> (result: HvResult<()>) {
        Ok(())
    }

    fn get_offset(&self) -> (offset: PciConfigAddress) {
        0
    }

    fn get_size(&self) -> (size: usize) {
        self.cap_len as usize
    }

    fn next_cap(&self) -> (next: HvResult<PciConfigAddress>) {
        Ok(self.cap_next as u64)
    }
}

/// A wider read of the first eight bytes is made of the narrower reads that it
/// covers, the lower address in the lower bits.
pub proof fn law_wide_reads_join_narrow_reads(cap: VirtioPciCap, offset: PciConfigAddress)
    requires
        offset == 0 || offset == 2 || offset == 4 || offset == 6,
    ensures
        cap.read_value(offset, 2) == cap.read_value(offset, 1) + 0x100 * cap.read_value(
            (offset + 1) as u64,
            1,
        ),
        offset % 4 == 0 ==> cap.read_value(offset, 4) == cap.read_value(offset, 2) + 0x1_0000
            * cap.read_value((offset + 2) as u64, 2),
{
    let header = cap.header();
    let start = offset as int;
    lemma_le_value(header.subrange(start, start + 1));
    lemma_le_value(header.subrange(start + 1, start + 2));
    lemma_le_value(header.subrange(start, start + 2));
    if start % 4 == 0 {
        lemma_le_value(header.subrange(start + 2, start + 4));
        lemma_le_value(header.subrange(start, start + 4));
    }
}

/// A guest's write leaves every later read of a virtio capability as it was.
pub proof fn law_virtio_capability_is_read_only(
    cap: VirtioPciCap,
    at: PciConfigAddress,
    width: usize,
    value: u32,
    offset: PciConfigAddress,
    size: usize,
)
    ensures
        cap.after_write(at, width, value).read_value(offset, size) == cap.read_value(offset, size),
{
}

/// A read that is not aligned to its size gives 0.
pub proof fn law_misaligned_read_is_zero(cap: VirtioPciCap, offset: PciConfigAddress, size: usize)
    requires
        size != 0,
        (offset as usize) % size != 0,
    ensures
        cap.read_value(offset, size) == 0,
{
}

/// Different kinds of structure have different codes; the multiplier of a
/// notification structure is not part of its code.
pub proof fn law_codes_tell_kinds_apart(a: VirtioCfgType, b: VirtioCfgType)
    ensures
        a.code() == b.code() <==> a == b || (a is NotifyCfg && b is NotifyCfg),
{
}

/// Every virtio capability reads as a vendor-specific one, with the code of its
/// kind and the place that it describes.
pub proof fn law_capability_describes_its_structure(
    kind: VirtioCfgType,
    next: u8,
    len: u8,
    bar: u8,
    offset: u32,
    length: u32,
)
    ensures
        ({
            let cap = VirtioPciCap::describing(kind, next, len, bar, offset, length);
            &&& cap.read_value(0, 1) == 0x09
            &&& cap.read_value(1, 1) == next
            &&& cap.read_value(2, 1) == len
            &&& cap.read_value(3, 1) == kind.code()
            &&& cap.read_value(4, 1) == bar
            &&& cap.read_value(8, 4) == offset
            &&& cap.read_value(12, 4) == length
            &&& cap.read_value(16, 4) == match kind {
                VirtioCfgType::NotifyCfg(multiplier) => multiplier,
                _ => 0,
            }
        }),
{
    let header = VirtioPciCap::describing(kind, next, len, bar, offset, length).header();
    lemma_le_value(header.subrange(0, 1));
    lemma_le_value(header.subrange(1, 2));
    lemma_le_value(header.subrange(2, 3));
    lemma_le_value(header.subrange(3, 4));
    lemma_le_value(header.subrange(4, 5));
}

/// What a guest sees of a virtio capability. Its bytes are the vendor code, the
/// next capability, the length, the kind (1 common configuration, 2 notification,
/// 3 interrupt status, 4 device configuration, 5 PCI access, 8 shared memory, 9
/// vendor data), the BAR and the number of the capability, and two bytes of zero.
/// Then come three words: offset, length and, for a notification structure, the
/// multiplier. There is nothing else to read, and nothing to write.
pub proof fn law_virtio_capability_layout(
    cap: VirtioPciCap,
    offset: PciConfigAddress,
    size: usize,
    value: u32,
)
    requires
        size != 0,
    ensures
        cap.read_value(0, 1) == cap.cap_vndr,
        cap.read_value(1, 1) == cap.cap_next,
        cap.read_value(2, 1) == cap.cap_len,
        cap.read_value(3, 1) == match cap.cfg_type {
            VirtioCfgType::CommonCfg => 1u32,
            VirtioCfgType::NotifyCfg(_) => 2u32,
            VirtioCfgType::IsrCfg => 3u32,
            VirtioCfgType::DeviceCfg => 4u32,
            VirtioCfgType::PciCfg => 5u32,
            VirtioCfgType::SharedMemoryCfg => 8u32,
            VirtioCfgType::VendorCfg => 9u32,
        },
        cap.read_value(4, 1) == cap.bar,
        cap.read_value(5, 1) == cap.id,
        cap.read_value(6, 1) == 0,
        cap.read_value(7, 1) == 0,
        cap.read_value(8, 4) == cap.offset,
        cap.read_value(12, 4) == cap.length,
        cap.read_value(16, 4) == match cap.cfg_type {
            VirtioCfgType::NotifyCfg(multiplier) => multiplier,
            _ => 0,
        },
        offset >= 8 && size != 4 ==> cap.read_value(offset, size) == 0,
        offset >= 8 && offset != 8 && offset != 12 && offset != 16 ==> cap.read_value(offset, size)
            == 0,
        size != 1 && size != 2 && size != 4 ==> cap.read_value(offset, size) == 0,
        cap.byte_size() == cap.cap_len,
        cap.next_offset() == cap.cap_next,
        cap.after_write(offset, size, value) == cap,
{
    let header = cap.header();
    lemma_le_value(header.subrange(0, 1));
    lemma_le_value(header.subrange(1, 2));
    lemma_le_value(header.subrange(2, 3));
    lemma_le_value(header.subrange(3, 4));
    lemma_le_value(header.subrange(4, 5));
    lemma_le_value(header.subrange(5, 6));
    lemma_le_value(header.subrange(6, 7));
    lemma_le_value(header.subrange(7, 8));
}

/// A capability is vendor-specific and the only one of its kind, and holds what it
/// was made to describe.
pub proof fn law_new_capability_holds_what_it_describes(
    kind: VirtioCfgType,
    next: u8,
    len: u8,
    bar: u8,
    offset: u32,
    length: u32,
)
    ensures
        ({
            let cap = VirtioPciCap::describing(kind, next, len, bar, offset, length);
            &&& cap.cap_vndr == 0x09 && cap.id == 0
            &&& cap.padding[0] == 0 && cap.padding[1] == 0
            &&& cap.cfg_type == kind
            &&& (cap.cap_next, cap.cap_len, cap.bar) == (next, len, bar)
            &&& (cap.offset, cap.length) == (offset, length)
        }),
{
}

} // verus!
