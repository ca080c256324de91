//! The MSI-X capability in configuration space.
use vstd::prelude::*;

use crate::bits::{le_value, lemma_le_value, lemma_low16_of_32, low16_of_32};
use crate::capability::{PciCapabilityRegion, PciConfigAddress};
use crate::error::HvResult;

verus! {

/// The register that says where a structure lies: its offset above the number
/// of the BAR that holds it.
pub open spec fn location_mesg(offset: u32, bar: u8) -> u32 {
    (offset << 3) | (bar as u32)
}

/// The MSI-X capability: where the vector table and the pending bits lie, and
/// the message control register.
#[derive(Clone, Copy, Debug, PartialEq, Eq)]
pub struct MsixCap {
    pub cap_id: u8,
    pub cap_next: u8,
    pub message_control: u16,
    pub table_bar: u8,
    pub table_offset: u32,
    pub pending_bar: u8,
    pub pending_offset: u32,
}

impl MsixCap {
    /// The capability with its size field holding `size`; a size above 2048 is no
    /// table size and changes nothing.
    pub open spec fn with_table_size(self, size: u16) -> MsixCap {
        if size > 2048 {
            self
        } else {
            MsixCap { message_control: (self.message_control & 0xf800) | size, ..self }
        }
    }

    /// The capability once the guest wrote where the table lies.
    pub open spec fn with_table_mesg(self, mesg: u32) -> MsixCap {
        MsixCap { table_offset: mesg >> 3, table_bar: (mesg & 0x3) as u8, ..self }
    }

    /// The capability once the guest wrote where the pending bits lie.
    pub open spec fn with_pending_mesg(self, mesg: u32) -> MsixCap {
        MsixCap { pending_offset: mesg >> 3, pending_bar: (mesg & 0x3) as u8, ..self }
    }

    /// The first four bytes: identifier, next capability, message control.
    pub open spec fn header(&self) -> Seq<u8> {
        seq![
            self.cap_id,
            self.cap_next,
            (self.message_control % 0x100) as u8,
            (self.message_control / 0x100) as u8,
        ]
    }

    /// The capability of a table of `table_size` vectors.
    pub open spec fn fresh(next: u8, table_size: u16) -> MsixCap {
        (MsixCap {
            cap_id: 0x11,
            cap_next: next,
            message_control: 0,
            table_bar: 0x01,
            table_offset: 0,
            pending_bar: 0x01,
            pending_offset: 0x8000,
        }).with_table_size(table_size)
    }

    /// A table of `table_size` vectors at the start of BAR 1, the pending bits
    /// further up in the same BAR.
    pub fn new(next: u8, table_size: u16) -> (cap: Self)
        ensures
            cap == MsixCap::fresh(next, table_size),
    {
        let mut res = MsixCap {
            cap_id: 0x11,
            cap_next: next,
            message_control: 0x0,
            table_bar: 0x01,
            table_offset: 0x0000_0000,
            pending_bar: 0x01,
            pending_offset: 0x0000_8000,
        };
        res.set_table_size(table_size);
        res
    }

    /// The register that says where the table lies.
    pub fn get_table_mesg(&self) -> (mesg: u32)
        ensures
            mesg == location_mesg(self.table_offset, self.table_bar),
    {
        (self.table_offset << 3) | (self.table_bar as u32)
    }

    /// The register that says where the pending bits lie.
    pub fn get_pending_mesg(&self) -> (mesg: u32)
        ensures
            mesg == location_mesg(self.pending_offset, self.pending_bar),
    {
        (self.pending_offset << 3) | (self.pending_bar as u32)
    }

    /// Takes over where the table lies.
    pub fn set_table_mesg(&mut self, mesg: u32)
        ensures
            *final(self) == old(self).with_table_mesg(mesg),
    {
        self.table_offset = mesg >> 3;
        self.table_bar = (mesg & 0x0000_0003) as u8;
    }

    /// Takes over where the pending bits lie.
    pub fn set_pending_mesg(&mut self, mesg: u32)
        ensures
            *final(self) == old(self).with_pending_mesg(mesg),
    {
        self.pending_offset = mesg >> 3;
        self.pending_bar = (mesg & 0x0000_0003) as u8;
    }

    /// Takes over the size of the table, unless it is above 2048.
    pub fn set_table_size(&mut self, size: u16)
        ensures
            *final(self) == old(self).with_table_size(size),
    {
        if size > 2048 {
            return ;
        }
        let mask: u16 = 0xf800;
        self.message_control = self.message_control & mask;
        self.message_control = self.message_control | size;
    }
}

/// The bytes of the first register, joined.
proof fn lemma_header_words(cap: MsixCap)
    ensures
        (cap.cap_id as u32 | (cap.cap_next as u32) << 8) == le_value(
            cap.header().subrange(0, 2),
        ),
        cap.message_control == le_value(cap.header().subrange(2, 4)),
        ((cap.cap_id as u32) | (cap.cap_next as u32) << 8 | (cap.message_control as u32) << 16)
            == le_value(cap.header().subrange(0, 4)),
{
    let (id, next, control) = (cap.cap_id, cap.cap_next, cap.message_control);
    lemma_le_value(cap.header().subrange(0, 2));
    lemma_le_value(cap.header().subrange(2, 4));
    lemma_le_value(cap.header().subrange(0, 4));
    assert((id as u32 | (next as u32) << 8) == id + 0x100 * next) by (bit_vector);
    assert(((id as u32) | (next as u32) << 8 | (control as u32) << 16) == id + 0x100 * next
        + 0x1_0000 * control) by (bit_vector);
}

impl PciCapabilityRegion for MsixCap {
    /// Aligned reads of 2 or 4 bytes in the first register give its bytes,
    /// little-endian; single bytes are read of the identifier and of the next
    /// pointer alone. The two location registers are read as 32-bit words. Every
    /// other read gives 0.
    open spec fn read_value(&self, offset: PciConfigAddress, size: usize) -> u32 {
        if (offset as usize) % size != 0 {
            0
        } else if size == 1 {
            if offset < 2 {
                self.header()[offset as int] as u32
            } else {
                0
            }
        } else if (size == 2 || size == 4) && offset + size <= 4 {
            le_value(self.header().subrange(offset as int, offset + size)) as u32
        } else if size == 4 && offset == 4 {
            location_mesg(self.table_offset, self.table_bar)
        } else if size == 4 && offset == 8 {
            location_mesg(self.pending_offset, self.pending_bar)
        } else {
            0
        }
    }

    /// The guest writes message control as 16 bits and the two locations as 32.
    open spec fn after_write(self, offset: PciConfigAddress, size: usize, value: u32) -> Self {
        if size == 2 && offset == 2 {
            MsixCap { message_control: low16_of_32(value), ..self }
        } else if size == 4 && offset == 4 {
            self.with_table_mesg(value)
        } else if size == 4 && offset == 8 {
            self.with_pending_mesg(value)
        } else {
            self
        }
    }

    open spec fn byte_size(&self) -> usize {
        0x0c
    }

    open spec fn next_offset(&self) -> PciConfigAddress {
        self.cap_next as u64
    }

    fn read(&self, offset: PciConfigAddress, size: usize) -> (result: HvResult<u32>) {
        if offset as usize % size != 0 {
            return Ok(0);
        }
        proof {
            lemma_header_words(*self);
        }
        if size == 1 {
            match offset {
                0x00 => return Ok(self.cap_id as u32),
                0x01 => return Ok(self.cap_next as u32),
                _ => return Ok(0),
            }
        }
        if size == 2 {
            match offset {
                0x00 => return Ok(self.cap_id as u32 | (self.cap_next as u32) << 8),
                0x02 => return Ok(self.message_control as u32),
                _ => return Ok(0),
            }
        }
        if size == 4 {
            match offset {
                0x00 => return Ok(
                    (self.cap_id as u32) | (self.cap_next as u32) << 8 | (
                    self.message_control as u32) << 16,
                ),
                0x04 => return Ok(self.get_table_mesg()),
                0x08 => return Ok(self.get_pending_mesg()),
                _ => return Ok(0),
            }
        }
        Ok(0)
    }

    fn write(&mut self, offset: PciConfigAddress, size: usize, value: u32) -> (result: HvResult<
        (),
    >) {
        if size == 2 {
            if offset == 0x02 {
                proof {
                    lemma_low16_of_32(value);
                }
                self.message_control = value as u16;
            }
            return Ok(());
        }
        if size == 4 {
            match offset {
                0x04 => self.set_table_mesg(value),
                0x08 => self.set_pending_mesg(value),
                _ => {},
            }
            return Ok(());
        }
        Ok(())
    }

    fn get_offset(&self) -> (offset: PciConfigAddress) {
        0
    }

    fn get_size(&self) -> (size: usize) {
        0x0c
    }

    fn next_cap(&self) -> (next: HvResult<PciConfigAddress>) {
        Ok(self.cap_next as u64)
    }
}

/// A location that the guest writes is read back as written, but for bit 2,
/// which reads as zero.
pub proof fn law_location_reads_back(cap: MsixCap, mesg: u32)
    ensures
        cap.after_write(4, 4, mesg).read_value(4, 4) == mesg & 0xffff_fffb,
        cap.after_write(8, 4, mesg).read_value(8, 4) == mesg & 0xffff_fffb,
{
    assert((mesg & 0x3) as u8 as u32 == mesg & 0x3) by (bit_vector);
    assert(((mesg >> 3) << 3) | (mesg & 0x3) == mesg & 0xffff_fffb) by (bit_vector);
}

/// Moving one structure leaves the place of the other as it was.
pub proof fn law_locations_are_independent(cap: MsixCap, mesg: u32)
    ensures
        cap.after_write(4, 4, mesg).read_value(8, 4) == cap.read_value(8, 4),
        cap.after_write(8, 4, mesg).read_value(4, 4) == cap.read_value(4, 4),
        cap.after_write(4, 4, mesg).read_value(0, 4) == cap.read_value(0, 4),
        cap.after_write(8, 4, mesg).read_value(0, 4) == cap.read_value(0, 4),
{
}

/// Message control is read back as the guest wrote it, in the low 16 bits.
pub proof fn law_message_control_reads_back(cap: MsixCap, value: u32)
    ensures
        cap.after_write(2, 2, value).read_value(2, 2) == value % 0x1_0000,
{
    lemma_header_words(cap.after_write(2, 2, value));
}

/// A size below 2048 is what the eleven low bits of message control hold, and
/// the bits above them stay.
pub proof fn law_table_size_field(cap: MsixCap, size: u16)
    requires
        size < 2048,
    ensures
        cap.with_table_size(size).message_control % 2048 == size,
        cap.with_table_size(size).message_control / 2048 == cap.message_control / 2048,
{
    let control = cap.message_control;
    assert(((control & 0xf800) | size) % 2048 == size && ((control & 0xf800) | size) / 2048
        == control / 2048) by (bit_vector)
        requires
            size < 2048,
    ;
}

/// The first register read as a whole is made of its two halves.
pub proof fn law_first_register_joins_its_halves(cap: MsixCap)
    ensures
        cap.read_value(0, 4) == cap.read_value(0, 2) + 0x1_0000 * cap.read_value(2, 2),
        cap.read_value(0, 2) == cap.read_value(0, 1) + 0x100 * cap.read_value(1, 1),
        cap.read_value(2, 2) == cap.message_control,
{
    lemma_header_words(cap);
    lemma_le_value(cap.header().subrange(0, 2));
    lemma_le_value(cap.header().subrange(2, 4));
    lemma_le_value(cap.header().subrange(0, 4));
}

/// What a guest reads of an MSI-X capability: the identifier and the next
/// capability as bytes, message control as 16 bits, all of them as one word, and
/// the two locations as words, each with its offset above the three bits of the
/// BAR. There is nothing else to read.
pub proof fn law_msix_capability_layout(cap: MsixCap, offset: PciConfigAddress, size: usize)
    requires
        size != 0,
    ensures
        cap.read_value(0, 1) == cap.cap_id,
        cap.read_value(1, 1) == cap.cap_next,
        cap.read_value(0, 2) == cap.cap_id + 0x100 * cap.cap_next,
        cap.read_value(2, 2) == cap.message_control,
        cap.read_value(0, 4) == cap.cap_id + 0x100 * cap.cap_next + 0x1_0000 * cap.message_control,
        cap.read_value(4, 4) == (cap.table_offset << 3) | (cap.table_bar as u32),
        cap.read_value(8, 4) == (cap.pending_offset << 3) | (cap.pending_bar as u32),
        cap.table_bar < 8 ==> cap.read_value(4, 4) == cap.table_offset % 0x2000_0000 * 8
            + cap.table_bar,
        cap.pending_bar < 8 ==> cap.read_value(8, 4) == cap.pending_offset % 0x2000_0000 * 8
            + cap.pending_bar,
        size == 1 && offset >= 2 ==> cap.read_value(offset, size) == 0,
        size == 2 && offset >= 4 ==> cap.read_value(offset, size) == 0,
        offset >= 4 && offset != 4 && offset != 8 ==> cap.read_value(offset, size) == 0,
        size != 1 && size != 2 && size != 4 ==> cap.read_value(offset, size) == 0,
        (offset as usize) % size != 0 ==> cap.read_value(offset, size) == 0,
        cap.byte_size() == 12,
        cap.next_offset() == cap.cap_next,
{
    lemma_header_words(cap);
    lemma_le_value(cap.header().subrange(0, 2));
    lemma_le_value(cap.header().subrange(2, 4));
    lemma_le_value(cap.header().subrange(0, 4));
    let (table, table_bar) = (cap.table_offset, cap.table_bar);
    let (pending, pending_bar) = (cap.pending_offset, cap.pending_bar);
    assert(forall|at: u32, bar: u8|
        bar < 8 ==> #[trigger] ((at << 3) | (bar as u32)) == at % 0x2000_0000 * 8 + bar)
        by (bit_vector);
    assert(table_bar < 8 ==> (table << 3) | (table_bar as u32) == table % 0x2000_0000 * 8
        + table_bar);
    assert(pending_bar < 8 ==> (pending << 3) | (pending_bar as u32) == pending % 0x2000_0000 * 8
        + pending_bar);
}

/// What a guest writes to an MSI-X capability: 16 bits of message control, and
/// the two locations, each the offset above the BAR, of which two bits are kept.
/// Every other write changes nothing.
pub proof fn law_msix_capability_writes(
    cap: MsixCap,
    offset: PciConfigAddress,
    size: usize,
    value: u32,
)
    ensures
        ({
            let after = cap.after_write(offset, size, value);
            let control = size == 2 && offset == 2;
            let table = size == 4 && offset == 4;
            let pending = size == 4 && offset == 8;
            &&& after.cap_id == cap.cap_id && after.cap_next == cap.cap_next
            &&& after.message_control == if control {
                value % 0x1_0000
            } else {
                cap.message_control as u32
            }
            &&& after.table_offset == if table {
                value / 8
            } else {
                cap.table_offset
            }
            &&& after.table_bar == if table {
                value % 4
            } else {
                cap.table_bar as u32
            }
            &&& after.pending_offset == if pending {
                value / 8
            } else {
                cap.pending_offset
            }
            &&& after.pending_bar == if pending {
                value % 4
            } else {
                cap.pending_bar as u32
            }
        }),
{
    assert(value >> 3 == value / 8 && value & 0x3 == value % 4) by (bit_vector);
    lemma_low16_of_32(value);
    assert(value % 4 < 0x100);
}

/// Setting the size of the table replaces the eleven low bits of message control
/// and nothing else; at 2048, which needs a twelfth bit, that bit is set too. A
/// larger size changes nothing.
pub proof fn law_table_size_is_set_alone(cap: MsixCap, size: u16)
    ensures
        ({
            let after = cap.with_table_size(size);
            &&& after == (MsixCap { message_control: after.message_control, ..cap })
            &&& size < 2048 ==> after.message_control == cap.message_control / 2048 * 2048 + size
            &&& size == 2048 ==> after.message_control == (cap.message_control & 0xf800) | 0x800
            &&& size > 2048 ==> after == cap
        }),
{
    if size < 2048 {
        law_table_size_field(cap, size);
    }
}

/// A new capability is one of MSI-X, with the table at the start of BAR 1, the
/// pending bits at 0x8000 in units of eight bytes, and the size of the table.
pub proof fn law_new_msix_capability(next: u8, size: u16)
    ensures
        ({
            let cap = MsixCap::fresh(next, size);
            &&& cap.cap_id == 0x11 && cap.cap_next == next
            &&& cap.table_bar == 1 && cap.table_offset == 0
            &&& cap.pending_bar == 1 && cap.pending_offset == 0x8000
            &&& cap.message_control == if size <= 2048 {
                size
            } else {
                0
            }
        }),
{
    assert((0u16 & 0xf800) | size == size) by (bit_vector);
}

} // verus!
