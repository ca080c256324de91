//! Virtqueues: the registers of one queue, and where its parts lie in the
//! guest's memory.
use vstd::prelude::*;

use crate::area::{views, TableSlot};
use crate::bridge::{VirtioPCIDataInfo, VirtqueueAreaInfo, MAX_DEVS};
use crate::msix_manager::VirtioPCIMsixManager;
use crate::msix_table::{MsixTable, MsixTableEntry, MsixTableModel};

verus! {

/// The descriptor table of a queue: where it starts, and how many descriptors
/// it has.
#[derive(Clone, Copy, Debug, PartialEq, Eq)]
pub struct DescriptorTable {
    pub base: usize,
    pub size: usize,
}

/// The ring in which the driver offers descriptors: where it starts, and how
/// many places it has.
#[derive(Clone, Copy, Debug, PartialEq, Eq)]
pub struct AvailRing {
    pub base: usize,
    pub size: u16,
}

/// The ring in which the device returns descriptors: where it starts, and how
/// many places it has.
#[derive(Clone, Copy, Debug, PartialEq, Eq)]
pub struct VirtqUsed {
    pub base: usize,
    pub size: u16,
}

/// One queue of a device, with the registers by which the driver sets it up.
/// `msix_table` is the vector table of the device among its tables.
#[derive(Clone, Copy, Debug, PartialEq, Eq)]
pub struct Virtqueue {
    pub queue_size: u16,
    pub queue_msix_vector: u16,
    pub queue_enable: u16,
    pub queue_notify_off: u16,
    pub queue_desc: u64,
    pub queue_driver: u64,
    pub queue_device: u64,
    pub queue_notify_data: u16,
    pub queue_reset: u16,
    pub this_dev_id: u16,
    pub queue_id: u16,
    pub msix_table: TableSlot,
    pub desc_table: Option<DescriptorTable>,
    pub used_area: Option<VirtqUsed>,
    pub avail_area: Option<AvailRing>,
    pub last_avail: usize,
}

impl Virtqueue {
    /// Queue `queue_id` of a device that has no identifier yet and whose vectors are
    /// in table `msix`.
    pub open spec fn fresh(msix: TableSlot, queue_id: u16) -> Virtqueue {
        Virtqueue {
            queue_size: 256,
            queue_msix_vector: 1,
            queue_enable: 1,
            queue_notify_off: 0,
            queue_desc: 0,
            queue_driver: 0,
            queue_device: 0,
            queue_notify_data: 0,
            queue_reset: 0,
            this_dev_id: MAX_DEVS,
            queue_id,
            msix_table: msix,
            desc_table: None,
            used_area: None,
            avail_area: None,
            last_avail: 0,
        }
    }

    /// The queue with its descriptor table at `queue_desc`. The table's size is that
    /// of the queue when the table was first placed.
    pub open spec fn with_desc_area(self) -> Virtqueue {
        let size = match self.desc_table {
            Some(placed) => placed.size,
            None => self.queue_size as usize,
        };
        let placed = DescriptorTable { base: self.queue_desc as usize, size };
        Virtqueue { desc_table: Some(placed), ..self }
    }

    /// The queue with its available ring at `queue_driver`. The ring's size is that
    /// of the queue when the ring was first placed.
    pub open spec fn with_avail_area(self) -> Virtqueue {
        let size = match self.avail_area {
            Some(placed) => placed.size,
            None => self.queue_size,
        };
        let placed = AvailRing { base: self.queue_driver as usize, size };
        Virtqueue { avail_area: Some(placed), ..self }
    }

    /// The queue with its used ring at `queue_device`. The ring's size is that of
    /// the queue when the ring was first placed.
    pub open spec fn with_used_area(self) -> Virtqueue {
        let size = match self.used_area {
            Some(placed) => placed.size,
            None => self.queue_size,
        };
        let placed = VirtqUsed { base: self.queue_device as usize, size };
        Virtqueue { used_area: Some(placed), ..self }
    }

    /// Whether the queue's vector is one of its vector table.
    pub open spec fn has_vector(self, tables: Seq<MsixTableModel>) -> bool {
        &&& self.msix_table < tables.len()
        &&& self.queue_msix_vector < tables[self.msix_table as int].table.len()
    }

    /// The queue's vector.
    pub open spec fn vector(self, tables: Seq<MsixTableModel>) -> MsixTableEntry {
        tables[self.msix_table as int].table[self.queue_msix_vector as int]
    }

    /// Queue `queue_id` of a device that has no identifier yet and whose vectors are
    /// in table `msix`.
    pub fn new(msix: TableSlot, queue_id: u16) -> (queue: Self)
        ensures
            queue == Virtqueue::fresh(msix, queue_id),
    {
        Virtqueue {
            queue_size: 256,
            queue_msix_vector: 1,
            queue_enable: 1,
            queue_notify_off: 0,
            queue_desc: 0,
            queue_driver: 0,
            queue_device: 0,
            queue_notify_data: 0,
            queue_reset: 0,
            this_dev_id: MAX_DEVS,
            queue_id,
            msix_table: msix,
            desc_table: None,
            used_area: None,
            avail_area: None,
            last_avail: 0,
        }
    }

    /// Tells the queue which device it belongs to.
    pub fn set_dev_id(&mut self, dev_id: u16)
        ensures
            *final(self) == (Virtqueue { this_dev_id: dev_id, ..*old(self) }),
    {
        self.this_dev_id = dev_id;
    }

    /// Tells the queue which queue of its device it is.
    pub fn set_queue_id(&mut self, queue_id: u16)
        ensures
            *final(self) == (Virtqueue { queue_id, ..*old(self) }),
    {
        self.queue_id = queue_id;
    }

    /// The interrupt to inject so that the driver looks at the queue, if its vector
    /// is bound to one.
    pub fn notify_driver(&self, tables: &Vec<MsixTable>) -> (irq: Option<usize>)
        requires
            self.has_vector(views(tables@)),
        ensures
            irq == self.vector(views(tables@)).intid,
    {
        tables[self.msix_table].inject_irq(self.queue_msix_vector as usize)
    }

    /// The queue's vector as it is now.
    pub fn get_msix_entry(&self, tables: &Vec<MsixTable>) -> (entry: MsixTableEntry)
        requires
            self.has_vector(views(tables@)),
        ensures
            entry == self.vector(views(tables@)),
    {
        tables[self.msix_table].get_entry(self.queue_msix_vector as usize)
    }

    /// Tells whether the queue's vector is one of its vector table.
    pub fn vector_exists(&self, tables: &Vec<MsixTable>) -> (result: bool)
        ensures
            result == self.has_vector(views(tables@)),
    {
        self.msix_table < tables.len() && (self.queue_msix_vector as usize)
            < tables[self.msix_table].table.len()
    }

    /// Keeps the queue's vector until the backend has served the request
    /// `data_info` of `cpu_id`.
    pub fn register_interrupt(
        &self,
        cpu_id: u16,
        data_info: VirtioPCIDataInfo,
        tables: &Vec<MsixTable>,
        manager: &mut VirtioPCIMsixManager,
    )
        requires
            self.has_vector(views(tables@)),
        ensures
            final(manager)@ == old(manager)@.with_entry(cpu_id, data_info, self.vector(views(tables@))),
    {
        manager.insert(cpu_id, data_info, self.get_msix_entry(tables));
    }

    /// Places the descriptor table at `queue_desc`.
    pub fn set_desc_area(&mut self)
        ensures
            *final(self) == old(self).with_desc_area(),
    {
        let base: usize = self.queue_desc as usize;
        match self.desc_table {
            Some(placed) => {
                self.desc_table = Some(DescriptorTable { base, size: placed.size });
            },
            None => {
                self.desc_table = Some(DescriptorTable { base, size: self.queue_size as usize });
            },
        }
    }

    /// Places the available ring at `queue_driver`.
    pub fn set_avail_area(&mut self)
        ensures
            *final(self) == old(self).with_avail_area(),
    {
        let base: usize = self.queue_driver as usize;
        match self.avail_area {
            Some(placed) => {
                self.avail_area = Some(AvailRing { base, size: placed.size });
            },
            None => {
                self.avail_area = Some(AvailRing { base, size: self.queue_size });
            },
        }
    }

    /// Places the used ring at `queue_device`.
    pub fn set_used_area(&mut self)
        ensures
            *final(self) == old(self).with_used_area(),
    {
        let base: usize = self.queue_device as usize;
        match self.used_area {
            Some(placed) => {
                self.used_area = Some(VirtqUsed { base, size: placed.size });
            },
            None => {
                self.used_area = Some(VirtqUsed { base, size: self.queue_size });
            },
        }
    }

    /// Where the driver has put the three parts of the queue.
    pub fn get_area_info(&self) -> (info: VirtqueueAreaInfo)
        ensures
            info == self.area_info(),
    {
        VirtqueueAreaInfo::new(self.queue_desc, self.queue_driver, self.queue_device)
    }

    /// Where the driver has put the three parts of the queue.
    pub open spec fn area_info(self) -> VirtqueueAreaInfo {
        VirtqueueAreaInfo {
            desc: self.queue_desc,
            avail: self.queue_driver,
            used: self.queue_device,
        }
    }

    /// The request for the backend to serve the queue.
    pub fn get_data_info(&self) -> (info: VirtioPCIDataInfo)
        ensures
            info == self.data_info(),
    {
        VirtioPCIDataInfo::new(self.this_dev_id, self.queue_id)
    }

    /// The request for the backend to serve the queue.
    pub open spec fn data_info(self) -> VirtioPCIDataInfo {
        VirtioPCIDataInfo { dev_id: self.this_dev_id, queue_id: self.queue_id }
    }
}

/// A part of a queue that is placed again moves, but keeps the size that it had
/// when it was first placed, whatever the size of the queue has become.
pub proof fn law_placed_parts_keep_their_size(queue: Virtqueue, size: u16, at: u64)
    ensures
        ({
            let placed = queue.with_desc_area();
            let moved = (Virtqueue { queue_size: size, queue_desc: at, ..placed }).with_desc_area();
            moved.desc_table == Some(
                DescriptorTable { base: at as usize, size: placed.desc_table->0.size },
            )
        }),
        ({
            let placed = queue.with_avail_area();
            let moved = (Virtqueue { queue_size: size, queue_driver: at, ..placed })
                .with_avail_area();
            moved.avail_area == Some(
                AvailRing { base: at as usize, size: placed.avail_area->0.size },
            )
        }),
        ({
            let placed = queue.with_used_area();
            let moved = (Virtqueue { queue_size: size, queue_device: at, ..placed })
                .with_used_area();
            moved.used_area == Some(
                VirtqUsed { base: at as usize, size: placed.used_area->0.size },
            )
        }),
{
}

/// The vector of a queue is the one whose number the queue holds, in the table that
/// the queue names; it is there exactly if the table is, and has that many vectors.
pub proof fn law_queue_vector_is_the_one_it_names(queue: Virtqueue, tables: Seq<MsixTableModel>)
    ensures
        queue.has_vector(tables) <==> queue.msix_table < tables.len() && queue.queue_msix_vector
            < tables[queue.msix_table as int].table.len(),
        queue.vector(tables)
            == tables[queue.msix_table as int].table[queue.queue_msix_vector as int],
{
}

/// Of all the vectors of all tables, a queue's vector is one: putting another vector
/// at the number that the queue holds, in the table that it names, makes that the
/// queue's vector, and a vector put anywhere else does not change it.
pub proof fn law_queue_vector_follows_its_number(
    queue: Virtqueue,
    tables: Seq<MsixTableModel>,
    table: int,
    index: int,
    entry: MsixTableEntry,
)
    requires
        queue.has_vector(tables),
        0 <= table < tables.len(),
        0 <= index < tables[table].table.len(),
    ensures
        ({
            let changed = MsixTableModel {
                table: tables[table].table.update(index, entry),
                ..tables[table]
            };
            queue.vector(tables.update(table, changed)) == if table == queue.msix_table && index
                == queue.queue_msix_vector {
                entry
            } else {
                queue.vector(tables)
            }
        }),
{
}

/// What the backend is told of a queue: the addresses of the descriptor table, the
/// available ring and the used ring that the driver wrote, each in its own field,
/// and, in a request, the identifiers of the queue's device and of the queue.
pub proof fn law_backend_is_told_what_the_queue_holds(queue: Virtqueue)
    ensures
        queue.area_info().desc == queue.queue_desc,
        queue.area_info().avail == queue.queue_driver,
        queue.area_info().used == queue.queue_device,
        queue.data_info().dev_id == queue.this_dev_id,
        queue.data_info().queue_id == queue.queue_id,
{
}

/// Placing a part of a queue puts it at the address that the driver wrote for that
/// part, with the size of the queue if it was not placed before, and changes nothing
/// else of the queue.
pub proof fn law_parts_are_placed_where_the_driver_says(queue: Virtqueue)
    ensures
        ({
            let placed = queue.with_desc_area();
            &&& placed == (Virtqueue { desc_table: placed.desc_table, ..queue })
            &&& placed.desc_table is Some
            &&& placed.desc_table->0.base == queue.queue_desc as usize
            &&& placed.desc_table->0.size == match queue.desc_table {
                Some(before) => before.size,
                None => queue.queue_size as usize,
            }
        }),
        ({
            let placed = queue.with_avail_area();
            &&& placed == (Virtqueue { avail_area: placed.avail_area, ..queue })
            &&& placed.avail_area is Some
            &&& placed.avail_area->0.base == queue.queue_driver as usize
            &&& placed.avail_area->0.size == match queue.avail_area {
                Some(before) => before.size,
                None => queue.queue_size,
            }
        }),
        ({
            let placed = queue.with_used_area();
            &&& placed == (Virtqueue { used_area: placed.used_area, ..queue })
            &&& placed.used_area is Some
            &&& placed.used_area->0.base == queue.queue_device as usize
            &&& placed.used_area->0.size == match queue.used_area {
                Some(before) => before.size,
                None => queue.queue_size,
            }
        }),
{
}

/// A new queue has 256 places, vector 1 of its table, is enabled, and is notified at
/// offset 0; the driver has placed none of its parts, and its device has no
/// identifier yet.
pub proof fn law_new_queue(msix: TableSlot, queue_id: u16)
    ensures
        ({
            let queue = Virtqueue::fresh(msix, queue_id);
            &&& queue.queue_size == 256
            &&& queue.queue_msix_vector == 1
            &&& queue.queue_enable == 1
            &&& queue.queue_notify_off == 0
            &&& queue.queue_desc == 0 && queue.queue_driver == 0 && queue.queue_device == 0
            &&& queue.queue_notify_data == 0 && queue.queue_reset == 0
            &&& queue.this_dev_id == MAX_DEVS
            &&& queue.queue_id == queue_id
            &&& queue.msix_table == msix
            &&& queue.desc_table is None && queue.used_area is None && queue.avail_area is None
            &&& queue.last_avail == 0
        }),
{
}

} // verus!
