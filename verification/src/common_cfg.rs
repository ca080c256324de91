//! The common configuration structure: the registers by which a driver sets up
//! a virtio device and its queues.
use vstd::prelude::*;

use crate::area::{AreaEffect, AreaInBar, DevicePeers, EffectModel, PeersModel, QueueSlot};
use crate::bits::{
    lemma_low16, lemma_low32, lemma_low8, lemma_word64, low16, low32, low8, word64,
};
use crate::bridge::{
    ConfigInfoModel, VirtioPCIConfigInfo, VirtqueueAreaInfo, DEVICE_TYPE_ENTROPY, MAX_DEVS,
};
use crate::error::HvResult;
use crate::mmio::MMIOAccess;
use crate::virtqueue::Virtqueue;

verus! {

/// The common configuration of a device. `queue_list` names the queues of the
/// device among those that its structures share.
#[derive(Debug)]
pub struct VirtioPciCommonCfg {
    pub device_feature_select: u32,
    pub device_feature: (u32, u32),
    pub driver_feature_select: u32,
    pub driver_feature: (u32, u32),
    pub config_msix_vector: u16,
    pub num_queue: u16,
    pub device_status: u8,
    pub config_generation: u8,
    pub queue_select: usize,
    pub queue_list: Vec<QueueSlot>,
    pub config_changed: bool,
}

/// The contents of a `VirtioPciCommonCfg`.
pub struct CommonCfgModel {
    pub device_feature_select: u32,
    pub device_feature: (u32, u32),
    pub driver_feature_select: u32,
    pub driver_feature: (u32, u32),
    pub config_msix_vector: u16,
    pub num_queue: u16,
    pub device_status: u8,
    pub config_generation: u8,
    pub queue_select: usize,
    pub queue_list: Seq<QueueSlot>,
    pub config_changed: bool,
}

impl View for VirtioPciCommonCfg {
    type V = CommonCfgModel;

    open spec fn view(&self) -> CommonCfgModel {
        CommonCfgModel {
            device_feature_select: self.device_feature_select,
            device_feature: self.device_feature,
            driver_feature_select: self.driver_feature_select,
            driver_feature: self.driver_feature,
            config_msix_vector: self.config_msix_vector,
            num_queue: self.num_queue,
            device_status: self.device_status,
            config_generation: self.config_generation,
            queue_select: self.queue_select,
            queue_list: self.queue_list@,
            config_changed: self.config_changed,
        }
    }
}

/// What a write to the common configuration came to: whether it reached one of
/// its registers, and the configuration that the backend has to be told.
#[derive(Debug, PartialEq, Eq)]
pub struct CommonWrite {
    pub reached: bool,
    pub config: Option<VirtioPCIConfigInfo>,
}

impl CommonCfgModel {
    /// A device without queues that offers feature bits 32 and 38.
    pub open spec fn fresh() -> CommonCfgModel {
        CommonCfgModel {
            device_feature_select: 0,
            device_feature: (0, 65),
            driver_feature_select: 0,
            driver_feature: (0, 0),
            config_msix_vector: 0,
            num_queue: 0,
            device_status: 0,
            config_generation: 0,
            queue_select: 0,
            queue_list: Seq::empty(),
            config_changed: false,
        }
    }

    /// The device with one more queue.
    pub open spec fn with_queue(self, slot: QueueSlot) -> CommonCfgModel {
        CommonCfgModel {
            num_queue: (self.num_queue + 1) as u16,
            queue_list: self.queue_list.push(slot),
            ..self
        }
    }

    /// The device has as many queues as it says, and each of them is there.
    pub open spec fn well_formed(self, queues: Seq<Virtqueue>) -> bool {
        &&& self.num_queue == self.queue_list.len()
        &&& forall|i: int|
            0 <= i < self.queue_list.len() ==> #[trigger] self.queue_list[i] < queues.len()
    }

    /// The queue that the driver has selected is there.
    pub open spec fn selects_queue(self, queues: Seq<Virtqueue>) -> bool {
        &&& self.queue_select < self.queue_list.len()
        &&& self.queue_list[self.queue_select as int] < queues.len()
    }

    /// The queue that the driver has selected, among those of the device.
    pub open spec fn selected(self) -> int {
        self.queue_list[self.queue_select as int] as int
    }

    /// The features that the driver has accepted, as one word.
    pub open spec fn features(self) -> u64 {
        word64(self.driver_feature.1, self.driver_feature.0)
    }

    /// What the backend is told once the driver has set the device up.
    pub open spec fn config_info(self, queues: Seq<Virtqueue>) -> ConfigInfoModel {
        ConfigInfoModel {
            features: self.features(),
            dev_id: MAX_DEVS,
            dtype: DEVICE_TYPE_ENTROPY,
            num_of_queues: self.num_queue,
            vqs: self.queue_list.map_values(
                |slot: QueueSlot| queues[slot as int].area_info(),
            ),
        }
    }

    /// The registers that do not belong to a queue, after a write.
    pub open spec fn after_write(self, access: MMIOAccess) -> CommonCfgModel {
        let value = access.value;
        match (access.size, access.address) {
            (1, 0x14) => CommonCfgModel { device_status: low8(value), ..self },
            (2, 0x10) => CommonCfgModel { config_msix_vector: low16(value), ..self },
            (2, 0x16) => CommonCfgModel { queue_select: value, ..self },
            (4, 0x00) => CommonCfgModel { device_feature_select: low32(value), ..self },
            (4, 0x08) => CommonCfgModel { driver_feature_select: low32(value), ..self },
            (4, 0x0c) => if self.driver_feature_select == 0 {
                CommonCfgModel { driver_feature: (low32(value), self.driver_feature.1), ..self }
            } else {
                CommonCfgModel { driver_feature: (self.driver_feature.0, low32(value)), ..self }
            },
            _ => self,
        }
    }
}

/// Whether a write goes to a register of the selected queue.
pub open spec fn writes_queue(access: MMIOAccess) -> bool {
    match (access.size, access.address) {
        (2, 0x18) | (2, 0x1a) | (2, 0x1c) => true,
        (4, 0x20) | (4, 0x24) | (4, 0x28) | (4, 0x2c) | (4, 0x30) | (4, 0x34) => true,
        _ => false,
    }
}

/// Whether a read is of a register of the selected queue.
pub open spec fn reads_queue(access: MMIOAccess) -> bool {
    match (access.size, access.address) {
        (2, 0x18) | (2, 0x1a) | (2, 0x1c) | (2, 0x1e) => true,
        _ => false,
    }
}

/// The selected queue after a write to one of its registers. The low half of an
/// address replaces the whole address; the high half is or-ed in above it and
/// places the part of the queue that lies there.
pub open spec fn queue_after_write(queue: Virtqueue, access: MMIOAccess) -> Virtqueue {
    let value = access.value;
    let high = (value as u64) << 32;
    match (access.size, access.address) {
        (2, 0x18) => Virtqueue { queue_size: low16(value), ..queue },
        (2, 0x1a) => Virtqueue { queue_msix_vector: low16(value), ..queue },
        (2, 0x1c) => Virtqueue { queue_enable: low16(value), ..queue },
        (4, 0x20) => Virtqueue { queue_desc: value as u64, ..queue },
        (4, 0x24) => (Virtqueue { queue_desc: queue.queue_desc | high, ..queue }).with_desc_area(),
        (4, 0x28) => Virtqueue { queue_driver: value as u64, ..queue },
        (4, 0x2c) => (Virtqueue {
            queue_driver: queue.queue_driver | high,
            ..queue
        }).with_avail_area(),
        (4, 0x30) => Virtqueue { queue_device: value as u64, ..queue },
        (4, 0x34) => (Virtqueue {
            queue_device: queue.queue_device | high,
            ..queue
        }).with_used_area(),
        _ => queue,
    }
}

/// The queues after a write: the selected one changes if the write goes to it.
pub open spec fn queues_after_write(
    cfg: CommonCfgModel,
    queues: Seq<Virtqueue>,
    access: MMIOAccess,
) -> Seq<Virtqueue> {
    if writes_queue(access) {
        queues.update(cfg.selected(), queue_after_write(queues[cfg.selected()], access))
    } else {
        queues
    }
}

/// Whether a write counts as having reached a register. Enabling a queue, at
/// 0x1c, does not, though it takes effect.
pub open spec fn reaches(access: MMIOAccess) -> bool {
    match (access.size, access.address) {
        (1, 0x14) => true,
        (2, 0x10) | (2, 0x16) | (2, 0x18) | (2, 0x1a) => true,
        (4, 0x00) | (4, 0x08) | (4, 0x0c) => true,
        (4, 0x20) | (4, 0x24) | (4, 0x28) | (4, 0x2c) | (4, 0x30) | (4, 0x34) => true,
        _ => false,
    }
}

/// Whether a write says that the driver has set the device up.
pub open spec fn completes_setup(access: MMIOAccess) -> bool {
    access.size == 1 && access.address == 0x14 && access.value & 0x04 != 0
}

impl VirtioPciCommonCfg {
    /// A device without queues that offers feature bits 32 and 38.
    pub fn new() -> (cfg: Self)
        ensures
            cfg@ == CommonCfgModel::fresh(),
    {
        VirtioPciCommonCfg {
            device_feature_select: 0,
            device_feature: (0, 65),
            driver_feature_select: 0,
            driver_feature: (0, 0),
            config_msix_vector: 0x0,
            num_queue: 0,
            device_status: 0,
            config_generation: 0,
            queue_select: 0,
            queue_list: Vec::new(),
            config_changed: false,
        }
    }

    /// Adds a queue of the device.
    pub fn insert_queue(&mut self, qu: QueueSlot)
        requires
            old(self)@.num_queue < u16::MAX,
        ensures
            final(self)@ == old(self)@.with_queue(qu),
    {
        self.queue_list.push(qu);
        self.num_queue = self.num_queue + 1;
    }

    /// What the backend has to be told so that it serves the queues of the device.
    /// Its answer, the identifier of the device, goes to `assign_dev_id`.
    pub fn init_virtqueue_shared_space(&self, queues: &Vec<Virtqueue>) -> (info:
        VirtioPCIConfigInfo)
        requires
            self@.well_formed(queues@),
        ensures
            info@ == self@.config_info(queues@),
    {
        let mut vqs: Vec<VirtqueueAreaInfo> = Vec::new();
        let count: usize = self.num_queue as usize;
        let mut i: usize = 0;
        while i < count
            invariant
                i <= count,
                count == self.queue_list@.len(),
                self@.well_formed(queues@),
                vqs@ == self@.config_info(queues@).vqs.take(i as int),
            decreases count - i,
        {
            let slot: QueueSlot = self.queue_list[i];
            vqs.push(queues[slot].get_area_info());
            i = i + 1;
            assert(vqs@ =~= self@.config_info(queues@).vqs.take(i as int));
        }
        assert(vqs@ =~= self@.config_info(queues@).vqs);
        VirtioPCIConfigInfo {
            features: self.get_features(),
            dev_id: MAX_DEVS,
            dtype: DEVICE_TYPE_ENTROPY,
            num_of_queues: self.num_queue,
            vqs,
        }
    }

    /// Tells every queue of the device the identifier that the backend has given it.
    pub fn assign_dev_id(&self, dev_id: u16, queues: &mut Vec<Virtqueue>)
        requires
            self@.well_formed(old(queues)@),
        ensures
            final(queues)@ == with_dev_id(old(queues)@, self@.queue_list, dev_id),
    {
        let mut i: usize = 0;
        assert(self.queue_list@.take(0) =~= Seq::<QueueSlot>::empty());
        assert(with_dev_id(queues@, self.queue_list@.take(0), dev_id) =~= queues@);
        while i < self.queue_list.len()
            invariant
                i <= self.queue_list@.len(),
                self@.well_formed(queues@),
                queues@ == with_dev_id(old(queues)@, self.queue_list@.take(i as int), dev_id),
            decreases self.queue_list@.len() - i,
        {
            let slot: QueueSlot = self.queue_list[i];
            queues[slot].set_dev_id(dev_id);
            proof {
                let told = self.queue_list@.take(i as int);
                assert(self.queue_list@.take(i + 1) =~= told.push(slot));
                assert forall|q: int| lists(told.push(slot), q) <==> lists(told, q) || q == slot by {
                    assert(told.push(slot)[told.len() as int] == slot);
                    if lists(told, q) {
                        let j = choose|j: int| 0 <= j < told.len() && told[j] == q;
                        assert(told.push(slot)[j] == q);
                    }
                }
                assert(queues@ =~= with_dev_id(old(queues)@, told.push(slot), dev_id));
            }
            i = i + 1;
        }
        assert(self.queue_list@.take(self.queue_list@.len() as int) =~= self.queue_list@);
    }

    /// The features that the driver has accepted, as one word.
    pub fn get_features(&self) -> (features: u64)
        ensures
            features == self@.features(),
    {
        proof {
            lemma_word64(self.driver_feature.1, self.driver_feature.0);
        }
        (self.driver_feature.1 as u64) << 32 | (self.driver_feature.0 as u64)
    }

    /// Tells whether each queue of the device is there, and all are counted.
    pub fn is_well_formed(&self, queues: &Vec<Virtqueue>) -> (result: bool)
        ensures
            result == self@.well_formed(queues@),
    {
        if self.num_queue as usize != self.queue_list.len() {
            return false;
        }
        let mut i: usize = 0;
        while i < self.queue_list.len()
            invariant
                i <= self.queue_list@.len(),
                forall|j: int| 0 <= j < i ==> #[trigger] self@.queue_list[j] < queues@.len(),
            decreases self.queue_list@.len() - i,
        {
            if self.queue_list[i] >= queues.len() {
                assert(self@.queue_list[i as int] >= queues@.len());
                return false;
            }
            i = i + 1;
        }
        true
    }

    /// Tells whether the queue that the driver has selected is there.
    fn has_selected_queue(&self, queues: &Vec<Virtqueue>) -> (result: bool)
        ensures
            result == self@.selects_queue(queues@),
    {
        self.queue_select < self.queue_list.len() && self.queue_list[self.queue_select]
            < queues.len()
    }

    /// Takes in a write to one of the registers.
    pub fn write_into(&mut self, mmio_ac: &MMIOAccess, queues: &mut Vec<Virtqueue>) -> (outcome:
        CommonWrite)
        requires
            completes_setup(*mmio_ac) ==> old(self)@.well_formed(old(queues)@),
            writes_queue(*mmio_ac) ==> old(self)@.selects_queue(old(queues)@),
        ensures
            final(self)@ == old(self)@.after_write(*mmio_ac),
            final(queues)@ == queues_after_write(old(self)@, old(queues)@, *mmio_ac),
            outcome.reached == reaches(*mmio_ac),
            match outcome.config {
                Some(info) => completes_setup(*mmio_ac) && info@ == old(self)@.config_info(
                    old(queues)@,
                ),
                None => !completes_setup(*mmio_ac),
            },
    {
        let addr: usize = mmio_ac.address;
        let size: usize = mmio_ac.size;
        let value: usize = mmio_ac.value;
        proof {
            lemma_low8(value);
            lemma_low16(value);
            lemma_low32(value);
        }
        if size == 1 {
            match addr {
                0x14 => {
                    let config: Option<VirtioPCIConfigInfo> = if value & 0x04 != 0 {
                        Some(self.init_virtqueue_shared_space(queues))
                    } else {
                        None
                    };
                    self.device_status = value as u8;
                    return CommonWrite { reached: true, config };
                },
                _ => {
                    return CommonWrite { reached: false, config: None };
                },
            }
        }
        if size == 2 {
            match addr {
                0x10 => {
                    self.config_msix_vector = value as u16;
                    return CommonWrite { reached: true, config: None };
                },
                0x16 => {
                    self.queue_select = value;
                    return CommonWrite { reached: true, config: None };
                },
                0x18 => {
                    let slot: QueueSlot = self.queue_list[self.queue_select];
                    queues[slot].queue_size = value as u16;
                    return CommonWrite { reached: true, config: None };
                },
                0x1a => {
                    let slot: QueueSlot = self.queue_list[self.queue_select];
                    queues[slot].queue_msix_vector = value as u16;
                    return CommonWrite { reached: true, config: None };
                },
                0x1c => {
                    let slot: QueueSlot = self.queue_list[self.queue_select];
                    queues[slot].queue_enable = value as u16;
                },
                // 0x1e is read-only for the driver
                _ => {
                    return CommonWrite { reached: false, config: None };
                },
            }
        }
        if size == 4 {
            match addr {
                0x00 => {
                    self.device_feature_select = value as u32;
                    return CommonWrite { reached: true, config: None };
                },
                0x08 => {
                    self.driver_feature_select = value as u32;
                    return CommonWrite { reached: true, config: None };
                },
                0x0c => {
                    if self.driver_feature_select == 0 {
                        self.driver_feature.0 = value as u32;
                    } else {
                        self.driver_feature.1 = value as u32;
                    }
                    return CommonWrite { reached: true, config: None };
                },
                0x20 => {
                    let slot: QueueSlot = self.queue_list[self.queue_select];
                    queues[slot].queue_desc = value as u64;
                    return CommonWrite { reached: true, config: None };
                },
                0x24 => {
                    let slot: QueueSlot = self.queue_list[self.queue_select];
                    let queue: &mut Virtqueue = &mut queues[slot];
                    queue.queue_desc = queue.queue_desc | (value as u64) << 32;
                    queue.set_desc_area();
                    return CommonWrite { reached: true, config: None };
                },
                0x28 => {
                    let slot: QueueSlot = self.queue_list[self.queue_select];
                    queues[slot].queue_driver = value as u64;
                    return CommonWrite { reached: true, config: None };
                },
                0x2c => {
                    let slot: QueueSlot = self.queue_list[self.queue_select];
                    let queue: &mut Virtqueue = &mut queues[slot];
                    queue.queue_driver = queue.queue_driver | (value as u64) << 32;
                    queue.set_avail_area();
                    return CommonWrite { reached: true, config: None };
                },
                0x30 => {
                    let slot: QueueSlot = self.queue_list[self.queue_select];
                    queues[slot].queue_device = value as u64;
                    return CommonWrite { reached: true, config: None };
                },
                0x34 => {
                    let slot: QueueSlot = self.queue_list[self.queue_select];
                    let queue: &mut Virtqueue = &mut queues[slot];
                    queue.queue_device = queue.queue_device | (value as u64) << 32;
                    queue.set_used_area();
                    return CommonWrite { reached: true, config: None };
                },
                _ => {
                    return CommonWrite { reached: false, config: None };
                },
            }
        }
        CommonWrite { reached: false, config: None }
    }
}

/// Whether `slots` names the queue at place `queue`.
pub open spec fn lists(slots: Seq<QueueSlot>, queue: int) -> bool {
    exists|j: int| 0 <= j < slots.len() && #[trigger] slots[j] == queue
}

/// The queues once those in `slots` were told their device's identifier.
pub open spec fn with_dev_id(
    queues: Seq<Virtqueue>,
    slots: Seq<QueueSlot>,
    dev_id: u16,
) -> Seq<Virtqueue> {
    queues.map(
        |i: int, queue: Virtqueue|
            if lists(slots, i) {
                Virtqueue { this_dev_id: dev_id, ..queue }
            } else {
                queue
            },
    )
}

impl AreaInBar for VirtioPciCommonCfg {
    type Peers = DevicePeers;

    /// A read of a queue's register needs the selected queue, and a read of the
    /// generation counts it up once a write has reached a register.
    open spec fn read_allowed(area: CommonCfgModel, access: MMIOAccess, peers: PeersModel) -> bool {
        &&& reads_queue(access) ==> area.selects_queue(peers.queues)
        &&& access.size == 1 && access.address == 0x15 && area.config_changed
            ==> area.config_generation < u8::MAX
    }

    open spec fn read_result(area: CommonCfgModel, access: MMIOAccess, peers: PeersModel) -> (
        CommonCfgModel,
        MMIOAccess,
    ) {
        let queue = peers.queues[area.selected()];
        match (access.size, access.address) {
            (1, 0x14) => (area, access.answered(area.device_status as usize)),
            (1, 0x15) => {
                let counted = if area.config_changed {
                    (area.config_generation + 1) as u8
                } else {
                    area.config_generation
                };
                (
                    CommonCfgModel { config_generation: counted, ..area },
                    access.answered(counted as usize),
                )
            },
            (2, 0x10) => (area, access.answered(area.config_msix_vector as usize)),
            (2, 0x12) => (area, access.answered(area.num_queue as usize)),
            (2, 0x18) => (area, access.answered(queue.queue_size as usize)),
            (2, 0x1a) => (area, access.answered(queue.queue_enable as usize)),
            (2, 0x1c) | (2, 0x1e) => (area, access.answered(queue.queue_notify_off as usize)),
            (4, 0x04) => if area.device_feature_select == 0 {
                (area, access.answered(area.device_feature.0 as usize))
            } else {
                (area, access.answered(area.device_feature.1 as usize))
            },
            _ => (area, access),
        }
    }

    open spec fn write_allowed(
        area: CommonCfgModel,
        access: MMIOAccess,
        peers: PeersModel,
    ) -> bool {
        &&& completes_setup(access) ==> area.well_formed(peers.queues)
        &&& writes_queue(access) ==> area.selects_queue(peers.queues)
    }

    /// A write that reaches a register also counts as a change of the configuration.
    open spec fn write_result(area: CommonCfgModel, access: MMIOAccess, peers: PeersModel) -> (
        CommonCfgModel,
        PeersModel,
        EffectModel,
    ) {
        let written = area.after_write(access);
        (
            if reaches(access) {
                CommonCfgModel { config_changed: true, ..written }
            } else {
                written
            },
            PeersModel { queues: queues_after_write(area, peers.queues, access), ..peers },
            if completes_setup(access) {
                EffectModel::Configure(area.config_info(peers.queues))
            } else {
                EffectModel::Nothing
            },
        )
    }

    fn can_read(&self, mmio_ac: &MMIOAccess, peers: &DevicePeers) -> (allowed: bool) {
        match (mmio_ac.size, mmio_ac.address) {
            (1, 0x15) => !self.config_changed || self.config_generation < u8::MAX,
            (2, 0x18) | (2, 0x1a) | (2, 0x1c) | (2, 0x1e) => self.has_selected_queue(
                &peers.queues,
            ),
            _ => true,
        }
    }

    fn can_write(&self, mmio_ac: &MMIOAccess, peers: &DevicePeers) -> (allowed: bool) {
        match (mmio_ac.size, mmio_ac.address) {
            (1, 0x14) => mmio_ac.value & 0x04 == 0 || self.is_well_formed(&peers.queues),
            (2, 0x18) | (2, 0x1a) | (2, 0x1c) => self.has_selected_queue(&peers.queues),
            (4, 0x20) | (4, 0x24) | (4, 0x28) | (4, 0x2c) | (4, 0x30) | (4, 0x34) => {
                self.has_selected_queue(&peers.queues)
            },
            _ => true,
        }
    }

    fn read(&mut self, mmio_ac: &mut MMIOAccess, peers: &DevicePeers) -> (result: HvResult<()>) {
        let addr: usize = mmio_ac.address;
        let size: usize = mmio_ac.size;
        if size == 1 {
            match addr {
                0x14 => {
                    mmio_ac.value = self.device_status as usize;
                },
                0x15 => {
                    if self.config_changed {
                        self.config_generation = self.config_generation + 1;
                    }
                    mmio_ac.value = self.config_generation as usize;
                },
                _ => {
                    return Ok(());
                },
            }
        }
        if size == 2 {
            match addr {
                0x10 => {
                    mmio_ac.value = self.config_msix_vector as usize;
                },
                0x12 => {
                    mmio_ac.value = self.num_queue as usize;
                },
                0x18 => {
                    let slot: QueueSlot = self.queue_list[self.queue_select];
                    mmio_ac.value = peers.queues[slot].queue_size as usize;
                },
                0x1a => {
                    let slot: QueueSlot = self.queue_list[self.queue_select];
                    mmio_ac.value = peers.queues[slot].queue_enable as usize;
                },
                0x1c => {
                    let slot: QueueSlot = self.queue_list[self.queue_select];
                    mmio_ac.value = peers.queues[slot].queue_notify_off as usize;
                },
                0x1e => {
                    let slot: QueueSlot = self.queue_list[self.queue_select];
                    mmio_ac.value = peers.queues[slot].queue_notify_off as usize;
                },
                _ => {
                    return Ok(());
                },
            }
        }
        if size == 4 {
            match addr {
                0x04 => {
                    if self.device_feature_select == 0 {
                        mmio_ac.value = self.device_feature.0 as usize;
                    } else {
                        mmio_ac.value = self.device_feature.1 as usize;
                    }
                },
                _ => {
                    return Ok(());
                },
            }
        }
        Ok(())
    }

    fn write(&mut self, mmio_ac: &MMIOAccess, peers: &mut DevicePeers) -> (result: HvResult<
        AreaEffect,
    >) {
        let outcome: CommonWrite = self.write_into(mmio_ac, &mut peers.queues);
        if outcome.reached {
            self.config_changed = true;
        }
        match outcome.config {
            Some(info) => Ok(AreaEffect::Configure(info)),
            None => Ok(AreaEffect::Nothing),
        }
    }
}

/// The status that the driver writes is the status that it reads.
pub proof fn law_status_reads_back(
    area: CommonCfgModel,
    peers: PeersModel,
    store: MMIOAccess,
    load: MMIOAccess,
)
    requires
        VirtioPciCommonCfg::write_allowed(area, store, peers),
        store.size == 1 && store.address == 0x14,
        load.size == 1 && load.address == 0x14,
    ensures
        ({
            let (written, after, _) = VirtioPciCommonCfg::write_result(area, store, peers);
            VirtioPciCommonCfg::read_result(written, load, after).1.value == low8(store.value)
        }),
{
}

/// The vector of configuration changes is read as it was written.
pub proof fn law_config_vector_reads_back(
    area: CommonCfgModel,
    peers: PeersModel,
    store: MMIOAccess,
    load: MMIOAccess,
)
    requires
        store.size == 2 && store.address == 0x10,
        load.size == 2 && load.address == 0x10,
    ensures
        ({
            let (written, after, _) = VirtioPciCommonCfg::write_result(area, store, peers);
            VirtioPciCommonCfg::read_result(written, load, after).1.value == low16(store.value)
        }),
{
}

/// The size of the selected queue is read as it was written.
pub proof fn law_queue_size_reads_back(
    area: CommonCfgModel,
    peers: PeersModel,
    store: MMIOAccess,
    load: MMIOAccess,
)
    requires
        area.selects_queue(peers.queues),
        store.size == 2 && store.address == 0x18,
        load.size == 2 && load.address == 0x18,
    ensures
        ({
            let (written, after, _) = VirtioPciCommonCfg::write_result(area, store, peers);
            &&& VirtioPciCommonCfg::read_allowed(written, load, after)
            &&& VirtioPciCommonCfg::read_result(written, load, after).1.value == low16(store.value)
        }),
{
}

/// What is written to the enable register of the selected queue, at 0x1c, is
/// read at 0x1a.
pub proof fn law_queue_enable_is_read_below(
    area: CommonCfgModel,
    peers: PeersModel,
    store: MMIOAccess,
    load: MMIOAccess,
)
    requires
        area.selects_queue(peers.queues),
        store.size == 2 && store.address == 0x1c,
        load.size == 2 && load.address == 0x1a,
    ensures
        ({
            let (written, after, _) = VirtioPciCommonCfg::write_result(area, store, peers);
            &&& VirtioPciCommonCfg::read_allowed(written, load, after)
            &&& VirtioPciCommonCfg::read_result(written, load, after).1.value == low16(store.value)
        }),
{
}

/// A write touches no queue but the selected one, no vector table, and of the
/// queue neither its notification offset nor the identifiers of queue and device.
pub proof fn law_write_touches_selected_queue_only(
    area: CommonCfgModel,
    peers: PeersModel,
    store: MMIOAccess,
    other: int,
)
    requires
        VirtioPciCommonCfg::write_allowed(area, store, peers),
        0 <= other < peers.queues.len(),
    ensures
        ({
            let after = VirtioPciCommonCfg::write_result(area, store, peers).1;
            &&& after.queues.len() == peers.queues.len()
            &&& after.tables == peers.tables
            &&& other != area.selected() ==> after.queues[other] == peers.queues[other]
            &&& after.queues[other].queue_notify_off == peers.queues[other].queue_notify_off
            &&& after.queues[other].data_info() == peers.queues[other].data_info()
            &&& after.queues[other].msix_table == peers.queues[other].msix_table
        }),
{
}

/// Whether an access is of `size` bytes at `address`.
pub open spec fn is_at(access: MMIOAccess, size: usize, address: usize) -> bool {
    access.size == size && access.address == address
}

/// Every register keeps what it holds, through any write but one to itself: those
/// of the device, and those of each queue. The address of a part of a queue, and
/// the part, change by writes to the halves of the address only.
pub proof fn law_register_changes_by_its_own_writes_only(
    area: CommonCfgModel,
    peers: PeersModel,
    store: MMIOAccess,
    queue: int,
)
    requires
        VirtioPciCommonCfg::write_allowed(area, store, peers),
        0 <= queue < peers.queues.len(),
    ensures
        ({
            let written = VirtioPciCommonCfg::write_result(area, store, peers).0;
            &&& is_at(store, 1, 0x14) || written.device_status == area.device_status
            &&& is_at(store, 2, 0x10) || written.config_msix_vector == area.config_msix_vector
            &&& is_at(store, 2, 0x16) || written.queue_select == area.queue_select
            &&& is_at(store, 4, 0x00) || written.device_feature_select
                == area.device_feature_select
            &&& is_at(store, 4, 0x08) || written.driver_feature_select
                == area.driver_feature_select
            &&& is_at(store, 4, 0x0c) || written.driver_feature == area.driver_feature
        }),
        ({
            let before = peers.queues[queue];
            let after = VirtioPciCommonCfg::write_result(area, store, peers).1.queues[queue];
            &&& is_at(store, 2, 0x18) || after.queue_size == before.queue_size
            &&& is_at(store, 2, 0x1a) || after.queue_msix_vector == before.queue_msix_vector
            &&& is_at(store, 2, 0x1c) || after.queue_enable == before.queue_enable
            &&& is_at(store, 4, 0x20) || is_at(store, 4, 0x24) || after.queue_desc
                == before.queue_desc
            &&& is_at(store, 4, 0x28) || is_at(store, 4, 0x2c) || after.queue_driver
                == before.queue_driver
            &&& is_at(store, 4, 0x30) || is_at(store, 4, 0x34) || after.queue_device
                == before.queue_device
            &&& is_at(store, 4, 0x24) || after.desc_table == before.desc_table
            &&& is_at(store, 4, 0x2c) || after.avail_area == before.avail_area
            &&& is_at(store, 4, 0x34) || after.used_area == before.used_area
        }),
{
}

/// What the driver cannot write: the offered features, the number of queues and
/// which they are, and the generation.
pub proof fn law_read_only_registers(area: CommonCfgModel, peers: PeersModel, store: MMIOAccess)
    ensures
        ({
            let written = VirtioPciCommonCfg::write_result(area, store, peers).0;
            &&& written.device_feature == area.device_feature
            &&& written.num_queue == area.num_queue
            &&& written.queue_list == area.queue_list
            &&& written.config_generation == area.config_generation
        }),
{
}

/// A write that reaches no register and does not enable a queue changes nothing.
pub proof fn law_unreached_write_changes_nothing(
    area: CommonCfgModel,
    peers: PeersModel,
    store: MMIOAccess,
)
    requires
        !reaches(store),
        !(store.size == 2 && store.address == 0x1c),
    ensures
        VirtioPciCommonCfg::write_result(area, store, peers) == (area, peers, EffectModel::Nothing),
{
}

/// A read changes nothing but the generation, and that only where the generation
/// is what is read.
pub proof fn law_read_changes_generation_only(
    area: CommonCfgModel,
    peers: PeersModel,
    load: MMIOAccess,
)
    ensures
        ({
            let (after, _) = VirtioPciCommonCfg::read_result(area, load, peers);
            &&& after == (CommonCfgModel { config_generation: after.config_generation, ..area })
            &&& !(load.size == 1 && load.address == 0x15) ==> after == area
        }),
{
}

/// Once a write has reached a register, every read of the generation gives one
/// more than it was; before that, reading it changes nothing.
pub proof fn law_generation_counts_reads(
    area: CommonCfgModel,
    peers: PeersModel,
    store: MMIOAccess,
    load: MMIOAccess,
)
    requires
        load.size == 1 && load.address == 0x15,
        VirtioPciCommonCfg::read_allowed(
            VirtioPciCommonCfg::write_result(area, store, peers).0,
            load,
            peers,
        ),
    ensures
        ({
            let written = VirtioPciCommonCfg::write_result(area, store, peers).0;
            let (after, answered) = VirtioPciCommonCfg::read_result(written, load, peers);
            &&& reaches(store) || area.config_changed ==> answered.value == area.config_generation
                + 1 && after.config_generation == area.config_generation + 1
            &&& !reaches(store) && !area.config_changed ==> answered.value
                == area.config_generation && after.config_generation == area.config_generation
            &&& after.config_changed == written.config_changed
        }),
{
}

/// The low and then the high half of an address that the driver writes make the
/// address, and the part of the queue is placed there: the descriptor table, the
/// available ring and the used ring alike.
pub proof fn law_address_halves_make_the_address(queue: Virtqueue, low: u32, high: u32)
    ensures
        ({
            let half = |address: usize, value: u32|
                MMIOAccess { address, size: 4, is_write: true, value: value as usize };
            let placed = queue_after_write(
                queue_after_write(queue, half(0x20, low)),
                half(0x24, high),
            );
            &&& placed.queue_desc == word64(high, low)
            &&& placed.desc_table is Some
            &&& placed.desc_table->0.base == word64(high, low) as usize
        }),
        ({
            let half = |address: usize, value: u32|
                MMIOAccess { address, size: 4, is_write: true, value: value as usize };
            let placed = queue_after_write(
                queue_after_write(queue, half(0x28, low)),
                half(0x2c, high),
            );
            &&& placed.queue_driver == word64(high, low)
            &&& placed.avail_area is Some
            &&& placed.avail_area->0.base == word64(high, low) as usize
        }),
        ({
            let half = |address: usize, value: u32|
                MMIOAccess { address, size: 4, is_write: true, value: value as usize };
            let placed = queue_after_write(
                queue_after_write(queue, half(0x30, low)),
                half(0x34, high),
            );
            &&& placed.queue_device == word64(high, low)
            &&& placed.used_area is Some
            &&& placed.used_area->0.base == word64(high, low) as usize
        }),
{
    lemma_word64(high, low);
    assert((low as u64) | ((high as u64) << 32) == (high as u64) << 32 | (low as u64))
        by (bit_vector);
}

/// The features that the driver accepts, half by half, are the features that the
/// backend is told.
pub proof fn law_accepted_features(
    area: CommonCfgModel,
    queues: Seq<Virtqueue>,
    low: u32,
    high: u32,
)
    ensures
        ({
            let word = |address: usize, value: u32|
                MMIOAccess { address, size: 4, is_write: true, value: value as usize };
            let lower = area.after_write(word(0x08, 0)).after_write(word(0x0c, low));
            let both = lower.after_write(word(0x08, 1)).after_write(word(0x0c, high));
            both.config_info(queues).features == word64(high, low)
        }),
{
}

/// The driver reads the low half of the offered features under selector 0 and
/// the high half under any other.
pub proof fn law_offered_features(
    area: CommonCfgModel,
    peers: PeersModel,
    selector: u32,
    load: MMIOAccess,
)
    requires
        load.size == 4 && load.address == 0x04,
    ensures
        ({
            let select = MMIOAccess {
                address: 0,
                size: 4,
                is_write: true,
                value: selector as usize,
            };
            VirtioPciCommonCfg::read_result(area.after_write(select), load, peers).1.value == if selector
                == 0 {
                area.device_feature.0
            } else {
                area.device_feature.1
            }
        }),
{
}

/// Adding a queue that is there, and every write, keep the configuration well
/// formed.
pub proof fn law_well_formed_is_kept(
    area: CommonCfgModel,
    peers: PeersModel,
    added: QueueSlot,
    store: MMIOAccess,
)
    requires
        area.well_formed(peers.queues),
    ensures
        added < peers.queues.len() && area.num_queue < u16::MAX ==> area.with_queue(
            added,
        ).well_formed(peers.queues),
        VirtioPciCommonCfg::write_allowed(area, store, peers) ==> {
            let (written, after, _) = VirtioPciCommonCfg::write_result(area, store, peers);
            written.well_formed(after.queues)
        },
{
}

/// Once the backend has answered, every queue of the device asks for service
/// under the identifier that it was given, and no other queue has changed.
pub proof fn law_identifier_reaches_every_queue(
    area: CommonCfgModel,
    queues: Seq<Virtqueue>,
    dev_id: u16,
    queue: int,
)
    requires
        area.well_formed(queues),
        0 <= queue < queues.len(),
    ensures
        ({
            let told = with_dev_id(queues, area.queue_list, dev_id);
            &&& told.len() == queues.len()
            &&& told[queue].queue_id == queues[queue].queue_id
            &&& lists(area.queue_list, queue) ==> told[queue].data_info().dev_id == dev_id
            &&& !lists(area.queue_list, queue) ==> told[queue] == queues[queue]
            &&& area.well_formed(told)
        }),
{
}

/// After the driver has selected a queue, what it writes to queue registers goes
/// to that queue.
pub proof fn law_selection_directs_queue_writes(
    area: CommonCfgModel,
    peers: PeersModel,
    select: MMIOAccess,
    store: MMIOAccess,
)
    requires
        select.size == 2 && select.address == 0x16,
        select.value < area.queue_list.len(),
        area.queue_list[select.value as int] < peers.queues.len(),
        writes_queue(store),
    ensures
        ({
            let (selected, same, _) = VirtioPciCommonCfg::write_result(area, select, peers);
            let slot = area.queue_list[select.value as int] as int;
            &&& same == peers
            &&& VirtioPciCommonCfg::write_allowed(selected, store, same)
            &&& VirtioPciCommonCfg::write_result(selected, store, same).1.queues[slot]
                == queue_after_write(peers.queues[slot], store)
        }),
{
}

/// What the registers of the device hold after a write: the one that is written the
/// low bits of the value, as many as it has, whatever it held before. A write to the
/// accepted features goes to the low half under selector 0, to the high half under
/// any other. The configuration counts as changed after a write to any register but
/// the enable register of a queue.
pub proof fn law_written_registers(area: CommonCfgModel, peers: PeersModel, store: MMIOAccess)
    ensures
        ({
            let after = VirtioPciCommonCfg::write_result(area, store, peers).0;
            let at = |size: usize, address: usize| store.size == size && store.address == address;
            let word = store.value as u64 % 0x1_0000_0000;
            &&& at(1, 0x14) ==> after.device_status == store.value % 0x100
            &&& at(2, 0x10) ==> after.config_msix_vector == store.value % 0x1_0000
            &&& at(2, 0x16) ==> after.queue_select == store.value
            &&& at(4, 0x00) ==> after.device_feature_select == word
            &&& at(4, 0x08) ==> after.driver_feature_select == word
            &&& at(4, 0x0c) && area.driver_feature_select == 0 ==> after.driver_feature.0 == word
                && after.driver_feature.1 == area.driver_feature.1
            &&& at(4, 0x0c) && area.driver_feature_select != 0 ==> after.driver_feature.1 == word
                && after.driver_feature.0 == area.driver_feature.0
            &&& after.config_changed == (area.config_changed || at(1, 0x14) || at(2, 0x10) || at(
                2,
                0x16,
            ) || at(2, 0x18) || at(2, 0x1a) || at(4, 0x00) || at(4, 0x08) || at(4, 0x0c) || at(
                4,
                0x20,
            ) || at(4, 0x24) || at(4, 0x28) || at(4, 0x2c) || at(4, 0x30) || at(4, 0x34))
        }),
{
}

/// What the selected queue holds after a write to one of its 16-bit registers: the
/// low 16 bits of the value, whatever it held before, and everything else as before.
pub proof fn law_written_queue_registers(
    area: CommonCfgModel,
    peers: PeersModel,
    store: MMIOAccess,
)
    requires
        area.queue_select < area.queue_list.len(),
        area.queue_list[area.queue_select as int] < peers.queues.len(),
    ensures
        ({
            let slot = area.queue_list[area.queue_select as int] as int;
            let before = peers.queues[slot];
            let after = VirtioPciCommonCfg::write_result(area, store, peers).1.queues[slot];
            let at = |size: usize, address: usize| store.size == size && store.address == address;
            &&& at(2, 0x18) ==> after.queue_size == store.value % 0x1_0000 && after == (Virtqueue {
                queue_size: after.queue_size,
                ..before
            })
            &&& at(2, 0x1a) ==> after.queue_msix_vector == store.value % 0x1_0000 && after == (
            Virtqueue { queue_msix_vector: after.queue_msix_vector, ..before })
            &&& at(2, 0x1c) ==> after.queue_enable == store.value % 0x1_0000 && after == (
            Virtqueue { queue_enable: after.queue_enable, ..before })
        }),
{
}

/// What the selected queue holds after a write to an address: the write of the low
/// half replaces the whole address and moves nothing; the write of the high half
/// adds it above a low half, leaves the low 32 bits as they were, and places the
/// part of the queue at the address. The descriptor table is at 0x20, the available
/// ring, which is the driver's, at 0x28, the used ring, which is the device's, at
/// 0x30.
pub proof fn law_written_queue_addresses(
    area: CommonCfgModel,
    peers: PeersModel,
    store: MMIOAccess,
)
    requires
        area.queue_select < area.queue_list.len(),
        area.queue_list[area.queue_select as int] < peers.queues.len(),
    ensures
        ({
            let slot = area.queue_list[area.queue_select as int] as int;
            let before = peers.queues[slot];
            let after = VirtioPciCommonCfg::write_result(area, store, peers).1.queues[slot];
            let at = |size: usize, address: usize| store.size == size && store.address == address;
            &&& at(4, 0x20) ==> after.queue_desc == store.value && after == (Virtqueue {
                queue_desc: after.queue_desc,
                ..before
            })
            &&& at(4, 0x28) ==> after.queue_driver == store.value && after == (Virtqueue {
                queue_driver: after.queue_driver,
                ..before
            })
            &&& at(4, 0x30) ==> after.queue_device == store.value && after == (Virtqueue {
                queue_device: after.queue_device,
                ..before
            })
            &&& at(4, 0x24) ==> {
                &&& joined(before.queue_desc, store.value, after.queue_desc)
                &&& after.desc_table is Some
                &&& after.desc_table->0.base == after.queue_desc as usize
                &&& before.desc_table is None ==> after.desc_table->0.size == before.queue_size
                &&& before.desc_table is Some ==> after.desc_table->0.size
                    == before.desc_table->0.size
                &&& after == (Virtqueue {
                    queue_desc: after.queue_desc,
                    desc_table: after.desc_table,
                    ..before
                })
            }
            &&& at(4, 0x2c) ==> {
                &&& joined(before.queue_driver, store.value, after.queue_driver)
                &&& after.avail_area is Some
                &&& after.avail_area->0.base == after.queue_driver as usize
                &&& before.avail_area is None ==> after.avail_area->0.size == before.queue_size
                &&& before.avail_area is Some ==> after.avail_area->0.size
                    == before.avail_area->0.size
                &&& after == (Virtqueue {
                    queue_driver: after.queue_driver,
                    avail_area: after.avail_area,
                    ..before
                })
            }
            &&& at(4, 0x34) ==> {
                &&& joined(before.queue_device, store.value, after.queue_device)
                &&& after.used_area is Some
                &&& after.used_area->0.base == after.queue_device as usize
                &&& before.used_area is None ==> after.used_area->0.size == before.queue_size
                &&& before.used_area is Some ==> after.used_area->0.size
                    == before.used_area->0.size
                &&& after == (Virtqueue {
                    queue_device: after.queue_device,
                    used_area: after.used_area,
                    ..before
                })
            }
        }),
{
    let before = peers.queues[area.queue_list[area.queue_select as int] as int];
    lemma_joined(before.queue_desc, store.value);
    lemma_joined(before.queue_driver, store.value);
    lemma_joined(before.queue_device, store.value);
}

/// Whether `after` is the address `before` with the low 32 bits of `high` or-ed in
/// above its low half: the low half is that of `before`, and where `before` had no
/// high half, the high half is that of `high`.
pub open spec fn joined(before: u64, high: usize, after: u64) -> bool {
    &&& after % 0x1_0000_0000 == before % 0x1_0000_0000
    &&& after / 0x1_0000_0000 == (before / 0x1_0000_0000) | (high as u64 % 0x1_0000_0000)
    &&& before < 0x1_0000_0000 ==> after == before + high as u64 % 0x1_0000_0000 * 0x1_0000_0000
}

/// Or-ing a shifted value into an address joins the two.
proof fn lemma_joined(before: u64, high: usize)
    ensures
        joined(before, high, before | ((high as u64) << 32)),
{
    let wide = high as u64;
    assert((before | (wide << 32)) % 0x1_0000_0000 == before % 0x1_0000_0000) by (bit_vector);
    assert((before | (wide << 32)) / 0x1_0000_0000 == (before / 0x1_0000_0000) | (wide
        % 0x1_0000_0000)) by (bit_vector);
    assert(before < 0x1_0000_0000 ==> (before | (wide << 32)) == before + wide % 0x1_0000_0000
        * 0x1_0000_0000) by (bit_vector);
}

/// A write changes no queue but the selected one, that one only at a register of a
/// queue, and no vector table.
pub proof fn law_other_queues_are_left_alone(
    area: CommonCfgModel,
    peers: PeersModel,
    store: MMIOAccess,
    other: int,
)
    requires
        VirtioPciCommonCfg::write_allowed(area, store, peers),
        0 <= other < peers.queues.len(),
    ensures
        ({
            let after = VirtioPciCommonCfg::write_result(area, store, peers).1;
            let at = |size: usize, address: usize| store.size == size && store.address == address;
            &&& after.tables == peers.tables
            &&& after.queues.len() == peers.queues.len()
            &&& other != area.queue_list[area.queue_select as int] ==> after.queues[other]
                == peers.queues[other]
            &&& !(at(2, 0x18) || at(2, 0x1a) || at(2, 0x1c) || at(4, 0x20) || at(4, 0x24) || at(
                4,
                0x28,
            ) || at(4, 0x2c) || at(4, 0x30) || at(4, 0x34)) ==> after.queues == peers.queues
        }),
{
}

/// What the driver reads at each register, and that no other read is answered. A
/// read changes nothing of the access but its value.
pub proof fn law_read_registers(area: CommonCfgModel, peers: PeersModel, load: MMIOAccess)
    ensures
        ({
            let (after, answered) = VirtioPciCommonCfg::read_result(area, load, peers);
            let queue = peers.queues[area.queue_list[area.queue_select as int] as int];
            let at = |size: usize, address: usize| load.size == size && load.address == address;
            &&& at(1, 0x14) ==> answered.value == area.device_status
            &&& at(1, 0x15) ==> answered.value == after.config_generation
            &&& at(1, 0x15) && !area.config_changed ==> after.config_generation
                == area.config_generation
            &&& at(1, 0x15) && area.config_changed && area.config_generation < 255
                ==> after.config_generation == area.config_generation + 1
            &&& at(2, 0x10) ==> answered.value == area.config_msix_vector
            &&& at(2, 0x12) ==> answered.value == area.num_queue
            &&& at(2, 0x18) ==> answered.value == queue.queue_size
            &&& at(2, 0x1a) ==> answered.value == queue.queue_enable
            &&& at(2, 0x1c) || at(2, 0x1e) ==> answered.value == queue.queue_notify_off
            &&& at(4, 0x04) && area.device_feature_select == 0 ==> answered.value
                == area.device_feature.0
            &&& at(4, 0x04) && area.device_feature_select != 0 ==> answered.value
                == area.device_feature.1
            &&& !(at(1, 0x14) || at(1, 0x15) || at(2, 0x10) || at(2, 0x12) || at(2, 0x18) || at(
                2,
                0x1a,
            ) || at(2, 0x1c) || at(2, 0x1e) || at(4, 0x04)) ==> answered.value == load.value
            &&& (answered.address, answered.size, answered.is_write) == (
                load.address,
                load.size,
                load.is_write,
            )
            &&& !at(1, 0x15) ==> after == area
        }),
{
}

/// The accesses that the common configuration refuses: those to registers of a
/// queue where the selected queue is not there, a read of the generation that would
/// carry it past 255, and the completion of the set-up where the queues are not as
/// many as counted or one of them is not there.
pub proof fn law_refused_accesses(area: CommonCfgModel, peers: PeersModel, access: MMIOAccess)
    ensures
        ({
            let at = |size: usize, address: usize| access.size == size && access.address == address;
            let selected = area.queue_select < area.queue_list.len()
                && area.queue_list[area.queue_select as int] < peers.queues.len();
            let whole = area.num_queue == area.queue_list.len() && forall|i: int|
                0 <= i < area.queue_list.len() ==> #[trigger] area.queue_list[i]
                    < peers.queues.len();
            let of_queue = at(2, 0x18) || at(2, 0x1a) || at(2, 0x1c);
            let of_address = at(4, 0x20) || at(4, 0x24) || at(4, 0x28) || at(4, 0x2c) || at(
                4,
                0x30,
            ) || at(4, 0x34);
            &&& VirtioPciCommonCfg::read_allowed(area, access, peers) <==> (of_queue || at(2, 0x1e)
                ==> selected) && (at(1, 0x15) && area.config_changed ==> area.config_generation
                != 255)
            &&& VirtioPciCommonCfg::write_allowed(area, access, peers) <==> (of_queue || of_address
                ==> selected) && (at(1, 0x14) && access.value / 4 % 2 == 1 ==> whole)
        }),
{
    lemma_set_up_bit(access.value);
}

/// The bit of the status that completes the set-up is the third one.
proof fn lemma_set_up_bit(value: usize)
    ensures
        value & 0x04 != 0 <==> value / 4 % 2 == 1,
{
    assert(value & 0x04 != 0 <==> value / 4 % 2 == 1) by (bit_vector);
}

/// The backend is told a configuration exactly when the driver writes a status with
/// the third bit set. It is told the accepted features, the high half above the low
/// one, that the device is an entropy source without an identifier, the number of
/// queues, and of each queue in the device's list, in that order, where its
/// descriptor table, its available ring and its used ring lie, each in its field.
pub proof fn law_backend_is_told_the_set_up(
    area: CommonCfgModel,
    peers: PeersModel,
    store: MMIOAccess,
    i: int,
)
    requires
        0 <= i < area.queue_list.len(),
    ensures
        match VirtioPciCommonCfg::write_result(area, store, peers).2 {
            EffectModel::Configure(info) => {
                let queue = peers.queues[area.queue_list[i] as int];
                &&& store.size == 1 && store.address == 0x14 && store.value / 4 % 2 == 1
                &&& info.features == area.driver_feature.1 * 0x1_0000_0000 + area.driver_feature.0
                &&& info.dev_id == MAX_DEVS
                &&& info.dtype == 4
                &&& info.num_of_queues == area.num_queue
                &&& info.vqs.len() == area.queue_list.len()
                &&& info.vqs[i].desc == queue.queue_desc
                &&& info.vqs[i].avail == queue.queue_driver
                &&& info.vqs[i].used == queue.queue_device
            },
            EffectModel::Nothing => !(store.size == 1 && store.address == 0x14 && store.value / 4
                % 2 == 1),
            EffectModel::Notify(_) => false,
        },
{
    lemma_set_up_bit(store.value);
}

/// The registers and the queues once the driver has written `value` to the 32-bit
/// register at `address`.
pub open spec fn after_word(
    state: (CommonCfgModel, PeersModel),
    address: usize,
    value: u32,
) -> (CommonCfgModel, PeersModel) {
    let store = MMIOAccess { address, size: 4, is_write: true, value: value as usize };
    let (area, peers, _) = VirtioPciCommonCfg::write_result(state.0, store, state.1);
    (area, peers)
}

/// From the driver's writes to what the backend is told: after the driver has written
/// the halves of the three addresses of the selected queue, and then completes the
/// set-up, the backend is told those addresses for that queue: the one written at
/// 0x20 as the descriptor table, at 0x28 as the available ring, at 0x30 as the used
/// ring.
pub proof fn law_written_addresses_reach_the_backend(
    area: CommonCfgModel,
    peers: PeersModel,
    desc: (u32, u32),
    driver: (u32, u32),
    device: (u32, u32),
    setup: MMIOAccess,
)
    requires
        area.queue_select < area.queue_list.len(),
        area.queue_list[area.queue_select as int] < peers.queues.len(),
        setup.size == 1 && setup.address == 0x14 && setup.value / 4 % 2 == 1,
    ensures
        ({
            let s1 = after_word(after_word((area, peers), 0x20, desc.0), 0x24, desc.1);
            let s2 = after_word(after_word(s1, 0x28, driver.0), 0x2c, driver.1);
            let s3 = after_word(after_word(s2, 0x30, device.0), 0x34, device.1);
            match VirtioPciCommonCfg::write_result(s3.0, setup, s3.1).2 {
                EffectModel::Configure(info) => {
                    let told = info.vqs[area.queue_select as int];
                    &&& told.desc == desc.0 + desc.1 * 0x1_0000_0000
                    &&& told.avail == driver.0 + driver.1 * 0x1_0000_0000
                    &&& told.used == device.0 + device.1 * 0x1_0000_0000
                },
                _ => false,
            }
        }),
{
    lemma_set_up_bit(setup.value);
    lemma_joined(desc.0 as u64, desc.1 as usize);
    lemma_joined(driver.0 as u64, driver.1 as usize);
    lemma_joined(device.0 as u64, device.1 as usize);
}

/// Once the backend has answered, each queue in the device's list has the identifier,
/// and nothing else of it has changed; a queue that is not in the list has not
/// changed at all.
pub proof fn law_identifier_goes_to_the_listed_queues(
    queues: Seq<Virtqueue>,
    slots: Seq<QueueSlot>,
    dev_id: u16,
    i: int,
    other: int,
)
    requires
        0 <= i < slots.len() && slots[i] < queues.len(),
        0 <= other < queues.len(),
    ensures
        ({
            let told = with_dev_id(queues, slots, dev_id);
            let slot = slots[i] as int;
            &&& told.len() == queues.len()
            &&& told[slot] == (Virtqueue { this_dev_id: dev_id, ..queues[slot] })
            &&& (forall|j: int| 0 <= j < slots.len() ==> #[trigger] slots[j] != other)
                ==> told[other] == queues[other]
        }),
{
    assert(slots[i] == slots[i] as int);
}

/// A new common configuration offers the features 32 and 38, has no queue, and
/// everything else of it is zero; adding a queue puts it last in the list, counts it,
/// and changes nothing else.
pub proof fn law_new_common_configuration(area: CommonCfgModel, slot: QueueSlot)
    ensures
        ({
            let new = CommonCfgModel::fresh();
            &&& new.device_feature.0 == 0 && new.device_feature.1 == 0x41
            &&& new.device_feature_select == 0 && new.driver_feature_select == 0
            &&& new.driver_feature.0 == 0 && new.driver_feature.1 == 0
            &&& new.config_msix_vector == 0 && new.device_status == 0
            &&& new.config_generation == 0 && !new.config_changed
            &&& new.num_queue == 0 && new.queue_list.len() == 0 && new.queue_select == 0
        }),
        area.num_queue < u16::MAX ==> {
            let more = area.with_queue(slot);
            &&& more.num_queue == area.num_queue + 1
            &&& more.queue_list.len() == area.queue_list.len() + 1
            &&& more.queue_list.last() == slot
            &&& more.queue_list.drop_last() == area.queue_list
            &&& more == (CommonCfgModel {
                num_queue: more.num_queue,
                queue_list: more.queue_list,
                ..area
            })
        },
{
    assert(area.with_queue(slot).queue_list.drop_last() =~= area.queue_list);
}

/// The contents of a common configuration are its fields.
pub proof fn law_common_configuration_is_seen_whole(cfg: VirtioPciCommonCfg)
    ensures
        cfg@.device_feature_select == cfg.device_feature_select,
        cfg@.device_feature == cfg.device_feature,
        cfg@.driver_feature_select == cfg.driver_feature_select,
        cfg@.driver_feature == cfg.driver_feature,
        cfg@.config_msix_vector == cfg.config_msix_vector,
        cfg@.num_queue == cfg.num_queue,
        cfg@.device_status == cfg.device_status,
        cfg@.config_generation == cfg.config_generation,
        cfg@.queue_select == cfg.queue_select,
        cfg@.queue_list == cfg.queue_list@,
        cfg@.config_changed == cfg.config_changed,
{
}

} // verus!
