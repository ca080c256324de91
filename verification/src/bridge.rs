//! What the virtual devices and their backend in the root zone tell each other.
use vstd::prelude::*;

verus! {

/// The number of devices a backend serves. Identifiers of devices lie below it;
/// the number itself says that a device has no identifier yet.
pub const MAX_DEVS: u16 = 4;

/// The device type that the backend is told: an entropy source.
pub const DEVICE_TYPE_ENTROPY: u16 = 4;

/// Where the three parts of a virtqueue lie in the guest's memory.
#[derive(Clone, Copy, Debug, PartialEq, Eq)]
pub struct VirtqueueAreaInfo {
    pub desc: u64,
    pub avail: u64,
    pub used: u64,
}

impl VirtqueueAreaInfo {
    /// The parts that lie at the given addresses.
    pub fn new(desc: u64, avail: u64, used: u64) -> (info: Self)
        ensures
            info == (VirtqueueAreaInfo { desc, avail, used }),
    {
        VirtqueueAreaInfo { desc, avail, used }
    }
}

/// What the backend needs to know to serve a device that the guest has set up.
#[derive(Debug, PartialEq, Eq)]
pub struct VirtioPCIConfigInfo {
    pub features: u64,
    pub dev_id: u16,
    pub dtype: u16,
    pub num_of_queues: u16,
    pub vqs: Vec<VirtqueueAreaInfo>,
}

/// The contents of a `VirtioPCIConfigInfo`.
pub struct ConfigInfoModel {
    pub features: u64,
    pub dev_id: u16,
    pub dtype: u16,
    pub num_of_queues: u16,
    pub vqs: Seq<VirtqueueAreaInfo>,
}

impl View for VirtioPCIConfigInfo {
    type V = ConfigInfoModel;

    open spec fn view(&self) -> ConfigInfoModel {
        ConfigInfoModel {
            features: self.features,
            dev_id: self.dev_id,
            dtype: self.dtype,
            num_of_queues: self.num_of_queues,
            vqs: self.vqs@,
        }
    }
}

/// A request for the backend to serve one queue of one device.
#[derive(Clone, Copy, Debug, PartialEq, Eq)]
pub struct VirtioPCIDataInfo {
    pub dev_id: u16,
    pub queue_id: u16,
}

/// The identifier of a request that `cpu_id` made: the queue in the 16 low bits,
/// then the device, then the CPU.
pub open spec fn identifier_of(cpu_id: u16, info: VirtioPCIDataInfo) -> u64 {
    (cpu_id * 0x1_0000_0000 + info.dev_id * 0x1_0000 + info.queue_id) as u64
}

/// The CPU that an identifier names.
pub open spec fn cpu_of(identifier: u64) -> u64 {
    identifier / 0x1_0000_0000 % 0x1_0000
}

impl VirtioPCIDataInfo {
    /// A request for queue `queue_id` of device `dev_id`.
    pub fn new(dev_id: u16, queue_id: u16) -> (info: Self)
        ensures
            info == (VirtioPCIDataInfo { dev_id, queue_id }),
    {
        VirtioPCIDataInfo { dev_id, queue_id }
    }

    /// The identifier of the request when `cpu_id` makes it.
    pub fn get_identifier(&self, cpu_id: u16) -> (identifier: u64)
        ensures
            identifier == identifier_of(cpu_id, *self),
    {
        let (dev_id, queue_id): (u16, u16) = (self.dev_id, self.queue_id);
        proof {
            assert((cpu_id as u64) << 32 | (dev_id as u64) << 16 | (queue_id as u64) == cpu_id
                * 0x1_0000_0000 + dev_id * 0x1_0000 + queue_id) by (bit_vector);
        }
        (cpu_id as u64) << 32 | (dev_id as u64) << 16 | (queue_id as u64)
    }
}

/// Two requests have the same identifier only if the same CPU made them for the
/// same queue of the same device, and an identifier tells its CPU.
pub proof fn law_identifiers_are_unique(
    cpu_a: u16,
    a: VirtioPCIDataInfo,
    cpu_b: u16,
    b: VirtioPCIDataInfo,
)
    ensures
        identifier_of(cpu_a, a) == identifier_of(cpu_b, b) <==> cpu_a == cpu_b && a == b,
        cpu_of(identifier_of(cpu_a, a)) == cpu_a,
{
}

/// An identifier holds the queue in bits 0 to 15, the device in bits 16 to 31 and
/// the CPU in bits 32 to 47, and nothing above; what an identifier names as its
/// CPU are those bits.
pub proof fn law_identifier_layout(cpu_id: u16, info: VirtioPCIDataInfo, any: u64)
    ensures
        identifier_of(cpu_id, info) % 0x1_0000 == info.queue_id,
        identifier_of(cpu_id, info) / 0x1_0000 % 0x1_0000 == info.dev_id,
        identifier_of(cpu_id, info) / 0x1_0000_0000 == cpu_id,
        cpu_of(any) == any / 0x1_0000_0000 % 0x1_0000,
{
}

/// The contents of a configuration are its fields.
pub proof fn law_config_info_is_seen_whole(info: VirtioPCIConfigInfo)
    ensures
        info@.features == info.features,
        info@.dev_id == info.dev_id,
        info@.dtype == info.dtype,
        info@.num_of_queues == info.num_of_queues,
        info@.vqs == info.vqs@,
{
}

} // verus!
