//! Structures that lie in a memory BAR, and what serving an access to one of
//! them needs of the rest of the device.
use vstd::prelude::*;

use crate::bridge::{ConfigInfoModel, VirtioPCIConfigInfo, VirtioPCIDataInfo};
use crate::error::HvResult;
use crate::mmio::MMIOAccess;
use crate::msix_table::{MsixTable, MsixTableEntry, MsixTableModel};
use crate::virtqueue::Virtqueue;

verus! {

/// A queue shared by structures of a device: its place among the device's queues.
pub type QueueSlot = usize;

/// A vector table shared by structures of a device: its place among the
/// device's tables.
pub type TableSlot = usize;

/// The views of a sequence of values, one by one.
pub open spec fn views<T: View>(values: Seq<T>) -> Seq<T::V> {
    values.map_values(|value: T| value@)
}

/// What several structures of a device share: its queues and its vector tables.
#[derive(Debug)]
pub struct DevicePeers {
    pub queues: Vec<Virtqueue>,
    pub tables: Vec<MsixTable>,
}

/// The contents of a `DevicePeers`.
pub struct PeersModel {
    pub queues: Seq<Virtqueue>,
    pub tables: Seq<MsixTableModel>,
}

impl View for DevicePeers {
    type V = PeersModel;

    open spec fn view(&self) -> PeersModel {
        PeersModel { queues: self.queues@, tables: views(self.tables@) }
    }
}

/// Stands for the rest of the device where a structure needs nothing of it.
#[derive(Clone, Copy, Debug, PartialEq, Eq)]
pub struct NoPeers;

impl View for NoPeers {
    type V = ();

    open spec fn view(&self) -> () {
        ()
    }
}

/// A request of the guest to serve a queue, with the vector by which the guest
/// is to be told that it was served.
#[derive(Clone, Copy, Debug, PartialEq, Eq)]
pub struct NotifyRequest {
    pub info: VirtioPCIDataInfo,
    pub entry: MsixTableEntry,
}

/// What is left to do outside the device once an access was served.
#[derive(Debug, PartialEq, Eq)]
pub enum AreaEffect {
    /// Nothing.
    Nothing,
    /// The backend has to be told the configuration; its answer is the
    /// identifier of the device.
    Configure(VirtioPCIConfigInfo),
    /// Each request, in this order, has to be handed to the backend, and its
    /// vector kept until the backend has served it.
    Notify(Vec<NotifyRequest>),
}

/// The contents of an `AreaEffect`.
pub enum EffectModel {
    Nothing,
    Configure(ConfigInfoModel),
    Notify(Seq<NotifyRequest>),
}

impl View for AreaEffect {
    type V = EffectModel;

    open spec fn view(&self) -> EffectModel {
        match *self {
            AreaEffect::Nothing => EffectModel::Nothing,
            AreaEffect::Configure(info) => EffectModel::Configure(info@),
            AreaEffect::Notify(requests) => EffectModel::Notify(requests@),
        }
    }
}

/// A structure in a BAR. A BAR is an area of device memory that several
/// structures of a device, such as the common configuration, share. Structures of
/// the kinds that `AreaRef` names implement this trait, and only those can be
/// registered with the `BarAreaManager`.
///
/// `Peers` is what the structure needs of the rest of the device. The accesses
/// that a structure does not allow are those that name a queue or a vector that
/// is not there, or that would carry a counter past its range.
pub trait AreaInBar: View + Sized {
    type Peers: View;

    /// Whether a read is one that the structure can serve.
    spec fn read_allowed(
        area: <Self as View>::V,
        access: MMIOAccess,
        peers: <Self::Peers as View>::V,
    ) -> bool;

    /// The structure and the access once a read was served.
    spec fn read_result(
        area: <Self as View>::V,
        access: MMIOAccess,
        peers: <Self::Peers as View>::V,
    ) -> (<Self as View>::V, MMIOAccess);

    /// Whether a write is one that the structure can serve.
    spec fn write_allowed(
        area: <Self as View>::V,
        access: MMIOAccess,
        peers: <Self::Peers as View>::V,
    ) -> bool;

    /// The structure and the rest of the device once a write was served, and what
    /// is left to do outside.
    spec fn write_result(
        area: <Self as View>::V,
        access: MMIOAccess,
        peers: <Self::Peers as View>::V,
    ) -> (<Self as View>::V, <Self::Peers as View>::V, EffectModel);

    /// Tells whether the structure can serve a read.
    fn can_read(&self, mmio_ac: &MMIOAccess, peers: &Self::Peers) -> (allowed: bool)
        ensures
            allowed == Self::read_allowed(self@, *mmio_ac, peers@),
    ;

    /// Tells whether the structure can serve a write.
    fn can_write(&self, mmio_ac: &MMIOAccess, peers: &Self::Peers) -> (allowed: bool)
        ensures
            allowed == Self::write_allowed(self@, *mmio_ac, peers@),
    ;

    /// Serves a read.
    fn read(&mut self, mmio_ac: &mut MMIOAccess, peers: &Self::Peers) -> (result: HvResult<()>)
        requires
            Self::read_allowed(old(self)@, *old(mmio_ac), peers@),
        ensures
            result is Ok,
            (final(self)@, *final(mmio_ac)) == Self::read_result(
                old(self)@,
                *old(mmio_ac),
                peers@,
            ),
    ;

    /// Serves a write.
    fn write(&mut self, mmio_ac: &MMIOAccess, peers: &mut Self::Peers) -> (result: HvResult<
        AreaEffect,
    >)
        requires
            Self::write_allowed(old(self)@, *mmio_ac, old(peers)@),
        ensures
            result matches Ok(effect) && (final(self)@, final(peers)@, effect@)
                == Self::write_result(old(self)@, *mmio_ac, old(peers)@),
    ;
}

/// The contents of an effect are what it carries.
pub proof fn law_effect_is_seen_whole(
    effect: AreaEffect,
    info: VirtioPCIConfigInfo,
    requests: Vec<NotifyRequest>,
)
    ensures
        effect == AreaEffect::Nothing <==> effect@ == EffectModel::Nothing,
        AreaEffect::Configure(info)@ == EffectModel::Configure(info@),
        AreaEffect::Notify(requests)@ == EffectModel::Notify(requests@),
{
}

/// The contents of what structures share are its queues and the contents of its
/// tables.
pub proof fn law_peers_are_seen_whole(peers: DevicePeers, i: int)
    requires
        0 <= i < peers.tables@.len(),
    ensures
        peers@.queues == peers.queues@,
        peers@.tables.len() == peers.tables@.len(),
        peers@.tables[i] == peers.tables@[i]@,
{
}

} // verus!
