//! Virtio device and virtqueue descriptions. Handlers are held as the
//! addresses of the functions that implement them.

use vstd::prelude::*;
use crate::vring;

verus! {

#[derive(Debug)]
pub struct DeviceId {
    pub device: u32,
    pub vendor: u32,
}

/// The virtio dispatch table: the address of the handler of each
/// operation.
pub struct Dispatch {
    pub get_status: usize,
    pub set_status: usize,
    pub get_features: usize,
    pub set_features: usize,
    pub negotiate_features: usize,
    /// Read/write a variable amount from the device specific (ie, network)
    /// configuration region. This region is encoded in the same endian as
    /// the guest.
    pub read_config: usize,
    pub write_config: usize,
    pub reset_device: usize,
    pub notify: usize,
}

pub struct Device {
    /// Unique position on the virtio bus
    pub index: u32,
    /// the device type identification (used to match it with a driver)
    pub id: DeviceId,
    /// the features supported by both ends
    pub features: u64,
    /// if it is virtio backend or front end
    pub role: u32,
    /// address of the user registered device reset handler
    pub reset_cb: usize,
    /// Virtio dispatch table
    pub func: Dispatch,
    /// virtio_device private data
    pub private: u32,
    /// number of vrings
    pub vrings_num: u32,
}

#[derive(Debug, Copy, Clone)]
pub struct Buffer {
    pub data: [u8; 16],
}

pub struct QueueDescExtra {
    pub cookie: u32,
    pub ndescs: u16,
}

pub struct Queue {
    pub vq_dev: &'static Device,
    pub vq_name: &'static str,
    pub vq_queue_index: u16,
    pub vq_nentries: u16,
    pub vq_flags: u32,
    /// address of the queue's callback
    pub callback: usize,
    /// address of the queue's notify handler
    pub notify: usize,
    pub vq_ring: &'static vring::Vring,
    pub vq_free_cnt: u16,
    pub vq_queued_cnt: u16,
    pub shm_io: u32,
    /// Head of the free chain in the descriptor table. If there are no free
    /// descriptors, this will be set to VQ_RING_DESC_CHAIN_END.
    pub vq_desc_head_idx: u16,
    /// Last consumed descriptor in the used table, trails vq_ring.used->idx.
    pub vq_used_cons_idx: u16,
    /// Last consumed descriptor in the available table - used by the
    /// consumer side.
    pub vq_available_idx: u16,
    /// Used by the host side during callback. Cookie holds the address of
    /// buffer received from other side. Other fields in this structure are
    /// not used currently.
    pub vg_descx: QueueDescExtra,
}

} // verus!
