//! The shapes of a virtio ring as shared between the host and this core,
//! and the configuration of a guest-side ring.

use vstd::prelude::*;

verus! {

/// Virtio device ID of an rpmsg device.
pub const VIRTIO_ID_RPMSG: u32 = 7;

/// Device status bits, as the host sets them in the `Vdev` entry.
pub const VIRTIO_CONFIG_S_ACKNOWLEDGE: u8 = 1;
pub const VIRTIO_CONFIG_S_DRIVER: u8 = 2;
pub const VIRTIO_CONFIG_S_DRIVER_OK: u8 = 4;
pub const VIRTIO_CONFIG_S_FEATURES_OK: u8 = 8;
pub const VIRTIO_CONFIG_S_FAILED: u8 = 0x80;

/// A descriptor of the descriptor table.
pub struct Descriptor {
    /// Address (guest-physical)
    pub address: u64,
    /// Length
    pub lenght: u32,
    /// The flags as indicated above
    pub flags: u16,
    /// We chain unused descriptors via this, too
    pub next: u16,
}

/// The head of the available ring; the ring of `u16` entries follows it.
pub struct VringAvail {
    pub flags: u16,
    pub idx: u16,
}

/// An element of the used ring. `u32` is used here for ids for padding
/// reasons.
pub struct VringUsedElem {
    /// Index of start of used descriptor chain.
    pub id: u32,
    /// Total length of the descriptor chain which was written to.
    pub len: u32,
}

/// The head of the used ring; the ring of `VringUsedElem` follows it.
pub struct VringUsed {
    pub flags: u16,
    pub idx: u16,
}

/// A vring: its size and the addresses of its three parts.
pub struct Vring {
    pub num: u32,
    pub desc: usize,
    pub avail: usize,
    pub used: usize,
}

/// What can go wrong on a vring.
#[derive(Debug, Clone, Copy)]
pub enum Error {
    /// No buffer holds data for us.
    NoData,
    /// No buffer is free to send with.
    NoBuffer,
}

/// A vring seen from the guest side: where it lies in device memory, how
/// many descriptors it has, and its alignment, as the resource table's
/// `VdevVring` entry gives them.
#[derive(Debug)]
pub struct GuestVring {
    pub da: usize,
    pub num: usize,
    pub align: usize,
}

impl GuestVring {
    pub fn new(da: usize, num: usize, align: usize) -> (r: GuestVring)
        ensures
            r.da == da,
            r.num == num,
            r.align == align,
    {
        GuestVring { da, num, align }
    }
}

} // verus!
