//! An rpmsg device carried over virtio, and its shared-memory pool.

use vstd::prelude::*;
use crate::rpmsg;
use crate::virtio;

verus! {

#[derive(Debug)]
pub struct ShmPool {
    /// base address of the memory pool
    pub base: u32,
    /// available memory size
    pub available: usize,
    /// total pool size
    pub size: usize,
}

impl ShmPool {
    /// A pool of `size` bytes at `address`, all of them available.
    pub fn new(address: u32, size: usize) -> (r: ShmPool)
        ensures
            r.base == address,
            r.available == size,
            r.size == size,
    {
        ShmPool { base: address, available: size, size }
    }
}

pub struct Device {
    pub rdev: rpmsg::Device,
    pub vdev: &'static virtio::Device,
    pub rvq: &'static virtio::Queue,
    pub svq: &'static virtio::Queue,
    pub shpool: &'static ShmPool,
}

} // verus!
