//! System independent runtime state for libmetal.

use vstd::prelude::*;

verus! {

/// System independent runtime state for libmetal
pub struct CommonState {
    /// Bus
    pub bus: Bus,
    /// Generic statically defined shared memory segments
    pub generic_shmem: ShMem,
    /// Generic statically defined device
    pub generic_device: Device,
}

pub struct ShMem {}

pub struct Device {
    /// Device name
    pub name: &'static str,
    /// Number of I/O regions in device
    pub num_regions: usize,
    /// Array of I/O regions in device
    pub regions: usize,
    /// Number of IRQs per device
    pub irq_num: isize,
    /// Address of the IRQ ID
    pub irq_info: usize,
}

pub struct Bus {
    pub name: &'static str,
    pub devices: &'static [Device],
}

impl Bus {
    pub fn new(name: &'static str, devices: &'static [Device]) -> (r: Bus)
        ensures
            r.name == name,
            r.devices == devices,
    {
        Bus { name, devices }
    }

    /// Closing a bus releases nothing: the bus holds no resources of its
    /// own.
    pub fn close(&self) {
    }
}

} // verus!
