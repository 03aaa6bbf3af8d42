//! OpenAMP for the Cortex-M4 of the STM32MP1: the resource table that the
//! host's remoteproc driver reads, rpmsg framing over virtio rings, the
//! IPCC and mailbox signalling between the cores, libmetal I/O regions,
//! and the mailbox fifo that the receive interrupt fills.

pub mod fifo;
pub mod string;
pub mod resource_table;
pub mod io;
pub mod state;
pub mod vring;
pub mod rpmsg;
pub mod virtio;
pub mod rpmsg_virtio;
pub mod ipcc;
pub mod platform;
pub mod firmware;
pub mod gpio;
