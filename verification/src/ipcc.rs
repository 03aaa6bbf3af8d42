//! The inter-processor communication controller (IPCC), seen from
//! processor 2 (the Cortex-M4): the values that its registers receive, and
//! the reading of its status registers.
//!
//! Channel `n` owns bit `n - 1` of each channel field. In the mask
//! register `C2MR` the receive (occupied) masks `CHxOM` are bits 0 to 5
//! and the transmit (free) masks `CHxFM` bits 16 to 21; in the
//! set/clear register `C2SCR` the clear bits `CHxC` are bits 0 to 5 and the
//! set bits `CHxS` bits 16 to 21; in the control register `C2CR`, `RXOIE`
//! is bit 0 and `TXFIE` bit 16; in the status registers the flags `CHxF`
//! are bits 0 to 5.

use vstd::prelude::*;

verus! {

/// Value of `C2MR` after reset: every channel masked.
pub const IPCC_C2MR_RESET: u32 = 0xffff_ffff;

/// Value of `C2SCR` after reset.
pub const IPCC_C2SCR_RESET: u32 = 0;

/// Value of `C2CR` after reset.
pub const IPCC_C2CR_RESET: u32 = 0;

/// `RXOIE` in `C2CR`: interrupt when a receive channel becomes occupied.
pub const IPCC_C2CR_RXOIE: u32 = 0x0000_0001;

/// `TXFIE` in `C2CR`: interrupt when a transmit channel becomes free.
pub const IPCC_C2CR_TXFIE: u32 = 0x0001_0000;

#[derive(Debug, Copy, Clone, PartialEq, Eq, Structural)]
pub enum IpccChannel {
    Channel1,
    Channel2,
}

#[derive(Debug, Copy, Clone, PartialEq, Eq, Structural)]
pub enum IpccDirection {
    Tx,
    Rx,
}

#[derive(Debug, Copy, Clone, PartialEq, Eq, Structural)]
pub enum IpccStatus {
    Free,
    Occupied,
}

/// The status register that holds the flag of a direction: the flags of
/// the transmit channels are in `C2TOC1SR`, those of the receive channels
/// in `C1TOC2SR`.
#[derive(Debug, Copy, Clone, PartialEq, Eq, Structural)]
pub enum IpccStatusRegister {
    C2toC1,
    C1toC2,
}

/// The bit of a channel in a channel field that starts at bit 0.
pub open spec fn channel_bit(channel: IpccChannel) -> u32 {
    match channel {
        IpccChannel::Channel1 => 0x0000_0001u32,
        IpccChannel::Channel2 => 0x0000_0002u32,
    }
}

/// The bit of `C2MR` that masks the interrupt of a channel in a direction:
/// `CHxFM` for transmit, `CHxOM` for receive.
pub open spec fn mask_bit(channel: IpccChannel, direction: IpccDirection) -> u32 {
    match direction {
        IpccDirection::Tx => (channel_bit(channel) * 0x1_0000) as u32,
        IpccDirection::Rx => channel_bit(channel),
    }
}

/// The bit of `C2SCR` that signals a channel in a direction: `CHxS` sets
/// a transmit channel occupied, `CHxC` clears a receive channel to free.
pub open spec fn notify_bit(channel: IpccChannel, direction: IpccDirection) -> u32 {
    match direction {
        IpccDirection::Tx => (channel_bit(channel) * 0x1_0000) as u32,
        IpccDirection::Rx => channel_bit(channel),
    }
}

fn channel_bit_exec(channel: IpccChannel) -> (r: u32)
    ensures
        r == channel_bit(channel),
{
    match channel {
        IpccChannel::Channel1 => 0x0000_0001,
        IpccChannel::Channel2 => 0x0000_0002,
    }
}

fn mask_bit_exec(channel: IpccChannel, direction: IpccDirection) -> (r: u32)
    ensures
        r == mask_bit(channel, direction),
{
    let bit = channel_bit_exec(channel);
    match direction {
        IpccDirection::Tx => bit * 0x1_0000,
        IpccDirection::Rx => bit,
    }
}

/// The values that bring the IPCC up: `C2CR` with both interrupts
/// enabled, `C2SCR` clearing channels 1 and 2 to free, and `C2MR` with
/// both interrupts of channels 1 and 2 unmasked.
pub struct IpccInit {
    pub c2cr: u32,
    pub c2scr: u32,
    pub c2mr: u32,
}

pub fn init_ipcc() -> (r: IpccInit)
    ensures
        r.c2cr == IPCC_C2CR_RXOIE | IPCC_C2CR_TXFIE,
        r.c2scr == IPCC_C2SCR_RESET | 0x3,
        r.c2mr == IPCC_C2MR_RESET & !(0x0003_0003u32),
        r.c2cr == 0x0001_0001,
        r.c2scr == 0x3,
        r.c2mr == 0xfffc_fffc,
{
    let r = IpccInit {
        c2cr: IPCC_C2CR_RXOIE | IPCC_C2CR_TXFIE,
        c2scr: IPCC_C2SCR_RESET | 0x3,
        c2mr: IPCC_C2MR_RESET & !(0x0003_0003u32),
    };
    assert(IPCC_C2CR_RXOIE | IPCC_C2CR_TXFIE == 0x0001_0001u32) by (bit_vector);
    assert(IPCC_C2SCR_RESET | 0x3u32 == 0x3u32) by (bit_vector);
    assert(IPCC_C2MR_RESET & !(0x0003_0003u32) == 0xfffc_fffcu32) by (bit_vector);
    r
}

/// The value written to `C2MR` to unmask one interrupt: the reset value
/// with that one mask bit cleared.
pub fn ipcc_unmask_channel(channel: IpccChannel, direction: IpccDirection) -> (r: u32)
    ensures
        r == IPCC_C2MR_RESET & !mask_bit(channel, direction),
        r & mask_bit(channel, direction) == 0,
{
    let bit = mask_bit_exec(channel, direction);
    let r = IPCC_C2MR_RESET & !bit;
    assert(r & bit == 0) by (bit_vector)
        requires
            r == 0xffff_ffffu32 & !bit,
    ;
    r
}

/// The value written to `C2MR` to mask one interrupt: the reset value
/// with that one mask bit set.
pub fn ipcc_mask_channel(channel: IpccChannel, direction: IpccDirection) -> (r: u32)
    ensures
        r == IPCC_C2MR_RESET | mask_bit(channel, direction),
        r & mask_bit(channel, direction) == mask_bit(channel, direction),
{
    let bit = mask_bit_exec(channel, direction);
    let r = IPCC_C2MR_RESET | bit;
    assert(r & bit == bit) by (bit_vector)
        requires
            r == 0xffff_ffffu32 | bit,
    ;
    r
}

/// Where the flag of a channel in a direction is read.
pub fn ipcc_status_register(direction: IpccDirection) -> (r: IpccStatusRegister)
    ensures
        direction == IpccDirection::Tx ==> r == IpccStatusRegister::C2toC1,
        direction == IpccDirection::Rx ==> r == IpccStatusRegister::C1toC2,
{
    match direction {
        IpccDirection::Tx => IpccStatusRegister::C2toC1,
        IpccDirection::Rx => IpccStatusRegister::C1toC2,
    }
}

/// The status of a channel, given the value of the status register of its
/// direction: occupied when its flag is set.
pub fn ipcc_get_channel_status(channel: IpccChannel, direction: IpccDirection, status_register: u32) -> (r: IpccStatus)
    ensures
        (status_register & channel_bit(channel) != 0) ==> r == IpccStatus::Occupied,
        (status_register & channel_bit(channel) == 0) ==> r == IpccStatus::Free,
{
    let bit = channel_bit_exec(channel);
    if status_register & bit != 0 {
        IpccStatus::Occupied
    } else {
        IpccStatus::Free
    }
}

/// The value written to `C2SCR` to signal the other processor, given the
/// value read from it: the notify bit of the channel and direction is set
/// on top of what was read.
pub fn ipcc_notify_cpu(channel: IpccChannel, direction: IpccDirection, current: u32) -> (r: u32)
    ensures
        r == current | notify_bit(channel, direction),
{
    let bit = channel_bit_exec(channel);
    let notify = match direction {
        IpccDirection::Tx => bit * 0x1_0000,
        IpccDirection::Rx => bit,
    };
    current | notify
}

/// A step of the work that a receive interrupt does on a channel.
#[derive(Debug, Copy, Clone, PartialEq, Eq, Structural)]
pub enum IpccAction {
    /// Write `ipcc_mask_channel(channel, direction)` to `C2MR`.
    Mask(IpccChannel, IpccDirection),
    /// Push a token onto the mailbox fifo (`Fifo::push`), to record that a
    /// message has come.
    Record,
    /// Update `C2SCR` with `ipcc_notify_cpu(channel, direction, _)`.
    Notify(IpccChannel, IpccDirection),
    /// Write `ipcc_unmask_channel(channel, direction)` to `C2MR`.
    Unmask(IpccChannel, IpccDirection),
}

/// What the receive interrupt does for one channel whose receive status
/// was read as `status`, in order: for an occupied channel it masks the
/// channel's interrupt, records a mailbox token, tells the other processor
/// that the channel is free again, and unmasks the interrupt; for a free
/// channel it does nothing.
pub fn ipcc_rx_channel(channel: IpccChannel, status: IpccStatus) -> (r: Vec<IpccAction>)
    ensures
        status == IpccStatus::Free ==> r@ == Seq::<IpccAction>::empty(),
        status == IpccStatus::Occupied ==> r@ == seq![
            IpccAction::Mask(channel, IpccDirection::Rx),
            IpccAction::Record,
            IpccAction::Notify(channel, IpccDirection::Rx),
            IpccAction::Unmask(channel, IpccDirection::Rx),
        ],
{
    let mut r: Vec<IpccAction> = Vec::new();
    if status == IpccStatus::Occupied {
        // Mask the interrupt
        r.push(IpccAction::Mask(channel, IpccDirection::Rx));
        // Retrieve the data here
        r.push(IpccAction::Record);
        // Notify the CPU that the channel is free
        r.push(IpccAction::Notify(channel, IpccDirection::Rx));
        r.push(IpccAction::Unmask(channel, IpccDirection::Rx));
    }
    r
}

} // verus!
