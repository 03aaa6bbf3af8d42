//! The platform: the mailboxes, the Unicache and its MMU, the crossbar
//! interrupt mapping and the wake-up generator of the remote core. Their
//! registers are accessed by the caller; here stand the addresses, the
//! values written and the decisions taken on the values read.

use vstd::prelude::*;
use vstd::arithmetic::power2::pow2;
use crate::resource_table::AddressMapper;


verus! {

#[verifier::external_type_specification]
#[verifier::external_body]
pub struct ExInterrupt(::stm32mp1::stm32mp157::Interrupt);

/// The number of an interrupt of the device crate: its position in the
/// vector table.
pub uninterp spec fn interrupt_number_of(interrupt: ::stm32mp1::stm32mp157::Interrupt) -> u16;

/// `InterruptNumber::number` of the device crate, which returns the
/// discriminant of the `Interrupt` enum: the interrupt's position in the
/// vector table. The result is named `interrupt_number_of`; of it, only the
/// bound of the enum's discriminants, the largest of which is 213, is
/// stated.
#[verifier::external_body]
fn interrupt_number(interrupt: ::stm32mp1::stm32mp157::Interrupt) -> (n: u16)
    ensures
        n == interrupt_number_of(interrupt),
        n <= 213,
{
    cortex_m::interrupt::InterruptNumber::number(interrupt)
}

/// A singleton, representing our chip.
pub struct Stm32mp1<'a, T: AddressMapper> {
    pub mapper: &'a T,
}

#[derive(Debug, Copy, Clone, PartialEq, Eq, Structural)]
pub enum MailboxUser {
    User0,
    User1,
    User2,
    User3,
}

#[derive(Debug, Copy, Clone, PartialEq, Eq, Structural)]
pub enum MailboxSlot {
    Slot0,
    Slot1,
    Slot2,
    Slot3,
    Slot4,
    Slot5,
    Slot6,
    Slot7,
    Slot8,
    Slot9,
    Slot10,
    Slot11,
}

#[derive(Debug, Copy, Clone, PartialEq, Eq, Structural)]
pub enum MailboxId {
    Mailbox1,
    Mailbox2,
    Mailbox3,
    Mailbox4,
    Mailbox5,
    Mailbox6,
    Mailbox7,
    Mailbox8,
    Mailbox9,
    Mailbox10,
    Mailbox11,
    Mailbox12,
    Mailbox13,
}

#[derive(Debug, Copy, Clone)]
pub struct MailboxLocation {
    pub id: MailboxId,
    pub user: MailboxUser,
    pub slot: MailboxSlot,
}

#[derive(Debug, Copy, Clone, PartialEq, Eq, Structural)]
pub enum CacheFlushMode {
    WriteBack,
    Invalidate,
    InvalidateWriteBack,
}

#[derive(Debug, Copy, Clone, PartialEq, Eq, Structural)]
pub enum CacheFlushAllMode {
    Flush,
    WriteBack,
    Invalidate,
    InvalidateWriteBack,
}

/// Lower numeric values have higher 'urgency'; that is, they can pre-empty
/// interrupts with higher numeric values (i.e. lower urgency). The bottom 4
/// bits of the 8-bit priority registers are ignored on this chip, so 16 is
/// the next-highest priority after zero.
#[derive(Debug, Copy, Clone, PartialEq, Eq, Structural)]
pub enum InterruptPriority {
    Prio00,
    Prio01,
    Prio02,
    Prio03,
    Prio04,
    Prio05,
    Prio06,
    Prio07,
    Prio08,
    Prio09,
    Prio10,
    Prio11,
    Prio12,
    Prio13,
    Prio14,
    Prio15,
}

/// This is the mapped address as the HW maps 0x4000_0000 to 0x5508_0000 by
/// default. See Table 7-64. This is a Cortex-M4 device address, so it doesn't
/// need mapping through the resource table.
pub const UNICACHE_CFG_ADDR: usize = 0x4000_0000;
/// This is the mapped address as the HW maps 0x4000_0000 to 0x5508_0000 by
/// default. See Table 7-64. This is a Cortex-M4 device address, so it doesn't
/// need mapping through the resource table.
pub const WUGEN_ADDR: usize = 0x4000_1000;
/// This is the mapped address as the HW maps 0x4000_0000 to 0x5508_0000 by
/// default. See Table 7-64. This is a Cortex-M4 device address, so it doesn't
/// need mapping through the resource table.
pub const UNICACHE_MMU_ADDR: usize = 0x4000_0800;

pub const L3_OCMC_RAM: usize = 0x4030_0000;
pub const L4_PERIPHERAL_L4PER1: usize = 0x4800_0000;
pub const L4_PERIPHERAL_L4PER2: usize = 0x4840_0000;
pub const L4_PERIPHERAL_L4PER3: usize = 0x4880_0000;
pub const L4_PERIPHERAL_L4CFG: usize = 0x4A00_0000;
pub const L3_PERIPHERAL_PRUSS: usize = 0x4B20_0000;
pub const L3_PERIPHERAL_DMM: usize = 0x4E00_0000;
pub const L4_PERIPHERAL_L4EMU: usize = 0x5400_0000;
pub const L3_IVAHD_CONFIG: usize = 0x5A00_0000;
pub const L3_IVAHD_SL2: usize = 0x5B00_0000;
pub const L3_TILER_MODE_0_1: usize = 0x6000_0000;
pub const L3_TILER_MODE_2: usize = 0x7000_0000;
pub const L3_TILER_MODE_3: usize = 0x7800_0000;
pub const L3_EMIF_SDRAM: usize = 0xA000_0000;

pub const CFG_CONFIG_UNLOCK_MAIN: u32 = 0x10;
pub const CFG_CONFIG_UNLOCK_PORT: u32 = 0x08;
pub const CFG_CONFIG_UNLOCK_INT: u32 = 0x04;
pub const CFG_CONFIG_DISABLE_BYPASS: u32 = 0x02;
pub const CFG_CONFIG_CACHE_LOCK: u32 = 0x01;

pub const CFG_OCP_CLEANBUF: u32 = 0x20;
pub const CFG_OCP_PREFETCH: u32 = 0x10;
pub const CFG_OCP_CACHED: u32 = 0x08;
pub const CFG_OCP_WRALLOCATE: u32 = 0x04;
pub const CFG_OCP_WRBUFFER: u32 = 0x02;
pub const CFG_OCP_WRAP: u32 = 0x01;

pub const CFG_MAINT_INTERRUPT: u32 = 0x20;
pub const CFG_MAINT_INVALIDATE: u32 = 0x10;
pub const CFG_MAINT_CLEAN: u32 = 0x08;
pub const CFG_MAINT_UNLOCK: u32 = 0x04;
pub const CFG_MAINT_LOCK: u32 = 0x02;
pub const CFG_MAINT_PRELOAD: u32 = 0x01;

pub const CFG_INT_READ: u32 = 0x10;
pub const CFG_INT_WRITE: u32 = 0x08;
pub const CFG_INT_MAINT: u32 = 0x04;
pub const CFG_INT_PAGEFAULT: u32 = 0x02;
pub const CFG_INT_CONFIG: u32 = 0x01;

pub const MMU_POLICY_ENABLED: u32 = 0x0000_0001;
pub const MMU_POLICY_LARGE: u32 = 0x0000_0002;
pub const MMU_POLICY_CACHEABLE: u32 = 0x0001_0000;
pub const MMU_POLICY_POSTED: u32 = 0x0002_0000;
pub const MMU_POLICY_ALLOCATE: u32 = 0x0004_0000;
pub const MMU_POLICY_WRITE_BACK: u32 = 0x0008_0000;

pub const MMU_MAINT_G_FLUSH: u32 = 0x400;
pub const MMU_MAINT_L1_CACHE1: u32 = 0x80;
pub const MMU_MAINT_CPU_INTERRUPT: u32 = 0x40;
pub const MMU_MAINT_HOST_INTERRUPT: u32 = 0x20;
pub const MMU_MAINT_INVALIDATE: u32 = 0x10;
pub const MMU_MAINT_CLEAN: u32 = 0x08;
pub const MMU_MAINT_UNLOCK: u32 = 0x04;
pub const MMU_MAINT_LOCK: u32 = 0x02;
pub const MMU_MAINT_PRELOAD: u32 = 0x01;

pub const MMU_CONFIG_PRIVILEGE: u32 = 0x02;
pub const MMU_CONFIG_MMU_LOCK: u32 = 0x01;

/// Physical address of the crossbar IRQ mapping registers of IPU1 (Table
/// 18-28, CTRL_MODULE_CORE Registers Mapping Summary).
pub const CTRL_CORE_IPU1_PA: usize = 0x4A00_27E0;

pub open spec fn flush_mode_value(mode: CacheFlushMode) -> u32 {
    match mode {
        CacheFlushMode::WriteBack => CFG_MAINT_CLEAN,
        CacheFlushMode::Invalidate => CFG_MAINT_INVALIDATE,
        CacheFlushMode::InvalidateWriteBack => (CFG_MAINT_CLEAN | CFG_MAINT_INVALIDATE) as u32,
    }
}

pub open spec fn flush_all_mode_value(mode: CacheFlushAllMode) -> u32 {
    match mode {
        CacheFlushAllMode::Flush => MMU_MAINT_G_FLUSH,
        CacheFlushAllMode::WriteBack => MMU_MAINT_CLEAN,
        CacheFlushAllMode::Invalidate => MMU_MAINT_INVALIDATE,
        CacheFlushAllMode::InvalidateWriteBack => (MMU_MAINT_INVALIDATE | MMU_MAINT_CLEAN) as u32,
    }
}

impl CacheFlushMode {
    /// The maintenance bits that the mode sets in the Unicache.
    pub fn value(&self) -> (r: u32)
        ensures
            r == flush_mode_value(*self),
    {
        match self {
            CacheFlushMode::WriteBack => CFG_MAINT_CLEAN,
            CacheFlushMode::Invalidate => CFG_MAINT_INVALIDATE,
            CacheFlushMode::InvalidateWriteBack => CFG_MAINT_CLEAN | CFG_MAINT_INVALIDATE,
        }
    }
}

impl CacheFlushAllMode {
    /// The maintenance bits that the mode sets in the Unicache MMU.
    pub fn value(&self) -> (r: u32)
        ensures
            r == flush_all_mode_value(*self),
    {
        match self {
            CacheFlushAllMode::Flush => MMU_MAINT_G_FLUSH,
            CacheFlushAllMode::WriteBack => MMU_MAINT_CLEAN,
            CacheFlushAllMode::Invalidate => MMU_MAINT_INVALIDATE,
            CacheFlushAllMode::InvalidateWriteBack => MMU_MAINT_INVALIDATE | MMU_MAINT_CLEAN,
        }
    }
}

pub open spec fn priority_level(p: InterruptPriority) -> u8 {
    match p {
        InterruptPriority::Prio00 => 0u8,
        InterruptPriority::Prio01 => 1u8,
        InterruptPriority::Prio02 => 2u8,
        InterruptPriority::Prio03 => 3u8,
        InterruptPriority::Prio04 => 4u8,
        InterruptPriority::Prio05 => 5u8,
        InterruptPriority::Prio06 => 6u8,
        InterruptPriority::Prio07 => 7u8,
        InterruptPriority::Prio08 => 8u8,
        InterruptPriority::Prio09 => 9u8,
        InterruptPriority::Prio10 => 10u8,
        InterruptPriority::Prio11 => 11u8,
        InterruptPriority::Prio12 => 12u8,
        InterruptPriority::Prio13 => 13u8,
        InterruptPriority::Prio14 => 14u8,
        InterruptPriority::Prio15 => 15u8,
    }
}

impl InterruptPriority {
    fn level(&self) -> (r: u8)
        ensures
            r == priority_level(*self),
    {
        match self {
            InterruptPriority::Prio00 => 0,
            InterruptPriority::Prio01 => 1,
            InterruptPriority::Prio02 => 2,
            InterruptPriority::Prio03 => 3,
            InterruptPriority::Prio04 => 4,
            InterruptPriority::Prio05 => 5,
            InterruptPriority::Prio06 => 6,
            InterruptPriority::Prio07 => 7,
            InterruptPriority::Prio08 => 8,
            InterruptPriority::Prio09 => 9,
            InterruptPriority::Prio10 => 10,
            InterruptPriority::Prio11 => 11,
            InterruptPriority::Prio12 => 12,
            InterruptPriority::Prio13 => 13,
            InterruptPriority::Prio14 => 14,
            InterruptPriority::Prio15 => 15,
        }
    }

    /// The value of the 8-bit priority register: the level in the top four
    /// bits.
    pub fn value(&self) -> (r: u8)
        ensures
            r == priority_level(*self) * 16,
    {
        self.level() * 16
    }
}

pub open spec fn slot_index(slot: MailboxSlot) -> u32 {
    match slot {
        MailboxSlot::Slot0 => 0u32,
        MailboxSlot::Slot1 => 1u32,
        MailboxSlot::Slot2 => 2u32,
        MailboxSlot::Slot3 => 3u32,
        MailboxSlot::Slot4 => 4u32,
        MailboxSlot::Slot5 => 5u32,
        MailboxSlot::Slot6 => 6u32,
        MailboxSlot::Slot7 => 7u32,
        MailboxSlot::Slot8 => 8u32,
        MailboxSlot::Slot9 => 9u32,
        MailboxSlot::Slot10 => 10u32,
        MailboxSlot::Slot11 => 11u32,
    }
}

pub open spec fn user_index(user: MailboxUser) -> u32 {
    match user {
        MailboxUser::User0 => 0u32,
        MailboxUser::User1 => 1u32,
        MailboxUser::User2 => 2u32,
        MailboxUser::User3 => 3u32,
    }
}

impl MailboxUser {
    /// The position of the user's interrupt bank in a mailbox.
    pub fn index(&self) -> (r: usize)
        ensures
            r == user_index(*self),
    {
        match self {
            MailboxUser::User0 => 0,
            MailboxUser::User1 => 1,
            MailboxUser::User2 => 2,
            MailboxUser::User3 => 3,
        }
    }
}

impl MailboxSlot {
    /// The position of the slot's registers in a mailbox.
    pub fn index(&self) -> (r: u32)
        ensures
            r == slot_index(*self),
    {
        match self {
            MailboxSlot::Slot0 => 0,
            MailboxSlot::Slot1 => 1,
            MailboxSlot::Slot2 => 2,
            MailboxSlot::Slot3 => 3,
            MailboxSlot::Slot4 => 4,
            MailboxSlot::Slot5 => 5,
            MailboxSlot::Slot6 => 6,
            MailboxSlot::Slot7 => 7,
            MailboxSlot::Slot8 => 8,
            MailboxSlot::Slot9 => 9,
            MailboxSlot::Slot10 => 10,
            MailboxSlot::Slot11 => 11,
        }
    }

    /// The interrupt bit that signals data in this slot: bit `2 * n` for
    /// slot `n`.
    pub fn get_data_bit(&self) -> (r: u32)
        ensures
            r == pow2(2 * slot_index(*self) as nat),
    {
        let n = self.index() * 2;
        proof {
            vstd::bits::lemma_u32_pow2_no_overflow(n as nat);
            vstd::bits::lemma_u32_shl_is_mul(1, n);
        }
        1u32 << n
    }

    /// The interrupt bit that signals space in this slot: bit `2 * (n + 1)`
    /// for slot `n`.
    pub fn get_space_bit(&self) -> (r: u32)
        ensures
            r == pow2(2 * (slot_index(*self) + 1) as nat),
    {
        let n = (self.index() + 1) * 2;
        proof {
            vstd::bits::lemma_u32_pow2_no_overflow(n as nat);
            vstd::bits::lemma_u32_shl_is_mul(1, n);
        }
        1u32 << n
    }
}

/// Physical address of each mailbox instance (Table 19-24 in the TRM,
/// Mailbox Instance Summary). These addresses are in L4_PERIPHERAL_L4PER3
/// or L4_PERIPHERAL_L4CFG.
pub open spec fn mailbox_pa(id: MailboxId) -> usize {
    match id {
        MailboxId::Mailbox1 => 0x4A0F_4000usize,
        MailboxId::Mailbox2 => 0x4883_a000usize,
        MailboxId::Mailbox3 => 0x4883_c000usize,
        MailboxId::Mailbox4 => 0x4883_e000usize,
        MailboxId::Mailbox5 => 0x4884_0000usize,
        MailboxId::Mailbox6 => 0x4884_2000usize,
        MailboxId::Mailbox7 => 0x4884_4000usize,
        MailboxId::Mailbox8 => 0x4884_6000usize,
        MailboxId::Mailbox9 => 0x4885_e000usize,
        MailboxId::Mailbox10 => 0x4886_0000usize,
        MailboxId::Mailbox11 => 0x4886_2000usize,
        MailboxId::Mailbox12 => 0x4886_4000usize,
        MailboxId::Mailbox13 => 0x4880_2000usize,
    }
}

/// The physical address of a mailbox instance.
pub fn mailbox_physical_address(id: MailboxId) -> (r: usize)
    ensures
        r == mailbox_pa(id),
{
    match id {
        MailboxId::Mailbox1 => 0x4A0F_4000,
        MailboxId::Mailbox2 => 0x4883_a000,
        MailboxId::Mailbox3 => 0x4883_c000,
        MailboxId::Mailbox4 => 0x4883_e000,
        MailboxId::Mailbox5 => 0x4884_0000,
        MailboxId::Mailbox6 => 0x4884_2000,
        MailboxId::Mailbox7 => 0x4884_4000,
        MailboxId::Mailbox8 => 0x4884_6000,
        MailboxId::Mailbox9 => 0x4885_e000,
        MailboxId::Mailbox10 => 0x4886_0000,
        MailboxId::Mailbox11 => 0x4886_2000,
        MailboxId::Mailbox12 => 0x4886_4000,
        MailboxId::Mailbox13 => 0x4880_2000,
    }
}

/// The device address of a mailbox instance. The mailboxes are remote to
/// the M4, so the fixed physical address of the peripheral is mapped to
/// the device address of the IOMMU; `None` where the mapper has no window
/// for it.
pub fn get_mailbox<T: AddressMapper>(mbox_type: MailboxId, mapper: &T) -> (r: Option<usize>)
    requires
        mapper.pa_to_da_defined(mailbox_pa(mbox_type)),
    ensures
        r == mapper.spec_pa_to_da(mailbox_pa(mbox_type)),
{
    let pa = mailbox_physical_address(mbox_type);
    mapper.pa_to_da(pa)
}

/// The device address of the crossbar IRQ mapping registers of IPU1; the
/// peripheral is remote to the M4, so its physical address goes through the
/// mapper.
pub fn ctrl_core_ipu1<T: AddressMapper>(mapper: &T) -> (r: Option<usize>)
    requires
        mapper.pa_to_da_defined(CTRL_CORE_IPU1_PA),
    ensures
        r == mapper.spec_pa_to_da(CTRL_CORE_IPU1_PA),
{
    mapper.pa_to_da(CTRL_CORE_IPU1_PA)
}

/// The values written to the interrupt bank of a mailbox user to enable
/// interrupts on data in one slot: all pending interrupts cleared, all
/// interrupts disabled, then the data bit of the slot enabled.
pub struct MailboxIrqWrites {
    /// device address of the mailbox
    pub mailbox: usize,
    /// index of the user's interrupt bank
    pub user: usize,
    /// written to `status_clr`
    pub status_clr: u32,
    /// written to `enable_clr`
    pub enable_clr: u32,
    /// written to `enable_set`, if anything is
    pub enable_set: Option<u32>,
}

/// The registers of a mailbox slot: the device address of the mailbox and
/// the index of the slot.
pub struct MailboxSlotRef {
    pub mailbox: usize,
    pub slot: usize,
}

/// The message of a mailbox slot, given the value of its status register
/// and that of its message register: a message is there when the status is
/// non-zero. The message register is to be read only in that case, since
/// reading it takes the message out of the slot.
pub fn mailbox_message(status: u32, message: u32) -> (r: Option<u32>)
    ensures
        status != 0 ==> r == Some(message),
        status == 0 ==> r is None,
{
    if status != 0 {
        Some(message)
    } else {
        None
    }
}

/// Whether a slot's status still reports an unread message, so that a
/// sender must wait before it writes the slot.
pub fn mailbox_slot_busy(status: u32) -> (r: bool)
    ensures
        r == (status != 0),
{
    status != 0
}

/// The two ways in which the wake-up generator is told to wake on an
/// interrupt: by a mask bit ORed into its first event register, which masks
/// the interrupts 0 to 31 of the core (vector numbers 16 to 47), or into
/// its second, which masks the interrupts 32 to 63 (vector numbers 48 to
/// 79).
#[derive(Debug, Copy, Clone, PartialEq, Eq, Structural)]
pub enum WakeEvent {
    Evt0(u32),
    Evt1(u32),
}

/// The wake-up update for vector number `num`: the mask bit of the
/// interrupt, bit `num - 16` of the first event register for the numbers
/// below 48, bit `num - 48` of the second for the others.
pub open spec fn wake_event_spec(num: u16) -> WakeEvent {
    if num >= 48 {
        WakeEvent::Evt1(pow2((num - 48) as nat) as u32)
    } else {
        WakeEvent::Evt0(pow2((num - 16) as nat) as u32)
    }
}

/// The vector numbers that the wake-up generator masks: 16 to 79.
pub open spec fn wakes_on(num: u16) -> bool {
    16 <= num < 80
}

/// The wake-up update for vector number `num`: the interrupt's bit in the
/// event register that masks it.
pub fn wake_event_for(num: u16) -> (r: WakeEvent)
    requires
        wakes_on(num),
    ensures
        r == wake_event_spec(num),
{
    if num >= 48 {
        let bit = (num - 48) as u32;
        proof {
            vstd::bits::lemma_u32_pow2_no_overflow(bit as nat);
            vstd::bits::lemma_u32_shl_is_mul(1, bit);
        }
        // Interrupt bit is in second register of 32..63
        WakeEvent::Evt1(1u32 << bit)
    } else {
        let bit = (num - 16) as u32;
        proof {
            vstd::bits::lemma_u32_pow2_no_overflow(bit as nat);
            vstd::bits::lemma_u32_shl_is_mul(1, bit);
        }
        // Interrupt bit is in first register of 0..31
        WakeEvent::Evt0(1u32 << bit)
    }
}

/// Enable a wake-up trigger on IPU1 when this interrupt fires: the
/// interrupt's mask bit in the event register that covers it. The
/// wake-up generator takes the vector numbers 16 to 79.
pub fn wake_on_interrupt(interrupt: ::stm32mp1::stm32mp157::Interrupt) -> (r: WakeEvent)
    requires
        wakes_on(interrupt_number_of(interrupt)),
    ensures
        r == wake_event_spec(interrupt_number_of(interrupt)),
{
    let num = interrupt_number(interrupt);
    wake_event_for(num)
}

/// `wake_on_interrupt` where the wake-up generator takes the interrupt;
/// `None` for the others, on which `wake_on_interrupt` may not be called.
pub fn try_wake_on_interrupt(interrupt: ::stm32mp1::stm32mp157::Interrupt) -> (r: Option<WakeEvent>)
    ensures
        wakes_on(interrupt_number_of(interrupt)) ==> r == Some(wake_event_spec(interrupt_number_of(interrupt))),
        !wakes_on(interrupt_number_of(interrupt)) ==> r is None,
{
    let num = interrupt_number(interrupt);
    if 16 <= num && num < 80 {
        Some(wake_on_interrupt(interrupt))
    } else {
        None
    }
}

/// The value of a crossbar register (two 9-bit IRQ numbers with 16-bit
/// alignment) after its higher half is set to `crossbar_irq`.
pub fn set_higher(field: u32, crossbar_irq: u16) -> (r: u32)
    ensures
        r == (field & 0x0000_FFFF) | ((crossbar_irq as u32) << 16),
{
    let mut w = field;
    w &= 0x0000_FFFF;
    w |= (crossbar_irq as u32) << 16;
    w
}

/// The value of a crossbar register after its lower half is set to
/// `crossbar_irq`.
pub fn set_lower(field: u32, crossbar_irq: u16) -> (r: u32)
    ensures
        r == (field & 0xFFFF_0000) | ((crossbar_irq as u32) << 0),
{
    let mut w = field;
    w &= 0xFFFF_0000;
    w |= (crossbar_irq as u32) << 0;
    w
}

pub fn get_higher(field: u32) -> (r: u16)
    ensures
        r == (field >> 16) as u16,
{
    (field >> 16) as u16
}

pub fn get_lower(field: u32) -> (r: u16)
    ensures
        r == (field >> 0) as u16,
{
    (field >> 0) as u16
}

/// Setting a half of a crossbar register and reading it back gives the
/// value set, and leaves the other half as it was.
pub proof fn law_crossbar_halves(field: u32, irq: u16)
    ensures
        (((field & 0x0000_FFFF) | ((irq as u32) << 16)) >> 16) as u16 == irq,
        (((field & 0x0000_FFFF) | ((irq as u32) << 16)) >> 0) as u16 == (field >> 0) as u16,
        (((field & 0xFFFF_0000) | ((irq as u32) << 0)) >> 0) as u16 == irq,
        (((field & 0xFFFF_0000) | ((irq as u32) << 0)) >> 16) as u16 == (field >> 16) as u16,
{
    assert((((field & 0x0000_FFFF) | ((irq as u32) << 16)) >> 16) as u16 == irq) by (bit_vector);
    assert((((field & 0x0000_FFFF) | ((irq as u32) << 16)) >> 0) as u16 == (field >> 0) as u16)
        by (bit_vector);
    assert((((field & 0xFFFF_0000) | ((irq as u32) << 0)) >> 0) as u16 == irq) by (bit_vector);
    assert((((field & 0xFFFF_0000) | ((irq as u32) << 0)) >> 16) as u16 == (field >> 16) as u16)
        by (bit_vector);
}

/// The kind of a Unicache MMU page entry.
#[derive(Debug, Copy, Clone, PartialEq, Eq, Structural)]
pub enum MmuPageSize {
    Large,
    Small,
}

/// The configuration of one Unicache MMU page entry: which entry, the
/// address it maps, the address it translates to, and its policy.
#[derive(Debug, Copy, Clone, PartialEq, Eq, Structural)]
pub struct MmuPage {
    pub size: MmuPageSize,
    pub idx: usize,
    pub addr: usize,
    pub xlte: usize,
    pub policy: u32,
}

pub open spec fn mmu_page(size: MmuPageSize, idx: usize, addr: usize, xlte: usize, policy: u32) -> MmuPage {
    MmuPage { size, idx, addr, xlte, policy }
}

/// Policy of the cacheable large pages: posted, cacheable, large, enabled.
pub open spec fn large_cached_policy() -> u32 {
    (MMU_POLICY_POSTED | MMU_POLICY_CACHEABLE | MMU_POLICY_LARGE | MMU_POLICY_ENABLED) as u32
}

/// Policy of the small L2RAM pages: posted, cacheable, large, allocate,
/// write-back, enabled.
pub open spec fn l2ram_policy() -> u32 {
    (MMU_POLICY_POSTED | MMU_POLICY_CACHEABLE | MMU_POLICY_LARGE | MMU_POLICY_ALLOCATE
        | MMU_POLICY_WRITE_BACK | MMU_POLICY_ENABLED) as u32
}

/// The page entries that make the MMU transparent, in the order in which
/// they are written.
pub open spec fn mmu_setup_pages() -> Seq<MmuPage> {
    seq![
        // 512 MiB from 0x0000_0000 with no translation: machine code, cacheable.
        mmu_page(MmuPageSize::Large, 0, 0x00000000, 0xFFFFFFFF, large_cached_policy()),
        // 1.5 GiB from 0x6000_0000 to 0xC000_0000 with no translation: peripherals, not cacheable.
        mmu_page(MmuPageSize::Large, 1, 0x60000000, 0xFFFFFFFF,
            (MMU_POLICY_POSTED | MMU_POLICY_LARGE | MMU_POLICY_ENABLED) as u32),
        // Shared memory and IPC data, cacheable.
        mmu_page(MmuPageSize::Large, 2, 0x80000000, 0xFFFFFFFF, large_cached_policy()),
        // DMM and TILER, cacheable.
        mmu_page(MmuPageSize::Large, 3, 0xa0000000, 0xFFFFFFFF, large_cached_policy()),
        // Widen the hardware's 4 KiB page 0x4000_0000 -> 0x5508_0000, so that
        // it covers the inter-core interrupt peripheral.
        mmu_page(MmuPageSize::Small, 1, 0x40000000, 0x55080000,
            (MMU_POLICY_LARGE | MMU_POLICY_ENABLED) as u32),
        // 64 KiB of L2RAM at 0x2000_0000, in four 16 KiB pages.
        mmu_page(MmuPageSize::Small, 2, 0x20000000, 0x55020000, l2ram_policy()),
        mmu_page(MmuPageSize::Small, 3, 0x20004000, 0x55024000, l2ram_policy()),
        mmu_page(MmuPageSize::Small, 4, 0x20008000, 0x55028000, l2ram_policy()),
        mmu_page(MmuPageSize::Small, 5, 0x2000C000, 0x5502C000, l2ram_policy()),
    ]
}

/// Configure a large MMU page.
pub fn unicache_mmu_configure_large_page(idx: usize, addr: usize, xlte: usize, policy: u32) -> (r: MmuPage)
    ensures
        r == mmu_page(MmuPageSize::Large, idx, addr, xlte, policy),
{
    MmuPage { size: MmuPageSize::Large, idx, addr, xlte, policy }
}

/// Configure a small MMU page.
pub fn unicache_mmu_configure_small_page(idx: usize, addr: usize, xlte: usize, policy: u32) -> (r: MmuPage)
    ensures
        r == mmu_page(MmuPageSize::Small, idx, addr, xlte, policy),
{
    MmuPage { size: MmuPageSize::Small, idx, addr, xlte, policy }
}

/// Configure the MMU paging. We basically make it transparent.
pub fn unicache_mmu_setup() -> (r: Vec<MmuPage>)
    ensures
        r@ == mmu_setup_pages(),
{
    let large_cached = MMU_POLICY_POSTED | MMU_POLICY_CACHEABLE | MMU_POLICY_LARGE | MMU_POLICY_ENABLED;
    let l2ram = MMU_POLICY_POSTED | MMU_POLICY_CACHEABLE | MMU_POLICY_LARGE | MMU_POLICY_ALLOCATE
        | MMU_POLICY_WRITE_BACK | MMU_POLICY_ENABLED;
    let mut r: Vec<MmuPage> = Vec::new();
    // This maps 512 MiB from 0x0000_0000 with no translation.
    // This region contains machine-code and is cacheable.
    r.push(unicache_mmu_configure_large_page(0, 0x00000000, 0xFFFFFFFF, large_cached));
    // These next three map in 1.5 GiB from 0x6000_0000 to 0xC000_0000 with no translation.
    // This region contains peripherals. It is non-cacheable.
    r.push(unicache_mmu_configure_large_page(
        1,
        0x60000000,
        0xFFFFFFFF,
        MMU_POLICY_POSTED | MMU_POLICY_LARGE | MMU_POLICY_ENABLED,
    ));
    // This region contains shared memory and IPC data. It is cacheable.
    r.push(unicache_mmu_configure_large_page(2, 0x80000000, 0xFFFFFFFF, large_cached));
    // This region is for DMM and TILER. It is cacheable.
    r.push(unicache_mmu_configure_large_page(3, 0xa0000000, 0xFFFFFFFF, large_cached));
    // There are two small pages mapped by the hardware. 0x????_???? to
    // 0x5502_0000 and 0x4000_0000 to 0x5508_0000. We need to make the latter
    // of these larger as it defaults to 4 KiB, which doesn't cover the inter-
    // core interrupt peripheral.
    r.push(unicache_mmu_configure_small_page(
        1,
        0x40000000,
        0x55080000,
        MMU_POLICY_LARGE | MMU_POLICY_ENABLED,
    ));
    // Map 64 KiB of L2RAM to 0x2000_0000 using four 16 KiB pages.
    r.push(unicache_mmu_configure_small_page(2, 0x20000000, 0x55020000, l2ram));
    r.push(unicache_mmu_configure_small_page(3, 0x20004000, 0x55024000, l2ram));
    r.push(unicache_mmu_configure_small_page(4, 0x20008000, 0x55028000, l2ram));
    r.push(unicache_mmu_configure_small_page(5, 0x2000C000, 0x5502C000, l2ram));
    assert(r@ =~= mmu_setup_pages());
    r
}

/// Number of crossbar registers of IPU1, from `irq_23_24` to `irq_79_80`.
pub const CROSSBAR_REGISTERS: usize = 29;

/// The crossbar IRQ numbers that the setup gives each crossbar register,
/// as (lower, higher) pairs from `irq_23_24` to `irq_79_80`: every line
/// disconnected, except that IPU1 interrupt 44 receives crossbar IRQ 250,
/// which is Mailbox 5 User 1.
pub open spec fn crossbar_setup() -> Seq<(u16, u16)> {
    Seq::new(29, |i: int| if i == 10 { (0u16, 250u16) } else { (0u16, 0u16) })
}

/// The values written to the Unicache configuration during setup: the
/// unlock bits into `config`, and zero into `ocp`, which turns off the
/// caching that `OCP_CACHED` enables by default.
pub struct UnicacheSetup {
    pub config: u32,
    pub ocp: u32,
}

pub open spec fn unicache_setup_values() -> UnicacheSetup {
    UnicacheSetup {
        config: (CFG_CONFIG_UNLOCK_MAIN | CFG_CONFIG_UNLOCK_PORT | CFG_CONFIG_UNLOCK_INT) as u32,
        ocp: 0,
    }
}

/// What the setup does, in the order of the fields: with interrupts masked,
/// it writes the MMU pages and the Unicache configuration, flushes the
/// whole range through the MMU, turns the cache on, writes the crossbar
/// IRQ numbers into the crossbar registers at device address
/// `crossbar_registers`, and enables interrupts.
pub struct SetupPlan {
    /// written first, with the CPU-wide interrupt mask set
    pub pages: Vec<MmuPage>,
    /// then the Unicache configuration, awaited with `unicache_maint_busy`
    pub unicache: UnicacheSetup,
    /// then a flush of the whole range, awaited with `mmu_maint_busy`
    pub flush: FlushAll,
    /// then the `config` value that turns the cache on
    pub enabled_config: u32,
    /// then the crossbar registers at this device address
    pub crossbar_registers: usize,
    /// receive these (lower, higher) IRQ numbers
    pub crossbar: Vec<(u16, u16)>,
    /// whether the CPU-wide interrupt mask is lifted last, so that the
    /// interrupts are enabled on return
    pub enable_interrupts: bool,
}

/// Whether the Unicache still reports maintenance in progress in the low
/// five bits of its `maint` register.
pub fn unicache_maint_busy(maint: u32) -> (r: bool)
    ensures
        r == (maint & 0x1f != 0),
{
    maint & 0x1f != 0
}

/// Whether the Unicache MMU still reports the maintenance of `mode` in
/// progress.
pub fn mmu_maint_busy(maint: u32, mode: CacheFlushAllMode) -> (r: bool)
    ensures
        r == (maint & flush_all_mode_value(mode) != 0),
{
    maint & mode.value() != 0
}

/// The registers that a flush of the whole address space writes through
/// the Unicache MMU: the start and end of the range, and the maintenance
/// bits ORed into `maint`.
pub struct FlushAll {
    pub mstart: usize,
    pub mend: usize,
    pub maint: u32,
}

/// The registers that a flush of an address range writes in the Unicache
/// configuration: start and end (inclusive) of the range, and the
/// maintenance bits ORed into `maint`.
pub struct FlushRange {
    pub mt_start: usize,
    pub mt_end: usize,
    pub maint: u32,
}

impl<'a, T: AddressMapper> Stm32mp1<'a, T> {
    /// Returns an object the first time, None the second time: `available`
    /// records whether the chip is still to be claimed.
    pub fn claim(mapper: &'a T, available: &mut bool) -> (r: Option<Stm32mp1<'a, T>>)
        ensures
            claim_post(*old(available), *final(available), r, mapper),
    {
        if *available {
            let r = Stm32mp1 { mapper };
            *available = false;
            Some(r)
        } else {
            None
        }
    }

    /// The device address of a mailbox, which the resource table must map.
    pub fn mailbox(&self, id: MailboxId) -> (r: usize)
        requires
            self.mapper.pa_to_da_defined(mailbox_pa(id)),
            self.mapper.spec_pa_to_da(mailbox_pa(id)) is Some,
        ensures
            self.mapper.spec_pa_to_da(mailbox_pa(id)) == Some(r),
    {
        match get_mailbox(id, self.mapper) {
            Some(da) => da,
            None => 0,
        }
    }

    /// The registers that give any message the host may have for us: the
    /// status and message registers of the slot, in the mapped mailbox.
    /// Read them with `mailbox_message`.
    ///
    /// This invoves processor 8 talking to processor 6.
    pub fn get_message(&mut self, location: MailboxLocation) -> (r: MailboxSlotRef)
        requires
            old(self).mapper.pa_to_da_defined(mailbox_pa(location.id)),
            old(self).mapper.spec_pa_to_da(mailbox_pa(location.id)) is Some,
        ensures
            Some(r.mailbox) == old(self).mapper.spec_pa_to_da(mailbox_pa(location.id)),
            r.slot == slot_index(location.slot),
            final(self).mapper == old(self).mapper,
    {
        let mailbox = self.mailbox(location.id);
        MailboxSlotRef { mailbox, slot: location.slot.index() as usize }
    }

    /// Enable interrupt from the Mailbox on data received: the writes to
    /// the user's interrupt bank.
    pub fn enable_mailbox_data_interrupt(&mut self, location: MailboxLocation) -> (r: MailboxIrqWrites)
        requires
            old(self).mapper.pa_to_da_defined(mailbox_pa(location.id)),
            old(self).mapper.spec_pa_to_da(mailbox_pa(location.id)) is Some,
        ensures
            Some(r.mailbox) == old(self).mapper.spec_pa_to_da(mailbox_pa(location.id)),
            r.user == user_index(location.user),
            r.status_clr == 0xFFFF_FFFF,
            r.enable_clr == 0xFFFF_FFFF,
            r.enable_set == Some(pow2(2 * slot_index(location.slot) as nat) as u32),
            final(self).mapper == old(self).mapper,
    {
        let mailbox = self.mailbox(location.id);
        MailboxIrqWrites {
            mailbox,
            user: location.user.index(),
            status_clr: 0xFFFF_FFFF,
            enable_clr: 0xFFFF_FFFF,
            enable_set: Some(location.slot.get_data_bit()),
        }
    }

    /// Disable interrupts from the Mailbox: the writes to the user's
    /// interrupt bank.
    pub fn disable_mailbox_interrupts(&mut self, id: MailboxId, user: MailboxUser) -> (r: MailboxIrqWrites)
        requires
            old(self).mapper.pa_to_da_defined(mailbox_pa(id)),
            old(self).mapper.spec_pa_to_da(mailbox_pa(id)) is Some,
        ensures
            Some(r.mailbox) == old(self).mapper.spec_pa_to_da(mailbox_pa(id)),
            r.user == user_index(user),
            r.status_clr == 0xFFFF_FFFF,
            r.enable_clr == 0xFFFF_FFFF,
            r.enable_set is None,
            final(self).mapper == old(self).mapper,
    {
        let mailbox = self.mailbox(id);
        MailboxIrqWrites {
            mailbox,
            user: user.index(),
            status_clr: 0xFFFF_FFFF,
            enable_clr: 0xFFFF_FFFF,
            enable_set: None,
        }
    }

    /// The slot registers that a message to the host is written to, with
    /// the message.
    ///
    /// This invoves processor 6 talking to processor 8.
    pub fn send_message(&mut self, id: u32, location: MailboxLocation) -> (r: (MailboxSlotRef, u32))
        requires
            old(self).mapper.pa_to_da_defined(mailbox_pa(location.id)),
            old(self).mapper.spec_pa_to_da(mailbox_pa(location.id)) is Some,
        ensures
            Some(r.0.mailbox) == old(self).mapper.spec_pa_to_da(mailbox_pa(location.id)),
            r.0.slot == slot_index(location.slot),
            r.1 == id,
            final(self).mapper == old(self).mapper,
    {
        let mailbox = self.mailbox(location.id);
        (MailboxSlotRef { mailbox, slot: location.slot.index() as usize }, id)
    }

    /// The Unicache `config` value that turns the L1 'Unicache' on: the
    /// bypass disabled.
    pub fn cache_enable(&mut self, config: u32) -> (r: u32)
        ensures
            r == config | CFG_CONFIG_DISABLE_BYPASS,
            final(self).mapper == old(self).mapper,
    {
        config | CFG_CONFIG_DISABLE_BYPASS
    }

    /// The Unicache `config` value that turns the L1 'Unicache' off.
    pub fn cache_disable(&mut self, config: u32) -> (r: u32)
        ensures
            r == config & !CFG_CONFIG_DISABLE_BYPASS,
            final(self).mapper == old(self).mapper,
    {
        config & !CFG_CONFIG_DISABLE_BYPASS
    }

    /// Cache flush everything using the Unicache AMMU: the range from
    /// 0x0000_0000 to 0xFFFF_FFFF with the maintenance bits of `mode`,
    /// which are then awaited with `mmu_maint_busy`.
    pub fn cache_flush_all(&mut self, mode: CacheFlushAllMode) -> (r: FlushAll)
        ensures
            r.mstart == 0,
            r.mend == 0xffff_ffff,
            r.maint == flush_all_mode_value(mode),
            final(self).mapper == old(self).mapper,
    {
        FlushAll { mstart: 0x00000000, mend: 0xffffffff, maint: mode.value() }
    }

    /// Tell the unicache to invalidate/writeback a specific address range
    /// from the L1 cache; completion is awaited with `unicache_maint_busy`.
    pub fn cache_flush_address(&mut self, address: usize, len: usize, mode: CacheFlushMode) -> (r: FlushRange)
        requires
            1 <= address + len <= usize::MAX,
        ensures
            r.mt_start == address,
            r.mt_end == address + len - 1,
            r.maint == flush_mode_value(mode),
            final(self).mapper == old(self).mapper,
    {
        FlushRange { mt_start: address, mt_end: address + len - 1, maint: mode.value() }
    }

    /// Enable interrupts: what the setup does, step by step (see
    /// `SetupPlan`). The resource table must map the crossbar registers.
    pub fn setup(&mut self) -> (r: SetupPlan)
        requires
            old(self).mapper.pa_to_da_defined(CTRL_CORE_IPU1_PA),
            old(self).mapper.spec_pa_to_da(CTRL_CORE_IPU1_PA) is Some,
        ensures
            r.pages@ == mmu_setup_pages(),
            r.unicache == unicache_setup_values(),
            r.unicache.config == 0x1C,
            r.flush.mstart == 0,
            r.flush.mend == 0xffff_ffff,
            r.flush.maint == flush_all_mode_value(CacheFlushAllMode::Flush),
            r.enabled_config == r.unicache.config | CFG_CONFIG_DISABLE_BYPASS,
            r.enabled_config == 0x1E,
            r.enable_interrupts,
            Some(r.crossbar_registers) == old(self).mapper.spec_pa_to_da(CTRL_CORE_IPU1_PA),
            r.crossbar@ == crossbar_setup(),
            final(self).mapper == old(self).mapper,
    {
        let crossbar_registers = match ctrl_core_ipu1(self.mapper) {
            Some(da) => da,
            None => 0,
        };
        let pages = unicache_mmu_setup();
        let config = UnicacheSetup {
            config: CFG_CONFIG_UNLOCK_MAIN | CFG_CONFIG_UNLOCK_PORT | CFG_CONFIG_UNLOCK_INT,
            ocp: 0x0000_0000,
        };
        // Crossbar 250 is Mailbox 5 User 1. Disable all the interrupts but
        // IPU1 interrupt 44 (the higher half of irq_43_44).
        let mut crossbar: Vec<(u16, u16)> = Vec::new();
        let mut i: usize = 0;
        while i < CROSSBAR_REGISTERS
            invariant
                i <= CROSSBAR_REGISTERS,
                crossbar@ == crossbar_setup().subrange(0, i as int),
            decreases CROSSBAR_REGISTERS - i,
        {
            if i == 10 {
                crossbar.push((0, 250));
            } else {
                crossbar.push((0, 0));
            }
            i = i + 1;
            assert(crossbar@ =~= crossbar_setup().subrange(0, i as int));
        }
        assert(crossbar@ =~= crossbar_setup());
        let flush = self.cache_flush_all(CacheFlushAllMode::Flush);
        let enabled_config = self.cache_enable(config.config);
        assert(0x10u32 | 0x08u32 | 0x04u32 == 0x1Cu32) by (bit_vector);
        assert(0x1Cu32 | 0x02u32 == 0x1Eu32) by (bit_vector);
        SetupPlan {
            pages,
            unicache: config,
            flush,
            enabled_config,
            crossbar_registers,
            crossbar,
            enable_interrupts: true,
        }
    }
}

/// Turning the cache on and then off clears the bypass-disable bit and
/// leaves every other bit of the configuration as it was.
pub proof fn law_cache_enable_disable(config: u32)
    ensures
        (config | CFG_CONFIG_DISABLE_BYPASS) & !CFG_CONFIG_DISABLE_BYPASS == config & !CFG_CONFIG_DISABLE_BYPASS,
        (config | CFG_CONFIG_DISABLE_BYPASS) & CFG_CONFIG_DISABLE_BYPASS == CFG_CONFIG_DISABLE_BYPASS,
        (config & !CFG_CONFIG_DISABLE_BYPASS) & CFG_CONFIG_DISABLE_BYPASS == 0,
{
    assert((config | 2u32) & !2u32 == config & !2u32) by (bit_vector);
    assert((config | 2u32) & 2u32 == 2u32) by (bit_vector);
    assert((config & !2u32) & 2u32 == 0) by (bit_vector);
}

/// What `claim` does: while the chip is available it hands out the chip
/// and marks it taken; afterwards it hands out nothing.
pub open spec fn claim_post<'a, T: AddressMapper>(
    available_before: bool,
    available_after: bool,
    r: Option<Stm32mp1<'a, T>>,
    mapper: &'a T,
) -> bool {
    &&& !available_after
    &&& available_before ==> (r matches Some(c) && c.mapper == mapper)
    &&& !available_before ==> r is None
}

/// The chip is handed out once: a second claim gets `None`, whatever the
/// first one got.
pub proof fn law_claim_once<'a, T: AddressMapper>(
    mapper: &'a T,
    available0: bool,
    available1: bool,
    available2: bool,
    first: Option<Stm32mp1<'a, T>>,
    second: Option<Stm32mp1<'a, T>>,
)
    requires
        claim_post(available0, available1, first, mapper),
        claim_post(available1, available2, second, mapper),
    ensures
        second is None,
        available0 ==> first is Some,
{
}

/// The mailbox instances lie where the TRM's Mailbox Instance Summary puts
/// them: Mailbox1 at 0x4A0F_4000 (L4CFG); Mailbox2 to Mailbox8 in
/// consecutive 8 KiB blocks from 0x4883_A000 and Mailbox9 to Mailbox12 in
/// consecutive 8 KiB blocks from 0x4885_E000 (L4PER3); Mailbox13 at
/// 0x4880_2000. Every instance is 8 KiB aligned, and no two share an
/// address.
pub proof fn law_mailbox_addresses(a: MailboxId, b: MailboxId)
    ensures
        a != b ==> mailbox_pa(a) != mailbox_pa(b),
        mailbox_pa(a) % 0x2000 == 0,
        mailbox_pa(MailboxId::Mailbox1) == 0x4A0F_4000,
        mailbox_pa(MailboxId::Mailbox2) == 0x4883_A000,
        mailbox_pa(MailboxId::Mailbox3) == mailbox_pa(MailboxId::Mailbox2) + 0x2000,
        mailbox_pa(MailboxId::Mailbox4) == mailbox_pa(MailboxId::Mailbox3) + 0x2000,
        mailbox_pa(MailboxId::Mailbox5) == mailbox_pa(MailboxId::Mailbox4) + 0x2000,
        mailbox_pa(MailboxId::Mailbox6) == mailbox_pa(MailboxId::Mailbox5) + 0x2000,
        mailbox_pa(MailboxId::Mailbox7) == mailbox_pa(MailboxId::Mailbox6) + 0x2000,
        mailbox_pa(MailboxId::Mailbox8) == mailbox_pa(MailboxId::Mailbox7) + 0x2000,
        mailbox_pa(MailboxId::Mailbox9) == 0x4885_E000,
        mailbox_pa(MailboxId::Mailbox10) == mailbox_pa(MailboxId::Mailbox9) + 0x2000,
        mailbox_pa(MailboxId::Mailbox11) == mailbox_pa(MailboxId::Mailbox10) + 0x2000,
        mailbox_pa(MailboxId::Mailbox12) == mailbox_pa(MailboxId::Mailbox11) + 0x2000,
        mailbox_pa(MailboxId::Mailbox13) == 0x4880_2000,
{
}

/// The priority register holds the level in its top four bits: each
/// priority is 16 above the one before it, from 0 for `Prio00` (the most
/// urgent) to 0xF0 for `Prio15`, and distinct priorities have distinct
/// register values.
pub proof fn law_priority_register_values(p: InterruptPriority, q: InterruptPriority)
    ensures
        p != q ==> priority_level(p) * 16 != priority_level(q) * 16,
        (priority_level(p) * 16) % 16 == 0,
        priority_level(p) * 16 <= 0xF0,
        priority_level(InterruptPriority::Prio00) * 16 == 0,
        priority_level(InterruptPriority::Prio01) * 16 == priority_level(InterruptPriority::Prio00) * 16 + 16,
        priority_level(InterruptPriority::Prio02) * 16 == priority_level(InterruptPriority::Prio01) * 16 + 16,
        priority_level(InterruptPriority::Prio03) * 16 == priority_level(InterruptPriority::Prio02) * 16 + 16,
        priority_level(InterruptPriority::Prio04) * 16 == priority_level(InterruptPriority::Prio03) * 16 + 16,
        priority_level(InterruptPriority::Prio05) * 16 == priority_level(InterruptPriority::Prio04) * 16 + 16,
        priority_level(InterruptPriority::Prio06) * 16 == priority_level(InterruptPriority::Prio05) * 16 + 16,
        priority_level(InterruptPriority::Prio07) * 16 == priority_level(InterruptPriority::Prio06) * 16 + 16,
        priority_level(InterruptPriority::Prio08) * 16 == priority_level(InterruptPriority::Prio07) * 16 + 16,
        priority_level(InterruptPriority::Prio09) * 16 == priority_level(InterruptPriority::Prio08) * 16 + 16,
        priority_level(InterruptPriority::Prio10) * 16 == priority_level(InterruptPriority::Prio09) * 16 + 16,
        priority_level(InterruptPriority::Prio11) * 16 == priority_level(InterruptPriority::Prio10) * 16 + 16,
        priority_level(InterruptPriority::Prio12) * 16 == priority_level(InterruptPriority::Prio11) * 16 + 16,
        priority_level(InterruptPriority::Prio13) * 16 == priority_level(InterruptPriority::Prio12) * 16 + 16,
        priority_level(InterruptPriority::Prio14) * 16 == priority_level(InterruptPriority::Prio13) * 16 + 16,
        priority_level(InterruptPriority::Prio15) * 16 == priority_level(InterruptPriority::Prio14) * 16 + 16,
{
}

/// The range maintenance modes set the Unicache maintenance bits that
/// their names say: the invalidate bit (0x10) exactly for `Invalidate` and
/// `InvalidateWriteBack`, the clean bit (0x08) exactly for `WriteBack` and
/// `InvalidateWriteBack`, and no other bit.
pub proof fn law_flush_mode_bits(mode: CacheFlushMode)
    ensures
        (flush_mode_value(mode) & 0x10u32 != 0) <==> (mode is Invalidate || mode is InvalidateWriteBack),
        (flush_mode_value(mode) & 0x08u32 != 0) <==> (mode is WriteBack || mode is InvalidateWriteBack),
        flush_mode_value(mode) & !0x18u32 == 0,
{
    assert(0x08u32 & 0x10u32 == 0 && 0x08u32 & 0x08u32 != 0 && 0x08u32 & !0x18u32 == 0) by (bit_vector);
    assert(0x10u32 & 0x10u32 != 0 && 0x10u32 & 0x08u32 == 0 && 0x10u32 & !0x18u32 == 0) by (bit_vector);
    assert((0x08u32 | 0x10u32) & 0x10u32 != 0 && (0x08u32 | 0x10u32) & 0x08u32 != 0
        && (0x08u32 | 0x10u32) & !0x18u32 == 0) by (bit_vector);
}

/// The whole-range maintenance modes set the Unicache MMU maintenance bits
/// that their names say: the global flush bit (0x400) exactly for `Flush`,
/// the invalidate bit (0x10) exactly for `Invalidate` and
/// `InvalidateWriteBack`, the clean bit (0x08) exactly for `WriteBack` and
/// `InvalidateWriteBack`, and no other bit.
pub proof fn law_flush_all_mode_bits(mode: CacheFlushAllMode)
    ensures
        (flush_all_mode_value(mode) & 0x400u32 != 0) <==> mode is Flush,
        (flush_all_mode_value(mode) & 0x10u32 != 0) <==> (mode is Invalidate || mode is InvalidateWriteBack),
        (flush_all_mode_value(mode) & 0x08u32 != 0) <==> (mode is WriteBack || mode is InvalidateWriteBack),
        flush_all_mode_value(mode) & !0x418u32 == 0,
{
    assert(0x400u32 & 0x400u32 != 0 && 0x400u32 & 0x10u32 == 0 && 0x400u32 & 0x08u32 == 0
        && 0x400u32 & !0x418u32 == 0) by (bit_vector);
    assert(0x08u32 & 0x400u32 == 0 && 0x08u32 & 0x10u32 == 0 && 0x08u32 & 0x08u32 != 0
        && 0x08u32 & !0x418u32 == 0) by (bit_vector);
    assert(0x10u32 & 0x400u32 == 0 && 0x10u32 & 0x10u32 != 0 && 0x10u32 & 0x08u32 == 0
        && 0x10u32 & !0x418u32 == 0) by (bit_vector);
    assert((0x10u32 | 0x08u32) & 0x400u32 == 0 && (0x10u32 | 0x08u32) & 0x10u32 != 0
        && (0x10u32 | 0x08u32) & 0x08u32 != 0 && (0x10u32 | 0x08u32) & !0x418u32 == 0) by (bit_vector);
}

/// The MMU setup writes the four large pages first, entry `i` at position
/// `i`, then small pages only. The large pages are posted, large and
/// enabled, and all but entry 1 (0x6000_0000, the peripherals) are
/// cacheable: policies 0x0003_0003, 0x0002_0003, 0x0003_0003, 0x0003_0003.
/// Over all the pages written, exactly those at the peripheral addresses
/// 0x6000_0000 and 0x4000_0000 lack the cacheable bit, and every page is
/// enabled.
pub proof fn law_mmu_setup_policies()
    ensures
        mmu_setup_pages().len() == 9,
        forall|i: int| 0 <= i < 4 ==> (#[trigger] mmu_setup_pages()[i]).size is Large && mmu_setup_pages()[i].idx == i,
        forall|i: int| 4 <= i < 9 ==> (#[trigger] mmu_setup_pages()[i]).size is Small,
        forall|i: int|
            0 <= i < 4 ==> (#[trigger] mmu_setup_pages()[i]).policy == (if i == 1 {
                0x0002_0003u32
            } else {
                0x0003_0003u32
            }),
        forall|i: int|
            0 <= i < 9 ==> ((#[trigger] mmu_setup_pages()[i]).policy & 0x0001_0000u32 != 0 <==> !(
            mmu_setup_pages()[i].addr == 0x6000_0000 || mmu_setup_pages()[i].addr == 0x4000_0000)),
        forall|i: int| 0 <= i < 9 ==> (#[trigger] mmu_setup_pages()[i]).policy & 1u32 != 0,
{
    assert(0x0002_0000u32 | 0x0001_0000u32 | 0x2u32 | 0x1u32 == 0x0003_0003u32) by (bit_vector);
    assert(0x0002_0000u32 | 0x2u32 | 0x1u32 == 0x0002_0003u32) by (bit_vector);
    assert(0x2u32 | 0x1u32 == 0x3u32) by (bit_vector);
    assert(0x0002_0000u32 | 0x0001_0000u32 | 0x2u32 | 0x0004_0000u32 | 0x0008_0000u32 | 0x1u32
        == 0x000F_0003u32) by (bit_vector);
    assert(0x0003_0003u32 & 0x0001_0000u32 != 0 && 0x0003_0003u32 & 1u32 != 0) by (bit_vector);
    assert(0x0002_0003u32 & 0x0001_0000u32 == 0 && 0x0002_0003u32 & 1u32 != 0) by (bit_vector);
    assert(0x3u32 & 0x0001_0000u32 == 0 && 0x3u32 & 1u32 != 0) by (bit_vector);
    assert(0x000F_0003u32 & 0x0001_0000u32 != 0 && 0x000F_0003u32 & 1u32 != 0) by (bit_vector);
    let s = mmu_setup_pages();
    assert(s[0].policy == 0x0003_0003u32 && s[0].addr == 0);
    assert(s[1].policy == 0x0002_0003u32 && s[1].addr == 0x6000_0000);
    assert(s[2].policy == 0x0003_0003u32 && s[2].addr == 0x8000_0000);
    assert(s[3].policy == 0x0003_0003u32 && s[3].addr == 0xa000_0000);
    assert(s[4].policy == 0x3u32 && s[4].addr == 0x4000_0000);
    assert(s[5].policy == 0x000F_0003u32);
    assert(s[6].policy == 0x000F_0003u32);
    assert(s[7].policy == 0x000F_0003u32);
    assert(s[8].policy == 0x000F_0003u32);
}

/// The slots of a mailbox are numbered in declaration order from 0 to 11,
/// and its users from 0 to 3: each one above the one before, so that no two
/// slots (or users) share registers.
pub proof fn law_slot_and_user_indices(a: MailboxSlot, b: MailboxSlot, u: MailboxUser, v: MailboxUser)
    ensures
        a != b ==> slot_index(a) != slot_index(b),
        slot_index(a) < 12,
        slot_index(MailboxSlot::Slot0) == 0,
        slot_index(MailboxSlot::Slot1) == slot_index(MailboxSlot::Slot0) + 1,
        slot_index(MailboxSlot::Slot2) == slot_index(MailboxSlot::Slot1) + 1,
        slot_index(MailboxSlot::Slot3) == slot_index(MailboxSlot::Slot2) + 1,
        slot_index(MailboxSlot::Slot4) == slot_index(MailboxSlot::Slot3) + 1,
        slot_index(MailboxSlot::Slot5) == slot_index(MailboxSlot::Slot4) + 1,
        slot_index(MailboxSlot::Slot6) == slot_index(MailboxSlot::Slot5) + 1,
        slot_index(MailboxSlot::Slot7) == slot_index(MailboxSlot::Slot6) + 1,
        slot_index(MailboxSlot::Slot8) == slot_index(MailboxSlot::Slot7) + 1,
        slot_index(MailboxSlot::Slot9) == slot_index(MailboxSlot::Slot8) + 1,
        slot_index(MailboxSlot::Slot10) == slot_index(MailboxSlot::Slot9) + 1,
        slot_index(MailboxSlot::Slot11) == slot_index(MailboxSlot::Slot10) + 1,
        u != v ==> user_index(u) != user_index(v),
        user_index(u) < 4,
        user_index(MailboxUser::User0) == 0,
        user_index(MailboxUser::User1) == user_index(MailboxUser::User0) + 1,
        user_index(MailboxUser::User2) == user_index(MailboxUser::User1) + 1,
        user_index(MailboxUser::User3) == user_index(MailboxUser::User2) + 1,
{
}

} // verus!
