use stm32mp1_openamp::platform::{
    ctrl_core_ipu1, get_higher, get_lower, get_mailbox, mailbox_message, mailbox_slot_busy,
    mmu_maint_busy, set_higher, set_lower, unicache_maint_busy, unicache_mmu_setup, wake_event_for,
    wake_on_interrupt, try_wake_on_interrupt, CacheFlushAllMode, CTRL_CORE_IPU1_PA, CacheFlushMode, InterruptPriority, MailboxId,
    MailboxLocation, MailboxSlot, MailboxUser, MmuPage, MmuPageSize, Stm32mp1, WakeEvent,
};
use stm32mp1_openamp::resource_table::{
    AddressMapper,
    Carveout, Devmem, Header, ResourceTable, ResourceType, Trace, Vdev, VdevVring, SZ_1M,
};
use stm32mp1_openamp::string::String32;
use stm32mp1::stm32mp157::Interrupt;

fn devmem(pa: usize, da: usize, len: usize) -> Devmem {
    Devmem { rtype: ResourceType::DEVMEM, da, pa, len, flags: 0, reserved: 0, name: String32::new("d") }
}

fn carveout() -> Carveout {
    Carveout { rtype: ResourceType::CARVEOUT, da: 0, pa: 0, len: 0, flags: 0, reserved: 0, name: String32::new("c") }
}

/// Maps L4_PERIPHERAL_L4PER3 to 0x6880_0000 and L4_PERIPHERAL_L4CFG to
/// 0x6A00_0000.
fn table() -> ResourceTable {
    ResourceTable {
        base: Header { ver: 1, num: 5, reserved: [0, 0] },
        offsets: [0; 5],
        rpmsg_vdev: Vdev {
            rtype: ResourceType::VDEV,
            id: 7,
            notifyid: 0,
            dfeatures: 1,
            gfeatures: 0,
            config_len: 0,
            status: 0,
            num_of_vrings: 2,
            reserved: [0, 0],
        },
        rpmsg_vring0: VdevVring { da: 0, align: 16, num: 16, notifyid: 0, reserved: 0 },
        rpmsg_vring1: VdevVring { da: 0, align: 16, num: 16, notifyid: 1, reserved: 0 },
        text_cout: carveout(),
        data_cout: carveout(),
        ipcdata_cout: carveout(),
        trace: Trace { rtype: ResourceType::TRACE, da: 0, len: 0, reserved: 0, name: String32::new("t") },
        devmem0: devmem(0x4880_0000, 0x6880_0000, SZ_1M),
        devmem1: devmem(0x4A00_0000, 0x6A00_0000, SZ_1M),
        devmem2: devmem(0, 0, 0),
        devmem3: devmem(0, 0, 0),
        devmem4: devmem(0, 0, 0),
        devmem5: devmem(0, 0, 0),
        devmem6: devmem(0, 0, 0),
        devmem7: devmem(0, 0, 0),
        devmem8: devmem(0, 0, 0),
        devmem9: devmem(0, 0, 0),
        devmem10: devmem(0, 0, 0),
        devmem11: devmem(0, 0, 0),
        devmem12: devmem(0, 0, 0),
        devmem13: devmem(0, 0, 0),
        devmem14: devmem(0, 0, 0),
        devmem15: devmem(0, 0, 0),
    }
}

#[test]
fn slot_bits() {
    assert_eq!(MailboxSlot::Slot0.get_data_bit(), 0x1);
    assert_eq!(MailboxSlot::Slot0.get_space_bit(), 0x4);
    assert_eq!(MailboxSlot::Slot3.get_data_bit(), 0x40);
    assert_eq!(MailboxSlot::Slot11.get_data_bit(), 1 << 22);
    assert_eq!(MailboxSlot::Slot11.get_space_bit(), 1 << 24);
}

#[test]
fn mailboxes_are_mapped_through_the_resource_table() {
    let t = table();
    assert_eq!(get_mailbox(MailboxId::Mailbox1, &t), Some(0x6A0F_4000));
    assert_eq!(get_mailbox(MailboxId::Mailbox5, &t), Some(0x6884_0000));
    assert_eq!(get_mailbox(MailboxId::Mailbox13, &t), Some(0x6880_2000));
    assert_eq!(ctrl_core_ipu1(&t), Some(0x6A00_27E0));
    let empty = ResourceTable { devmem0: devmem(0, 0, 0), devmem1: devmem(0, 0, 0), ..table() };
    assert_eq!(get_mailbox(MailboxId::Mailbox2, &empty), None);
    assert!(t.pa_to_da_is_defined(CTRL_CORE_IPU1_PA));
    let top = ResourceTable { devmem0: devmem(usize::MAX - 4, 0, 8), ..table() };
    assert!(!top.pa_to_da_is_defined(usize::MAX - 2));
    assert!(top.pa_to_da_is_defined(3));
}

#[test]
fn the_chip_is_claimed_once() {
    let t = table();
    let mut available = true;
    assert!(Stm32mp1::claim(&t, &mut available).is_some());
    assert!(!available);
    assert!(Stm32mp1::claim(&t, &mut available).is_none());
}

#[test]
fn mailbox_interrupt_writes() {
    let t = table();
    let mut available = true;
    let mut chip = Stm32mp1::claim(&t, &mut available).unwrap();
    let location = MailboxLocation { id: MailboxId::Mailbox5, user: MailboxUser::User1, slot: MailboxSlot::Slot2 };
    let w = chip.enable_mailbox_data_interrupt(location);
    assert_eq!((w.mailbox, w.user, w.status_clr, w.enable_clr), (0x6884_0000, 1, 0xFFFF_FFFF, 0xFFFF_FFFF));
    assert_eq!(w.enable_set, Some(0x10));
    let d = chip.disable_mailbox_interrupts(MailboxId::Mailbox1, MailboxUser::User3);
    assert_eq!((d.mailbox, d.user, d.enable_set), (0x6A0F_4000, 3, None));
    let m = chip.get_message(location);
    assert_eq!((m.mailbox, m.slot), (0x6884_0000, 2));
    let (s, id) = chip.send_message(0xFFFF_FF00, location);
    assert_eq!((s.mailbox, s.slot, id), (0x6884_0000, 2, 0xFFFF_FF00));
}

#[test]
fn mailbox_messages() {
    assert_eq!(mailbox_message(1, 0x1234), Some(0x1234));
    assert_eq!(mailbox_message(0, 0x1234), None);
    assert!(mailbox_slot_busy(4));
    assert!(!mailbox_slot_busy(0));
}

#[test]
fn cache_values() {
    let t = table();
    let mut available = true;
    let mut chip = Stm32mp1::claim(&t, &mut available).unwrap();
    assert_eq!(chip.cache_enable(0x10), 0x12);
    assert_eq!(chip.cache_disable(0x13), 0x11);
    let f = chip.cache_flush_all(CacheFlushAllMode::Flush);
    assert_eq!((f.mstart, f.mend, f.maint), (0, 0xffff_ffff, 0x400));
    let r = chip.cache_flush_address(0x2000_0000, 0x100, CacheFlushMode::InvalidateWriteBack);
    assert_eq!((r.mt_start, r.mt_end, r.maint), (0x2000_0000, 0x2000_00ff, 0x18));
    assert_eq!(CacheFlushMode::WriteBack.value(), 0x08);
    assert_eq!(CacheFlushAllMode::InvalidateWriteBack.value(), 0x18);
    assert!(unicache_maint_busy(0x21));
    assert!(!unicache_maint_busy(0x20));
    assert!(mmu_maint_busy(0x400, CacheFlushAllMode::Flush));
    assert!(!mmu_maint_busy(0x18, CacheFlushAllMode::Flush));
}

#[test]
fn priorities_use_the_top_four_bits() {
    assert_eq!(InterruptPriority::Prio00.value(), 0);
    assert_eq!(InterruptPriority::Prio01.value(), 16);
    assert_eq!(InterruptPriority::Prio15.value(), 240);
}

#[test]
fn wake_up_events() {
    assert_eq!(wake_event_for(16), WakeEvent::Evt0(0x1));
    assert_eq!(wake_event_for(20), WakeEvent::Evt0(0x10));
    assert_eq!(wake_event_for(47), WakeEvent::Evt0(0x8000_0000));
    assert_eq!(wake_event_for(48), WakeEvent::Evt1(0x1));
    assert_eq!(wake_event_for(79), WakeEvent::Evt1(0x8000_0000));
    assert_eq!(wake_on_interrupt(Interrupt::TIM2), WakeEvent::Evt0(1 << 12));
    assert_eq!(try_wake_on_interrupt(Interrupt::TIM2), Some(WakeEvent::Evt0(1 << 12)));
    assert_eq!(try_wake_on_interrupt(Interrupt::TIM8_BRK), Some(WakeEvent::Evt0(1 << 27)));
    assert_eq!(try_wake_on_interrupt(Interrupt::SPI3), Some(WakeEvent::Evt1(1 << 3)));
    assert_eq!(try_wake_on_interrupt(Interrupt::TAMP), None);
    assert_eq!(try_wake_on_interrupt(Interrupt::IPCC_RX1), None);
}

#[test]
fn crossbar_halves() {
    let w = set_higher(0x1234_5678, 250);
    assert_eq!(w, 0x00FA_5678);
    assert_eq!(get_higher(w), 250);
    assert_eq!(get_lower(w), 0x5678);
    let v = set_lower(0x1234_5678, 7);
    assert_eq!(v, 0x1234_0007);
    assert_eq!(get_lower(v), 7);
    assert_eq!(get_higher(v), 0x1234);
}

#[test]
fn setup_plan() {
    let t = table();
    let mut available = true;
    let mut chip = Stm32mp1::claim(&t, &mut available).unwrap();
    let plan = chip.setup();
    assert_eq!((plan.flush.mstart, plan.flush.mend, plan.flush.maint), (0, 0xFFFF_FFFF, 0x400));
    assert_eq!(plan.enabled_config, 0x1E);
    assert!(plan.enable_interrupts);
    let (pages, config, crossbar) = (plan.pages, plan.unicache, plan.crossbar);
    assert_eq!(plan.crossbar_registers, 0x6A00_27E0);
    assert_eq!(ctrl_core_ipu1(&t), Some(plan.crossbar_registers));
    let _ = CTRL_CORE_IPU1_PA;
    assert_eq!(pages, unicache_mmu_setup());
    assert_eq!(pages.len(), 9);
    assert_eq!(pages[0], MmuPage { size: MmuPageSize::Large, idx: 0, addr: 0, xlte: 0xFFFF_FFFF, policy: 0x0003_0003 });
    assert_eq!(pages[1].policy, 0x0002_0003);
    assert_eq!(pages[4], MmuPage { size: MmuPageSize::Small, idx: 1, addr: 0x4000_0000, xlte: 0x5508_0000, policy: 0x3 });
    assert_eq!(pages[8], MmuPage { size: MmuPageSize::Small, idx: 5, addr: 0x2000_C000, xlte: 0x5502_C000, policy: 0x000F_0003 });
    assert_eq!((config.config, config.ocp), (0x1C, 0));
    assert_eq!(crossbar.len(), 29);
    assert_eq!(crossbar[10], (0, 250));
    assert!(crossbar.iter().enumerate().all(|(i, &p)| i == 10 || p == (0, 0)));
}
