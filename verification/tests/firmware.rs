use stm32mp1_openamp::firmware::{
    buffers_primed, ipcc_rx_channels, is_framing_message, register_tty_channel, ResourceTable,
    NUM_ENTRIES, SZ_RT_HEADER,
};
use stm32mp1_openamp::gpio::{blink_step, bsrr_reset, bsrr_set, set_pin_field_01, set_push_pull};
use stm32mp1_openamp::ipcc::IpccChannel;
use stm32mp1_openamp::resource_table::ResourceType;
use stm32mp1_openamp::rpmsg::{decode_message, Header};
use stm32mp1_openamp::rpmsg_virtio::ShmPool;
use stm32mp1_openamp::state::{Bus, Device};
use stm32mp1_openamp::vring::{self, VIRTIO_ID_RPMSG};
use stm32mp1_openamp::rpmsg;

#[test]
fn firmware_resource_table() {
    let t = ResourceTable::new();
    assert_eq!((t.base.ver, t.base.num), (1, NUM_ENTRIES));
    assert_eq!(t.offsets, [24, 92]);
    assert_eq!(SZ_RT_HEADER, 24);
    assert!(matches!(t.rpmsg_vdev.rtype, ResourceType::VDEV));
    assert_eq!(t.rpmsg_vdev.id, VIRTIO_ID_RPMSG);
    assert_eq!(t.rpmsg_vdev.num_of_vrings, 2);
    assert_eq!((t.rpmsg_vring0.da, t.rpmsg_vring0.align, t.rpmsg_vring0.num, t.rpmsg_vring0.notifyid), (0xffffffff, 16, 16, 0));
    assert_eq!(t.rpmsg_vring1.notifyid, 1);
    assert_eq!((t.trace.da, t.trace.len), (0x1002C000, 0x4000));
    assert_eq!(&t.trace.name.buffer, b"trace_cm4\0\0\0\0\0\0\0\0\0\0\0\0\0\0\0\0\0\0\0\0\0\0\0");
}

#[test]
fn vrings_are_primed_at_status_seven() {
    assert!(buffers_primed(7));
    assert!(!buffers_primed(3));
    assert!(!buffers_primed(0x0f));
}

#[test]
fn tty_channel_registration() {
    let mut sends: Vec<(u32, u32, Vec<u8>)> = Vec::new();
    let r = register_tty_channel(|source: u32, destination: u32, frame: Vec<u8>| {
        sends.push((source, destination, frame));
        Ok(())
    });
    assert!(r.result.is_ok());
    assert_eq!(sends.len(), 1);
    let (source, destination, frame) = &sends[0];
    assert_eq!((*source, *destination), (0, 0x35));
    let (h, payload) = decode_message(frame);
    assert_eq!((h.source, h.destination, h.length), (0, 0x35, 40));
    assert_eq!(&payload[..17], b"rpmsg-tty-channel");
    assert_eq!(&payload[32..40], &[0, 0, 0, 0, 0, 0, 0, 0]);
    assert_eq!(r.c2cr, 0x0001_0000);
    assert_eq!(r.c2mr, 0xffff_ffff);
    assert_eq!(r.c2scr, 0x0001_0000);
}

#[test]
fn tty_channel_registration_passes_on_a_failed_send() {
    let r = register_tty_channel(|_: u32, _: u32, _: Vec<u8>| Err(vring::Error::NoData));
    assert!(matches!(r.result, Err(rpmsg::Error::Empty)));
    let r = register_tty_channel(|_: u32, _: u32, _: Vec<u8>| Err(vring::Error::NoBuffer));
    assert!(matches!(r.result, Err(rpmsg::Error::Vring(vring::Error::NoBuffer))));
    assert_eq!(r.c2scr, 0x0001_0000);
}

#[test]
fn framing_messages_are_recognised() {
    let h = Header::new(0x400, 0, 2);
    assert!(is_framing_message(&h, b"\r\n"));
    assert!(!is_framing_message(&h, b"hi"));
    let h3 = Header::new(0x400, 0, 3);
    assert!(!is_framing_message(&h3, b"\r\n"));
}

#[test]
fn receive_interrupt_polls_both_channels() {
    assert_eq!(ipcc_rx_channels(), [IpccChannel::Channel1, IpccChannel::Channel2]);
}

#[test]
fn gpio_values() {
    assert_eq!(set_pin_field_01(0xffff_ffff, 7), 0xffff_7fff);
    assert_eq!(set_pin_field_01(0, 8), 0x0001_0000);
    assert_eq!(set_push_pull(0xff, 7), 0x7f);
    assert_eq!(set_push_pull(0xffff_ffff, 31), 0x7fff_ffff);
    assert_eq!(bsrr_set(31), 0x8000_0000);
    assert_eq!(bsrr_set(7), 0x80);
    assert_eq!(bsrr_reset(8), 0x0100_0000);
    assert_eq!(blink_step(1, 8), 0x100);
    assert_eq!(blink_step(2, 8), 0x0100_0000);
}

#[test]
fn shared_memory_pool_starts_fully_available() {
    let p = ShmPool::new(0x1000_0000, 0x8000);
    assert_eq!((p.base, p.available, p.size), (0x1000_0000, 0x8000, 0x8000));
}

static DEVICES: [Device; 1] = [Device { name: "dev0", num_regions: 1, regions: 0, irq_num: 1, irq_info: 0 }];

#[test]
fn bus_holds_its_devices() {
    let b = Bus::new("generic", &DEVICES);
    assert_eq!(b.name, "generic");
    assert_eq!(b.devices.len(), 1);
    assert_eq!(b.devices[0].name, "dev0");
    b.close();
}
