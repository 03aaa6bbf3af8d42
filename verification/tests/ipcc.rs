use stm32mp1_openamp::ipcc::{
    init_ipcc, ipcc_get_channel_status, ipcc_mask_channel, ipcc_notify_cpu, ipcc_rx_channel,
    ipcc_status_register, ipcc_unmask_channel, IpccAction, IpccChannel, IpccDirection,
    IpccStatus, IpccStatusRegister,
};

#[test]
fn init_values() {
    let i = init_ipcc();
    assert_eq!(i.c2cr, 0x0001_0001);
    assert_eq!(i.c2scr, 0x3);
    assert_eq!(i.c2mr, 0xfffc_fffc);
}

#[test]
fn mask_and_unmask_values() {
    assert_eq!(ipcc_mask_channel(IpccChannel::Channel1, IpccDirection::Tx), 0xffff_ffff);
    assert_eq!(ipcc_mask_channel(IpccChannel::Channel2, IpccDirection::Rx), 0xffff_ffff);
    assert_eq!(ipcc_unmask_channel(IpccChannel::Channel1, IpccDirection::Tx), 0xfffe_ffff);
    assert_eq!(ipcc_unmask_channel(IpccChannel::Channel2, IpccDirection::Tx), 0xfffd_ffff);
    assert_eq!(ipcc_unmask_channel(IpccChannel::Channel1, IpccDirection::Rx), 0xffff_fffe);
    assert_eq!(ipcc_unmask_channel(IpccChannel::Channel2, IpccDirection::Rx), 0xffff_fffd);
}

#[test]
fn status_is_read_from_the_flag_of_the_channel() {
    assert_eq!(ipcc_status_register(IpccDirection::Tx), IpccStatusRegister::C2toC1);
    assert_eq!(ipcc_status_register(IpccDirection::Rx), IpccStatusRegister::C1toC2);
    assert_eq!(ipcc_get_channel_status(IpccChannel::Channel1, IpccDirection::Rx, 0b01), IpccStatus::Occupied);
    assert_eq!(ipcc_get_channel_status(IpccChannel::Channel2, IpccDirection::Rx, 0b01), IpccStatus::Free);
    assert_eq!(ipcc_get_channel_status(IpccChannel::Channel2, IpccDirection::Tx, 0b10), IpccStatus::Occupied);
    assert_eq!(ipcc_get_channel_status(IpccChannel::Channel1, IpccDirection::Tx, 0x1_0000), IpccStatus::Free);
}

#[test]
fn notify_sets_the_set_or_clear_bit() {
    assert_eq!(ipcc_notify_cpu(IpccChannel::Channel1, IpccDirection::Tx, 0), 0x0001_0000);
    assert_eq!(ipcc_notify_cpu(IpccChannel::Channel2, IpccDirection::Tx, 0), 0x0002_0000);
    assert_eq!(ipcc_notify_cpu(IpccChannel::Channel1, IpccDirection::Rx, 0), 0x1);
    assert_eq!(ipcc_notify_cpu(IpccChannel::Channel2, IpccDirection::Rx, 0x4), 0x6);
}

#[test]
fn receive_interrupt_on_an_occupied_channel() {
    let actions = ipcc_rx_channel(IpccChannel::Channel2, IpccStatus::Occupied);
    assert_eq!(
        actions,
        vec![
            IpccAction::Mask(IpccChannel::Channel2, IpccDirection::Rx),
            IpccAction::Record,
            IpccAction::Notify(IpccChannel::Channel2, IpccDirection::Rx),
            IpccAction::Unmask(IpccChannel::Channel2, IpccDirection::Rx),
        ]
    );
}

#[test]
fn receive_interrupt_on_a_free_channel_does_nothing() {
    assert!(ipcc_rx_channel(IpccChannel::Channel1, IpccStatus::Free).is_empty());
}
