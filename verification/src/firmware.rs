//! The remote-core firmware's own decisions: its resource table, when the
//! host has primed the vrings, the registration of the tty channel, which
//! received messages are shown, and the receive interrupt over the IPCC
//! channels.

use vstd::prelude::*;
use vstd::string::StringSliceAdditionalSpecFns;
use vstd::bytes::spec_u32_to_le_bytes;
use crate::resource_table as rt;
use crate::rpmsg;
use crate::vring;
use crate::ipcc;
use crate::string::String32;

verus! {

/// Number of entries of the firmware's resource table.
pub const NUM_ENTRIES: usize = 2;

/// Size of the resource table header as the host reads it: `ver`, `num`
/// and the two reserved words, as 32-bit words.
pub const RT_HEADER_LEN: usize = 16;

/// Offset of the first entry: the header, then one 32-bit offset per
/// entry.
pub const SZ_RT_HEADER: usize = 16 + 2 * 4;

/// Size of the vdev entry with its two vrings: 28 bytes of `Vdev`, then
/// 20 bytes per `VdevVring`.
pub const VDEV_ENTRY_LEN: usize = 28 + 2 * 20;

/// The firmware's resource table: the rpmsg virtio device with its two
/// vrings, and the trace buffer.
#[derive(Debug)]
pub struct ResourceTable {
    pub base: rt::Header,
    pub offsets: [usize; 2],
    pub rpmsg_vdev: rt::Vdev,
    pub rpmsg_vring0: rt::VdevVring,
    pub rpmsg_vring1: rt::VdevVring,
    pub trace: rt::Trace,
}

/// Name of the trace buffer entry.
pub open spec fn trace_name() -> Seq<u8> {
    seq![
        0x74u8, 0x72u8, 0x61u8, 0x63u8, 0x65u8, 0x5fu8, 0x63u8, 0x6du8, 0x34u8, 0u8, 0u8, 0u8, 0u8,
        0u8, 0u8, 0u8, 0u8, 0u8, 0u8, 0u8, 0u8, 0u8, 0u8, 0u8, 0u8, 0u8, 0u8, 0u8, 0u8, 0u8, 0u8, 0u8,
    ]
}

impl ResourceTable {
    /// The table that the firmware publishes: version 1 with two entries,
    /// an rpmsg vdev (feature bit 0, two vrings of 16 buffers aligned on 16
    /// bytes, whose addresses the host fills in), and a trace buffer of
    /// 0x4000 bytes at 0x1002_C000 named "trace_cm4".
    pub fn new() -> (r: ResourceTable)
        ensures
            r.base.ver == 1,
            r.base.num == NUM_ENTRIES,
            r.offsets@ == seq![SZ_RT_HEADER, (SZ_RT_HEADER + VDEV_ENTRY_LEN) as usize],
            r.rpmsg_vdev.rtype == rt::ResourceType::VDEV,
            r.rpmsg_vdev.id == vring::VIRTIO_ID_RPMSG,
            r.rpmsg_vdev.notifyid == 0,
            r.rpmsg_vdev.dfeatures == 1,
            r.rpmsg_vdev.gfeatures == 0,
            r.rpmsg_vdev.config_len == 0,
            r.rpmsg_vdev.status == 0,
            r.rpmsg_vdev.num_of_vrings == 2,
            r.rpmsg_vring0.da == 0xffff_ffff,
            r.rpmsg_vring0.align == 16,
            r.rpmsg_vring0.num == 16,
            r.rpmsg_vring0.notifyid == 0,
            r.rpmsg_vring1.da == 0xffff_ffff,
            r.rpmsg_vring1.align == 16,
            r.rpmsg_vring1.num == 16,
            r.rpmsg_vring1.notifyid == 1,
            r.trace.rtype == rt::ResourceType::TRACE,
            r.trace.da == 0x1002_C000,
            r.trace.len == 0x4000,
            r.trace.name.buffer@ == trace_name(),
    {
        let mut name: [u8; 32] = [0u8; 32];
        name[0] = 0x74; // t
        name[1] = 0x72; // r
        name[2] = 0x61; // a
        name[3] = 0x63; // c
        name[4] = 0x65; // e
        name[5] = 0x5f; // _
        name[6] = 0x63; // c
        name[7] = 0x6d; // m
        name[8] = 0x34; // 4
        let r = ResourceTable {
            base: rt::Header { ver: 1, num: NUM_ENTRIES, reserved: [0, 0] },
            // We don't have an offsetof macro so we have to calculate these by hand
            offsets: [SZ_RT_HEADER, SZ_RT_HEADER + VDEV_ENTRY_LEN],
            rpmsg_vdev: rt::Vdev {
                rtype: rt::ResourceType::VDEV,
                id: vring::VIRTIO_ID_RPMSG,
                notifyid: 0,
                dfeatures: 1,
                gfeatures: 0,
                config_len: 0,
                status: 0,
                num_of_vrings: 2,
                reserved: [0, 0],
            },
            // vring0 is for rproc-to-Linux comms
            rpmsg_vring0: rt::VdevVring { da: 0xffffffff, align: 16, num: 16, notifyid: 0, reserved: 0 },
            // vring1 is for Linux-to-rproc comms
            rpmsg_vring1: rt::VdevVring { da: 0xffffffff, align: 16, num: 16, notifyid: 1, reserved: 0 },
            trace: rt::Trace {
                rtype: rt::ResourceType::TRACE,
                // The tracebuffer structure must be linked at this address:
                // the start of the ".tracebuffer" section.
                da: 0x1002C000,
                len: 0x4000,
                reserved: 0,
                name: String32 { buffer: name },
            },
        };
        assert(r.offsets@ =~= seq![SZ_RT_HEADER, (SZ_RT_HEADER + VDEV_ENTRY_LEN) as usize]);
        assert(r.trace.name.buffer@ =~= trace_name());
        r
    }
}

/// The vdev status at which the host has set up the vrings: acknowledged,
/// driver found, driver ready.
pub const BUFS_PRIMED: u8 = 7;

/// Whether the vdev status says that the buffers are primed, so that the
/// firmware stops waiting for the host.
pub fn buffers_primed(status: u8) -> (r: bool)
    ensures
        r == (status == (vring::VIRTIO_CONFIG_S_ACKNOWLEDGE | vring::VIRTIO_CONFIG_S_DRIVER
            | vring::VIRTIO_CONFIG_S_DRIVER_OK)),
{
    let primed = vring::VIRTIO_CONFIG_S_ACKNOWLEDGE | vring::VIRTIO_CONFIG_S_DRIVER
        | vring::VIRTIO_CONFIG_S_DRIVER_OK;
    status == primed
}

/// Address of the channel that the firmware announces.
pub const TTY_CHANNEL_ADDRESS: u32 = 0x00;

/// The frame that announces the tty channel: the name-service
/// announcement of "rpmsg-tty-channel" at address 0, created, sent from
/// address 0 to the name-service endpoint.
pub open spec fn tty_announcement_frame() -> Seq<u8> {
    rpmsg::message_bytes(
        0x00,
        rpmsg::RPMSG_NS_EPT_ADDR,
        crate::string::string32_bytes("rpmsg-tty-channel".spec_bytes()) + spec_u32_to_le_bytes(
            TTY_CHANNEL_ADDRESS,
        ) + spec_u32_to_le_bytes(0),
    )
}

/// The rpmsg result of a transmission on the vring: a vring error is
/// converted as `rpmsg::Error::from` converts it.
pub open spec fn send_result(sent: Result<(), vring::Error>) -> Result<(), rpmsg::Error> {
    match sent {
        Ok(()) => Ok(()),
        Err(e) => Err(rpmsg::error_from_vring(e)),
    }
}

/// What registering the tty channel leaves to write, and its result: `C2CR`
/// with the transmit-free interrupt enabled, `C2MR` with channel 1's
/// transmit interrupt masked, `C2SCR` setting channel 1 occupied; the
/// caller writes them in that order, then notifies the other processor on
/// channel 1, transmit direction, whatever the result of the send.
pub struct TtyChannelRegistration {
    pub c2cr: u32,
    pub c2mr: u32,
    pub c2scr: u32,
    pub result: Result<(), rpmsg::Error>,
}

/// Register an rpmsg protocol: announces the tty channel to the host by
/// one call of `transmit` with the source, the destination and the frame
/// of the announcement, and returns the result of that send with the
/// register values that follow it.
pub fn register_tty_channel<F>(transmit: F) -> (r: TtyChannelRegistration) where
    F: FnOnce(u32, u32, Vec<u8>) -> Result<(), vring::Error>,

    requires
        forall|frame: Vec<u8>|
            frame@ == tty_announcement_frame() ==> #[trigger] transmit.requires(
                (0x00u32, rpmsg::RPMSG_NS_EPT_ADDR, frame),
            ),
    ensures
        exists|frame: Vec<u8>, sent: Result<(), vring::Error>|
            {
                &&& frame@ == tty_announcement_frame()
                &&& transmit.ensures((0x00u32, rpmsg::RPMSG_NS_EPT_ADDR, frame), sent)
                &&& r.result == send_result(sent)
            },
        r.c2cr == ipcc::IPCC_C2CR_RESET | ipcc::IPCC_C2CR_TXFIE,
        r.c2mr == ipcc::IPCC_C2MR_RESET | ipcc::mask_bit(ipcc::IpccChannel::Channel1, ipcc::IpccDirection::Tx),
        r.c2scr == ipcc::IPCC_C2SCR_RESET | ipcc::notify_bit(ipcc::IpccChannel::Channel1, ipcc::IpccDirection::Tx),
{
    let msg = rpmsg::NameServiceAnnounce::new(
        "rpmsg-tty-channel",
        TTY_CHANNEL_ADDRESS,
        rpmsg::NameServiceAnnounceFlags::Create,
    );
    let payload = msg.to_bytes();
    let frame = rpmsg::encode_message(0x00, rpmsg::RPMSG_NS_EPT_ADDR, payload.as_slice());
    let ghost frame_view = frame@;
    assert(frame_view == tty_announcement_frame());
    let sent = transmit(0x00, rpmsg::RPMSG_NS_EPT_ADDR, frame);
    let result = match sent {
        Ok(()) => Ok(()),
        Err(e) => Err(rpmsg::Error::from(e)),
    };
    let c2cr = ipcc::IPCC_C2CR_RESET | ipcc::IPCC_C2CR_TXFIE;
    let c2mr = ipcc::ipcc_mask_channel(ipcc::IpccChannel::Channel1, ipcc::IpccDirection::Tx);
    let c2scr = ipcc::ipcc_notify_cpu(ipcc::IpccChannel::Channel1, ipcc::IpccDirection::Tx, ipcc::IPCC_C2SCR_RESET);
    TtyChannelRegistration { c2cr, c2mr, c2scr, result }
}

/// Whether a received message is the framing message that the host's tty
/// sends, a bare "\r\n", which is skipped.
pub fn is_framing_message(header: &rpmsg::Header, payload: &[u8]) -> (r: bool)
    ensures
        r == (header.length == 2 && payload@ == seq![0x0du8, 0x0au8]),
{
    if header.length == 2 && payload.len() == 2 {
        let r = payload[0] == 0x0d && payload[1] == 0x0a;
        assert(r ==> payload@ =~= seq![0x0du8, 0x0au8]);
        r
    } else {
        false
    }
}

/// The channels that the receive interrupt polls, in order.
pub fn ipcc_rx_channels() -> (r: [ipcc::IpccChannel; 2])
    ensures
        r@ == seq![ipcc::IpccChannel::Channel1, ipcc::IpccChannel::Channel2],
{
    let r = [ipcc::IpccChannel::Channel1, ipcc::IpccChannel::Channel2];
    assert(r@ =~= seq![ipcc::IpccChannel::Channel1, ipcc::IpccChannel::Channel2]);
    r
}

} // verus!
