//! Remote processor messaging: the message header, the name-service
//! announcement, and the framing of messages on the vrings.

use vstd::prelude::*;
use vstd::bytes::*;
use vstd::slice::slice_subrange;
use vstd::string::StringSliceAdditionalSpecFns;
use crate::string::{String32, string32_bytes};
use crate::vring;

verus! {

pub const RPMSG_NS_EPT_ADDR: u32 = 0x35;

/// Size in bytes of an encoded `Header`.
pub const HEADER_LEN: usize = 16;

/// Size in bytes of an encoded `NameServiceAnnounce`.
pub const NAME_SERVICE_ANNOUNCE_LEN: usize = 40;

pub const MBOX_READY: u32 = 0xFFFFFF00;
pub const MBOX_PENDING_MSG: u32 = 0xFFFFFF01;
pub const MBOX_CRASH: u32 = 0xFFFFFF02;
pub const MBOX_ECHO_REQUEST: u32 = 0xFFFFFF03;
pub const MBOX_ECHO_REPLY: u32 = 0xFFFFFF04;
pub const MBOX_ABORT_REQUEST: u32 = 0xFFFFFF05;
pub const MBOX_FLUSH_CACHE: u32 = 0xFFFFFF06;
pub const MBOX_BOOTINIT_DONE: u32 = 0xFFFFFF07;
pub const MBOX_HIBERNATION: u32 = 0xFFFFFF10;
pub const MBOX_HIBERNATION_FORCE: u32 = 0xFFFFFF11;
pub const MBOX_HIBERNATION_ACK: u32 = 0xFFFFFF12;
pub const MBOX_HIBERNATION_CANCEL: u32 = 0xFFFFFF13;

/// The two vrings of an rpmsg link: one to send on, one to receive on.
#[derive(Debug)]
pub struct Transport {
    pub send_channel: vring::GuestVring,
    pub receive_channel: vring::GuestVring,
}

/// All RemoteProc messages start with this header.
#[derive(Debug)]
pub struct Header {
    pub source: u32,
    pub destination: u32,
    pub reserved: u32,
    pub length: u16,
    pub flags: u16,
}

/// Whether a name-service announcement creates or destroys a service.
#[derive(Debug, Clone, Copy)]
pub enum NameServiceAnnounceFlags {
    Create,
    Destroy,
}

/// Dynamic name service announcement message.
///
/// This message is sent across to publish a new service, or announce about its
/// removal. When the kernel receives these messages, an appropriate rpmsg
/// channel (i.e device) is created/destroyed.
///
/// Must match both Linux kernel definition, and `NAME_SERVICE_ANNOUNCE_LEN`.
#[derive(Debug)]
pub struct NameServiceAnnounce {
    /// name of remote service that is published
    pub name: String32,
    /// address of remote service that is published
    pub address: u32,
    /// indicates whether service is created or destroyed
    pub flags: NameServiceAnnounceFlags,
}

/// RPMsg device operations; each operation is the address of its handler.
pub struct DeviceOps {
    /// send RPMsg data
    pub send_offchannel_raw: usize,
}

pub struct Device {
    pub ns_ept: Endpoint,
    pub bitmap: [u32; 128],
    /// Address of the name-service bind handler.
    pub ns_bind_cb: usize,
    pub ops: DeviceOps,
}

pub struct Endpoint {
    /// name of the service supported
    pub name: &'static str,
    /// address of the rpmsg device
    pub rdev: usize,
    /// local address of the endpoint
    pub addr: u32,
    /// address of the default remote endpoint binded.
    pub dest_addr: u32,
    /// address of the user rx handler
    pub cb: usize,
    /// address of the service unbind handler, called when the remote endpoint is destroyed.
    pub ns_unbind_cb: usize,
    /// address of the endpoint's private data
    pub priv_data: usize,
}

/// What can go wrong on an rpmsg link.
#[derive(Debug, Clone, Copy)]
pub enum Error {
    Empty,
    Vring(vring::Error),
}

/// The rpmsg error for a vring error: a vring with no data is an empty
/// link, anything else is passed on.
pub open spec fn error_from_vring(e: vring::Error) -> Error {
    match e {
        vring::Error::NoData => Error::Empty,
        _ => Error::Vring(e),
    }
}

impl From<vring::Error> for Error {
    fn from(e: vring::Error) -> (r: Error) {
        match e {
            vring::Error::NoData => Error::Empty,
            _ => Error::Vring(e),
        }
    }
}

impl vstd::std_specs::convert::FromSpecImpl<vring::Error> for Error {
    open spec fn obeys_from_spec() -> bool {
        true
    }

    open spec fn from_spec(e: vring::Error) -> Error {
        error_from_vring(e)
    }
}

impl Transport {
    pub fn new(send_channel: vring::GuestVring, receive_channel: vring::GuestVring) -> (r: Transport)
        ensures
            r.send_channel == send_channel,
            r.receive_channel == receive_channel,
    {
        Transport { send_channel, receive_channel }
    }

    pub fn split(self) -> (r: (vring::GuestVring, vring::GuestVring))
        ensures
            r.0 == self.send_channel,
            r.1 == self.receive_channel,
    {
        (self.send_channel, self.receive_channel)
    }
}

impl NameServiceAnnounceFlags {
    /// The number that the host's driver reads for this flag.
    pub fn value(&self) -> (r: u32)
        ensures
            r == match *self {
                NameServiceAnnounceFlags::Create => 0u32,
                NameServiceAnnounceFlags::Destroy => 1u32,
            },
    {
        match self {
            NameServiceAnnounceFlags::Create => 0,
            NameServiceAnnounceFlags::Destroy => 1,
        }
    }
}

pub open spec fn flags_value(f: NameServiceAnnounceFlags) -> u32 {
    match f {
        NameServiceAnnounceFlags::Create => 0u32,
        NameServiceAnnounceFlags::Destroy => 1u32,
    }
}

impl NameServiceAnnounce {
    pub fn new(name: &str, address: u32, mode: NameServiceAnnounceFlags) -> (r: NameServiceAnnounce)
        ensures
            r.name.buffer@ == string32_bytes(name.spec_bytes()),
            r.address == address,
            r.flags == mode,
    {
        NameServiceAnnounce { name: String32::new(name), address, flags: mode }
    }

    /// The bytes of the announcement as the host reads them: the name, then
    /// the address and the flags as little-endian words.
    pub open spec fn spec_bytes(&self) -> Seq<u8> {
        self.name.buffer@ + spec_u32_to_le_bytes(self.address) + spec_u32_to_le_bytes(
            flags_value(self.flags),
        )
    }

    pub fn to_bytes(&self) -> (r: Vec<u8>)
        ensures
            r@ == self.spec_bytes(),
            r@.len() == NAME_SERVICE_ANNOUNCE_LEN,
    {
        proof {
            lemma_auto_spec_u32_to_from_le_bytes();
        }
        let mut r: Vec<u8> = Vec::new();
        let mut i: usize = 0;
        while i < 32
            invariant
                i <= 32,
                r@ == self.name.buffer@.subrange(0, i as int),
            decreases 32 - i,
        {
            r.push(self.name.buffer[i]);
            i = i + 1;
        }
        let mut address = u32_to_le_bytes(self.address);
        let mut flags = u32_to_le_bytes(self.flags.value());
        r.append(&mut address);
        r.append(&mut flags);
        assert(self.name.buffer@.subrange(0, 32) =~= self.name.buffer@);
        r
    }
}

impl Header {
    pub fn new(source: u32, destination: u32, length: usize) -> (r: Header)
        requires
            length < 65536,
        ensures
            r.source == source,
            r.destination == destination,
            r.reserved == 0,
            r.length == length,
            r.flags == 0,
    {
        Header { source, destination, reserved: 0, length: length as u16, flags: 0 }
    }

    /// The bytes of the header as the host reads them: source, destination
    /// and reserved word, then length and flags, all little-endian.
    pub open spec fn spec_bytes(&self) -> Seq<u8> {
        spec_u32_to_le_bytes(self.source) + spec_u32_to_le_bytes(self.destination)
            + spec_u32_to_le_bytes(self.reserved) + spec_u16_to_le_bytes(self.length)
            + spec_u16_to_le_bytes(self.flags)
    }

    pub fn to_bytes(&self) -> (r: Vec<u8>)
        ensures
            r@ == self.spec_bytes(),
            r@.len() == HEADER_LEN,
    {
        proof {
            lemma_auto_spec_u32_to_from_le_bytes();
            lemma_auto_spec_u16_to_from_le_bytes();
        }
        let mut r = u32_to_le_bytes(self.source);
        let mut destination = u32_to_le_bytes(self.destination);
        let mut reserved = u32_to_le_bytes(self.reserved);
        let mut length = u16_to_le_bytes(self.length);
        let mut flags = u16_to_le_bytes(self.flags);
        r.append(&mut destination);
        r.append(&mut reserved);
        r.append(&mut length);
        r.append(&mut flags);
        r
    }
}

/// The header that `bytes` hold in their first `HEADER_LEN` bytes.
pub open spec fn header_of(bytes: Seq<u8>) -> Header {
    Header {
        source: spec_u32_from_le_bytes(bytes.subrange(0, 4)),
        destination: spec_u32_from_le_bytes(bytes.subrange(4, 8)),
        reserved: spec_u32_from_le_bytes(bytes.subrange(8, 12)),
        length: spec_u16_from_le_bytes(bytes.subrange(12, 14)),
        flags: spec_u16_from_le_bytes(bytes.subrange(14, 16)),
    }
}

impl Header {
    pub fn from_bytes(bytes: &[u8]) -> (r: Header)
        requires
            bytes@.len() >= HEADER_LEN,
        ensures
            r == header_of(bytes@),
    {
        let source = u32_from_le_bytes(slice_subrange(bytes, 0, 4));
        let destination = u32_from_le_bytes(slice_subrange(bytes, 4, 8));
        let reserved = u32_from_le_bytes(slice_subrange(bytes, 8, 12));
        let length = u16_from_le_bytes(slice_subrange(bytes, 12, 14));
        let flags = u16_from_le_bytes(slice_subrange(bytes, 14, 16));
        Header { source, destination, reserved, length, flags }
    }
}

/// The message that carries `payload` from `source` to `destination`: a
/// header whose length is that of the payload, then the payload.
pub open spec fn message_bytes(source: u32, destination: u32, payload: Seq<u8>) -> Seq<u8> {
    (Header { source, destination, reserved: 0, length: payload.len() as u16, flags: 0 }).spec_bytes()
        + payload
}

/// Frames `payload` as a message from `source` to `destination`, as
/// sending it puts it on the vring.
pub fn encode_message(source: u32, destination: u32, payload: &[u8]) -> (r: Vec<u8>)
    requires
        payload@.len() < 65536,
    ensures
        r@ == message_bytes(source, destination, payload@),
{
    let header = Header::new(source, destination, payload.len());
    let mut r = header.to_bytes();
    let mut i: usize = 0;
    while i < payload.len()
        invariant
            i <= payload@.len(),
            r@ == header.spec_bytes() + payload@.subrange(0, i as int),
        decreases payload@.len() - i,
    {
        r.push(payload[i]);
        i = i + 1;
        assert(r@ =~= header.spec_bytes() + payload@.subrange(0, i as int));
    }
    assert(payload@.subrange(0, payload@.len() as int) =~= payload@);
    r
}

/// The buffers whose header announces no more payload than follows it.
pub open spec fn message_well_framed(buffer: Seq<u8>) -> bool {
    &&& buffer.len() >= HEADER_LEN
    &&& header_of(buffer).length <= buffer.len() - HEADER_LEN
}

/// Splits a received buffer into its header and the payload that the
/// header announces.
pub fn decode_message(buffer: &[u8]) -> (r: (Header, Vec<u8>))
    requires
        message_well_framed(buffer@),
    ensures
        r.0 == header_of(buffer@),
        r.1@ == buffer@.subrange(HEADER_LEN as int, HEADER_LEN + header_of(buffer@).length),
{
    let header = Header::from_bytes(buffer);
    let end = HEADER_LEN + header.length as usize;
    let mut payload: Vec<u8> = Vec::new();
    let mut i: usize = HEADER_LEN;
    while i < end
        invariant
            HEADER_LEN <= i <= end,
            end <= buffer@.len(),
            payload@ == buffer@.subrange(HEADER_LEN as int, i as int),
        decreases end - i,
    {
        payload.push(buffer[i]);
        i = i + 1;
        assert(payload@ =~= buffer@.subrange(HEADER_LEN as int, i as int));
    }
    (header, payload)
}

/// Decoding a header's bytes gives back the header.
pub proof fn law_header_bytes_round_trip(h: Header)
    ensures
        header_of(h.spec_bytes()) == h,
{
    lemma_auto_spec_u32_to_from_le_bytes();
    lemma_auto_spec_u16_to_from_le_bytes();
    let b = h.spec_bytes();
    assert(b.subrange(0, 4) =~= spec_u32_to_le_bytes(h.source));
    assert(b.subrange(4, 8) =~= spec_u32_to_le_bytes(h.destination));
    assert(b.subrange(8, 12) =~= spec_u32_to_le_bytes(h.reserved));
    assert(b.subrange(12, 14) =~= spec_u16_to_le_bytes(h.length));
    assert(b.subrange(14, 16) =~= spec_u16_to_le_bytes(h.flags));
}

/// A framed message is well framed, and decoding it gives back its
/// source, destination and payload.
pub proof fn law_message_round_trip(source: u32, destination: u32, payload: Seq<u8>)
    requires
        payload.len() < 65536,
    ensures
        message_well_framed(message_bytes(source, destination, payload)),
        header_of(message_bytes(source, destination, payload)).source == source,
        header_of(message_bytes(source, destination, payload)).destination == destination,
        header_of(message_bytes(source, destination, payload)).length == payload.len(),
        message_bytes(source, destination, payload).subrange(
            HEADER_LEN as int,
            HEADER_LEN + header_of(message_bytes(source, destination, payload)).length,
        ) == payload,
{
    let h = Header { source, destination, reserved: 0, length: payload.len() as u16, flags: 0 };
    lemma_auto_spec_u32_to_from_le_bytes();
    lemma_auto_spec_u16_to_from_le_bytes();
    let m = message_bytes(source, destination, payload);
    assert(h.spec_bytes().len() == 16);
    assert(m.subrange(0, 16) =~= h.spec_bytes());
    law_header_bytes_round_trip(h);
    assert(header_of(m) == header_of(h.spec_bytes())) by {
        assert(m.subrange(0, 4) =~= h.spec_bytes().subrange(0, 4));
        assert(m.subrange(4, 8) =~= h.spec_bytes().subrange(4, 8));
        assert(m.subrange(8, 12) =~= h.spec_bytes().subrange(8, 12));
        assert(m.subrange(12, 14) =~= h.spec_bytes().subrange(12, 14));
        assert(m.subrange(14, 16) =~= h.spec_bytes().subrange(14, 16));
    }
    assert(m.subrange(16, 16 + payload.len() as int) =~= payload);
}

} // verus!
