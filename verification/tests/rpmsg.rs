use stm32mp1_openamp::rpmsg::{
    decode_message, encode_message, Error, Header, NameServiceAnnounce, NameServiceAnnounceFlags,
    Transport, HEADER_LEN, NAME_SERVICE_ANNOUNCE_LEN, RPMSG_NS_EPT_ADDR,
};
use stm32mp1_openamp::string::String32;
use stm32mp1_openamp::vring::{self, GuestVring};

#[test]
fn header_new() {
    let h = Header::new(1, 0x35, 40);
    assert_eq!((h.source, h.destination, h.reserved, h.length, h.flags), (1, 0x35, 0, 40, 0));
}

#[test]
fn header_bytes_are_little_endian() {
    let h = Header::new(0x0403_0201, 0x35, 0x0102);
    assert_eq!(
        h.to_bytes(),
        vec![1, 2, 3, 4, 0x35, 0, 0, 0, 0, 0, 0, 0, 0x02, 0x01, 0, 0]
    );
    let back = Header::from_bytes(&h.to_bytes());
    assert_eq!((back.source, back.destination, back.length), (0x0403_0201, 0x35, 0x0102));
}

#[test]
fn message_round_trip() {
    let payload = b"hello".to_vec();
    let m = encode_message(0x400, 0x35, &payload);
    assert_eq!(m.len(), HEADER_LEN + 5);
    assert_eq!(&m[HEADER_LEN..], b"hello");
    let (h, p) = decode_message(&m);
    assert_eq!((h.source, h.destination, h.length), (0x400, 0x35, 5));
    assert_eq!(p, payload);
}

#[test]
fn decode_takes_only_the_announced_payload() {
    let mut m = encode_message(1, 2, b"ab");
    m.extend_from_slice(b"garbage");
    let (h, p) = decode_message(&m);
    assert_eq!(h.length, 2);
    assert_eq!(p, b"ab".to_vec());
}

#[test]
fn name_service_announce_bytes() {
    let ns = NameServiceAnnounce::new("rpmsg-tty-channel", 0x400, NameServiceAnnounceFlags::Destroy);
    let b = ns.to_bytes();
    assert_eq!(b.len(), NAME_SERVICE_ANNOUNCE_LEN);
    assert_eq!(&b[..17], b"rpmsg-tty-channel");
    assert!(b[17..32].iter().all(|&x| x == 0));
    assert_eq!(&b[32..36], &[0x00, 0x04, 0, 0]);
    assert_eq!(&b[36..40], &[1, 0, 0, 0]);
    assert_eq!(NameServiceAnnounceFlags::Create.value(), 0);
    assert_eq!(RPMSG_NS_EPT_ADDR, 0x35);
}

#[test]
fn string32_truncates_to_thirty_one_bytes() {
    let s = String32::new("0123456789abcdef0123456789abcdefXYZ");
    assert_eq!(&s.buffer[..31], b"0123456789abcdef0123456789abcde");
    assert_eq!(s.buffer[31], 0);
    let t = String32::new("trace_cm4");
    assert_eq!(&t.buffer[..10], b"trace_cm4\0");
}

#[test]
fn vring_errors_become_rpmsg_errors() {
    assert!(matches!(Error::from(vring::Error::NoData), Error::Empty));
    assert!(matches!(Error::from(vring::Error::NoBuffer), Error::Vring(vring::Error::NoBuffer)));
}

#[test]
fn transport_keeps_its_channels() {
    let t = Transport::new(GuestVring::new(0x1000, 16, 16), GuestVring::new(0x2000, 8, 4));
    let (send, receive) = t.split();
    assert_eq!((send.da, send.num, send.align), (0x1000, 16, 16));
    assert_eq!((receive.da, receive.num, receive.align), (0x2000, 8, 4));
}
