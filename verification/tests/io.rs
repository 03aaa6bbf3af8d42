use stm32mp1_openamp::io::{IoError, IoRegion, MemoryOrder};

#[test]
fn test_new() -> Result<(), IoError> {
    let io_region = IoRegion::new(
        0x1000000,
        vec![0x4000000, 0x6000000],
        0x1000,
        0x100,
        0,
    )?;
    assert_eq!(io_region.virt, 0x1000000);
    Ok(())
}

fn region(page_shift: usize) -> IoRegion {
    IoRegion::new(0x1000000, vec![0x4000000, 0x6000000], 0x1000, page_shift, 7).unwrap()
}

#[test]
fn new_keeps_its_arguments() {
    let r = region(12);
    assert_eq!(r.virt, 0x1000000);
    assert_eq!(r.physmap, vec![0x4000000, 0x6000000]);
    assert_eq!(r.size, 0x1000);
    assert_eq!(r.page_shift, 12);
    assert_eq!(r.page_mask, 0xfff);
    assert_eq!(r.mem_flags, 7);
}

#[test]
fn new_with_a_whole_word_page_shift_masks_every_bit() {
    assert_eq!(region(0x100).page_mask, usize::MAX);
    assert_eq!(region(usize::BITS as usize).page_mask, usize::MAX);
    assert_eq!(region(0).page_mask, 0);
}

#[test]
fn new_refuses_a_null_virtual_address() {
    let r = IoRegion::new(0, vec![0x4000000], 0x1000, 12, 0);
    assert!(matches!(r, Err(IoError::InvalidVirt)));
}

#[test]
fn new_refuses_a_null_page() {
    let r = IoRegion::new(0x1000000, vec![0x4000000, 0], 0x1000, 12, 0);
    assert!(matches!(r, Err(IoError::InvalidPhys)));
}

#[test]
fn virtual_address_is_refused_below_the_size() {
    let r = region(12);
    assert!(matches!(r.get_virt_address(0x10), Err(IoError::BadOffset)));
    assert_eq!(r.get_virt_address(0x2000).unwrap(), 0x1002000);
}

#[test]
fn offset_from_address() {
    let r = region(12);
    assert_eq!(r.get_offset_from_address(0x1000010).unwrap(), 0x10);
    assert!(matches!(r.get_offset_from_address(0x0ffffff), Err(IoError::BadAddress)));
    assert!(matches!(r.get_offset_from_address(0x1001001), Err(IoError::BadAddress)));
    assert!(matches!(r.get_offset_from_address(0x1001000), Err(IoError::BadOffset)));
}

#[test]
fn physical_address_goes_through_the_page_table() {
    let r = region(12);
    assert_eq!(r.get_physical_address(0x0234).unwrap(), 0x4000234);
    assert_eq!(r.get_physical_address(0x1234).unwrap(), 0x6000234);
}

#[test]
fn page_shift_is_set_up_to_the_word_size() {
    let mut r = region(12);
    assert_eq!(r.get_page_shift(), 12);
    assert!(r.set_page_shift(16).is_ok());
    assert_eq!(r.get_page_shift(), 16);
    assert_eq!(r.page_mask, 0xfff);
    assert!(matches!(r.set_page_shift(usize::BITS as usize + 1), Err(IoError::InvalidPageShift)));
    assert_eq!(r.get_page_shift(), 16);
}

#[test]
fn read_and_write_address_the_region() {
    let r = region(12);
    assert_eq!(r.read(0x20, MemoryOrder::SeqCst), 0x1000020);
    assert_eq!(r.read_relaxed(0x24), 0x1000024);
    let mut data: u32 = 5;
    r.write(&mut data, 0x20, MemoryOrder::Release);
    r.write_relaxed(&mut data, 0x24);
    assert_eq!(data, 5);
}

#[test]
fn fill_stores_value_at_each_byte() {
    let r = region(12);
    let stores = r.fill(0xaa, 0x10, 4).unwrap();
    assert_eq!(
        stores,
        vec![(0x1000010, 0xaa), (0x1000011, 0xaa), (0x1000012, 0xaa), (0x1000013, 0xaa)]
    );
    assert_eq!(r.fill_sesq_cst(0x55, 0x10, 4).unwrap(), r.fill(0x55, 0x10, 4).unwrap());
    assert!(r.fill(0, 0x10, 0).unwrap().is_empty());
}

#[test]
fn fill_fits_in_the_address_space() {
    let r = region(12);
    assert!(r.fill_fits(0x10, 4));
    assert!(r.fill_fits(0x10, 0));
    let top = IoRegion::new(usize::MAX - 3, vec![1], 0x10, 12, 0).unwrap();
    assert!(top.fill_fits(0, 4));
    assert!(!top.fill_fits(0, 5));
    assert!(!top.fill_fits(4, 0));
}

#[test]
fn fill_refuses_an_offset_beyond_the_size() {
    let r = region(12);
    assert!(matches!(r.fill(0, 0x1001, 1), Err(IoError::BadOffset)));
    assert!(matches!(r.fill_sesq_cst(0, 0x1001, 1), Err(IoError::BadOffset)));
    assert!(r.fill(0, 0x1000, 1).is_ok());
}
