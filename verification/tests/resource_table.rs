use stm32mp1_openamp::resource_table::{
    AddressMapper, Carveout, Devmem, Header, Region, ResourceTable, ResourceType, Trace, Vdev,
    VdevVring, NUM_ENTRIES, SZ_1M,
};
use stm32mp1_openamp::string::String32;

fn name(s: &str) -> String32 {
    String32::new(s)
}

fn carveout(pa: usize, da: usize, len: usize) -> Carveout {
    Carveout { rtype: ResourceType::CARVEOUT, da, pa, len, flags: 0, reserved: 0, name: name("c") }
}

fn devmem(pa: usize, da: usize, len: usize) -> Devmem {
    Devmem { rtype: ResourceType::DEVMEM, da, pa, len, flags: 0, reserved: 0, name: name("d") }
}

fn table() -> ResourceTable {
    ResourceTable {
        base: Header { ver: 1, num: NUM_ENTRIES, reserved: [0, 0] },
        offsets: [0; 5],
        rpmsg_vdev: Vdev {
            rtype: ResourceType::VDEV,
            id: 7,
            notifyid: 0,
            dfeatures: 1,
            gfeatures: 0,
            config_len: 0,
            status: 0,
            num_of_vrings: 2,
            reserved: [0, 0],
        },
        rpmsg_vring0: VdevVring { da: 0, align: 16, num: 16, notifyid: 0, reserved: 0 },
        rpmsg_vring1: VdevVring { da: 0, align: 16, num: 16, notifyid: 1, reserved: 0 },
        text_cout: carveout(0x8000_0000, 0x0000_0000, SZ_1M),
        data_cout: carveout(0x8010_0000, 0x8000_0000, SZ_1M),
        ipcdata_cout: carveout(0x9000_0000, 0xA000_0000, SZ_1M),
        trace: Trace { rtype: ResourceType::TRACE, da: 0, len: 0, reserved: 0, name: name("t") },
        devmem0: devmem(0x4880_0000, 0x6880_0000, SZ_1M),
        devmem1: devmem(0x4A00_0000, 0x6A00_0000, SZ_1M),
        devmem2: devmem(0x4880_0000, 0x7000_0000, SZ_1M),
        devmem3: devmem(0, 0, 0),
        devmem4: devmem(0, 0, 0),
        devmem5: devmem(0, 0, 0),
        devmem6: devmem(0, 0, 0),
        devmem7: devmem(0, 0, 0),
        devmem8: devmem(0, 0, 0),
        devmem9: devmem(0, 0, 0),
        devmem10: devmem(0, 0, 0),
        devmem11: devmem(0, 0, 0),
        devmem12: devmem(0, 0, 0),
        devmem13: devmem(0, 0, 0),
        devmem14: devmem(0, 0, 0),
        devmem15: devmem(0, 0, 0),
    }
}

#[test]
fn resource_type_values() {
    assert_eq!(ResourceType::CARVEOUT.value(), 0);
    assert_eq!(ResourceType::DEVMEM.value(), 1);
    assert_eq!(ResourceType::TRACE.value(), 2);
    assert_eq!(ResourceType::VDEV.value(), 3);
}

#[test]
fn region_translates_inside_its_window_only() {
    let c = carveout(0x1000, 0x9000, 0x100);
    assert_eq!(c.pa_to_da(0x1000), Some(0x9000));
    assert_eq!(c.pa_to_da(0x10ff), Some(0x90ff));
    assert_eq!(c.pa_to_da(0x1100), None);
    assert_eq!(c.pa_to_da(0x0fff), None);
    assert_eq!(c.da_to_pa(0x9010), Some(0x1010));
    assert_eq!(c.da_to_pa(0x9100), None);
    let d = devmem(0x1000, 0x9000, 0x100);
    assert_eq!((d.get_pa(), d.get_da(), d.get_len()), (0x1000, 0x9000, 0x100));
    assert_eq!(d.pa_to_da(0x1020), Some(0x9020));
}

#[test]
fn region_round_trip() {
    let d = devmem(0x4A00_0000, 0x6A00_0000, SZ_1M);
    let da = d.pa_to_da(0x4A0F_4000).unwrap();
    assert_eq!(d.da_to_pa(da), Some(0x4A0F_4000));
}

#[test]
fn table_uses_the_first_window_that_holds_the_address() {
    let t = table();
    assert_eq!(t.pa_to_da(0x8000_0010), Some(0x0000_0010));
    assert_eq!(t.pa_to_da(0x8010_0010), Some(0x8000_0010));
    // devmem0 and devmem2 both hold 0x4880_0000: devmem0 comes first.
    assert_eq!(t.pa_to_da(0x4884_0000), Some(0x6884_0000));
    // ipcdata_cout is not searched.
    assert_eq!(t.pa_to_da(0x9000_0000), None);
    assert_eq!(t.da_to_pa(0x6A0F_4000), Some(0x4A0F_4000));
    assert_eq!(t.da_to_pa(0x7000_0004), Some(0x4880_0004));
    assert_eq!(t.da_to_pa(0xA000_0000), None);
}
