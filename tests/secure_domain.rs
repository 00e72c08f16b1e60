use libmodem_bringup::{
    apply_spu_write, configure_nonsecure_access, nonsecure_access_writes, PeripheralPerm,
    RamRegionPerm, Spu, SpuWrite, PERIPHERAL_IDS, PERIPH_CLOCK_POWER, PERIPH_IPC,
    PERIPH_REGULATORS, RAM_REGIONS,
};

fn secure_spu() -> Spu {
    let locked = RamRegionPerm { read: false, write: false, execute: false, secattr: true, lock: true };
    Spu {
        ram_regions: vec![locked; RAM_REGIONS],
        peripherals: vec![PeripheralPerm { secattr: true, lock: true }; PERIPHERAL_IDS],
    }
}

fn is_modem_peripheral(id: usize) -> bool {
    id == 4 || id == 5 || id == 42
}

#[test]
fn hand_off_opens_ram_and_modem_peripherals() {
    let mut spu = secure_spu();
    configure_nonsecure_access(&mut spu);
    for r in &spu.ram_regions {
        assert_eq!(*r, RamRegionPerm { read: true, write: true, execute: true, secattr: false, lock: false });
    }
    for (id, p) in spu.peripherals.iter().enumerate() {
        if is_modem_peripheral(id) {
            assert_eq!(*p, PeripheralPerm { secattr: false, lock: false });
        } else {
            assert_eq!(*p, PeripheralPerm { secattr: true, lock: true });
        }
    }
}

#[test]
fn hand_off_twice_is_the_same() {
    let mut once = secure_spu();
    configure_nonsecure_access(&mut once);
    let mut twice = secure_spu();
    configure_nonsecure_access(&mut twice);
    configure_nonsecure_access(&mut twice);
    assert_eq!(once.ram_regions, twice.ram_regions);
    assert_eq!(once.peripherals, twice.peripherals);
}

#[test]
fn write_list_order() {
    let w = nonsecure_access_writes();
    assert_eq!(w.len(), 35);
    assert_eq!(
        w[0],
        SpuWrite::RamRegion {
            index: 0,
            perm: RamRegionPerm { read: true, write: true, execute: true, secattr: false, lock: false }
        }
    );
    assert!(matches!(w[31], SpuWrite::RamRegion { index: 31, .. }));
    let open = PeripheralPerm { secattr: false, lock: false };
    assert_eq!(w[32], SpuWrite::Peripheral { id: PERIPH_REGULATORS, perm: open });
    assert_eq!(w[33], SpuWrite::Peripheral { id: PERIPH_CLOCK_POWER, perm: open });
    assert_eq!(w[34], SpuWrite::Peripheral { id: PERIPH_IPC, perm: open });
    assert_eq!((PERIPH_REGULATORS, PERIPH_CLOCK_POWER, PERIPH_IPC), (4, 5, 42));
}

#[test]
fn single_write_touches_one_slot() {
    let mut spu = secure_spu();
    apply_spu_write(&mut spu, SpuWrite::Peripheral { id: 66, perm: PeripheralPerm { secattr: false, lock: false } });
    assert_eq!(spu.peripherals[66], PeripheralPerm { secattr: false, lock: false });
    assert_eq!(spu.peripherals[65], PeripheralPerm { secattr: true, lock: true });
    assert!(spu.ram_regions.iter().all(|r| r.secattr));
}
