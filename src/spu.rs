//! Hand-off of RAM and peripherals from the secure to the non-secure domain.
//!
//! The modem core runs non-secure and can only reach memory and peripherals
//! that the SPU marks non-secure. All RAM (32 regions of 8 KiB) is opened,
//! together with the peripherals the modem needs for power, clock and IPC.

use vstd::prelude::*;

verus! {

/// Number of SPU RAM regions: 256 KiB of RAM in 8 KiB pages.
pub const RAM_REGIONS: usize = 32;

/// Number of SPU peripheral permission slots.
pub const PERIPHERAL_IDS: usize = 67;

/// Peripheral ID of the REGULATORS block.
pub const PERIPH_REGULATORS: usize = 4;

/// Peripheral ID of the CLOCK and POWER block.
pub const PERIPH_CLOCK_POWER: usize = 5;

/// Peripheral ID of the IPC block.
pub const PERIPH_IPC: usize = 42;

/// Permission word of one RAM region.
#[derive(Clone, Copy, Debug, PartialEq, Eq, Structural)]
pub struct RamRegionPerm {
    pub read: bool,
    pub write: bool,
    pub execute: bool,
    pub secattr: bool,
    pub lock: bool,
}

/// Permission word of one peripheral.
#[derive(Clone, Copy, Debug, PartialEq, Eq, Structural)]
pub struct PeripheralPerm {
    pub secattr: bool,
    pub lock: bool,
}

/// One write to the SPU.
#[derive(Clone, Copy, Debug, PartialEq, Eq, Structural)]
pub enum SpuWrite {
    RamRegion { index: usize, perm: RamRegionPerm },
    Peripheral { id: usize, perm: PeripheralPerm },
}

/// A model of the SPU permission tables.
pub struct Spu {
    pub ram_regions: Vec<RamRegionPerm>,
    pub peripherals: Vec<PeripheralPerm>,
}

impl Spu {
    /// Both tables have the size of the hardware's.
    pub open spec fn wf(&self) -> bool {
        self.ram_regions@.len() == RAM_REGIONS && self.peripherals@.len() == PERIPHERAL_IDS
    }
}

/// Full access from the non-secure domain, unlocked.
pub open spec fn open_region() -> RamRegionPerm {
    RamRegionPerm { read: true, write: true, execute: true, secattr: false, lock: false }
}

/// A peripheral owned by the non-secure domain, unlocked.
pub open spec fn open_peripheral() -> PeripheralPerm {
    PeripheralPerm { secattr: false, lock: false }
}

/// The peripherals that the modem needs to reach.
pub open spec fn is_modem_peripheral(id: int) -> bool {
    id == PERIPH_REGULATORS || id == PERIPH_CLOCK_POWER || id == PERIPH_IPC
}

/// The RAM table after the hand-off: every region open.
pub open spec fn handed_off_ram(ram: Seq<RamRegionPerm>) -> Seq<RamRegionPerm> {
    Seq::new(ram.len(), |i: int| open_region())
}

/// The peripheral table after the hand-off: the modem's peripherals open,
/// every other one as it was.
pub open spec fn handed_off_peripherals(p: Seq<PeripheralPerm>) -> Seq<PeripheralPerm> {
    Seq::new(p.len(), |i: int| if is_modem_peripheral(i) { open_peripheral() } else { p[i] })
}

/// The writes that hand RAM and the modem's peripherals to the non-secure
/// domain, in the order in which they are issued.
pub fn nonsecure_access_writes() -> (r: Vec<SpuWrite>)
    ensures
        r@.len() == RAM_REGIONS + 3,
        forall|i: int|
            0 <= i < RAM_REGIONS ==> #[trigger] r@[i] == (SpuWrite::RamRegion {
                index: i as usize,
                perm: open_region(),
            }),
        r@[RAM_REGIONS as int] == (SpuWrite::Peripheral { id: PERIPH_REGULATORS, perm: open_peripheral() }),
        r@[RAM_REGIONS + 1] == (SpuWrite::Peripheral { id: PERIPH_CLOCK_POWER, perm: open_peripheral() }),
        r@[RAM_REGIONS + 2] == (SpuWrite::Peripheral { id: PERIPH_IPC, perm: open_peripheral() }),
{
    let open = RamRegionPerm { read: true, write: true, execute: true, secattr: false, lock: false };
    let periph = PeripheralPerm { secattr: false, lock: false };
    let mut writes: Vec<SpuWrite> = Vec::new();
    let mut i: usize = 0;
    while i < RAM_REGIONS
        invariant
            i <= RAM_REGIONS,
            open == open_region(),
            writes@.len() == i,
            forall|j: int|
                0 <= j < i ==> #[trigger] writes@[j] == (SpuWrite::RamRegion {
                    index: j as usize,
                    perm: open_region(),
                }),
        decreases RAM_REGIONS - i,
    {
        writes.push(SpuWrite::RamRegion { index: i, perm: open });
        i = i + 1;
    }
    writes.push(SpuWrite::Peripheral { id: PERIPH_REGULATORS, perm: periph });
    writes.push(SpuWrite::Peripheral { id: PERIPH_CLOCK_POWER, perm: periph });
    writes.push(SpuWrite::Peripheral { id: PERIPH_IPC, perm: periph });
    writes
}

/// Applies one SPU write to the model.
pub fn apply_spu_write(spu: &mut Spu, w: SpuWrite)
    requires
        old(spu).wf(),
        match w {
            SpuWrite::RamRegion { index, .. } => index < RAM_REGIONS,
            SpuWrite::Peripheral { id, .. } => id < PERIPHERAL_IDS,
        },
    ensures
        final(spu).wf(),
        match w {
            SpuWrite::RamRegion { index, perm } => final(spu).ram_regions@ == old(
                spu,
            ).ram_regions@.update(index as int, perm) && final(spu).peripherals@ == old(
                spu,
            ).peripherals@,
            SpuWrite::Peripheral { id, perm } => final(spu).peripherals@ == old(
                spu,
            ).peripherals@.update(id as int, perm) && final(spu).ram_regions@ == old(
                spu,
            ).ram_regions@,
        },
{
    match w {
        SpuWrite::RamRegion { index, perm } => {
            spu.ram_regions[index] = perm;
        },
        SpuWrite::Peripheral { id, perm } => {
            spu.peripherals[id] = perm;
        },
    }
}

/// Issues every write of the hand-off to the model, in order.
pub fn configure_nonsecure_access(spu: &mut Spu)
    requires
        old(spu).wf(),
    ensures
        final(spu).wf(),
        final(spu).ram_regions@ == handed_off_ram(old(spu).ram_regions@),
        final(spu).peripherals@ == handed_off_peripherals(old(spu).peripherals@),
{
    let writes = nonsecure_access_writes();
    let ghost ram0 = spu.ram_regions@;
    let ghost per0 = spu.peripherals@;
    let mut k: usize = 0;
    while k < writes.len()
        invariant
            spu.wf(),
            writes@.len() == RAM_REGIONS + 3,
            ram0.len() == RAM_REGIONS,
            per0.len() == PERIPHERAL_IDS,
            forall|i: int|
                0 <= i < RAM_REGIONS ==> #[trigger] writes@[i] == (SpuWrite::RamRegion {
                    index: i as usize,
                    perm: open_region(),
                }),
            writes@[RAM_REGIONS as int] == (SpuWrite::Peripheral { id: PERIPH_REGULATORS, perm: open_peripheral() }),
            writes@[RAM_REGIONS + 1] == (SpuWrite::Peripheral { id: PERIPH_CLOCK_POWER, perm: open_peripheral() }),
            writes@[RAM_REGIONS + 2] == (SpuWrite::Peripheral { id: PERIPH_IPC, perm: open_peripheral() }),
            k <= writes@.len(),
            forall|j: int|
                0 <= j < RAM_REGIONS ==> #[trigger] spu.ram_regions@[j] == if j < k {
                    open_region()
                } else {
                    ram0[j]
                },
            forall|j: int|
                0 <= j < PERIPHERAL_IDS ==> #[trigger] spu.peripherals@[j] == if (j
                    == PERIPH_REGULATORS && k > RAM_REGIONS) || (j == PERIPH_CLOCK_POWER && k
                    > RAM_REGIONS + 1) || (j == PERIPH_IPC && k > RAM_REGIONS + 2) {
                    open_peripheral()
                } else {
                    per0[j]
                },
        decreases writes@.len() - k,
    {
        apply_spu_write(spu, writes[k]);
        k = k + 1;
    }
    assert(spu.ram_regions@ =~= handed_off_ram(ram0));
    assert(spu.peripherals@ =~= handed_off_peripherals(per0));
}

/// After the hand-off every RAM region and every peripheral the modem needs
/// is non-secure and unlocked.
pub proof fn lemma_handed_off_is_nonsecure(ram: Seq<RamRegionPerm>, p: Seq<PeripheralPerm>)
    requires
        ram.len() == RAM_REGIONS,
        p.len() == PERIPHERAL_IDS,
    ensures
        forall|i: int|
            0 <= i < RAM_REGIONS ==> !(#[trigger] handed_off_ram(ram)[i]).secattr
                && !handed_off_ram(ram)[i].lock,
        forall|i: int|
            0 <= i < PERIPHERAL_IDS && is_modem_peripheral(i) ==> !(
            #[trigger] handed_off_peripherals(p)[i]).secattr && !handed_off_peripherals(p)[i].lock,
{
}

/// Handing off twice leaves the same tables as handing off once.
pub proof fn lemma_hand_off_idempotent(ram: Seq<RamRegionPerm>, p: Seq<PeripheralPerm>)
    ensures
        handed_off_ram(handed_off_ram(ram)) == handed_off_ram(ram),
        handed_off_peripherals(handed_off_peripherals(p)) == handed_off_peripherals(p),
{
    assert(handed_off_ram(handed_off_ram(ram)) =~= handed_off_ram(ram));
    assert(handed_off_peripherals(handed_off_peripherals(p)) =~= handed_off_peripherals(p));
}

} // verus!
