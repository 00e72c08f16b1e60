//! The shared-memory layout handed to the modem firmware at initialisation.
//!
//! The firmware keeps the addresses it is given and uses them long after the
//! initialisation call, so the buffers behind `ctrl` and `tx` must be
//! process-wide storage at fixed addresses; the caller owns them. The
//! receive and trace regions are not used in this configuration.

use vstd::prelude::*;

verus! {

/// Size of the control region that the cellular modem firmware expects
/// (`NRF_MODEM_CELLULAR_SHMEM_CTRL_SIZE` in `nrf_modem.h`).
pub const SHMEM_CTRL_SIZE: u32 = 0x4e8;

/// Size of the transmit region.
pub const SHMEM_TX_SIZE: u32 = 1024;

/// Priority at which the firmware is told the IPC interrupt runs.
pub const IPC_IRQ_PRIORITY: u32 = 0;

/// One region of shared memory.
#[derive(Clone, Copy, Debug, PartialEq, Eq, Structural)]
pub struct ShmemRegion {
    pub base: u32,
    pub size: u32,
}

/// Everything the firmware's initialisation call needs apart from the two
/// callbacks, which the caller attaches.
#[derive(Clone, Copy, Debug, PartialEq, Eq, Structural)]
pub struct ModemInitDescriptor {
    pub ctrl: ShmemRegion,
    pub tx: ShmemRegion,
    pub rx: ShmemRegion,
    pub trace: ShmemRegion,
    pub ipc_irq_prio: u32,
}

/// Describes the layout with the control buffer at `ctrl_base` and the
/// transmit buffer at `tx_base`.
pub fn build_init_descriptor(ctrl_base: u32, tx_base: u32) -> (r: ModemInitDescriptor)
    ensures
        r.ctrl == (ShmemRegion { base: ctrl_base, size: SHMEM_CTRL_SIZE }),
        r.tx == (ShmemRegion { base: tx_base, size: SHMEM_TX_SIZE }),
        r.rx == (ShmemRegion { base: 0, size: 0 }),
        r.trace == (ShmemRegion { base: 0, size: 0 }),
        r.ipc_irq_prio == IPC_IRQ_PRIORITY,
{
    ModemInitDescriptor {
        ctrl: ShmemRegion { base: ctrl_base, size: SHMEM_CTRL_SIZE },
        tx: ShmemRegion { base: tx_base, size: SHMEM_TX_SIZE },
        rx: ShmemRegion { base: 0, size: 0 },
        trace: ShmemRegion { base: 0, size: 0 },
        ipc_irq_prio: IPC_IRQ_PRIORITY,
    }
}

} // verus!
