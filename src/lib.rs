//! Secure hand-off and modem bring-up logic for an nRF91-class SoC.
//!
//! The hardware itself is driven by the caller: every module here computes,
//! over a plain model of the registers involved, what must be written and in
//! which order, and proves that the result is what the protocol demands.

pub mod bringup;
pub mod calibration;
pub mod interrupts;
pub mod nvm;
pub mod shmem;
pub mod spu;

pub use nvm::{controller_steps, uicr_write, uicr_write_masked, NvmRegister, NvmWrite, NvmcStep, WriteError};
pub use calibration::{
    check_and_fix_calibration, CalibrationFix, Uicr, UicrProgramming, HFXOCNT_BAD, HFXOCNT_GOOD,
    HFXOSRC_BAD, HFXOSRC_GOOD, UICR_HFXOCNT, UICR_HFXOSRC,
};
pub use spu::{
    apply_spu_write, configure_nonsecure_access, nonsecure_access_writes, PeripheralPerm,
    RamRegionPerm, Spu, SpuWrite, PERIPHERAL_IDS, PERIPH_CLOCK_POWER, PERIPH_IPC,
    PERIPH_REGULATORS, RAM_REGIONS,
};
pub use interrupts::{InterruptHandler, IPC_INTERRUPT};
pub use shmem::{
    build_init_descriptor, ModemInitDescriptor, ShmemRegion, IPC_IRQ_PRIORITY, SHMEM_CTRL_SIZE,
    SHMEM_TX_SIZE,
};
pub use bringup::{start, step, BringupAction, BringupEvent, BringupState};
