use libmodem_bringup::{
    build_init_descriptor, start, step, BringupAction, BringupEvent, BringupState,
    InterruptHandler, ShmemRegion, IPC_IRQ_PRIORITY, SHMEM_CTRL_SIZE, SHMEM_TX_SIZE,
};

#[test]
fn descriptor_layout() {
    let d = build_init_descriptor(0x2000_1000, 0x2000_2000);
    assert_eq!(d.ctrl, ShmemRegion { base: 0x2000_1000, size: 0x4e8 });
    assert_eq!(d.tx, ShmemRegion { base: 0x2000_2000, size: 1024 });
    assert_eq!(d.rx, ShmemRegion { base: 0, size: 0 });
    assert_eq!(d.trace, ShmemRegion { base: 0, size: 0 });
    assert_eq!(d.ipc_irq_prio, IPC_IRQ_PRIORITY);
    assert_eq!((SHMEM_CTRL_SIZE, SHMEM_TX_SIZE), (1256, 1024));
}

#[test]
fn full_successful_run() {
    let (mut s, a) = start();
    assert_eq!(a, BringupAction::ConfigureSecureDomain);
    let script = [
        (BringupEvent::SecureDomainConfigured, BringupState::SecureDomainConfigured, BringupAction::CheckCalibration),
        (BringupEvent::CalibrationChecked { needs_reset: false }, BringupState::CalibrationChecked, BringupAction::EnableRegulator),
        (BringupEvent::RegulatorEnabled, BringupState::RegulatorEnabled, BringupAction::BindInterrupt),
        (BringupEvent::InterruptBound, BringupState::InterruptBound, BringupAction::BuildDescriptor),
        (BringupEvent::DescriptorBuilt, BringupState::DescriptorBuilt, BringupAction::InitModem),
        (BringupEvent::InitReturned(0), BringupState::ModemInitialized, BringupAction::RegisterEventHandler),
        (BringupEvent::HandlerRegistered(0), BringupState::EventHandlerRegistered, BringupAction::ReportReady),
    ];
    for (event, next, action) in script {
        let r = step(s, event);
        assert_eq!(r, Some((next, action)));
        s = next;
    }
    assert_eq!(step(s, BringupEvent::HandlerRegistered(0)), None);
}

#[test]
fn calibration_fix_forces_reset() {
    let r = step(BringupState::SecureDomainConfigured, BringupEvent::CalibrationChecked { needs_reset: true });
    assert_eq!(r, Some((BringupState::ResetPending, BringupAction::Reset)));
    assert_eq!(step(BringupState::ResetPending, BringupEvent::RegulatorEnabled), None);
}

#[test]
fn zero_sized_control_region_failure_is_reported() {
    let mut d = build_init_descriptor(0x2000_1000, 0x2000_2000);
    d.ctrl.size = 0;
    assert_ne!(d.ctrl.size, SHMEM_CTRL_SIZE);
    // The firmware answers a wrong control region size with a non-zero code.
    let r = step(BringupState::DescriptorBuilt, BringupEvent::InitReturned(-22));
    assert_eq!(r, Some((BringupState::InitFailed, BringupAction::ReportInitFailure(-22))));
    assert_eq!(step(BringupState::InitFailed, BringupEvent::HandlerRegistered(0)), None);
}

#[test]
fn handler_registration_failure_is_reported() {
    let r = step(BringupState::ModemInitialized, BringupEvent::HandlerRegistered(-1));
    assert_eq!(r, Some((BringupState::HandlerRejected, BringupAction::ReportHandlerFailure(-1))));
}

#[test]
fn events_out_of_order_are_refused() {
    assert_eq!(step(BringupState::Uninitialized, BringupEvent::RegulatorEnabled), None);
    assert_eq!(step(BringupState::CalibrationChecked, BringupEvent::InitReturned(0)), None);
}

#[test]
fn nvic_priority_encoding() {
    let _h = InterruptHandler::new();
    assert_eq!(InterruptHandler::nvic_priority(0), 0);
    assert_eq!(InterruptHandler::nvic_priority(1), 32);
    assert_eq!(InterruptHandler::nvic_priority(7), 224);
}
