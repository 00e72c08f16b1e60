//! The ordered bring-up of the modem, as a state machine.
//!
//! The caller performs each action on the hardware and reports what came of
//! it; `step` decides what happens next. Steps run in a fixed order, a
//! required reset ends the run, and a failed firmware initialisation is
//! reported and ends the run.

use vstd::prelude::*;

verus! {

/// How far the bring-up has come.
#[derive(Clone, Copy, Debug, PartialEq, Eq, Structural)]
pub enum BringupState {
    Uninitialized,
    SecureDomainConfigured,
    CalibrationChecked,
    ResetPending,
    RegulatorEnabled,
    InterruptBound,
    DescriptorBuilt,
    ModemInitialized,
    InitFailed,
    HandlerRejected,
    EventHandlerRegistered,
}

/// What the caller reports after carrying out an action.
#[derive(Clone, Copy, Debug, PartialEq, Eq, Structural)]
pub enum BringupEvent {
    SecureDomainConfigured,
    CalibrationChecked { needs_reset: bool },
    RegulatorEnabled,
    InterruptBound,
    DescriptorBuilt,
    /// Status code returned by the firmware's initialisation call.
    InitReturned(i32),
    /// Status code returned when registering the event handler.
    HandlerRegistered(i32),
}

/// What the caller has to do next.
#[derive(Clone, Copy, Debug, PartialEq, Eq, Structural)]
pub enum BringupAction {
    ConfigureSecureDomain,
    CheckCalibration,
    /// Reset the whole device; the run ends here.
    Reset,
    EnableRegulator,
    BindInterrupt,
    BuildDescriptor,
    InitModem,
    RegisterEventHandler,
    /// Report that the firmware's initialisation failed with this code.
    ReportInitFailure(i32),
    /// Report that registering the event handler failed with this code.
    ReportHandlerFailure(i32),
    /// Report that the modem is up.
    ReportReady,
}

/// The first action of every run.
pub open spec fn first_action() -> BringupAction {
    BringupAction::ConfigureSecureDomain
}

/// The position of a state in the bring-up order.
pub open spec fn rank(s: BringupState) -> int {
    match s {
        BringupState::Uninitialized => 0,
        BringupState::SecureDomainConfigured => 1,
        BringupState::CalibrationChecked => 2,
        BringupState::ResetPending => 2,
        BringupState::RegulatorEnabled => 3,
        BringupState::InterruptBound => 4,
        BringupState::DescriptorBuilt => 5,
        BringupState::ModemInitialized => 6,
        BringupState::InitFailed => 6,
        BringupState::HandlerRejected => 7,
        BringupState::EventHandlerRegistered => 7,
    }
}

/// The states in which the run is over.
pub open spec fn is_terminal(s: BringupState) -> bool {
    s == BringupState::ResetPending || s == BringupState::InitFailed || s
        == BringupState::HandlerRejected || s == BringupState::EventHandlerRegistered
}

/// The transition on `event` in `state`, or `None` where the event does not
/// answer the action that the state asked for.
pub open spec fn transition(state: BringupState, event: BringupEvent) -> Option<
    (BringupState, BringupAction),
> {
    match (state, event) {
        (BringupState::Uninitialized, BringupEvent::SecureDomainConfigured) => Some(
            (BringupState::SecureDomainConfigured, BringupAction::CheckCalibration),
        ),
        (BringupState::SecureDomainConfigured, BringupEvent::CalibrationChecked { needs_reset }) => {
            if needs_reset {
                Some((BringupState::ResetPending, BringupAction::Reset))
            } else {
                Some((BringupState::CalibrationChecked, BringupAction::EnableRegulator))
            }
        },
        (BringupState::CalibrationChecked, BringupEvent::RegulatorEnabled) => Some(
            (BringupState::RegulatorEnabled, BringupAction::BindInterrupt),
        ),
        (BringupState::RegulatorEnabled, BringupEvent::InterruptBound) => Some(
            (BringupState::InterruptBound, BringupAction::BuildDescriptor),
        ),
        (BringupState::InterruptBound, BringupEvent::DescriptorBuilt) => Some(
            (BringupState::DescriptorBuilt, BringupAction::InitModem),
        ),
        (BringupState::DescriptorBuilt, BringupEvent::InitReturned(code)) => {
            if code == 0 {
                Some((BringupState::ModemInitialized, BringupAction::RegisterEventHandler))
            } else {
                Some((BringupState::InitFailed, BringupAction::ReportInitFailure(code)))
            }
        },
        (BringupState::ModemInitialized, BringupEvent::HandlerRegistered(code)) => {
            if code == 0 {
                Some((BringupState::EventHandlerRegistered, BringupAction::ReportReady))
            } else {
                Some((BringupState::HandlerRejected, BringupAction::ReportHandlerFailure(code)))
            }
        },
        _ => None,
    }
}

/// The state and action a run starts with.
pub fn start() -> (r: (BringupState, BringupAction))
    ensures
        r == (BringupState::Uninitialized, first_action()),
{
    (BringupState::Uninitialized, BringupAction::ConfigureSecureDomain)
}

/// Advances the bring-up on the outcome of the last action.
pub fn step(state: BringupState, event: BringupEvent) -> (r: Option<(BringupState, BringupAction)>)
    ensures
        r == transition(state, event),
{
    match (state, event) {
        (BringupState::Uninitialized, BringupEvent::SecureDomainConfigured) => Some(
            (BringupState::SecureDomainConfigured, BringupAction::CheckCalibration),
        ),
        (BringupState::SecureDomainConfigured, BringupEvent::CalibrationChecked { needs_reset }) => {
            if needs_reset {
                Some((BringupState::ResetPending, BringupAction::Reset))
            } else {
                Some((BringupState::CalibrationChecked, BringupAction::EnableRegulator))
            }
        },
        (BringupState::CalibrationChecked, BringupEvent::RegulatorEnabled) => Some(
            (BringupState::RegulatorEnabled, BringupAction::BindInterrupt),
        ),
        (BringupState::RegulatorEnabled, BringupEvent::InterruptBound) => Some(
            (BringupState::InterruptBound, BringupAction::BuildDescriptor),
        ),
        (BringupState::InterruptBound, BringupEvent::DescriptorBuilt) => Some(
            (BringupState::DescriptorBuilt, BringupAction::InitModem),
        ),
        (BringupState::DescriptorBuilt, BringupEvent::InitReturned(code)) => {
            if code == 0 {
                Some((BringupState::ModemInitialized, BringupAction::RegisterEventHandler))
            } else {
                Some((BringupState::InitFailed, BringupAction::ReportInitFailure(code)))
            }
        },
        (BringupState::ModemInitialized, BringupEvent::HandlerRegistered(code)) => {
            if code == 0 {
                Some((BringupState::EventHandlerRegistered, BringupAction::ReportReady))
            } else {
                Some((BringupState::HandlerRejected, BringupAction::ReportHandlerFailure(code)))
            }
        },
        _ => None,
    }
}

/// Every accepted event moves the bring-up strictly forward, and nothing
/// leaves a state in which the run is over.
pub proof fn lemma_strictly_ordered(state: BringupState, event: BringupEvent)
    ensures
        transition(state, event) matches Some((next, _)) ==> rank(next) > rank(state),
        is_terminal(state) ==> transition(state, event) is None,
{
}

/// A required reset ends the run before anything else is touched.
pub proof fn lemma_reset_is_final(state: BringupState)
    ensures
        transition(state, BringupEvent::CalibrationChecked { needs_reset: true }) is Some ==> transition(
            state,
            BringupEvent::CalibrationChecked { needs_reset: true },
        ) == Some((BringupState::ResetPending, BringupAction::Reset)),
        forall|e: BringupEvent| transition(BringupState::ResetPending, e) is None,
{
}

/// The modem counts as initialised only after a success code, and a failure
/// code is always handed on to be reported.
pub proof fn lemma_init_failure_reported(state: BringupState, code: i32)
    ensures
        transition(state, BringupEvent::InitReturned(code)) matches Some((next, action)) ==> (code
            == 0 <==> next == BringupState::ModemInitialized) && (code != 0 ==> action
            == BringupAction::ReportInitFailure(code)),
{
}

} // verus!
