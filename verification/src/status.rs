//! Lifecycle phases and the status record that is reported to the service manager.

use vstd::prelude::*;

verus! {

/// State code of a service that is not running.
pub const SERVICE_STOPPED: u32 = 1;

/// State code of a service that is starting.
pub const SERVICE_START_PENDING: u32 = 2;

/// State code of a service that is stopping.
pub const SERVICE_STOP_PENDING: u32 = 3;

/// State code of a service that is running.
pub const SERVICE_RUNNING: u32 = 4;

/// State code of a service that is about to continue after a pause.
pub const SERVICE_CONTINUE_PENDING: u32 = 5;

/// State code of a service that is about to pause.
pub const SERVICE_PAUSE_PENDING: u32 = 6;

/// State code of a paused service.
pub const SERVICE_PAUSED: u32 = 7;

/// Service type of a service that runs in a process of its own.
pub const SERVICE_WIN32_OWN_PROCESS: u32 = 0x10;

/// Accepted-controls bit: the service can be stopped.
pub const SERVICE_ACCEPT_STOP: u32 = 0x1;

/// Accepted-controls bit: the service can be paused and continued.
pub const SERVICE_ACCEPT_PAUSE_CONTINUE: u32 = 0x2;

/// Accepted-controls bit: the service is told when the system shuts down.
pub const SERVICE_ACCEPT_SHUTDOWN: u32 = 0x4;

/// The controls that every status report announces: stop and shutdown.
pub const CONTROLS_ACCEPTED: u32 = 0x5;

/// The phase of its life that a service reports to the service manager.
#[derive(Clone, Copy, Debug, PartialEq, Eq, Structural)]
pub enum LifecyclePhase {
    /// The service is starting.
    StartPending,
    /// The service is running.
    Running,
    /// The service is about to pause.
    PausePending,
    /// The service is paused.
    Paused,
    /// The service is about to continue after a pause.
    ContinuePending,
    /// The service is stopping.
    StopPending,
    /// The service is not running.
    Stopped,
}

impl LifecyclePhase {
    /// The state code by which the service manager knows the phase.
    pub open spec fn spec_code(self) -> u32 {
        match self {
            LifecyclePhase::Stopped => SERVICE_STOPPED,
            LifecyclePhase::StartPending => SERVICE_START_PENDING,
            LifecyclePhase::StopPending => SERVICE_STOP_PENDING,
            LifecyclePhase::Running => SERVICE_RUNNING,
            LifecyclePhase::ContinuePending => SERVICE_CONTINUE_PENDING,
            LifecyclePhase::PausePending => SERVICE_PAUSE_PENDING,
            LifecyclePhase::Paused => SERVICE_PAUSED,
        }
    }

    /// The phase that a state code stands for, if it stands for one.
    pub open spec fn spec_from_code(code: u32) -> Option<LifecyclePhase> {
        if code == SERVICE_STOPPED {
            Some(LifecyclePhase::Stopped)
        } else if code == SERVICE_START_PENDING {
            Some(LifecyclePhase::StartPending)
        } else if code == SERVICE_STOP_PENDING {
            Some(LifecyclePhase::StopPending)
        } else if code == SERVICE_RUNNING {
            Some(LifecyclePhase::Running)
        } else if code == SERVICE_CONTINUE_PENDING {
            Some(LifecyclePhase::ContinuePending)
        } else if code == SERVICE_PAUSE_PENDING {
            Some(LifecyclePhase::PausePending)
        } else if code == SERVICE_PAUSED {
            Some(LifecyclePhase::Paused)
        } else {
            None
        }
    }

    /// How far along its life a service in this phase is: starting, up (running
    /// or somewhere in a pause cycle), stopping, stopped.
    pub open spec fn stage(self) -> nat {
        match self {
            LifecyclePhase::StartPending => 0,
            LifecyclePhase::Running
            | LifecyclePhase::PausePending
            | LifecyclePhase::Paused
            | LifecyclePhase::ContinuePending => 1,
            LifecyclePhase::StopPending => 2,
            LifecyclePhase::Stopped => 3,
        }
    }

    /// Whether a service in this phase may report `next` as its following phase:
    /// the stage never goes back, nothing follows `Stopped`, and within the
    /// stage of a running service only the steps of the pause cycle are taken.
    pub open spec fn may_precede(self, next: LifecyclePhase) -> bool {
        if self.stage() == 1 && next.stage() == 1 {
            match (self, next) {
                (LifecyclePhase::Running, LifecyclePhase::PausePending) => true,
                (LifecyclePhase::PausePending, LifecyclePhase::Paused) => true,
                (LifecyclePhase::Paused, LifecyclePhase::ContinuePending) => true,
                (LifecyclePhase::ContinuePending, LifecyclePhase::Running) => true,
                _ => false,
            }
        } else {
            self.stage() < next.stage()
        }
    }

    /// The state code by which the service manager knows the phase.
    pub fn code(self) -> (code: u32)
        ensures
            code == self.spec_code(),
            LifecyclePhase::spec_from_code(code) == Some(self),
    {
        match self {
            LifecyclePhase::Stopped => SERVICE_STOPPED,
            LifecyclePhase::StartPending => SERVICE_START_PENDING,
            LifecyclePhase::StopPending => SERVICE_STOP_PENDING,
            LifecyclePhase::Running => SERVICE_RUNNING,
            LifecyclePhase::ContinuePending => SERVICE_CONTINUE_PENDING,
            LifecyclePhase::PausePending => SERVICE_PAUSE_PENDING,
            LifecyclePhase::Paused => SERVICE_PAUSED,
        }
    }

    /// The phase that a state code stands for; `None` for a code that the
    /// service manager does not define.
    pub fn from_code(code: u32) -> (phase: Option<LifecyclePhase>)
        ensures
            phase == LifecyclePhase::spec_from_code(code),
            phase matches Some(p) ==> p.spec_code() == code,
            phase is None <==> !(1 <= code <= 7),
    {
        if code == SERVICE_STOPPED {
            Some(LifecyclePhase::Stopped)
        } else if code == SERVICE_START_PENDING {
            Some(LifecyclePhase::StartPending)
        } else if code == SERVICE_STOP_PENDING {
            Some(LifecyclePhase::StopPending)
        } else if code == SERVICE_RUNNING {
            Some(LifecyclePhase::Running)
        } else if code == SERVICE_CONTINUE_PENDING {
            Some(LifecyclePhase::ContinuePending)
        } else if code == SERVICE_PAUSE_PENDING {
            Some(LifecyclePhase::PausePending)
        } else if code == SERVICE_PAUSED {
            Some(LifecyclePhase::Paused)
        } else {
            None
        }
    }

    /// True for the phases in which a transition is still under way.
    pub fn is_pending(self) -> (pending: bool)
        ensures
            pending == (self is StartPending || self is StopPending || self is PausePending
                || self is ContinuePending),
    {
        match self {
            LifecyclePhase::StartPending
            | LifecyclePhase::StopPending
            | LifecyclePhase::PausePending
            | LifecyclePhase::ContinuePending => true,
            _ => false,
        }
    }
}

/// The reference by which the service manager knows a running service
/// instance. It is unset until the control handler has been registered.
#[derive(Clone, Copy, Debug, PartialEq, Eq, Structural)]
pub struct ServiceStatusHandle(pub usize);

impl ServiceStatusHandle {
    /// Whether the handle refers to a registered service instance.
    pub open spec fn spec_is_set(self) -> bool {
        self.0 != 0
    }

    /// Create a new handle from the value that registration returned.
    pub fn new(a: usize) -> (handle: Self)
        ensures
            handle.0 == a,
    {
        ServiceStatusHandle(a)
    }

    /// The handle of a service that has not been registered.
    pub fn unset() -> (handle: Self)
        ensures
            handle.0 == 0,
            !handle.spec_is_set(),
    {
        ServiceStatusHandle(0)
    }

    /// Whether the handle refers to a registered service instance.
    pub fn is_set(&self) -> (set: bool)
        ensures
            set == self.spec_is_set(),
    {
        self.0 != 0
    }
}

/// The status record that the service manager takes in.
#[derive(Clone, Copy, Debug, PartialEq, Eq, Structural)]
pub struct ServiceStatus {
    /// The type of the service.
    pub service_type: u32,
    /// The state code of the current phase.
    pub current_state: u32,
    /// The controls that the service accepts, as a bit mask.
    pub controls_accepted: u32,
    /// The exit code of the service.
    pub win32_exit_code: u32,
    /// The exit code that is specific to the service.
    pub service_specific_exit_code: u32,
    /// The progress counter of a pending transition.
    pub check_point: u32,
    /// For how many milliseconds the manager should wait for a pending
    /// transition before it considers it stalled.
    pub wait_hint: u32,
}

/// A status record together with the handle that it is to be reported under.
#[derive(Clone, Copy, Debug, PartialEq, Eq, Structural)]
pub struct StatusReport {
    /// The raw value of the status handle.
    pub handle: usize,
    /// The record to report.
    pub status: ServiceStatus,
}

/// Why a status could not be reported.
#[derive(Clone, Copy, Debug, PartialEq, Eq, Structural)]
pub enum StatusError {
    /// The control handler has not been registered yet, so there is no handle
    /// to report under.
    NotRegistered,
}

/// The record that announces `current_state`: a service in a process of its
/// own, which accepts stop and shutdown, with exit codes and check point zero.
pub open spec fn status_record(current_state: u32, wait_hint: u32) -> ServiceStatus {
    ServiceStatus {
        service_type: SERVICE_WIN32_OWN_PROCESS,
        current_state,
        controls_accepted: CONTROLS_ACCEPTED,
        win32_exit_code: 0,
        service_specific_exit_code: 0,
        check_point: 0,
        wait_hint,
    }
}

/// What `set_service_status` answers.
pub open spec fn status_report(
    status_handle: ServiceStatusHandle,
    current_state: u32,
    wait_hint: u32,
) -> Result<StatusReport, StatusError> {
    if status_handle.spec_is_set() {
        Ok(StatusReport { handle: status_handle.0, status: status_record(current_state, wait_hint) })
    } else {
        Err(StatusError::NotRegistered)
    }
}

/// The accepted-controls mask is made of the stop and the shutdown bit.
pub proof fn lemma_controls_accepted()
    ensures
        CONTROLS_ACCEPTED == SERVICE_ACCEPT_STOP | SERVICE_ACCEPT_SHUTDOWN,
        CONTROLS_ACCEPTED & SERVICE_ACCEPT_PAUSE_CONTINUE == 0,
{
    assert(0x5u32 == 0x1u32 | 0x4u32) by (bit_vector);
    assert(0x5u32 & 0x2u32 == 0) by (bit_vector);
}

/// Prepare the report of `current_state` to the service manager.
///
/// The report is refused with `NotRegistered` exactly when the handle is
/// unset; otherwise it holds the handle and the status record.
pub fn set_service_status(
    status_handle: ServiceStatusHandle,
    current_state: u32,
    wait_hint: u32,
) -> (report: Result<StatusReport, StatusError>)
    ensures
        report == status_report(status_handle, current_state, wait_hint),
{
    if !status_handle.is_set() {
        return Err(StatusError::NotRegistered);
    }
    let status = ServiceStatus {
        service_type: SERVICE_WIN32_OWN_PROCESS,
        current_state,
        controls_accepted: SERVICE_ACCEPT_STOP | SERVICE_ACCEPT_SHUTDOWN,
        win32_exit_code: 0,
        service_specific_exit_code: 0,
        check_point: 0,
        wait_hint,
    };
    proof {
        lemma_controls_accepted();
    }
    Ok(StatusReport { handle: status_handle.0, status })
}

} // verus!
