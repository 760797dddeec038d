//! The control handler: what a control signal of the service manager leads to.
//!
//! The handler runs in a callback of the service manager. It decides here; the
//! caller reports the status, sends the event and hands the code back.

use vstd::prelude::*;
use crate::event::{ServiceEvent, Session};
use crate::status::{
    set_service_status, status_report, ServiceStatusHandle, StatusReport, SERVICE_STOP_PENDING,
};

verus! {

/// Control signal: stop the service.
pub const SERVICE_CONTROL_STOP: u32 = 0x1;

/// Control signal: pause the service.
pub const SERVICE_CONTROL_PAUSE: u32 = 0x2;

/// Control signal: continue the paused service.
pub const SERVICE_CONTROL_CONTINUE: u32 = 0x3;

/// Control signal: the system is shutting down.
pub const SERVICE_CONTROL_SHUTDOWN: u32 = 0x5;

/// Control signal: something changed about a user session.
pub const SERVICE_CONTROL_SESSIONCHANGE: u32 = 0xE;

/// Session change: a session was connected to the console terminal.
pub const WTS_CONSOLE_CONNECT: u32 = 0x1;

/// Session change: a session was disconnected from the console terminal.
pub const WTS_CONSOLE_DISCONNECT: u32 = 0x2;

/// Session change: a session was connected to the remote terminal.
pub const WTS_REMOTE_CONNECT: u32 = 0x3;

/// Session change: a session was disconnected from the remote terminal.
pub const WTS_REMOTE_DISCONNECT: u32 = 0x4;

/// Session change: a user has logged on to the session.
pub const WTS_SESSION_LOGON: u32 = 0x5;

/// Session change: a user has logged off the session.
pub const WTS_SESSION_LOGOFF: u32 = 0x6;

/// Session change: the session has been locked.
pub const WTS_SESSION_LOCK: u32 = 0x7;

/// Session change: the session has been unlocked.
pub const WTS_SESSION_UNLOCK: u32 = 0x8;

/// The code that acknowledges a control signal.
pub const NO_ERROR: u32 = 0;

/// The code that tells the service manager that a control signal is not handled.
pub const ERROR_CALL_NOT_IMPLEMENTED: u32 = 120;

/// For how many milliseconds the service manager is asked to wait for the
/// service to stop.
pub const STOP_WAIT_HINT: u32 = 10;

/// How the service body is hosted.
#[derive(Clone, Copy, Debug, PartialEq, Eq, Structural)]
pub enum Hosting {
    /// On a thread of its own. The body ends by itself, after it has seen
    /// `Stop`; it cannot be made to end.
    Thread,
    /// As a task. The body is cancelled when a stop is asked for before it
    /// has ended.
    Task,
}

/// How an event is handed to the channel of the service body.
#[derive(Clone, Copy, Debug, PartialEq, Eq, Structural)]
pub enum Delivery {
    /// The event is sent, and the handler waits until the channel has taken
    /// it.
    Blocking,
    /// The event is offered to the channel once, without waiting. An event
    /// that the channel does not take at once is dropped.
    OneAttempt,
}

/// What the control handler asks of its caller, in this order: report the
/// status, hand the event to the channel of the service body in the way that
/// `delivery` names, return the code to the service manager.
#[derive(Debug, PartialEq, Eq)]
pub struct ControlResponse<T> {
    /// The status to report before anything is sent, if any.
    pub report: Option<StatusReport>,
    /// The event to send to the service body, if any.
    pub event: Option<ServiceEvent<T>>,
    /// How the event is to be handed to the channel.
    pub delivery: Delivery,
    /// The code to hand back to the service manager.
    pub code: u32,
}

/// How events reach a body that is hosted in the given way.
pub open spec fn delivery_of(hosting: Hosting) -> Delivery {
    match hosting {
        Hosting::Thread => Delivery::Blocking,
        Hosting::Task => Delivery::OneAttempt,
    }
}

/// True for the two signals that end the service.
pub open spec fn is_terminal_control(control: u32) -> bool {
    control == SERVICE_CONTROL_STOP || control == SERVICE_CONTROL_SHUTDOWN
}

/// The event that a session change of the given reason stands for. A reason
/// without an event of its own gives `None`.
pub open spec fn session_event_of<T>(event_type: u32, session: Session) -> Option<ServiceEvent<T>> {
    if event_type == WTS_CONSOLE_CONNECT {
        Some(ServiceEvent::SessionConnect(session))
    } else if event_type == WTS_CONSOLE_DISCONNECT {
        Some(ServiceEvent::SessionDisconnect(session))
    } else if event_type == WTS_REMOTE_CONNECT {
        Some(ServiceEvent::SessionRemoteConnect(session))
    } else if event_type == WTS_REMOTE_DISCONNECT {
        Some(ServiceEvent::SessionRemoteDisconnect(session))
    } else if event_type == WTS_SESSION_LOGON {
        Some(ServiceEvent::SessionLogon(session))
    } else if event_type == WTS_SESSION_LOGOFF {
        Some(ServiceEvent::SessionLogoff(session))
    } else if event_type == WTS_SESSION_LOCK {
        Some(ServiceEvent::SessionLock(session))
    } else if event_type == WTS_SESSION_UNLOCK {
        Some(ServiceEvent::SessionUnlock(session))
    } else {
        None
    }
}

/// The status that a control signal has the handler report: stop pending with
/// the stop wait hint for a terminal signal under a registered handle, nothing
/// otherwise.
pub open spec fn control_report(status_handle: ServiceStatusHandle, control: u32) -> Option<
    StatusReport,
> {
    if is_terminal_control(control) {
        match status_report(status_handle, SERVICE_STOP_PENDING, STOP_WAIT_HINT) {
            Ok(report) => Some(report),
            Err(_) => None,
        }
    } else {
        None
    }
}

/// The event that a control signal has the handler send.
pub open spec fn control_event<T>(control: u32, event_type: u32, session_id: u32) -> Option<
    ServiceEvent<T>,
> {
    if is_terminal_control(control) {
        Some(ServiceEvent::Stop)
    } else if control == SERVICE_CONTROL_PAUSE {
        Some(ServiceEvent::Pause)
    } else if control == SERVICE_CONTROL_CONTINUE {
        Some(ServiceEvent::Continue)
    } else if control == SERVICE_CONTROL_SESSIONCHANGE {
        session_event_of(event_type, Session(session_id))
    } else {
        None
    }
}

/// Whether the handler handles a control signal.
pub open spec fn control_handled(control: u32) -> bool {
    is_terminal_control(control) || control == SERVICE_CONTROL_PAUSE || control
        == SERVICE_CONTROL_CONTINUE || control == SERVICE_CONTROL_SESSIONCHANGE
}

/// The whole answer of the handler to a control signal. The hosting decides
/// how the event is delivered, and nothing else.
pub open spec fn control_response<T>(
    hosting: Hosting,
    status_handle: ServiceStatusHandle,
    control: u32,
    event_type: u32,
    session_id: u32,
) -> ControlResponse<T> {
    ControlResponse {
        report: control_report(status_handle, control),
        event: control_event(control, event_type, session_id),
        delivery: delivery_of(hosting),
        code: if control_handled(control) {
            NO_ERROR
        } else {
            ERROR_CALL_NOT_IMPLEMENTED
        },
    }
}

/// The event of a session change, by its reason.
fn session_event<T>(event_type: u32, session: Session) -> (event: Option<ServiceEvent<T>>)
    ensures
        event == session_event_of::<T>(event_type, session),
{
    if event_type == WTS_CONSOLE_CONNECT {
        Some(ServiceEvent::SessionConnect(session))
    } else if event_type == WTS_CONSOLE_DISCONNECT {
        Some(ServiceEvent::SessionDisconnect(session))
    } else if event_type == WTS_REMOTE_CONNECT {
        Some(ServiceEvent::SessionRemoteConnect(session))
    } else if event_type == WTS_REMOTE_DISCONNECT {
        Some(ServiceEvent::SessionRemoteDisconnect(session))
    } else if event_type == WTS_SESSION_LOGON {
        Some(ServiceEvent::SessionLogon(session))
    } else if event_type == WTS_SESSION_LOGOFF {
        Some(ServiceEvent::SessionLogoff(session))
    } else if event_type == WTS_SESSION_LOCK {
        Some(ServiceEvent::SessionLock(session))
    } else if event_type == WTS_SESSION_UNLOCK {
        Some(ServiceEvent::SessionUnlock(session))
    } else {
        None
    }
}

/// How events reach a body that is hosted in the given way: a handler that
/// serves a thread may wait for the channel, a handler that serves a task
/// offers the event once and does not wait.
pub fn delivery(hosting: Hosting) -> (delivery: Delivery)
    ensures
        delivery == delivery_of(hosting),
{
    match hosting {
        Hosting::Thread => Delivery::Blocking,
        Hosting::Task => Delivery::OneAttempt,
    }
}

/// The answer of the control handler for a body that is hosted in the given
/// way.
fn respond<T>(
    hosting: Hosting,
    status_handle: ServiceStatusHandle,
    control: u32,
    event_type: u32,
    session_id: u32,
) -> (response: ControlResponse<T>)
    ensures
        response == control_response::<T>(hosting, status_handle, control, event_type, session_id),
{
    let delivery = delivery(hosting);
    if control == SERVICE_CONTROL_STOP || control == SERVICE_CONTROL_SHUTDOWN {
        let report = match set_service_status(status_handle, SERVICE_STOP_PENDING, STOP_WAIT_HINT) {
            Ok(report) => Some(report),
            Err(_) => None,
        };
        ControlResponse { report, event: Some(ServiceEvent::Stop), delivery, code: NO_ERROR }
    } else if control == SERVICE_CONTROL_PAUSE {
        ControlResponse { report: None, event: Some(ServiceEvent::Pause), delivery, code: NO_ERROR }
    } else if control == SERVICE_CONTROL_CONTINUE {
        ControlResponse {
            report: None,
            event: Some(ServiceEvent::Continue),
            delivery,
            code: NO_ERROR,
        }
    } else if control == SERVICE_CONTROL_SESSIONCHANGE {
        let event = session_event(event_type, Session(session_id));
        ControlResponse { report: None, event, delivery, code: NO_ERROR }
    } else {
        ControlResponse { report: None, event: None, delivery, code: ERROR_CALL_NOT_IMPLEMENTED }
    }
}

/// The control handler of a service whose body runs on a thread of its own.
///
/// `status_handle` is the handle under which a status may be reported,
/// `control` the signal, `event_type` the reason that comes with a session
/// change, and `session_id` the session that the notification names; the
/// last two are read for a session change only.
///
/// A stop or shutdown reports stop pending and sends `Stop`; pause and
/// continue send their event; a session change sends the event of its reason,
/// or nothing for a reason without one. All of these are acknowledged. Any
/// other signal is answered as not implemented, with nothing reported or
/// sent. The event is delivered by a send that may wait.
pub fn service_handler<T>(
    status_handle: ServiceStatusHandle,
    control: u32,
    event_type: u32,
    session_id: u32,
) -> (response: ControlResponse<T>)
    ensures
        response == control_response::<T>(
            Hosting::Thread,
            status_handle,
            control,
            event_type,
            session_id,
        ),
        response.report matches Some(r) ==> r.status.current_state == SERVICE_STOP_PENDING
            && r.status.wait_hint > 0 && r.handle == status_handle.0,
        !(response.event is Some && response.event->0 is Custom),
        response.delivery == Delivery::Blocking,
{
    respond(Hosting::Thread, status_handle, control, event_type, session_id)
}

/// The control handler of a service whose body runs as a task.
///
/// It reports, sends and answers exactly as `service_handler` does. The
/// event is delivered by one attempt that does not wait, so that the
/// callback of the service manager returns at once whatever the body does.
pub fn service_handler_async<T>(
    status_handle: ServiceStatusHandle,
    control: u32,
    event_type: u32,
    session_id: u32,
) -> (response: ControlResponse<T>)
    ensures
        response == control_response::<T>(
            Hosting::Task,
            status_handle,
            control,
            event_type,
            session_id,
        ),
        response.report matches Some(r) ==> r.status.current_state == SERVICE_STOP_PENDING
            && r.status.wait_hint > 0 && r.handle == status_handle.0,
        !(response.event is Some && response.event->0 is Custom),
        response.delivery == Delivery::OneAttempt,
{
    respond(Hosting::Task, status_handle, control, event_type, session_id)
}

/// The two handlers report the same status, send the same event and answer
/// with the same code on every signal; they differ in the delivery alone.
pub proof fn lemma_handlers_agree<T>(
    status_handle: ServiceStatusHandle,
    control: u32,
    event_type: u32,
    session_id: u32,
)
    ensures
        ({
            let thread = control_response::<T>(
                Hosting::Thread,
                status_handle,
                control,
                event_type,
                session_id,
            );
            let task = control_response::<T>(
                Hosting::Task,
                status_handle,
                control,
                event_type,
                session_id,
            );
            &&& thread.report == task.report
            &&& thread.event == task.event
            &&& thread.code == task.code
        }),
{
}

/// A terminal signal always has `Stop` sent and is acknowledged, under
/// either hosting; under a set handle it also has stop pending reported. No
/// other signal has any status reported, so the handler never announces a
/// start or a run.
pub proof fn lemma_terminal_control_stops<T>(
    hosting: Hosting,
    status_handle: ServiceStatusHandle,
    control: u32,
    event_type: u32,
    session_id: u32,
)
    ensures
        ({
            let r = control_response::<T>(hosting, status_handle, control, event_type, session_id);
            &&& is_terminal_control(control) ==> r.event == Some(ServiceEvent::<T>::Stop) && r.code
                == NO_ERROR
            &&& is_terminal_control(control) && status_handle.spec_is_set() ==> r.report is Some
            &&& r.report is Some ==> is_terminal_control(control)
                && r.report->0.status.current_state == SERVICE_STOP_PENDING
            &&& r.event == Some(ServiceEvent::<T>::Stop) ==> is_terminal_control(control)
        }),
{
}

} // verus!
