use service::control::{
    delivery, service_handler, service_handler_async, ControlResponse, Delivery, Hosting,
    SERVICE_CONTROL_CONTINUE, SERVICE_CONTROL_PAUSE, SERVICE_CONTROL_SESSIONCHANGE,
    SERVICE_CONTROL_SHUTDOWN, SERVICE_CONTROL_STOP, STOP_WAIT_HINT,
};
use service::event::{ServiceEvent, Session};
use service::status::ServiceStatusHandle;

fn handle() -> ServiceStatusHandle {
    ServiceStatusHandle::new(0x1234)
}

fn blocking(event: Option<ServiceEvent<u64>>, code: u32) -> ControlResponse<u64> {
    ControlResponse { report: None, event, delivery: Delivery::Blocking, code }
}

fn one_attempt(event: Option<ServiceEvent<u64>>, code: u32) -> ControlResponse<u64> {
    ControlResponse { report: None, event, delivery: Delivery::OneAttempt, code }
}

fn check_stop(response: ControlResponse<u64>) {
    let report = response.report.expect("stop pending is reported");
    assert_eq!(report.handle, 0x1234);
    assert_eq!(report.status.current_state, 3);
    assert_eq!(report.status.wait_hint, 10);
    assert_eq!(report.status.controls_accepted, 5);
    assert_eq!(report.status.service_type, 0x10);
    assert_eq!(response.event, Some(ServiceEvent::Stop));
    assert_eq!(response.code, 0);
}

#[test]
fn stop_reports_stop_pending_and_sends_stop() {
    check_stop(service_handler::<u64>(handle(), SERVICE_CONTROL_STOP, 0, 0));
    check_stop(service_handler_async::<u64>(handle(), SERVICE_CONTROL_STOP, 0, 0));
}

#[test]
fn shutdown_is_handled_as_stop() {
    check_stop(service_handler::<u64>(handle(), SERVICE_CONTROL_SHUTDOWN, 9, 9));
    check_stop(service_handler_async::<u64>(handle(), SERVICE_CONTROL_SHUTDOWN, 9, 9));
}

#[test]
fn stop_wait_hint_is_not_zero() {
    assert_eq!(STOP_WAIT_HINT, 10);
}

#[test]
fn stop_before_registration_sends_stop_without_a_report() {
    let response = service_handler::<u64>(ServiceStatusHandle::unset(), SERVICE_CONTROL_STOP, 0, 0);
    assert_eq!(response.report, None);
    assert_eq!(response.event, Some(ServiceEvent::Stop));
    assert_eq!(response.code, 0);
}

#[test]
fn pause_and_continue_send_their_events() {
    let pause = service_handler::<u64>(handle(), SERVICE_CONTROL_PAUSE, 0, 0);
    assert_eq!(pause, blocking(Some(ServiceEvent::Pause), 0));
    let resume = service_handler::<u64>(handle(), SERVICE_CONTROL_CONTINUE, 0, 0);
    assert_eq!(resume, blocking(Some(ServiceEvent::Continue), 0));
}

#[test]
fn async_handler_sends_pause_and_continue() {
    let pause = service_handler_async::<u64>(handle(), SERVICE_CONTROL_PAUSE, 0, 0);
    assert_eq!(pause, one_attempt(Some(ServiceEvent::Pause), 0));
    let resume = service_handler_async::<u64>(handle(), SERVICE_CONTROL_CONTINUE, 0, 0);
    assert_eq!(resume, one_attempt(Some(ServiceEvent::Continue), 0));
}

#[test]
fn the_two_handlers_differ_in_the_delivery_alone() {
    for control in 0u32..40 {
        for reason in 0u32..12 {
            let thread = service_handler::<u64>(handle(), control, reason, 3);
            let task = service_handler_async::<u64>(handle(), control, reason, 3);
            assert_eq!(thread.report, task.report);
            assert_eq!(thread.event, task.event);
            assert_eq!(thread.code, task.code);
            assert_eq!(thread.delivery, Delivery::Blocking);
            assert_eq!(task.delivery, Delivery::OneAttempt);
        }
    }
}

#[test]
fn a_task_is_served_by_one_attempt() {
    assert_eq!(delivery(Hosting::Thread), Delivery::Blocking);
    assert_eq!(delivery(Hosting::Task), Delivery::OneAttempt);
    let response = service_handler_async::<u64>(handle(), SERVICE_CONTROL_STOP, 0, 0);
    assert_eq!(response.delivery, Delivery::OneAttempt);
}

#[test]
fn session_changes_send_the_event_of_their_reason() {
    let expected: [(u32, ServiceEvent<u64>); 8] = [
        (1, ServiceEvent::SessionConnect(Session(42))),
        (2, ServiceEvent::SessionDisconnect(Session(42))),
        (3, ServiceEvent::SessionRemoteConnect(Session(42))),
        (4, ServiceEvent::SessionRemoteDisconnect(Session(42))),
        (5, ServiceEvent::SessionLogon(Session(42))),
        (6, ServiceEvent::SessionLogoff(Session(42))),
        (7, ServiceEvent::SessionLock(Session(42))),
        (8, ServiceEvent::SessionUnlock(Session(42))),
    ];
    for (reason, event) in expected {
        let response = service_handler::<u64>(handle(), SERVICE_CONTROL_SESSIONCHANGE, reason, 42);
        assert_eq!(response.report, None);
        assert_eq!(response.code, 0);
        assert_eq!(response.event.as_ref(), Some(&event));
        let response =
            service_handler_async::<u64>(handle(), SERVICE_CONTROL_SESSIONCHANGE, reason, 42);
        assert_eq!(response.report, None);
        assert_eq!(response.code, 0);
        assert_eq!(response.event, Some(event));
    }
}

#[test]
fn session_change_of_another_reason_is_acknowledged_without_an_event() {
    for reason in [0u32, 9, 10, 11, 1000] {
        let response = service_handler::<u64>(handle(), SERVICE_CONTROL_SESSIONCHANGE, reason, 1);
        assert_eq!(response, blocking(None, 0));
        let response =
            service_handler_async::<u64>(handle(), SERVICE_CONTROL_SESSIONCHANGE, reason, 1);
        assert_eq!(response, one_attempt(None, 0));
    }
}

#[test]
fn other_signals_are_not_implemented() {
    for control in [0u32, 4, 6, 7, 0xF, 0x10, 0x20, 128, u32::MAX] {
        let response = service_handler::<u64>(handle(), control, 1, 1);
        assert_eq!(response, blocking(None, 120));
        let response = service_handler_async::<u64>(handle(), control, 1, 1);
        assert_eq!(response, one_attempt(None, 120));
    }
}

#[test]
fn session_of_an_event() {
    let event: ServiceEvent<u64> = ServiceEvent::SessionLock(Session(7));
    assert_eq!(event.session(), Some(Session(7)));
    assert_eq!(event.session().unwrap().id(), 7);
    assert_eq!(ServiceEvent::<u64>::Stop.session(), None);
    assert_eq!(ServiceEvent::Custom(5u64).session(), None);
}
