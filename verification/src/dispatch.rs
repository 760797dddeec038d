//! The dispatcher: the life of a service from the registration of its control
//! handler to the report that it has stopped.
//!
//! The dispatcher decides what is done next, and what a control signal leads
//! to at the point that the service has reached. Whoever drives it registers
//! the handler, reports the status, runs the service body, and tells the
//! dispatcher what came of it.

use vstd::prelude::*;
use crate::control::{
    control_response, is_terminal_control, service_handler, service_handler_async,
    ControlResponse, SERVICE_CONTROL_SHUTDOWN, SERVICE_CONTROL_STOP,
};
use crate::event::ServiceEvent;
use crate::status::{
    set_service_status, status_record, LifecyclePhase, ServiceStatusHandle, StatusReport,
    SERVICE_RUNNING, SERVICE_START_PENDING, SERVICE_STOPPED, SERVICE_STOP_PENDING,
};
use crate::text::{get_utf16, wide_text};

pub use crate::control::Hosting;

verus! {

/// The error code of a registration that returned no handle and no code.
pub const ERROR_INVALID_HANDLE: u32 = 6;

/// Where the dispatcher stands.
#[derive(Clone, Copy, Debug, PartialEq, Eq)]
pub enum HostStage {
    /// The control handler is to be registered
    Register,
    /// Start pending is to be reported
    ReportStartPending,
    /// Running is to be reported
    ReportRunning,
    /// The service body is to be run; the dispatcher waits for its end
    Host,
    /// A stop was asked for before the task ended: the task is to be
    /// cancelled
    Cancel,
    /// Stopped is to be reported
    ReportStopped,
    /// The dispatcher is done: with success after a whole life of the
    /// service, with the error code where the handler could not be registered
    Finished(Result<(), u32>),
}

/// What the dispatcher asks for.
#[derive(Debug, PartialEq, Eq)]
pub enum HostAction {
    /// Register the control handler under this name, in wide form
    Register { name: Vec<u16> },
    /// Report this status. A report that fails is logged and otherwise
    /// ignored
    Report(StatusReport),
    /// Run the service body with these arguments, and wait until the body
    /// has ended or the dispatcher asks for something else
    RunBody { args: Vec<String> },
    /// Cancel the service body
    CancelBody,
}

/// The contents of a `HostAction`.
pub enum HostActionView {
    Register { name: Seq<u16> },
    Report(StatusReport),
    RunBody { args: Seq<String> },
    CancelBody,
}

impl View for HostAction {
    type V = HostActionView;

    open spec fn view(&self) -> HostActionView {
        match *self {
            HostAction::Register { name } => HostActionView::Register { name: name@ },
            HostAction::Report(report) => HostActionView::Report(report),
            HostAction::RunBody { args } => HostActionView::RunBody { args: args@ },
            HostAction::CancelBody => HostActionView::CancelBody,
        }
    }
}

/// The contents of an optional action.
pub open spec fn action_view(action: Option<HostAction>) -> Option<HostActionView> {
    match action {
        Some(a) => Some(a@),
        None => None,
    }
}

/// What the dispatcher is told.
#[derive(Clone, Copy, Debug, PartialEq, Eq, Structural)]
pub enum HostEvent {
    /// The control handler was registered, and this is the status handle
    Registered(usize),
    /// The control handler could not be registered, with this error code
    RegistrationFailed(u32),
    /// The action was performed
    Done,
    /// The service body has ended, by returning or by failing
    BodyFinished,
}

/// The dispatcher of one service instance.
#[derive(Debug, PartialEq, Eq)]
pub struct Dispatcher {
    /// How the service body is hosted
    pub hosting: Hosting,
    /// The arguments that the service was started with; the first is its name
    pub args: Vec<String>,
    /// The status handle; set from the registration of the control handler
    /// until stopped has been reported
    pub handle: ServiceStatusHandle,
    /// Whether stop pending has been reported
    pub stop_pending: bool,
    /// Where the dispatcher stands
    pub stage: HostStage,
}

impl Dispatcher {
    /// The handle is set exactly between the registration and the end, stop
    /// pending is reported only once the body runs, and only a task that is
    /// to stop is cancelled.
    pub open spec fn wf(self) -> bool {
        &&& self.args@.len() > 0
        &&& (self.stage is Register || self.stage is Finished) <==> !self.handle.spec_is_set()
        &&& self.stop_pending ==> !(self.stage is Register || self.stage is ReportStartPending
            || self.stage is ReportRunning)
        &&& self.stage is Cancel ==> self.stop_pending && self.hosting is Task
    }

    /// The report of a state under the handle of the dispatcher, without a
    /// wait hint.
    pub open spec fn report_of(self, state: u32) -> StatusReport {
        StatusReport { handle: self.handle.0, status: status_record(state, 0) }
    }

    /// What is to be done next; `None` once the dispatcher is done.
    pub open spec fn spec_pending(self) -> Option<HostActionView> {
        match self.stage {
            HostStage::Register => Some(
                HostActionView::Register { name: wide_text(self.args@[0]@) },
            ),
            HostStage::ReportStartPending => Some(
                HostActionView::Report(self.report_of(SERVICE_START_PENDING)),
            ),
            HostStage::ReportRunning => Some(
                HostActionView::Report(self.report_of(SERVICE_RUNNING)),
            ),
            HostStage::Host => Some(HostActionView::RunBody { args: self.args@ }),
            HostStage::Cancel => Some(HostActionView::CancelBody),
            HostStage::ReportStopped => Some(
                HostActionView::Report(self.report_of(SERVICE_STOPPED)),
            ),
            HostStage::Finished(_) => None,
        }
    }

    /// The dispatcher after an event. An event that the stage does not wait
    /// for changes nothing.
    ///
    /// A registration that failed, or that gave no handle, ends the
    /// dispatcher with the error code before anything is reported or run.
    /// After a registration the handle is kept, start pending and running
    /// are reported, and the body is run. When the body has ended or has
    /// been cancelled, stopped is reported, and with that report the handle
    /// is given up.
    pub open spec fn spec_advance(self, event: HostEvent) -> Dispatcher {
        match (self.stage, event) {
            (HostStage::Register, HostEvent::Registered(handle)) => if handle != 0 {
                Dispatcher {
                    handle: ServiceStatusHandle(handle),
                    stage: HostStage::ReportStartPending,
                    ..self
                }
            } else {
                Dispatcher { stage: HostStage::Finished(Err(ERROR_INVALID_HANDLE)), ..self }
            },
            (HostStage::Register, HostEvent::RegistrationFailed(code)) => Dispatcher {
                stage: HostStage::Finished(Err(code)),
                ..self
            },
            (HostStage::ReportStartPending, HostEvent::Done) => Dispatcher {
                stage: HostStage::ReportRunning,
                ..self
            },
            (HostStage::ReportRunning, HostEvent::Done) => Dispatcher {
                stage: HostStage::Host,
                ..self
            },
            (HostStage::Host, HostEvent::BodyFinished) => Dispatcher {
                stage: HostStage::ReportStopped,
                ..self
            },
            (HostStage::Cancel, HostEvent::Done) => Dispatcher {
                stage: HostStage::ReportStopped,
                ..self
            },
            (HostStage::Cancel, HostEvent::BodyFinished) => Dispatcher {
                stage: HostStage::ReportStopped,
                ..self
            },
            (HostStage::ReportStopped, HostEvent::Done) => Dispatcher {
                handle: ServiceStatusHandle(0),
                stage: HostStage::Finished(Ok(())),
                ..self
            },
            _ => self,
        }
    }

    /// The result of the dispatcher, once it is done.
    pub open spec fn spec_outcome(self) -> Option<Result<(), u32>> {
        match self.stage {
            HostStage::Finished(result) => Some(result),
            _ => None,
        }
    }

    /// The handle under which the control handler may report: that of the
    /// dispatcher while the body runs and no stop is pending, and none at
    /// any other time.
    pub open spec fn reporting_handle(self) -> ServiceStatusHandle {
        if self.stage is Host && !self.stop_pending {
            self.handle
        } else {
            ServiceStatusHandle(0)
        }
    }

    /// The answer to a control signal at the point that the service has
    /// reached: that of the control handler under the reporting handle.
    pub open spec fn spec_response<T>(
        self,
        control: u32,
        event_type: u32,
        session_id: u32,
    ) -> ControlResponse<T> {
        control_response(self.hosting, self.reporting_handle(), control, event_type, session_id)
    }

    /// The dispatcher after a control signal. A stop or shutdown that comes
    /// while the body runs leaves stop pending, and has a task cancelled;
    /// no other signal changes anything.
    pub open spec fn spec_control(self, control: u32) -> Dispatcher {
        if is_terminal_control(control) && self.stage is Host {
            Dispatcher {
                stop_pending: true,
                stage: if self.hosting is Task {
                    HostStage::Cancel
                } else {
                    HostStage::Host
                },
                ..self
            }
        } else {
            self
        }
    }

    /// What is to be done next; `None` once the dispatcher is done.
    pub fn pending(&self) -> (action: Option<HostAction>)
        requires
            self.wf(),
        ensures
            action_view(action) == self.spec_pending(),
            action is None <==> self.spec_outcome() is Some,
    {
        match self.stage {
            HostStage::Register => Some(
                HostAction::Register { name: get_utf16(self.args[0].as_str()) },
            ),
            HostStage::ReportStartPending => self.report(LifecyclePhase::StartPending),
            HostStage::ReportRunning => self.report(LifecyclePhase::Running),
            HostStage::Host => {
                let args = self.args.clone();
                assert(args@ =~= self.args@);
                Some(HostAction::RunBody { args })
            },
            HostStage::Cancel => Some(HostAction::CancelBody),
            HostStage::ReportStopped => self.report(LifecyclePhase::Stopped),
            HostStage::Finished(_) => None,
        }
    }

    /// The action that reports a phase under the handle of the dispatcher.
    fn report(&self, phase: LifecyclePhase) -> (action: Option<HostAction>)
        requires
            self.handle.spec_is_set(),
        ensures
            action_view(action) == Some(
                HostActionView::Report(self.report_of(phase.spec_code())),
            ),
    {
        match set_service_status(self.handle, phase.code(), 0) {
            Ok(report) => Some(HostAction::Report(report)),
            Err(_) => None,
        }
    }

    /// Takes an event.
    pub fn advance(&mut self, event: HostEvent)
        requires
            old(self).wf(),
        ensures
            *final(self) == old(self).spec_advance(event),
            final(self).wf(),
    {
        match self.stage {
            HostStage::Register => match event {
                HostEvent::Registered(handle) => {
                    if handle != 0 {
                        self.handle = ServiceStatusHandle::new(handle);
                        self.stage = HostStage::ReportStartPending;
                    } else {
                        self.stage = HostStage::Finished(Err(ERROR_INVALID_HANDLE));
                    }
                },
                HostEvent::RegistrationFailed(code) => {
                    self.stage = HostStage::Finished(Err(code));
                },
                _ => {},
            },
            HostStage::ReportStartPending => match event {
                HostEvent::Done => {
                    self.stage = HostStage::ReportRunning;
                },
                _ => {},
            },
            HostStage::ReportRunning => match event {
                HostEvent::Done => {
                    self.stage = HostStage::Host;
                },
                _ => {},
            },
            HostStage::Host => match event {
                HostEvent::BodyFinished => {
                    self.stage = HostStage::ReportStopped;
                },
                _ => {},
            },
            HostStage::Cancel => match event {
                HostEvent::Done => {
                    self.stage = HostStage::ReportStopped;
                },
                HostEvent::BodyFinished => {
                    self.stage = HostStage::ReportStopped;
                },
                _ => {},
            },
            HostStage::ReportStopped => match event {
                HostEvent::Done => {
                    self.handle = ServiceStatusHandle::unset();
                    self.stage = HostStage::Finished(Ok(()));
                },
                _ => {},
            },
            HostStage::Finished(_) => {},
        }
    }

    /// Answers a control signal of the service manager at the point that the
    /// service has reached.
    ///
    /// The event and the code are those of the control handler. Stop pending
    /// is reported for the first stop or shutdown that comes while the body
    /// runs, and for no other signal: not before the body runs, not a second
    /// time, and not once the body has ended. That first stop or shutdown
    /// also has a task cancelled.
    pub fn control<T>(&mut self, control: u32, event_type: u32, session_id: u32) -> (response:
        ControlResponse<T>)
        requires
            old(self).wf(),
        ensures
            response == old(self).spec_response::<T>(control, event_type, session_id),
            *final(self) == old(self).spec_control(control),
            final(self).wf(),
            response.report is Some <==> is_terminal_control(control) && old(self).stage is Host
                && !old(self).stop_pending,
    {
        let running = match self.stage {
            HostStage::Host => true,
            _ => false,
        };
        let handle = if running && !self.stop_pending {
            self.handle
        } else {
            ServiceStatusHandle::unset()
        };
        let response = match self.hosting {
            Hosting::Thread => service_handler(handle, control, event_type, session_id),
            Hosting::Task => service_handler_async(handle, control, event_type, session_id),
        };
        if running && (control == SERVICE_CONTROL_STOP || control == SERVICE_CONTROL_SHUTDOWN) {
            self.stop_pending = true;
            match self.hosting {
                Hosting::Task => {
                    self.stage = HostStage::Cancel;
                },
                Hosting::Thread => {},
            }
        }
        response
    }

    /// The result of the dispatcher, once it is done.
    pub fn outcome(&self) -> (result: Option<Result<(), u32>>)
        ensures
            result == self.spec_outcome(),
    {
        match self.stage {
            HostStage::Finished(result) => Some(result),
            _ => None,
        }
    }
}

/// Begins the life of a service that was started with `args`, of which the
/// first is the name of the service. The arguments reach the body as they
/// are.
pub fn run_service(hosting: Hosting, args: Vec<String>) -> (dispatcher: Dispatcher)
    requires
        args@.len() > 0,
    ensures
        dispatcher.wf(),
        dispatcher.hosting == hosting,
        dispatcher.args == args,
        !dispatcher.handle.spec_is_set(),
        !dispatcher.stop_pending,
        dispatcher.stage == HostStage::Register,
{
    Dispatcher {
        hosting,
        args,
        handle: ServiceStatusHandle::unset(),
        stop_pending: false,
        stage: HostStage::Register,
    }
}

/// Something that happens in the life of a service instance.
pub enum CycleEvent {
    /// The dispatcher is told something
    Host(HostEvent),
    /// The service manager sends a control signal
    Control { control: u32, event_type: u32, session_id: u32 },
}

/// The state that an action reports, if it reports one.
pub open spec fn reported_state(action: Option<HostActionView>) -> Seq<u32> {
    match action {
        Some(HostActionView::Report(report)) => seq![report.status.current_state],
        _ => Seq::empty(),
    }
}

/// The state that is reported when something happens to a dispatcher: that
/// of the pending report when the report is done, that of the answer to a
/// control signal, and none otherwise.
pub open spec fn reported_by(dispatcher: Dispatcher, event: CycleEvent) -> Seq<u32> {
    match event {
        CycleEvent::Host(event) => if event is Done {
            reported_state(dispatcher.spec_pending())
        } else {
            Seq::empty()
        },
        CycleEvent::Control { control, event_type, session_id } => match dispatcher.spec_response::<
            (),
        >(control, event_type, session_id).report {
            Some(report) => seq![report.status.current_state],
            None => Seq::empty(),
        },
    }
}

/// The dispatcher after something has happened to it.
pub open spec fn after(dispatcher: Dispatcher, event: CycleEvent) -> Dispatcher {
    match event {
        CycleEvent::Host(event) => dispatcher.spec_advance(event),
        CycleEvent::Control { control, event_type, session_id } => dispatcher.spec_control(control),
    }
}

/// The states that are reported to the service manager, in their order,
/// while the events happen to a dispatcher.
pub open spec fn observed(dispatcher: Dispatcher, events: Seq<CycleEvent>) -> Seq<u32>
    decreases events.len(),
{
    if events.len() == 0 {
        Seq::empty()
    } else {
        reported_by(dispatcher, events[0]) + observed(
            after(dispatcher, events[0]),
            events.drop_first(),
        )
    }
}

/// Whether a state may be reported after another: both stand for a phase,
/// and the phase of the first may precede that of the second.
pub open spec fn follows(state: u32, next: u32) -> bool {
    match (LifecyclePhase::spec_from_code(state), LifecyclePhase::spec_from_code(next)) {
        (Some(phase), Some(following)) => phase.may_precede(following),
        _ => false,
    }
}

/// Whether a run of reports continues what was reported before it: the
/// first report is start pending where nothing was reported yet, and each
/// report may follow the one before it.
pub open spec fn in_order(last: Option<u32>, states: Seq<u32>) -> bool
    decreases states.len(),
{
    states.len() == 0 || ({
        &&& match last {
            Some(state) => follows(state, states[0]),
            None => states[0] == SERVICE_START_PENDING,
        }
        &&& in_order(Some(states[0]), states.drop_first())
    })
}

/// Whether each state of a run of reports may follow the one before it.
pub open spec fn moves_forward(states: Seq<u32>) -> bool {
    forall|i: int| 0 <= i < states.len() - 1 ==> follows(#[trigger] states[i], states[i + 1])
}

impl Dispatcher {
    /// The state that the dispatcher and its control handler reported last.
    pub open spec fn last_reported(self) -> Option<u32> {
        match self.stage {
            HostStage::Register => None,
            HostStage::ReportStartPending => None,
            HostStage::ReportRunning => Some(SERVICE_START_PENDING),
            HostStage::Host | HostStage::Cancel | HostStage::ReportStopped => if self.stop_pending {
                Some(SERVICE_STOP_PENDING)
            } else {
                Some(SERVICE_RUNNING)
            },
            HostStage::Finished(Ok(_)) => Some(SERVICE_STOPPED),
            HostStage::Finished(Err(_)) => None,
        }
    }
}

/// Whatever happens, and in whatever order, the phase that is reported only
/// moves forward: the reports begin with start pending, each may follow the
/// one before it, so none is made twice, and nothing follows stopped.
pub proof fn lemma_reports_in_order(dispatcher: Dispatcher, events: Seq<CycleEvent>)
    requires
        dispatcher.wf(),
    ensures
        in_order(dispatcher.last_reported(), observed(dispatcher, events)),
    decreases events.len(),
{
    if events.len() > 0 {
        let next = after(dispatcher, events[0]);
        let reported = reported_by(dispatcher, events[0]);
        let rest = observed(next, events.drop_first());
        assert(next.wf());
        lemma_reports_in_order(next, events.drop_first());
        if reported.len() == 0 {
            assert(next.last_reported() == dispatcher.last_reported());
            assert(reported + rest =~= rest);
        } else {
            assert(reported.len() == 1);
            assert(next.last_reported() == Some(reported[0]));
            assert(match dispatcher.last_reported() {
                Some(state) => follows(state, reported[0]),
                None => reported[0] == SERVICE_START_PENDING,
            });
            assert((reported + rest)[0] == reported[0]);
            assert((reported + rest).drop_first() =~= rest);
        }
    }
}

/// Reports that are in order move forward, and stopped is among them at most
/// once, as the last.
pub proof fn lemma_in_order_moves_forward(last: Option<u32>, states: Seq<u32>)
    requires
        in_order(last, states),
    ensures
        moves_forward(states),
        forall|i: int| 0 <= i < states.len() - 1 ==> states[i] != SERVICE_STOPPED,
    decreases states.len(),
{
    if states.len() > 0 {
        let rest = states.drop_first();
        lemma_in_order_moves_forward(Some(states[0]), rest);
        assert forall|i: int| 0 <= i < states.len() - 1 implies follows(
            #[trigger] states[i],
            states[i + 1],
        ) && states[i] != SERVICE_STOPPED by {
            if i == 0 {
                assert(rest[0] == states[1]);
                assert(follows(states[0], rest[0]));
            } else {
                assert(rest[i - 1] == states[i]);
                assert(rest[i] == states[i + 1]);
                assert(follows(rest[i - 1], rest[i]));
            }
        }
    }
}

/// From its beginning to whatever point, a dispatcher and its control
/// handler report states that move forward, with stopped at most once and
/// last.
pub proof fn lemma_life_moves_forward(dispatcher: Dispatcher, events: Seq<CycleEvent>)
    requires
        dispatcher.wf(),
    ensures
        moves_forward(observed(dispatcher, events)),
        forall|i: int|
            0 <= i < observed(dispatcher, events).len() - 1 ==> observed(dispatcher, events)[i]
                != SERVICE_STOPPED,
{
    lemma_reports_in_order(dispatcher, events);
    lemma_in_order_moves_forward(dispatcher.last_reported(), observed(dispatcher, events));
}

/// Once the dispatcher is done nothing is reported any more, whatever
/// signal comes.
pub proof fn lemma_nothing_after_the_end(dispatcher: Dispatcher, events: Seq<CycleEvent>)
    requires
        dispatcher.wf(),
        dispatcher.stage is Finished,
    ensures
        observed(dispatcher, events) == Seq::<u32>::empty(),
    decreases events.len(),
{
    if events.len() > 0 {
        assert(after(dispatcher, events[0]) == dispatcher);
        lemma_nothing_after_the_end(dispatcher, events.drop_first());
        assert(observed(dispatcher, events) =~= Seq::<u32>::empty());
    }
}

/// A dispatcher whose control handler could not be registered has nothing
/// reported and nothing run, whatever happens afterwards: it has ended with
/// the error code of the registration and asks for nothing.
pub proof fn lemma_failed_registration_does_no_work(
    dispatcher: Dispatcher,
    code: u32,
    events: Seq<CycleEvent>,
)
    requires
        dispatcher.wf(),
        dispatcher.stage == HostStage::Register,
    ensures
        ({
            let failed = dispatcher.spec_advance(HostEvent::RegistrationFailed(code));
            &&& failed.spec_outcome() == Some(Err::<(), u32>(code))
            &&& failed.spec_pending() is None
            &&& observed(failed, events) == Seq::<u32>::empty()
        }),
{
    lemma_nothing_after_the_end(
        dispatcher.spec_advance(HostEvent::RegistrationFailed(code)),
        events,
    );
}

/// Whether every event is a control signal.
pub open spec fn all_controls(events: Seq<CycleEvent>) -> bool {
    forall|i: int| 0 <= i < events.len() ==> events[i] is Control
}

/// How many of the events are a stop or a shutdown signal.
pub open spec fn terminal_controls(events: Seq<CycleEvent>) -> nat
    decreases events.len(),
{
    if events.len() == 0 {
        0
    } else {
        let rest = terminal_controls(events.drop_first());
        match events[0] {
            CycleEvent::Control { control, .. } => if is_terminal_control(control) {
                rest + 1
            } else {
                rest
            },
            _ => rest,
        }
    }
}

/// The end of a life: the body ends, and the last report is made.
pub open spec fn ending() -> Seq<CycleEvent> {
    seq![CycleEvent::Host(HostEvent::BodyFinished), CycleEvent::Host(HostEvent::Done)]
}

/// The events of a whole life: the registration, the two reports of the
/// start, the control signals that come while the body runs, the end of the
/// body, and the last report.
pub open spec fn full_cycle(handle: usize, controls: Seq<CycleEvent>) -> Seq<CycleEvent> {
    seq![
        CycleEvent::Host(HostEvent::Registered(handle)),
        CycleEvent::Host(HostEvent::Done),
        CycleEvent::Host(HostEvent::Done),
    ] + controls + ending()
}

/// Stop pending where it is reported, and nothing where it is not.
pub open spec fn stop_pending_if(reported: bool) -> Seq<u32> {
    if reported {
        seq![SERVICE_STOP_PENDING]
    } else {
        Seq::empty()
    }
}

/// From the point where the body runs: however many control signals come,
/// stop pending is reported once if a stop or shutdown is among them and
/// none was pending, and then stopped.
pub proof fn lemma_body_phase(dispatcher: Dispatcher, controls: Seq<CycleEvent>)
    requires
        dispatcher.wf(),
        dispatcher.stage is Host || dispatcher.stage is Cancel,
        all_controls(controls),
    ensures
        observed(dispatcher, controls + ending()) == stop_pending_if(
            !dispatcher.stop_pending && terminal_controls(controls) > 0,
        ) + seq![SERVICE_STOPPED],
    decreases controls.len(),
{
    let events = controls + ending();
    if controls.len() == 0 {
        assert(events =~= ending());
        let ended = after(dispatcher, events[0]);
        let rest = events.drop_first();
        assert(ended.stage is ReportStopped);
        assert(rest.len() == 1 && rest[0] == CycleEvent::Host(HostEvent::Done));
        assert(reported_by(ended, rest[0]) == seq![SERVICE_STOPPED]);
        assert(rest.drop_first().len() == 0);
        assert(observed(after(ended, rest[0]), rest.drop_first()) == Seq::<u32>::empty());
        assert(observed(ended, rest) =~= seq![SERVICE_STOPPED]);
        assert(observed(dispatcher, events) =~= seq![SERVICE_STOPPED]);
    } else {
        let rest = controls.drop_first();
        assert(controls[0] is Control);
        assert forall|i: int| 0 <= i < rest.len() implies rest[i] is Control by {
            assert(rest[i] == controls[i + 1]);
        }
        assert(events[0] == controls[0]);
        assert(events.drop_first() =~= rest + ending());
        let next = after(dispatcher, controls[0]);
        lemma_body_phase(next, rest);
        assert(observed(dispatcher, events) =~= stop_pending_if(
            !dispatcher.stop_pending && terminal_controls(controls) > 0,
        ) + seq![SERVICE_STOPPED]);
    }
}

/// Over a whole life of a service the states are reported in one order:
/// start pending, running, stop pending if a stop or shutdown signal came
/// while the body ran, and stopped. Each is reported once, however many
/// signals come, and signals other than stop and shutdown leave no trace in
/// the reports.
pub proof fn lemma_full_cycle_order(
    dispatcher: Dispatcher,
    handle: usize,
    controls: Seq<CycleEvent>,
)
    requires
        dispatcher.wf(),
        dispatcher.stage == HostStage::Register,
        handle != 0,
        all_controls(controls),
    ensures
        observed(dispatcher, full_cycle(handle, controls)) == seq![
            SERVICE_START_PENDING,
            SERVICE_RUNNING,
        ] + stop_pending_if(terminal_controls(controls) > 0) + seq![SERVICE_STOPPED],
{
    let events = full_cycle(handle, controls);
    let d1 = after(dispatcher, events[0]);
    let e1 = events.drop_first();
    let d2 = after(d1, e1[0]);
    let e2 = e1.drop_first();
    let d3 = after(d2, e2[0]);
    let e3 = e2.drop_first();
    assert(e3 =~= controls + ending());
    assert(reported_by(dispatcher, events[0]) == Seq::<u32>::empty());
    assert(reported_by(d1, e1[0]) == seq![SERVICE_START_PENDING]);
    assert(reported_by(d2, e2[0]) == seq![SERVICE_RUNNING]);
    assert(d3.stage is Host && !d3.stop_pending && d3.wf());
    lemma_body_phase(d3, controls);
    assert(observed(d2, e2) == seq![SERVICE_RUNNING] + observed(d3, e3));
    assert(observed(d1, e1) == seq![SERVICE_START_PENDING] + observed(d2, e2));
    assert(observed(dispatcher, events) =~= seq![SERVICE_START_PENDING, SERVICE_RUNNING]
        + stop_pending_if(terminal_controls(controls) > 0) + seq![SERVICE_STOPPED]);
}

/// A whole life in which a signal to stop or shut down is sent while the
/// body runs reports start pending, running, stop pending, stopped: each
/// once, in this order, whether the body runs on a thread or as a task and
/// however often the signal is repeated.
pub proof fn lemma_stopped_cycle_order(
    dispatcher: Dispatcher,
    handle: usize,
    controls: Seq<CycleEvent>,
)
    requires
        dispatcher.wf(),
        dispatcher.stage == HostStage::Register,
        handle != 0,
        all_controls(controls),
        terminal_controls(controls) > 0,
    ensures
        observed(dispatcher, full_cycle(handle, controls)) == seq![
            SERVICE_START_PENDING,
            SERVICE_RUNNING,
            SERVICE_STOP_PENDING,
            SERVICE_STOPPED,
        ],
{
    lemma_full_cycle_order(dispatcher, handle, controls);
    assert(seq![SERVICE_START_PENDING, SERVICE_RUNNING] + seq![SERVICE_STOP_PENDING]
        + seq![SERVICE_STOPPED] =~= seq![
        SERVICE_START_PENDING,
        SERVICE_RUNNING,
        SERVICE_STOP_PENDING,
        SERVICE_STOPPED,
    ]);
}

/// The reports of a whole life, in their order: start pending, running,
/// stop pending where a stop is asked for while the body runs, and stopped.
pub open spec fn life(stopped: bool) -> Seq<u32> {
    seq![SERVICE_START_PENDING, SERVICE_RUNNING] + stop_pending_if(stopped) + seq![SERVICE_STOPPED]
}

impl Dispatcher {
    /// The reports that are still to come until the end of the life, where
    /// `stopped` tells whether a stop is yet asked for while the body runs.
    pub open spec fn to_come(self, stopped: bool) -> Seq<u32> {
        match self.stage {
            HostStage::Register | HostStage::ReportStartPending => life(stopped),
            HostStage::ReportRunning => seq![SERVICE_RUNNING] + stop_pending_if(stopped)
                + seq![SERVICE_STOPPED],
            HostStage::Host => stop_pending_if(stopped && !self.stop_pending)
                + seq![SERVICE_STOPPED],
            HostStage::Cancel | HostStage::ReportStopped => seq![SERVICE_STOPPED],
            HostStage::Finished(_) => Seq::empty(),
        }
    }
}

/// Whatever happens to a dispatcher, and in whatever order, what is reported
/// from then on is a beginning of the reports that are still to come: no
/// report is left out, none is made twice, and none is made out of turn.
pub proof fn lemma_reports_follow_the_life(dispatcher: Dispatcher, events: Seq<CycleEvent>)
    requires
        dispatcher.wf(),
    ensures
        observed(dispatcher, events).is_prefix_of(dispatcher.to_come(true)) || observed(
            dispatcher,
            events,
        ).is_prefix_of(dispatcher.to_come(false)),
    decreases events.len(),
{
    let seen = observed(dispatcher, events);
    if events.len() > 0 {
        let next = after(dispatcher, events[0]);
        let reported = reported_by(dispatcher, events[0]);
        let rest = observed(next, events.drop_first());
        assert(next.wf());
        lemma_reports_follow_the_life(next, events.drop_first());
        assert(seen == reported + rest);
        if rest.is_prefix_of(next.to_come(true)) {
            let whole = reported + next.to_come(true);
            assert(seen.is_prefix_of(whole)) by {
                assert(seen =~= whole.subrange(0, seen.len() as int));
            }
            if whole =~= dispatcher.to_come(true) {
            } else if whole =~= dispatcher.to_come(false) {
            } else {
                assert(next.stage is Finished);
                assert(seen =~= Seq::<u32>::empty());
            }
        } else {
            let whole = reported + next.to_come(false);
            assert(seen.is_prefix_of(whole)) by {
                assert(seen =~= whole.subrange(0, seen.len() as int));
            }
            if whole =~= dispatcher.to_come(false) {
            } else if whole =~= dispatcher.to_come(true) {
            } else {
                assert(next.stage is Finished);
                assert(seen =~= Seq::<u32>::empty());
            }
        }
    } else {
        assert(seen =~= Seq::<u32>::empty());
    }
}

/// From the beginning of a dispatcher, whatever happens and in whatever
/// order, the reports are a beginning of start pending, running, stopped,
/// with stop pending between running and stopped where a stop was asked for
/// while the body ran.
pub proof fn lemma_reports_are_a_beginning_of_the_life(
    dispatcher: Dispatcher,
    events: Seq<CycleEvent>,
)
    requires
        dispatcher.wf(),
        dispatcher.stage == HostStage::Register,
    ensures
        observed(dispatcher, events).is_prefix_of(life(true)) || observed(
            dispatcher,
            events,
        ).is_prefix_of(life(false)),
{
    lemma_reports_follow_the_life(dispatcher, events);
}

/// A stop or shutdown signal that comes while the body runs has stop pending
/// reported with a wait hint and `Stop` sent to the body, under either
/// hosting, and a task is then cancelled. Once the body has ended or has
/// been cancelled, the next thing that the dispatcher asks for is the report
/// of stopped, and with it the dispatcher ends in success.
pub proof fn lemma_stop_leads_to_stopped(
    dispatcher: Dispatcher,
    control: u32,
    event_type: u32,
    session_id: u32,
)
    requires
        dispatcher.wf(),
        dispatcher.stage == HostStage::Host,
        !dispatcher.stop_pending,
        is_terminal_control(control),
    ensures
        ({
            let response = dispatcher.spec_response::<()>(control, event_type, session_id);
            &&& response.event == Some(ServiceEvent::<()>::Stop)
            &&& response.report matches Some(r) && r.status.current_state == SERVICE_STOP_PENDING
                && r.status.wait_hint > 0
        }),
        ({
            let stopping = dispatcher.spec_control(control);
            let ended = if dispatcher.hosting is Task {
                stopping.spec_advance(HostEvent::Done)
            } else {
                stopping.spec_advance(HostEvent::BodyFinished)
            };
            &&& dispatcher.hosting is Task ==> stopping.spec_pending() == Some(
                HostActionView::CancelBody,
            )
            &&& dispatcher.hosting is Thread ==> stopping.spec_pending() == Some(
                HostActionView::RunBody { args: dispatcher.args@ },
            )
            &&& ended.spec_pending() == Some(
                HostActionView::Report(dispatcher.report_of(SERVICE_STOPPED)),
            )
            &&& ended.spec_advance(HostEvent::Done).spec_outcome() == Some(Ok::<(), u32>(()))
        }),
{
}

} // verus!
