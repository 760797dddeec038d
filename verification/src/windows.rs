//! Administration of a service through the Windows service control manager.
//!
//! Every operation is a small state machine. It names the request that is to
//! be put to the service control manager next, takes the reply, and ends with
//! the result of the operation. Whoever drives it performs the requests; no
//! request is put here.

use vstd::prelude::*;
use crate::status::{SERVICE_STOPPED, SERVICE_WIN32_OWN_PROCESS};
use crate::text::{get_optional_utf16, get_utf16, join_arguments, joined, wide_text};

pub mod create;
pub mod delete;
pub mod handover;
pub mod model;
pub mod polling;
pub mod probe;
pub mod start;
pub mod stop;

pub use create::{CreateOp, CreateStage, ERROR_SERVICE_EXISTS};
pub use delete::{DeleteOp, DeleteStage};
pub use handover::{DispatchOp, DispatchStage};
pub use probe::{ExistsOp, ExistsStage};
pub use start::{StartOp, StartStage};
pub use stop::{StopOp, StopStage};

verus! {

/// Every access right to the service control manager.
pub const SC_MANAGER_ALL_ACCESS: u32 = 0xF003F;

/// Every access right to a service.
pub const SERVICE_ALL_ACCESS: u32 = 0xF01FF;

/// Start type of a service that the system starts by itself.
pub const SERVICE_AUTO_START: u32 = 0x2;

/// Error control of a service whose failure to start is logged, while the
/// system goes on starting.
pub const SERVICE_ERROR_NORMAL: u32 = 0x1;

/// For how many milliseconds an operation sleeps between two status queries.
pub const POLL_INTERVAL_MILLIS: u64 = 250;

/// Errors that can occur starting the service
#[derive(Clone, Copy, Debug, PartialEq, Eq, Structural)]
pub enum StartServiceError {
    /// The service control manager could not be opened, with this error code
    ManagerUnavailable(u32),
    /// The service control manager refused a request, with this error code
    WindowsError(u32),
    /// The service could not be brought into the started state; it was last
    /// seen in this state
    FailedToStart(u32),
}

/// Errors that can occur stopping the service
#[derive(Clone, Copy, Debug, PartialEq, Eq, Structural)]
pub enum StopServiceError {
    /// The service control manager could not be opened, with this error code
    ManagerUnavailable(u32),
    /// The service control manager refused a request, with this error code
    WindowsError(u32),
    /// The service could not be brought into the stopped state; it was last
    /// seen in this state
    FailedToStop(u32),
}

/// Errors that can occur creating the service
#[derive(Clone, Copy, Debug, PartialEq, Eq, Structural)]
pub enum CreateServiceError {
    /// The service control manager could not be opened, with this error code
    ManagerUnavailable(u32),
    /// The service control manager refused a request, with this error code
    WindowsError(u32),
}

/// Errors that can occur deleting the service
#[derive(Clone, Copy, Debug, PartialEq, Eq, Structural)]
pub enum DeleteServiceError {
    /// The service control manager could not be opened, with this error code
    ManagerUnavailable(u32),
    /// The service control manager refused a request, with this error code
    WindowsError(u32),
}

/// The configuration for constructing a Service
#[derive(Debug, PartialEq, Eq)]
pub struct ServiceConfig {
    /// The arguments for the service
    pub arguments: Vec<String>,
    /// The description of the service as presented to the user
    pub description: String,
    /// The path to the service binary
    pub binary: String,
    /// The username that the service should run as
    pub username: Option<String>,
    /// The display name of the service for the user.
    pub display: String,
    /// The password for the user that the service should run as
    pub user_password: Option<String>,
    /// The level of access to the service
    pub desired_access: u32,
    /// The service type
    pub service_type: u32,
    /// The service start options
    pub start_type: u32,
    /// Defines how the system responds if the service fails to start
    pub error_control: u32,
    /// Used to receive an id for the load order group
    pub tag_id: u32,
    /// Load ordering group that the service should belong to
    pub load_order_group: Option<String>,
    /// Other services that must start before this one
    pub dependencies: Option<String>,
}

impl ServiceConfig {
    /// Build a new service config with reasonable defaults: no display name,
    /// password, load order group or dependencies; every access right; a
    /// service in a process of its own that starts with the system and whose
    /// failure to start is logged.
    pub fn new(
        arguments: Vec<String>,
        description: String,
        binary: String,
        username: Option<String>,
    ) -> (config: Self)
        ensures
            config.arguments == arguments,
            config.description == description,
            config.binary == binary,
            config.username == username,
            config.display@ == Seq::<char>::empty(),
            config.user_password is None,
            config.desired_access == SERVICE_ALL_ACCESS,
            config.service_type == SERVICE_WIN32_OWN_PROCESS,
            config.start_type == SERVICE_AUTO_START,
            config.error_control == SERVICE_ERROR_NORMAL,
            config.tag_id == 0,
            config.load_order_group is None,
            config.dependencies is None,
    {
        ServiceConfig {
            arguments,
            description,
            binary,
            username,
            display: String::new(),
            user_password: None,
            desired_access: SERVICE_ALL_ACCESS,
            service_type: SERVICE_WIN32_OWN_PROCESS,
            start_type: SERVICE_AUTO_START,
            error_control: SERVICE_ERROR_NORMAL,
            tag_id: 0,
            load_order_group: None,
            dependencies: None,
        }
    }
}

/// The command line of a service: the binary alone where there are no
/// arguments, else the binary, a space, and the arguments joined by spaces.
pub open spec fn command_line(binary: Seq<char>, arguments: Seq<String>) -> Seq<char> {
    if arguments.len() == 0 {
        binary
    } else {
        binary + seq![' '] + joined(arguments)
    }
}

/// The name of the log source of a service: the name of the service, a space
/// and the word `Log`.
pub open spec fn log_source(name: Seq<char>) -> Seq<char> {
    name + seq![' ', 'L', 'o', 'g']
}

/// The wide form of an optional text.
pub open spec fn optional_wide_text(text: Option<String>) -> Option<Seq<u16>> {
    match text {
        Some(s) => Some(wide_text(s@)),
        None => None,
    }
}

/// The code units of an optional wide string.
pub open spec fn optional_units(units: Option<Vec<u16>>) -> Option<Seq<u16>> {
    match units {
        Some(u) => Some(u@),
        None => None,
    }
}

/// What the service control manager is given to create a service. Every text
/// is UTF-16 with a terminating zero; a text that is left out is `None`.
#[derive(Debug, PartialEq, Eq)]
pub struct ServiceDefinition {
    /// The name of the service
    pub name: Vec<u16>,
    /// The display name of the service
    pub display: Vec<u16>,
    /// The level of access to the service
    pub desired_access: u32,
    /// The service type
    pub service_type: u32,
    /// The service start options
    pub start_type: u32,
    /// Defines how the system responds if the service fails to start
    pub error_control: u32,
    /// The command line of the service
    pub command: Vec<u16>,
    /// Load ordering group that the service should belong to
    pub load_order_group: Option<Vec<u16>>,
    /// Other services that must start before this one
    pub dependencies: Option<Vec<u16>>,
    /// The username that the service should run as
    pub username: Option<Vec<u16>>,
    /// The password for the user that the service should run as
    pub password: Option<Vec<u16>>,
}

/// The contents of a `ServiceDefinition`.
pub struct ServiceDefinitionView {
    pub name: Seq<u16>,
    pub display: Seq<u16>,
    pub desired_access: u32,
    pub service_type: u32,
    pub start_type: u32,
    pub error_control: u32,
    pub command: Seq<u16>,
    pub load_order_group: Option<Seq<u16>>,
    pub dependencies: Option<Seq<u16>>,
    pub username: Option<Seq<u16>>,
    pub password: Option<Seq<u16>>,
}

impl View for ServiceDefinition {
    type V = ServiceDefinitionView;

    open spec fn view(&self) -> ServiceDefinitionView {
        ServiceDefinitionView {
            name: self.name@,
            display: self.display@,
            desired_access: self.desired_access,
            service_type: self.service_type,
            start_type: self.start_type,
            error_control: self.error_control,
            command: self.command@,
            load_order_group: optional_units(self.load_order_group),
            dependencies: optional_units(self.dependencies),
            username: optional_units(self.username),
            password: optional_units(self.password),
        }
    }
}

/// The definition under which a service of the given name is created from a
/// configuration.
pub open spec fn definition_of(name: Seq<char>, config: ServiceConfig) -> ServiceDefinitionView {
    ServiceDefinitionView {
        name: wide_text(name),
        display: wide_text(config.display@),
        desired_access: config.desired_access,
        service_type: config.service_type,
        start_type: config.start_type,
        error_control: config.error_control,
        command: wide_text(command_line(config.binary@, config.arguments@)),
        load_order_group: optional_wide_text(config.load_order_group),
        dependencies: optional_wide_text(config.dependencies),
        username: optional_wide_text(config.username),
        password: optional_wide_text(config.user_password),
    }
}

/// A request to the service control manager or to the event log. The requests
/// of one operation share the manager and the service that were opened or
/// created in its course.
#[derive(Debug, PartialEq, Eq)]
pub enum Request {
    /// Register a source of the event log
    RegisterLog { source: String },
    /// Remove a source of the event log
    DeregisterLog { source: String },
    /// Open the service control manager
    OpenManager { access: u32 },
    /// Open the service of this name
    OpenService { name: Vec<u16>, access: u32 },
    /// Create a service
    CreateService { definition: ServiceDefinition },
    /// Set the description of the service that was created
    SetDescription { description: Vec<u16> },
    /// Start the service that was opened
    StartService,
    /// Send a control signal to the service that was opened; the reply
    /// carries the state that the service is then in
    Control { control: u32 },
    /// Ask for the state of the service that was opened
    QueryStatus,
    /// Remove the service that was opened or created
    DeleteService,
    /// Hand the calling thread over to the service control manager, with a
    /// dispatch table of one entry under this name
    StartDispatcher { service_name: Vec<u16> },
    /// Sleep before the next request
    Sleep { millis: u64 },
}

/// The contents of a `Request`.
pub enum RequestView {
    RegisterLog { source: Seq<char> },
    DeregisterLog { source: Seq<char> },
    OpenManager { access: u32 },
    OpenService { name: Seq<u16>, access: u32 },
    CreateService { definition: ServiceDefinitionView },
    SetDescription { description: Seq<u16> },
    StartService,
    Control { control: u32 },
    QueryStatus,
    DeleteService,
    StartDispatcher { service_name: Seq<u16> },
    Sleep { millis: u64 },
}

impl View for Request {
    type V = RequestView;

    open spec fn view(&self) -> RequestView {
        match *self {
            Request::RegisterLog { source } => RequestView::RegisterLog { source: source@ },
            Request::DeregisterLog { source } => RequestView::DeregisterLog { source: source@ },
            Request::OpenManager { access } => RequestView::OpenManager { access },
            Request::OpenService { name, access } => RequestView::OpenService {
                name: name@,
                access,
            },
            Request::CreateService { definition } => RequestView::CreateService {
                definition: definition@,
            },
            Request::SetDescription { description } => RequestView::SetDescription {
                description: description@,
            },
            Request::StartService => RequestView::StartService,
            Request::Control { control } => RequestView::Control { control },
            Request::QueryStatus => RequestView::QueryStatus,
            Request::DeleteService => RequestView::DeleteService,
            Request::StartDispatcher { service_name } => RequestView::StartDispatcher {
                service_name: service_name@,
            },
            Request::Sleep { millis } => RequestView::Sleep { millis },
        }
    }
}

impl RequestView {
    /// Whether a request changes what the service control manager holds.
    pub open spec fn mutates(self) -> bool {
        !(self is OpenManager || self is OpenService || self is QueryStatus || self is Sleep)
    }
}

/// The contents of an optional request.
pub open spec fn request_view(request: Option<Request>) -> Option<RequestView> {
    match request {
        Some(r) => Some(r@),
        None => None,
    }
}

/// The reply to a request.
#[derive(Clone, Copy, Debug, PartialEq, Eq, Structural)]
pub enum Reply {
    /// The request was carried out
    Succeeded,
    /// The request was refused, with this error code
    Failed(u32),
    /// The request was carried out, and the service is in this state
    Status(u32),
}

impl Reply {
    /// The state that a reply shows the service in, `last` where it shows none.
    pub open spec fn state_or(self, last: u32) -> u32 {
        match self {
            Reply::Status(state) => state,
            _ => last,
        }
    }
}

/// Represents a service on the system
#[derive(Debug, PartialEq, Eq)]
pub struct Service {
    /// The name of the service, as known by the operating system
    name: String,
}

impl View for Service {
    type V = Seq<char>;

    closed spec fn view(&self) -> Seq<char> {
        self.name@
    }
}

/// A copy of a wide string.
pub(crate) fn copy_units(units: &Vec<u16>) -> (copy: Vec<u16>)
    ensures
        copy@ == units@,
{
    let copy = units.clone();
    assert(copy@ =~= units@);
    copy
}

/// A copy of an optional wide string.
fn copy_optional_units(units: &Option<Vec<u16>>) -> (copy: Option<Vec<u16>>)
    ensures
        optional_units(copy) == optional_units(*units),
{
    match units {
        Some(u) => Some(copy_units(u)),
        None => None,
    }
}

/// The wide form of an optional text.
fn wide_optional(text: &Option<String>) -> (wide: Option<Vec<u16>>)
    ensures
        optional_units(wide) == optional_wide_text(*text),
{
    match text {
        Some(s) => get_optional_utf16(Some(s.as_str())),
        None => get_optional_utf16(None),
    }
}

impl ServiceDefinition {
    /// A copy of the definition.
    pub fn duplicate(&self) -> (copy: ServiceDefinition)
        ensures
            copy@ == self@,
    {
        ServiceDefinition {
            name: copy_units(&self.name),
            display: copy_units(&self.display),
            desired_access: self.desired_access,
            service_type: self.service_type,
            start_type: self.start_type,
            error_control: self.error_control,
            command: copy_units(&self.command),
            load_order_group: copy_optional_units(&self.load_order_group),
            dependencies: copy_optional_units(&self.dependencies),
            username: copy_optional_units(&self.username),
            password: copy_optional_units(&self.password),
        }
    }
}

impl Service {
    /// Construct a new self
    pub fn new(name: String) -> (service: Self)
        ensures
            service@ == name@,
    {
        Service { name }
    }

    /// The name of the service, as known by the operating system.
    pub fn name(&self) -> (name: &str)
        ensures
            name@ == self@,
    {
        self.name.as_str()
    }

    /// The name of the log source of the service.
    pub fn log_source(&self) -> (source: String)
        ensures
            source@ == log_source(self@),
    {
        let mut source = self.name.clone();
        source.append(" Log");
        proof {
            reveal_strlit(" Log");
            assert(" Log"@ =~= seq![' ', 'L', 'o', 'g']);
        }
        source
    }

    /// The command line that a configuration gives the service.
    pub fn command_line(config: &ServiceConfig) -> (line: String)
        ensures
            line@ == command_line(config.binary@, config.arguments@),
    {
        let mut line = config.binary.clone();
        if config.arguments.len() > 0 {
            let arguments = join_arguments(&config.arguments);
            line.append(" ");
            line.append(arguments.as_str());
            proof {
                reveal_strlit(" ");
                assert(" "@ =~= seq![' ']);
            }
        }
        line
    }

    /// What the service control manager is given to create the service.
    pub fn definition(&self, config: &ServiceConfig) -> (definition: ServiceDefinition)
        ensures
            definition@ == definition_of(self@, *config),
    {
        let command = Service::command_line(config);
        ServiceDefinition {
            name: get_utf16(self.name.as_str()),
            display: get_utf16(config.display.as_str()),
            desired_access: config.desired_access,
            service_type: config.service_type,
            start_type: config.start_type,
            error_control: config.error_control,
            command: get_utf16(command.as_str()),
            load_order_group: wide_optional(&config.load_order_group),
            dependencies: wide_optional(&config.dependencies),
            username: wide_optional(&config.username),
            password: wide_optional(&config.user_password),
        }
    }

    /// Does the service already exist? The probe opens the service control
    /// manager and then the service, and changes nothing.
    pub fn is_installed(&self) -> (op: ExistsOp)
        ensures
            op.name@ == wide_text(self@),
            op.stage == ExistsStage::OpenManager,
    {
        ExistsOp { name: get_utf16(self.name.as_str()), stage: ExistsStage::OpenManager }
    }

    /// Stop the service: open it, send the stop signal, and ask for its
    /// state until it is no longer stop pending.
    pub fn stop(&mut self) -> (op: StopOp)
        ensures
            *final(self) == *old(self),
            op.name@ == wide_text(old(self)@),
            op.stage == StopStage::OpenManager,
            op.last_state is None,
    {
        StopOp {
            name: get_utf16(self.name.as_str()),
            stage: StopStage::OpenManager,
            last_state: None,
        }
    }

    /// Start the service: open it, start it, and ask for its state until it
    /// is no longer start pending.
    pub fn start(&mut self) -> (op: StartOp)
        ensures
            *final(self) == *old(self),
            op.name@ == wide_text(old(self)@),
            op.stage == StartStage::OpenManager,
            op.last_state == SERVICE_STOPPED,
    {
        StartOp {
            name: get_utf16(self.name.as_str()),
            stage: StartStage::OpenManager,
            last_state: SERVICE_STOPPED,
        }
    }

    /// Delete the service, and the log source that belongs to it.
    pub fn delete(&mut self) -> (op: DeleteOp)
        ensures
            *final(self) == *old(self),
            op.name@ == wide_text(old(self)@),
            op.log_source@ == log_source(old(self)@),
            op.stage == DeleteStage::OpenManager,
    {
        DeleteOp {
            name: get_utf16(self.name.as_str()),
            log_source: self.log_source(),
            stage: DeleteStage::OpenManager,
        }
    }

    /// Create the service from a configuration: register its log source,
    /// create it, and set its description. Where that cannot be done to the
    /// end, what was done is undone.
    pub fn create(&mut self, config: ServiceConfig) -> (op: CreateOp)
        ensures
            *final(self) == *old(self),
            op.log_source@ == log_source(old(self)@),
            op.definition@ == definition_of(old(self)@, config),
            op.description@ == wide_text(config.description@),
            op.stage == CreateStage::OpenManager,
    {
        CreateOp {
            log_source: self.log_source(),
            definition: self.definition(&config),
            description: get_utf16(config.description.as_str()),
            stage: CreateStage::OpenManager,
        }
    }

    /// Hand the calling thread over to the service control dispatcher, which
    /// runs the service until it has stopped.
    pub fn dispatch(&self) -> (op: DispatchOp)
        ensures
            op.stage == DispatchStage::StartDispatcher,
    {
        DispatchOp { stage: DispatchStage::StartDispatcher }
    }
}

} // verus!
