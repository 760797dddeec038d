//! Administration of a service through systemd.
//!
//! Every operation is a small state machine. It names the request that is to
//! be put to the host next, takes the reply, and ends with the result of the
//! operation. Whoever drives it touches the files and calls systemctl; nothing
//! of that is done here.

use vstd::prelude::*;
use crate::error::{create_error_of, CreateError, StartStopError};
use crate::text::{join_arguments, joined};



pub mod model;

verus! {

/// The configuration for constructing a Service.
#[derive(Debug, PartialEq, Eq)]
pub struct ServiceConfig {
    /// The arguments for the service
    pub arguments: Vec<String>,
    /// The description of the service as presented to the user
    pub description: String,
    /// The path to the service binary
    pub binary: String,
    /// The username that the service should run as
    pub username: Option<String>,
    /// The path to the configuration data for the service
    pub config_path: String,
}

impl ServiceConfig {
    /// Build a new service config with reasonable defaults: the path to the
    /// configuration data is empty.
    pub fn new(
        arguments: Vec<String>,
        description: String,
        binary: String,
        username: Option<String>,
    ) -> (config: Self)
        ensures
            config.arguments == arguments,
            config.description == description,
            config.binary == binary,
            config.username == username,
            config.config_path@ == Seq::<char>::empty(),
    {
        ServiceConfig { arguments, description, binary, config_path: String::new(), username }
    }
}

/// The texts of a list of strings.
pub open spec fn texts(strings: Seq<String>) -> Seq<Seq<char>> {
    strings.map_values(|s: String| s@)
}

/// The line of a unit file that names the user; nothing where no user is
/// given.
pub open spec fn user_line(username: Option<String>) -> Seq<char> {
    match username {
        Some(user) => "User="@ + user@ + "\n"@,
        None => Seq::empty(),
    }
}

/// The text of the unit file of a service with the given configuration.
pub open spec fn unit_file_text(config: ServiceConfig) -> Seq<char> {
    "[Unit]\nDescription="@ + config.description@ + "\n\n[Service]\n"@ + user_line(config.username)
        + "WorkingDirectory="@ + config.config_path@ + "\nExecStart="@ + config.binary@ + " "@
        + joined(config.arguments@) + "\n\n[Install]\nWantedBy=multi-user.target\n"@
}

/// The path of the unit file of a service: `<name>.service` in the directory
/// of the system units. A name that begins with a slash is a path of its
/// own, and the directory is left out.
pub open spec fn unit_file_path(name: Seq<char>) -> Seq<char> {
    if name.len() > 0 && name[0] == '/' {
        name + ".service"@
    } else {
        "/etc/systemd/system"@ + "/"@ + name + ".service"@
    }
}

/// A request to the host of the service.
#[derive(Debug, PartialEq, Eq)]
pub enum Request {
    /// Tell whether there is a file at this path
    ProbeFile { path: String },
    /// Write this content to a file at this path, so that in the end the
    /// file is there whole or not at all
    WriteFile { path: String, content: String },
    /// Remove the file at this path
    RemoveFile { path: String },
    /// Call systemctl with these arguments
    Systemctl { arguments: Vec<String> },
}

/// The contents of a `Request`.
pub enum RequestView {
    ProbeFile { path: Seq<char> },
    WriteFile { path: Seq<char>, content: Seq<char> },
    RemoveFile { path: Seq<char> },
    Systemctl { arguments: Seq<Seq<char>> },
}

impl View for Request {
    type V = RequestView;

    open spec fn view(&self) -> RequestView {
        match *self {
            Request::ProbeFile { path } => RequestView::ProbeFile { path: path@ },
            Request::WriteFile { path, content } => RequestView::WriteFile {
                path: path@,
                content: content@,
            },
            Request::RemoveFile { path } => RequestView::RemoveFile { path: path@ },
            Request::Systemctl { arguments } => RequestView::Systemctl {
                arguments: texts(arguments@),
            },
        }
    }
}

/// The contents of an optional request.
pub open spec fn request_view(request: Option<Request>) -> Option<RequestView> {
    match request {
        Some(r) => Some(r@),
        None => None,
    }
}

/// The reply to a request.
#[derive(Debug)]
pub enum Reply {
    /// Whether the file is there
    Present(bool),
    /// The file was written or removed
    Completed,
    /// The file could not be written or removed, or systemctl could not be
    /// called
    IoFailed(std::io::Error),
    /// Systemctl was called, and this is whether it succeeded
    Exited { success: bool },
}

/// What a reply to a call of systemctl means: success and failure go by the
/// exit status, and any other reply means that systemctl was not called.
pub open spec fn systemctl_result(reply: Reply) -> Result<(), StartStopError> {
    match reply {
        Reply::Exited { success } => if success {
            Ok(())
        } else {
            Err(StartStopError::SystemCtlFailed)
        },
        _ => Err(StartStopError::NoSystemCtl),
    }
}

/// What a reply to the reload means for the creation of a service.
pub open spec fn reload_result(reply: Reply) -> Result<(), CreateError> {
    match systemctl_result(reply) {
        Ok(()) => Ok(()),
        Err(error) => Err(create_error_of(error)),
    }
}

/// What a reply to a call of systemctl means.
fn read_systemctl_reply(reply: &Reply) -> (result: Result<(), StartStopError>)
    ensures
        result == systemctl_result(*reply),
{
    match reply {
        Reply::Exited { success } => if *success {
            Ok(())
        } else {
            Err(StartStopError::SystemCtlFailed)
        },
        _ => Err(StartStopError::NoSystemCtl),
    }
}

/// The probe whether the unit file of a service is there.
#[derive(Debug, PartialEq, Eq)]
pub struct ExistsOp {
    /// The path of the unit file
    pub path: String,
    /// Whether the file is there, once the probe has ended
    pub found: Option<bool>,
}

impl ExistsOp {
    /// The request that is to be put next; `None` once the probe has ended.
    pub open spec fn spec_pending(self) -> Option<RequestView> {
        match self.found {
            None => Some(RequestView::ProbeFile { path: self.path@ }),
            Some(_) => None,
        }
    }

    /// The probe after the reply to its request: the service exists where
    /// the reply says that the file is there.
    pub open spec fn spec_advance(self, reply: Reply) -> ExistsOp {
        match self.found {
            None => ExistsOp { found: Some(reply == Reply::Present(true)), ..self },
            Some(_) => self,
        }
    }

    /// The request that is to be put next; `None` once the probe has ended.
    /// The probe only asks; it changes nothing.
    pub fn pending(&self) -> (request: Option<Request>)
        ensures
            request_view(request) == self.spec_pending(),
            request is None <==> self.found is Some,
            request matches Some(r) ==> r@ is ProbeFile,
    {
        match self.found {
            None => Some(Request::ProbeFile { path: self.path.clone() }),
            Some(_) => None,
        }
    }

    /// Takes the reply to the pending request. A probe that has ended stays
    /// as it is.
    pub fn advance(&mut self, reply: Reply)
        ensures
            *final(self) == old(self).spec_advance(reply),
    {
        if self.found.is_none() {
            let found = match reply {
                Reply::Present(present) => present,
                _ => false,
            };
            self.found = Some(found);
        }
    }

    /// Whether the service exists, once the probe has ended.
    pub fn outcome(&self) -> (found: Option<bool>)
        ensures
            found == self.found,
    {
        self.found
    }
}

/// One call of systemctl: to start a service, to stop it, or to have the
/// units read again.
#[derive(Debug, PartialEq, Eq)]
pub struct SystemctlOp {
    /// The arguments of the call
    pub arguments: Vec<String>,
    /// The result of the call, once it has been made
    pub result: Option<Result<(), StartStopError>>,
}

impl SystemctlOp {
    /// The request that is to be put next; `None` once the operation has
    /// ended.
    pub open spec fn spec_pending(self) -> Option<RequestView> {
        match self.result {
            None => Some(RequestView::Systemctl { arguments: texts(self.arguments@) }),
            Some(_) => None,
        }
    }

    /// The operation after the reply to its request.
    pub open spec fn spec_advance(self, reply: Reply) -> SystemctlOp {
        match self.result {
            None => SystemctlOp { result: Some(systemctl_result(reply)), ..self },
            Some(_) => self,
        }
    }

    /// The request that is to be put next; `None` once the operation has
    /// ended.
    pub fn pending(&self) -> (request: Option<Request>)
        ensures
            request_view(request) == self.spec_pending(),
            request is None <==> self.result is Some,
    {
        match self.result {
            None => {
                let arguments = self.arguments.clone();
                assert(arguments@ =~= self.arguments@);
                Some(Request::Systemctl { arguments })
            },
            Some(_) => None,
        }
    }

    /// Takes the reply to the pending request. An operation that has ended
    /// stays as it is.
    pub fn advance(&mut self, reply: Reply)
        ensures
            *final(self) == old(self).spec_advance(reply),
    {
        if self.result.is_none() {
            self.result = Some(read_systemctl_reply(&reply));
        }
    }

    /// The result of the operation, once it has ended: success where
    /// systemctl succeeded, `SystemCtlFailed` where it failed, and
    /// `NoSystemCtl` where it could not be called.
    pub fn outcome(&self) -> (result: Option<Result<(), StartStopError>>)
        ensures
            result == self.result,
    {
        self.result
    }
}

/// Where the creation of a service stands.
#[derive(Debug)]
pub enum CreateStage {
    /// The unit file is to be looked for
    Probe,
    /// The unit file is to be written
    WriteFile,
    /// The units are to be read again
    Reload,
    /// The operation has ended
    Finished(Result<(), CreateError>),
}

/// The creation of a service.
#[derive(Debug)]
pub struct CreateOp {
    /// The path of the unit file
    pub path: String,
    /// The text of the unit file
    pub content: String,
    /// Where the operation stands
    pub stage: CreateStage,
}

impl CreateOp {
    /// The request that is to be put next; `None` once the operation has
    /// ended.
    pub open spec fn spec_pending(self) -> Option<RequestView> {
        match self.stage {
            CreateStage::Probe => Some(RequestView::ProbeFile { path: self.path@ }),
            CreateStage::WriteFile => Some(
                RequestView::WriteFile { path: self.path@, content: self.content@ },
            ),
            CreateStage::Reload => Some(
                RequestView::Systemctl { arguments: seq!["daemon-reload"@] },
            ),
            CreateStage::Finished(_) => None,
        }
    }

    /// The operation after the reply to its pending request.
    ///
    /// A unit file that is there already ends the operation with
    /// `AlreadyExists`, and nothing is written. A unit file that cannot be
    /// written ends it with the error of the host, and nothing is reloaded.
    /// After the unit file is written the result is that of the reload.
    pub open spec fn spec_advance(self, reply: Reply) -> CreateOp {
        match self.stage {
            CreateStage::Probe => if reply == Reply::Present(true) {
                CreateOp { stage: CreateStage::Finished(Err(CreateError::AlreadyExists)), ..self }
            } else {
                CreateOp { stage: CreateStage::WriteFile, ..self }
            },
            CreateStage::WriteFile => match reply {
                Reply::IoFailed(error) => CreateOp {
                    stage: CreateStage::Finished(Err(CreateError::FileIoError(error))),
                    ..self
                },
                _ => CreateOp { stage: CreateStage::Reload, ..self },
            },
            CreateStage::Reload => CreateOp {
                stage: CreateStage::Finished(reload_result(reply)),
                ..self
            },
            CreateStage::Finished(_) => self,
        }
    }

    /// The result of the operation, once it has ended.
    pub open spec fn spec_outcome(self) -> Option<Result<(), CreateError>> {
        match self.stage {
            CreateStage::Finished(result) => Some(result),
            _ => None,
        }
    }

    /// The request that is to be put next; `None` once the operation has
    /// ended.
    pub fn pending(&self) -> (request: Option<Request>)
        ensures
            request_view(request) == self.spec_pending(),
            request is None <==> self.spec_outcome() is Some,
    {
        match &self.stage {
            CreateStage::Probe => Some(Request::ProbeFile { path: self.path.clone() }),
            CreateStage::WriteFile => Some(
                Request::WriteFile { path: self.path.clone(), content: self.content.clone() },
            ),
            CreateStage::Reload => {
                let mut arguments: Vec<String> = Vec::new();
                arguments.push(String::from_str("daemon-reload"));
                assert(texts(arguments@) =~= seq!["daemon-reload"@]);
                Some(Request::Systemctl { arguments })
            },
            CreateStage::Finished(_) => None,
        }
    }

    /// Takes the reply to the pending request. An operation that has ended
    /// stays as it is.
    pub fn advance(&mut self, reply: Reply)
        ensures
            *final(self) == old(self).spec_advance(reply),
    {
        match &self.stage {
            CreateStage::Probe => match reply {
                Reply::Present(true) => {
                    self.stage = CreateStage::Finished(Err(CreateError::AlreadyExists));
                },
                _ => {
                    self.stage = CreateStage::WriteFile;
                },
            },
            CreateStage::WriteFile => match reply {
                Reply::IoFailed(error) => {
                    self.stage = CreateStage::Finished(Err(CreateError::FileIoError(error)));
                },
                _ => {
                    self.stage = CreateStage::Reload;
                },
            },
            CreateStage::Reload => {
                let result = match read_systemctl_reply(&reply) {
                    Ok(()) => Ok(()),
                    Err(error) => Err(CreateError::from(error)),
                };
                self.stage = CreateStage::Finished(result);
            },
            CreateStage::Finished(_) => {},
        }
    }

    /// The result of the operation, once it has ended.
    pub fn outcome(self) -> (result: Option<Result<(), CreateError>>)
        ensures
            result == self.spec_outcome(),
    {
        match self.stage {
            CreateStage::Finished(result) => Some(result),
            _ => None,
        }
    }
}

/// The removal of a service.
#[derive(Debug)]
pub struct DeleteOp {
    /// The path of the unit file
    pub path: String,
    /// The result of the removal, once it has been tried
    pub result: Option<Result<(), std::io::Error>>,
}

impl DeleteOp {
    /// The request that is to be put next; `None` once the operation has
    /// ended.
    pub open spec fn spec_pending(self) -> Option<RequestView> {
        match self.result {
            None => Some(RequestView::RemoveFile { path: self.path@ }),
            Some(_) => None,
        }
    }

    /// The operation after the reply to its request: a unit file that could
    /// not be removed, one that was not there among them, ends it with the
    /// error of the host.
    pub open spec fn spec_advance(self, reply: Reply) -> DeleteOp {
        match self.result {
            None => match reply {
                Reply::IoFailed(error) => DeleteOp { result: Some(Err(error)), ..self },
                _ => DeleteOp { result: Some(Ok(())), ..self },
            },
            Some(_) => self,
        }
    }

    /// The request that is to be put next; `None` once the operation has
    /// ended.
    pub fn pending(&self) -> (request: Option<Request>)
        ensures
            request_view(request) == self.spec_pending(),
            request is None <==> self.result is Some,
    {
        match &self.result {
            None => Some(Request::RemoveFile { path: self.path.clone() }),
            Some(_) => None,
        }
    }

    /// Takes the reply to the pending request. An operation that has ended
    /// stays as it is.
    pub fn advance(&mut self, reply: Reply)
        ensures
            *final(self) == old(self).spec_advance(reply),
    {
        if self.result.is_none() {
            match reply {
                Reply::IoFailed(error) => {
                    self.result = Some(Err(error));
                },
                _ => {
                    self.result = Some(Ok(()));
                },
            }
        }
    }

    /// The result of the operation, once it has ended.
    pub fn outcome(self) -> (result: Option<Result<(), std::io::Error>>)
        ensures
            result == self.result,
    {
        self.result
    }
}

/// Represents a service on the system
#[derive(Debug, PartialEq, Eq)]
pub struct Service {
    /// The name of the service, as known by the operating system
    name: String,
}

impl View for Service {
    type V = Seq<char>;

    closed spec fn view(&self) -> Seq<char> {
        self.name@
    }
}

impl Service {
    /// Construct a new self
    pub fn new(name: String) -> (service: Self)
        ensures
            service@ == name@,
    {
        Service { name }
    }

    /// The name of the service, as known by the operating system.
    pub fn name(&self) -> (name: &str)
        ensures
            name@ == self@,
    {
        self.name.as_str()
    }

    /// The directory of the system units.
    pub fn systemd_path(&self) -> (path: String)
        ensures
            path@ == "/etc/systemd/system"@,
    {
        String::from_str("/etc/systemd/system")
    }

    /// The path of the unit file of the service.
    pub fn unit_file_path(&self) -> (path: String)
        ensures
            path@ == unit_file_path(self@),
    {
        let name = self.name.as_str();
        if name.unicode_len() > 0 && name.get_char(0) == '/' {
            let mut path = self.name.clone();
            path.append(".service");
            path
        } else {
            let mut path = self.systemd_path();
            path.append("/");
            path.append(name);
            path.append(".service");
            path
        }
    }

    /// A call of systemctl with a verb and the name of the service.
    fn systemctl(&self, verb: &str) -> (op: SystemctlOp)
        ensures
            texts(op.arguments@) == seq![verb@, self@],
            op.result is None,
    {
        let mut arguments: Vec<String> = Vec::new();
        arguments.push(String::from_str(verb));
        arguments.push(self.name.clone());
        assert(texts(arguments@) =~= seq![verb@, self@]);
        SystemctlOp { arguments, result: None }
    }

    /// Does the service already exist? It does where its unit file is there.
    pub fn is_installed(&self) -> (op: ExistsOp)
        ensures
            op.path@ == unit_file_path(self@),
            op.found is None,
    {
        ExistsOp { path: self.unit_file_path(), found: None }
    }

    /// Stop the service, by `systemctl stop` and its name.
    pub fn stop(&mut self) -> (op: SystemctlOp)
        ensures
            *final(self) == *old(self),
            texts(op.arguments@) == seq!["stop"@, old(self)@],
            op.result is None,
    {
        self.systemctl("stop")
    }

    /// Start the service, by `systemctl start` and its name.
    pub fn start(&mut self) -> (op: SystemctlOp)
        ensures
            *final(self) == *old(self),
            texts(op.arguments@) == seq!["start"@, old(self)@],
            op.result is None,
    {
        self.systemctl("start")
    }

    /// Delete the service, by removing its unit file.
    pub fn delete(&mut self) -> (op: DeleteOp)
        ensures
            *final(self) == *old(self),
            op.path@ == unit_file_path(old(self)@),
            op.result is None,
    {
        DeleteOp { path: self.unit_file_path(), result: None }
    }

    /// Have systemd read its units again, by `systemctl daemon-reload`.
    pub fn reload(&mut self) -> (op: SystemctlOp)
        ensures
            *final(self) == *old(self),
            texts(op.arguments@) == seq!["daemon-reload"@],
            op.result is None,
    {
        let mut arguments: Vec<String> = Vec::new();
        arguments.push(String::from_str("daemon-reload"));
        assert(texts(arguments@) =~= seq!["daemon-reload"@]);
        SystemctlOp { arguments, result: None }
    }

    /// Construct the text of the unit file for the given configuration.
    pub fn build_systemd_file(&self, config: ServiceConfig) -> (text: String)
        ensures
            text@ == unit_file_text(config),
    {
        let mut con = String::new();
        con.append("[Unit]\nDescription=");
        con.append(config.description.as_str());
        con.append("\n\n[Service]\n");
        let ghost head = con@;
        match &config.username {
            Some(user) => {
                con.append("User=");
                con.append(user.as_str());
                con.append("\n");
            },
            None => {},
        }
        assert(con@ =~= head + user_line(config.username));
        con.append("WorkingDirectory=");
        con.append(config.config_path.as_str());
        con.append("\nExecStart=");
        con.append(config.binary.as_str());
        con.append(" ");
        let arguments = join_arguments(&config.arguments);
        con.append(arguments.as_str());
        con.append("\n\n[Install]\nWantedBy=multi-user.target\n");
        assert(head =~= "[Unit]\nDescription="@ + config.description@ + "\n\n[Service]\n"@);
        con
    }

    /// Create the service: unless its unit file is there already, write the
    /// unit file, then have systemd read its units again.
    pub fn create(&mut self, config: ServiceConfig) -> (op: CreateOp)
        ensures
            *final(self) == *old(self),
            op.path@ == unit_file_path(old(self)@),
            op.content@ == unit_file_text(config),
            op.stage is Probe,
    {
        let content = self.build_systemd_file(config);
        CreateOp { path: self.unit_file_path(), content, stage: CreateStage::Probe }
    }

    /// Run the service. Under systemd nothing is to be registered: the
    /// service main is called, and when it returns the dispatch has succeeded.
    pub fn dispatch<F: FnOnce()>(&self, service_main: F) -> (result: Result<(), u32>)
        requires
            service_main.requires(()),
        ensures
            service_main.ensures((), ()),
            result == Ok::<(), u32>(()),
    {
        service_main();
        Ok(())
    }
}

} // verus!
