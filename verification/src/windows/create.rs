//! The creation of a service.

use vstd::prelude::*;
use crate::windows::{
    copy_units, request_view, CreateServiceError, Reply, Request, RequestView,
    ServiceDefinition, SC_MANAGER_ALL_ACCESS,
};

verus! {

/// The error code of a service that is installed already.
pub const ERROR_SERVICE_EXISTS: u32 = 1073;

/// Where the creation of a service stands.
#[derive(Clone, Copy, Debug, PartialEq, Eq)]
pub enum CreateStage {
    /// The service control manager is to be opened
    OpenManager,
    /// The log source of the service is to be registered
    RegisterLog,
    /// The service is to be created
    CreateService,
    /// The description of the service is to be set
    SetDescription,
    /// The description was refused with this error code; the service that
    /// was created is to be removed again
    RemoveService(u32),
    /// A request was refused with this error code after the log source was
    /// registered; the log source is to be removed again
    RemoveLog(u32),
    /// The operation has ended
    Finished(Result<(), CreateServiceError>),
}

/// The creation of a service.
#[derive(Debug, PartialEq, Eq)]
pub struct CreateOp {
    /// The name of the log source of the service
    pub log_source: String,
    /// What the service is created with
    pub definition: ServiceDefinition,
    /// The description of the service, in wide form
    pub description: Vec<u16>,
    /// Where the operation stands
    pub stage: CreateStage,
}

impl CreateOp {
    /// The request that is to be put next; `None` once the operation has
    /// ended.
    pub open spec fn spec_pending(self) -> Option<RequestView> {
        match self.stage {
            CreateStage::OpenManager => Some(
                RequestView::OpenManager { access: SC_MANAGER_ALL_ACCESS },
            ),
            CreateStage::RegisterLog => Some(
                RequestView::RegisterLog { source: self.log_source@ },
            ),
            CreateStage::CreateService => Some(
                RequestView::CreateService { definition: self.definition@ },
            ),
            CreateStage::SetDescription => Some(
                RequestView::SetDescription { description: self.description@ },
            ),
            CreateStage::RemoveService(_) => Some(RequestView::DeleteService),
            CreateStage::RemoveLog(_) => Some(
                RequestView::DeregisterLog { source: self.log_source@ },
            ),
            CreateStage::Finished(_) => None,
        }
    }

    /// The operation after the reply to its pending request.
    ///
    /// A manager that cannot be opened and a log source that cannot be
    /// registered end the operation with the error code, and nothing has
    /// been done. A service that is refused because it is installed already
    /// ends the operation with that error code; the log source is then that
    /// of the installed service and stays. Any other refusal of the service
    /// has the log source removed again, and a refused description has the
    /// service and then the log source removed again; after that the
    /// operation ends with the error code of the refusal. Success is reached
    /// by no other way than through every request being carried out.
    pub open spec fn spec_advance(self, reply: Reply) -> CreateOp {
        match self.stage {
            CreateStage::OpenManager => match reply {
                Reply::Failed(code) => CreateOp {
                    stage: CreateStage::Finished(Err(CreateServiceError::ManagerUnavailable(code))),
                    ..self
                },
                _ => CreateOp { stage: CreateStage::RegisterLog, ..self },
            },
            CreateStage::RegisterLog => match reply {
                Reply::Failed(code) => CreateOp {
                    stage: CreateStage::Finished(Err(CreateServiceError::WindowsError(code))),
                    ..self
                },
                _ => CreateOp { stage: CreateStage::CreateService, ..self },
            },
            CreateStage::CreateService => match reply {
                Reply::Failed(code) => if code == ERROR_SERVICE_EXISTS {
                    CreateOp {
                        stage: CreateStage::Finished(Err(CreateServiceError::WindowsError(code))),
                        ..self
                    }
                } else {
                    CreateOp { stage: CreateStage::RemoveLog(code), ..self }
                },
                _ => CreateOp { stage: CreateStage::SetDescription, ..self },
            },
            CreateStage::SetDescription => match reply {
                Reply::Failed(code) => CreateOp { stage: CreateStage::RemoveService(code), ..self },
                _ => CreateOp { stage: CreateStage::Finished(Ok(())), ..self },
            },
            CreateStage::RemoveService(code) => CreateOp {
                stage: CreateStage::RemoveLog(code),
                ..self
            },
            CreateStage::RemoveLog(code) => CreateOp {
                stage: CreateStage::Finished(Err(CreateServiceError::WindowsError(code))),
                ..self
            },
            CreateStage::Finished(_) => self,
        }
    }

    /// The result of the operation, once it has ended.
    pub open spec fn spec_outcome(self) -> Option<Result<(), CreateServiceError>> {
        match self.stage {
            CreateStage::Finished(result) => Some(result),
            _ => None,
        }
    }

    /// How many requests the operation puts at most before it ends.
    pub open spec fn steps_left(self) -> nat {
        match self.stage {
            CreateStage::OpenManager => 6,
            CreateStage::RegisterLog => 5,
            CreateStage::CreateService => 4,
            CreateStage::SetDescription => 3,
            CreateStage::RemoveService(_) => 2,
            CreateStage::RemoveLog(_) => 1,
            CreateStage::Finished(_) => 0,
        }
    }

    /// The request that is to be put next; `None` once the operation has
    /// ended.
    pub fn pending(&self) -> (request: Option<Request>)
        ensures
            request_view(request) == self.spec_pending(),
            request is None <==> self.spec_outcome() is Some,
    {
        match self.stage {
            CreateStage::OpenManager => Some(
                Request::OpenManager { access: SC_MANAGER_ALL_ACCESS },
            ),
            CreateStage::RegisterLog => Some(
                Request::RegisterLog { source: self.log_source.clone() },
            ),
            CreateStage::CreateService => Some(
                Request::CreateService { definition: self.definition.duplicate() },
            ),
            CreateStage::SetDescription => Some(
                Request::SetDescription { description: copy_units(&self.description) },
            ),
            CreateStage::RemoveService(_) => Some(Request::DeleteService),
            CreateStage::RemoveLog(_) => Some(
                Request::DeregisterLog { source: self.log_source.clone() },
            ),
            CreateStage::Finished(_) => None,
        }
    }

    /// Takes the reply to the pending request. An operation that has ended
    /// stays as it is.
    pub fn advance(&mut self, reply: Reply)
        ensures
            *final(self) == old(self).spec_advance(reply),
            old(self).spec_outcome() is None ==> final(self).steps_left() < old(self).steps_left(),
    {
        match self.stage {
            CreateStage::OpenManager => match reply {
                Reply::Failed(code) => {
                    self.stage = CreateStage::Finished(
                        Err(CreateServiceError::ManagerUnavailable(code)),
                    );
                },
                _ => {
                    self.stage = CreateStage::RegisterLog;
                },
            },
            CreateStage::RegisterLog => match reply {
                Reply::Failed(code) => {
                    self.stage = CreateStage::Finished(Err(CreateServiceError::WindowsError(code)));
                },
                _ => {
                    self.stage = CreateStage::CreateService;
                },
            },
            CreateStage::CreateService => match reply {
                Reply::Failed(code) => {
                    if code == ERROR_SERVICE_EXISTS {
                        self.stage = CreateStage::Finished(
                            Err(CreateServiceError::WindowsError(code)),
                        );
                    } else {
                        self.stage = CreateStage::RemoveLog(code);
                    }
                },
                _ => {
                    self.stage = CreateStage::SetDescription;
                },
            },
            CreateStage::SetDescription => match reply {
                Reply::Failed(code) => {
                    self.stage = CreateStage::RemoveService(code);
                },
                _ => {
                    self.stage = CreateStage::Finished(Ok(()));
                },
            },
            CreateStage::RemoveService(code) => {
                self.stage = CreateStage::RemoveLog(code);
            },
            CreateStage::RemoveLog(code) => {
                self.stage = CreateStage::Finished(Err(CreateServiceError::WindowsError(code)));
            },
            CreateStage::Finished(_) => {},
        }
    }

    /// The result of the operation, once it has ended.
    pub fn outcome(&self) -> (result: Option<Result<(), CreateServiceError>>)
        ensures
            result == self.spec_outcome(),
    {
        match self.stage {
            CreateStage::Finished(result) => Some(result),
            _ => None,
        }
    }
}

} // verus!
