//! The removal of a service.

use vstd::prelude::*;
use crate::windows::{
    copy_units, request_view, DeleteServiceError, Reply, Request, RequestView,
    SC_MANAGER_ALL_ACCESS, SERVICE_ALL_ACCESS,
};

verus! {

/// Where the removal of a service stands.
#[derive(Clone, Copy, Debug, PartialEq, Eq)]
pub enum DeleteStage {
    /// The service control manager is to be opened
    OpenManager,
    /// The log source of the service is to be removed
    DeregisterLog,
    /// The service is to be opened
    OpenService,
    /// The service is to be removed
    DeleteService,
    /// The operation has ended
    Finished(Result<(), DeleteServiceError>),
}

/// The removal of a service.
#[derive(Debug, PartialEq, Eq)]
pub struct DeleteOp {
    /// The name of the service, in wide form
    pub name: Vec<u16>,
    /// The name of the log source of the service
    pub log_source: String,
    /// Where the operation stands
    pub stage: DeleteStage,
}

impl DeleteOp {
    /// The request that is to be put next; `None` once the operation has
    /// ended.
    pub open spec fn spec_pending(self) -> Option<RequestView> {
        match self.stage {
            DeleteStage::OpenManager => Some(
                RequestView::OpenManager { access: SC_MANAGER_ALL_ACCESS },
            ),
            DeleteStage::DeregisterLog => Some(
                RequestView::DeregisterLog { source: self.log_source@ },
            ),
            DeleteStage::OpenService => Some(
                RequestView::OpenService { name: self.name@, access: SERVICE_ALL_ACCESS },
            ),
            DeleteStage::DeleteService => Some(RequestView::DeleteService),
            DeleteStage::Finished(_) => None,
        }
    }

    /// The operation after the reply to its pending request.
    ///
    /// A manager that cannot be opened, a service that cannot be opened and a
    /// refused removal end the operation with the error code. Whether the log
    /// source could be removed makes no difference.
    pub open spec fn spec_advance(self, reply: Reply) -> DeleteOp {
        match self.stage {
            DeleteStage::OpenManager => match reply {
                Reply::Failed(code) => DeleteOp {
                    stage: DeleteStage::Finished(Err(DeleteServiceError::ManagerUnavailable(code))),
                    ..self
                },
                _ => DeleteOp { stage: DeleteStage::DeregisterLog, ..self },
            },
            DeleteStage::DeregisterLog => DeleteOp { stage: DeleteStage::OpenService, ..self },
            DeleteStage::OpenService => match reply {
                Reply::Failed(code) => DeleteOp {
                    stage: DeleteStage::Finished(Err(DeleteServiceError::WindowsError(code))),
                    ..self
                },
                _ => DeleteOp { stage: DeleteStage::DeleteService, ..self },
            },
            DeleteStage::DeleteService => match reply {
                Reply::Failed(code) => DeleteOp {
                    stage: DeleteStage::Finished(Err(DeleteServiceError::WindowsError(code))),
                    ..self
                },
                _ => DeleteOp { stage: DeleteStage::Finished(Ok(())), ..self },
            },
            DeleteStage::Finished(_) => self,
        }
    }

    /// The result of the operation, once it has ended.
    pub open spec fn spec_outcome(self) -> Option<Result<(), DeleteServiceError>> {
        match self.stage {
            DeleteStage::Finished(result) => Some(result),
            _ => None,
        }
    }

    /// How many requests the operation puts at most before it ends.
    pub open spec fn steps_left(self) -> nat {
        match self.stage {
            DeleteStage::OpenManager => 4,
            DeleteStage::DeregisterLog => 3,
            DeleteStage::OpenService => 2,
            DeleteStage::DeleteService => 1,
            DeleteStage::Finished(_) => 0,
        }
    }

    /// The request that is to be put next; `None` once the operation has
    /// ended.
    pub fn pending(&self) -> (request: Option<Request>)
        ensures
            request_view(request) == self.spec_pending(),
            request is None <==> self.spec_outcome() is Some,
    {
        match self.stage {
            DeleteStage::OpenManager => Some(
                Request::OpenManager { access: SC_MANAGER_ALL_ACCESS },
            ),
            DeleteStage::DeregisterLog => Some(
                Request::DeregisterLog { source: self.log_source.clone() },
            ),
            DeleteStage::OpenService => Some(
                Request::OpenService { name: copy_units(&self.name), access: SERVICE_ALL_ACCESS },
            ),
            DeleteStage::DeleteService => Some(Request::DeleteService),
            DeleteStage::Finished(_) => None,
        }
    }

    /// Takes the reply to the pending request. An operation that has ended
    /// stays as it is.
    pub fn advance(&mut self, reply: Reply)
        ensures
            *final(self) == old(self).spec_advance(reply),
            old(self).spec_outcome() is None ==> final(self).steps_left() < old(self).steps_left(),
    {
        match self.stage {
            DeleteStage::OpenManager => match reply {
                Reply::Failed(code) => {
                    self.stage = DeleteStage::Finished(Err(DeleteServiceError::ManagerUnavailable(code)));
                },
                _ => {
                    self.stage = DeleteStage::DeregisterLog;
                },
            },
            DeleteStage::DeregisterLog => {
                self.stage = DeleteStage::OpenService;
            },
            DeleteStage::OpenService => match reply {
                Reply::Failed(code) => {
                    self.stage = DeleteStage::Finished(Err(DeleteServiceError::WindowsError(code)));
                },
                _ => {
                    self.stage = DeleteStage::DeleteService;
                },
            },
            DeleteStage::DeleteService => match reply {
                Reply::Failed(code) => {
                    self.stage = DeleteStage::Finished(Err(DeleteServiceError::WindowsError(code)));
                },
                _ => {
                    self.stage = DeleteStage::Finished(Ok(()));
                },
            },
            DeleteStage::Finished(_) => {},
        }
    }

    /// The result of the operation, once it has ended.
    pub fn outcome(&self) -> (result: Option<Result<(), DeleteServiceError>>)
        ensures
            result == self.spec_outcome(),
    {
        match self.stage {
            DeleteStage::Finished(result) => Some(result),
            _ => None,
        }
    }
}

} // verus!
