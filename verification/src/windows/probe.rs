//! The probe whether a service is installed.

use vstd::prelude::*;
use crate::windows::{
    copy_units, request_view, Reply, Request, RequestView, SC_MANAGER_ALL_ACCESS,
    SERVICE_ALL_ACCESS,
};

verus! {

/// Where the existence probe of a service stands.
#[derive(Clone, Copy, Debug, PartialEq, Eq)]
pub enum ExistsStage {
    /// The service control manager is to be opened
    OpenManager,
    /// The service is to be opened
    OpenService,
    /// The probe has ended: with whether the service exists, or with the error
    /// code of a service control manager that could not be opened
    Finished(Result<bool, u32>),
}

/// The probe whether a service exists.
#[derive(Debug, PartialEq, Eq)]
pub struct ExistsOp {
    /// The name of the service, in wide form
    pub name: Vec<u16>,
    /// Where the probe stands
    pub stage: ExistsStage,
}

impl ExistsOp {
    /// The request that is to be put next; `None` once the probe has ended.
    pub open spec fn spec_pending(self) -> Option<RequestView> {
        match self.stage {
            ExistsStage::OpenManager => Some(
                RequestView::OpenManager { access: SC_MANAGER_ALL_ACCESS },
            ),
            ExistsStage::OpenService => Some(
                RequestView::OpenService { name: self.name@, access: SERVICE_ALL_ACCESS },
            ),
            ExistsStage::Finished(_) => None,
        }
    }

    /// The probe after the reply to its pending request.
    pub open spec fn spec_advance(self, reply: Reply) -> ExistsOp {
        match self.stage {
            ExistsStage::OpenManager => match reply {
                Reply::Failed(code) => ExistsOp { stage: ExistsStage::Finished(Err(code)), ..self },
                _ => ExistsOp { stage: ExistsStage::OpenService, ..self },
            },
            ExistsStage::OpenService => ExistsOp {
                stage: ExistsStage::Finished(Ok(!(reply is Failed))),
                ..self
            },
            ExistsStage::Finished(_) => self,
        }
    }

    /// The result of the probe, once it has ended.
    pub open spec fn spec_outcome(self) -> Option<Result<bool, u32>> {
        match self.stage {
            ExistsStage::Finished(result) => Some(result),
            _ => None,
        }
    }

    /// The request that is to be put next; `None` once the probe has ended.
    pub fn pending(&self) -> (request: Option<Request>)
        ensures
            request_view(request) == self.spec_pending(),
            request is None <==> self.spec_outcome() is Some,
            request matches Some(r) ==> !r@.mutates(),
    {
        match self.stage {
            ExistsStage::OpenManager => Some(Request::OpenManager { access: SC_MANAGER_ALL_ACCESS }),
            ExistsStage::OpenService => Some(
                Request::OpenService { name: copy_units(&self.name), access: SERVICE_ALL_ACCESS },
            ),
            ExistsStage::Finished(_) => None,
        }
    }

    /// Takes the reply to the pending request. A probe that has ended stays
    /// as it is.
    pub fn advance(&mut self, reply: Reply)
        ensures
            *final(self) == old(self).spec_advance(reply),
    {
        match self.stage {
            ExistsStage::OpenManager => match reply {
                Reply::Failed(code) => {
                    self.stage = ExistsStage::Finished(Err(code));
                },
                _ => {
                    self.stage = ExistsStage::OpenService;
                },
            },
            ExistsStage::OpenService => match reply {
                Reply::Failed(_) => {
                    self.stage = ExistsStage::Finished(Ok(false));
                },
                _ => {
                    self.stage = ExistsStage::Finished(Ok(true));
                },
            },
            ExistsStage::Finished(_) => {},
        }
    }

    /// The result of the probe, once it has ended: `Ok(true)` where the
    /// service could be opened, `Ok(false)` where it could not, and the error
    /// code where the service control manager could not be opened.
    pub fn outcome(&self) -> (result: Option<Result<bool, u32>>)
        ensures
            result == self.spec_outcome(),
    {
        match self.stage {
            ExistsStage::Finished(result) => Some(result),
            _ => None,
        }
    }
}

} // verus!
