//! The start of a service.

use vstd::prelude::*;
use crate::status::{SERVICE_RUNNING, SERVICE_START_PENDING};
use crate::windows::{
    copy_units, request_view, Reply, Request, RequestView, StartServiceError,
    POLL_INTERVAL_MILLIS, SC_MANAGER_ALL_ACCESS, SERVICE_ALL_ACCESS,
};

verus! {

/// Where the start of a service stands.
#[derive(Clone, Copy, Debug, PartialEq, Eq)]
pub enum StartStage {
    /// The service control manager is to be opened
    OpenManager,
    /// The service is to be opened
    OpenService,
    /// The service is to be started
    StartService,
    /// The state of the service is to be asked for
    QueryStatus,
    /// The service is still starting; the next query waits
    Sleep,
    /// The operation has ended
    Finished(Result<(), StartServiceError>),
}

/// The start of a service.
#[derive(Debug, PartialEq, Eq)]
pub struct StartOp {
    /// The name of the service, in wide form
    pub name: Vec<u16>,
    /// Where the operation stands
    pub stage: StartStage,
    /// The state that the service was last seen in
    pub last_state: u32,
}

impl StartOp {
    /// The result for a service that has left the pending state: success
    /// where it runs, failure with the state otherwise.
    pub open spec fn verdict(state: u32) -> Result<(), StartServiceError> {
        if state == SERVICE_RUNNING {
            Ok(())
        } else {
            Err(StartServiceError::FailedToStart(state))
        }
    }

    /// The request that is to be put next; `None` once the operation has
    /// ended.
    pub open spec fn spec_pending(self) -> Option<RequestView> {
        match self.stage {
            StartStage::OpenManager => Some(
                RequestView::OpenManager { access: SC_MANAGER_ALL_ACCESS },
            ),
            StartStage::OpenService => Some(
                RequestView::OpenService { name: self.name@, access: SERVICE_ALL_ACCESS },
            ),
            StartStage::StartService => Some(RequestView::StartService),
            StartStage::QueryStatus => Some(RequestView::QueryStatus),
            StartStage::Sleep => Some(RequestView::Sleep { millis: POLL_INTERVAL_MILLIS }),
            StartStage::Finished(_) => None,
        }
    }

    /// The operation after the reply to its pending request.
    ///
    /// A refused request ends the operation with the error code. A query that
    /// shows the service still starting leads to a sleep and the next query;
    /// one that shows another state ends the operation with the verdict on
    /// that state; one that gives no state ends it with the verdict on the
    /// state last seen, which is a failure.
    pub open spec fn spec_advance(self, reply: Reply) -> StartOp {
        match self.stage {
            StartStage::OpenManager => match reply {
                Reply::Failed(code) => StartOp {
                    stage: StartStage::Finished(Err(StartServiceError::ManagerUnavailable(code))),
                    ..self
                },
                _ => StartOp { stage: StartStage::OpenService, ..self },
            },
            StartStage::OpenService => match reply {
                Reply::Failed(code) => StartOp {
                    stage: StartStage::Finished(Err(StartServiceError::WindowsError(code))),
                    ..self
                },
                _ => StartOp { stage: StartStage::StartService, ..self },
            },
            StartStage::StartService => match reply {
                Reply::Failed(code) => StartOp {
                    stage: StartStage::Finished(Err(StartServiceError::WindowsError(code))),
                    ..self
                },
                _ => StartOp { stage: StartStage::QueryStatus, ..self },
            },
            StartStage::QueryStatus => match reply {
                Reply::Status(state) => if state == SERVICE_START_PENDING {
                    StartOp { stage: StartStage::Sleep, last_state: state, ..self }
                } else {
                    StartOp {
                        stage: StartStage::Finished(StartOp::verdict(state)),
                        last_state: state,
                        ..self
                    }
                },
                _ => StartOp {
                    stage: StartStage::Finished(
                        Err(StartServiceError::FailedToStart(self.last_state)),
                    ),
                    ..self
                },
            },
            StartStage::Sleep => StartOp { stage: StartStage::QueryStatus, ..self },
            StartStage::Finished(_) => self,
        }
    }

    /// The result of the operation, once it has ended.
    pub open spec fn spec_outcome(self) -> Option<Result<(), StartServiceError>> {
        match self.stage {
            StartStage::Finished(result) => Some(result),
            _ => None,
        }
    }

    /// The operation after a run of replies.
    pub open spec fn run(self, replies: Seq<Reply>) -> StartOp
        decreases replies.len(),
    {
        if replies.len() == 0 {
            self
        } else {
            self.spec_advance(replies[0]).run(replies.drop_first())
        }
    }

    /// The request that is to be put next; `None` once the operation has
    /// ended.
    pub fn pending(&self) -> (request: Option<Request>)
        ensures
            request_view(request) == self.spec_pending(),
            request is None <==> self.spec_outcome() is Some,
    {
        match self.stage {
            StartStage::OpenManager => Some(Request::OpenManager { access: SC_MANAGER_ALL_ACCESS }),
            StartStage::OpenService => Some(
                Request::OpenService { name: copy_units(&self.name), access: SERVICE_ALL_ACCESS },
            ),
            StartStage::StartService => Some(Request::StartService),
            StartStage::QueryStatus => Some(Request::QueryStatus),
            StartStage::Sleep => Some(Request::Sleep { millis: POLL_INTERVAL_MILLIS }),
            StartStage::Finished(_) => None,
        }
    }

    /// Takes the reply to the pending request. An operation that has ended
    /// stays as it is.
    pub fn advance(&mut self, reply: Reply)
        ensures
            *final(self) == old(self).spec_advance(reply),
    {
        match self.stage {
            StartStage::OpenManager => match reply {
                Reply::Failed(code) => {
                    self.stage = StartStage::Finished(Err(StartServiceError::ManagerUnavailable(code)));
                },
                _ => {
                    self.stage = StartStage::OpenService;
                },
            },
            StartStage::OpenService => match reply {
                Reply::Failed(code) => {
                    self.stage = StartStage::Finished(Err(StartServiceError::WindowsError(code)));
                },
                _ => {
                    self.stage = StartStage::StartService;
                },
            },
            StartStage::StartService => match reply {
                Reply::Failed(code) => {
                    self.stage = StartStage::Finished(Err(StartServiceError::WindowsError(code)));
                },
                _ => {
                    self.stage = StartStage::QueryStatus;
                },
            },
            StartStage::QueryStatus => match reply {
                Reply::Status(state) => {
                    self.last_state = state;
                    if state == SERVICE_START_PENDING {
                        self.stage = StartStage::Sleep;
                    } else if state == SERVICE_RUNNING {
                        self.stage = StartStage::Finished(Ok(()));
                    } else {
                        self.stage = StartStage::Finished(
                            Err(StartServiceError::FailedToStart(state)),
                        );
                    }
                },
                _ => {
                    self.stage = StartStage::Finished(
                        Err(StartServiceError::FailedToStart(self.last_state)),
                    );
                },
            },
            StartStage::Sleep => {
                self.stage = StartStage::QueryStatus;
            },
            StartStage::Finished(_) => {},
        }
    }

    /// The result of the operation, once it has ended.
    pub fn outcome(&self) -> (result: Option<Result<(), StartServiceError>>)
        ensures
            result == self.spec_outcome(),
    {
        match self.stage {
            StartStage::Finished(result) => Some(result),
            _ => None,
        }
    }
}

} // verus!
