//! The stop of a service.

use vstd::prelude::*;
use crate::control::SERVICE_CONTROL_STOP;
use crate::status::{SERVICE_STOPPED, SERVICE_STOP_PENDING};
use crate::windows::{
    copy_units, request_view, Reply, Request, RequestView, StopServiceError,
    POLL_INTERVAL_MILLIS, SC_MANAGER_ALL_ACCESS, SERVICE_ALL_ACCESS,
};

verus! {

/// Where the stop of a service stands.
#[derive(Clone, Copy, Debug, PartialEq, Eq)]
pub enum StopStage {
    /// The service control manager is to be opened
    OpenManager,
    /// The service is to be opened
    OpenService,
    /// The stop signal is to be sent
    Control,
    /// The state of the service is to be asked for
    QueryStatus,
    /// The service is still stopping; the next query waits
    Sleep,
    /// The operation has ended
    Finished(Result<(), StopServiceError>),
}

/// The stop of a service.
#[derive(Debug, PartialEq, Eq)]
pub struct StopOp {
    /// The name of the service, in wide form
    pub name: Vec<u16>,
    /// Where the operation stands
    pub stage: StopStage,
    /// The state that the service was last seen in, once it has been seen
    pub last_state: Option<u32>,
}

impl StopOp {
    /// The result for a service that has left the pending state: success
    /// where it is stopped, failure with the state otherwise.
    pub open spec fn verdict(state: u32) -> Result<(), StopServiceError> {
        if state == SERVICE_STOPPED {
            Ok(())
        } else {
            Err(StopServiceError::FailedToStop(state))
        }
    }

    /// The request that is to be put next; `None` once the operation has
    /// ended.
    pub open spec fn spec_pending(self) -> Option<RequestView> {
        match self.stage {
            StopStage::OpenManager => Some(
                RequestView::OpenManager { access: SC_MANAGER_ALL_ACCESS },
            ),
            StopStage::OpenService => Some(
                RequestView::OpenService { name: self.name@, access: SERVICE_ALL_ACCESS },
            ),
            StopStage::Control => Some(RequestView::Control { control: SERVICE_CONTROL_STOP }),
            StopStage::QueryStatus => Some(RequestView::QueryStatus),
            StopStage::Sleep => Some(RequestView::Sleep { millis: POLL_INTERVAL_MILLIS }),
            StopStage::Finished(_) => None,
        }
    }

    /// The operation after the reply to its pending request.
    ///
    /// A refused request ends the operation with the error code; so does a
    /// refused query. A query that shows the service still stopping leads to
    /// a sleep and the next query; one that shows another state ends the
    /// operation with the verdict on that state. A query that is answered
    /// without a state ends the operation as a failure with the state last
    /// seen, or with the pending state where none was seen.
    pub open spec fn spec_advance(self, reply: Reply) -> StopOp {
        match self.stage {
            StopStage::OpenManager => match reply {
                Reply::Failed(code) => StopOp {
                    stage: StopStage::Finished(Err(StopServiceError::ManagerUnavailable(code))),
                    ..self
                },
                _ => StopOp { stage: StopStage::OpenService, ..self },
            },
            StopStage::OpenService => match reply {
                Reply::Failed(code) => StopOp {
                    stage: StopStage::Finished(Err(StopServiceError::WindowsError(code))),
                    ..self
                },
                _ => StopOp { stage: StopStage::Control, ..self },
            },
            StopStage::Control => match reply {
                Reply::Failed(code) => StopOp {
                    stage: StopStage::Finished(Err(StopServiceError::WindowsError(code))),
                    ..self
                },
                Reply::Status(state) => StopOp {
                    stage: StopStage::QueryStatus,
                    last_state: Some(state),
                    ..self
                },
                Reply::Succeeded => StopOp { stage: StopStage::QueryStatus, ..self },
            },
            StopStage::QueryStatus => match reply {
                Reply::Status(state) => if state == SERVICE_STOP_PENDING {
                    StopOp { stage: StopStage::Sleep, last_state: Some(state), ..self }
                } else {
                    StopOp {
                        stage: StopStage::Finished(StopOp::verdict(state)),
                        last_state: Some(state),
                        ..self
                    }
                },
                Reply::Failed(code) => StopOp {
                    stage: StopStage::Finished(Err(StopServiceError::WindowsError(code))),
                    ..self
                },
                Reply::Succeeded => StopOp {
                    stage: StopStage::Finished(
                        Err(
                            StopServiceError::FailedToStop(
                                match self.last_state {
                                    Some(state) => state,
                                    None => SERVICE_STOP_PENDING,
                                },
                            ),
                        ),
                    ),
                    ..self
                },
            },
            StopStage::Sleep => StopOp { stage: StopStage::QueryStatus, ..self },
            StopStage::Finished(_) => self,
        }
    }

    /// The result of the operation, once it has ended.
    pub open spec fn spec_outcome(self) -> Option<Result<(), StopServiceError>> {
        match self.stage {
            StopStage::Finished(result) => Some(result),
            _ => None,
        }
    }

    /// The operation after a run of replies.
    pub open spec fn run(self, replies: Seq<Reply>) -> StopOp
        decreases replies.len(),
    {
        if replies.len() == 0 {
            self
        } else {
            self.spec_advance(replies[0]).run(replies.drop_first())
        }
    }

    /// The request that is to be put next; `None` once the operation has
    /// ended.
    pub fn pending(&self) -> (request: Option<Request>)
        ensures
            request_view(request) == self.spec_pending(),
            request is None <==> self.spec_outcome() is Some,
    {
        match self.stage {
            StopStage::OpenManager => Some(Request::OpenManager { access: SC_MANAGER_ALL_ACCESS }),
            StopStage::OpenService => Some(
                Request::OpenService { name: copy_units(&self.name), access: SERVICE_ALL_ACCESS },
            ),
            StopStage::Control => Some(Request::Control { control: SERVICE_CONTROL_STOP }),
            StopStage::QueryStatus => Some(Request::QueryStatus),
            StopStage::Sleep => Some(Request::Sleep { millis: POLL_INTERVAL_MILLIS }),
            StopStage::Finished(_) => None,
        }
    }

    /// Takes the reply to the pending request. An operation that has ended
    /// stays as it is.
    pub fn advance(&mut self, reply: Reply)
        ensures
            *final(self) == old(self).spec_advance(reply),
    {
        match self.stage {
            StopStage::OpenManager => match reply {
                Reply::Failed(code) => {
                    self.stage = StopStage::Finished(Err(StopServiceError::ManagerUnavailable(code)));
                },
                _ => {
                    self.stage = StopStage::OpenService;
                },
            },
            StopStage::OpenService => match reply {
                Reply::Failed(code) => {
                    self.stage = StopStage::Finished(Err(StopServiceError::WindowsError(code)));
                },
                _ => {
                    self.stage = StopStage::Control;
                },
            },
            StopStage::Control => match reply {
                Reply::Failed(code) => {
                    self.stage = StopStage::Finished(Err(StopServiceError::WindowsError(code)));
                },
                Reply::Status(state) => {
                    self.last_state = Some(state);
                    self.stage = StopStage::QueryStatus;
                },
                Reply::Succeeded => {
                    self.stage = StopStage::QueryStatus;
                },
            },
            StopStage::QueryStatus => match reply {
                Reply::Status(state) => {
                    self.last_state = Some(state);
                    if state == SERVICE_STOP_PENDING {
                        self.stage = StopStage::Sleep;
                    } else if state == SERVICE_STOPPED {
                        self.stage = StopStage::Finished(Ok(()));
                    } else {
                        self.stage = StopStage::Finished(Err(StopServiceError::FailedToStop(state)));
                    }
                },
                Reply::Failed(code) => {
                    self.stage = StopStage::Finished(Err(StopServiceError::WindowsError(code)));
                },
                Reply::Succeeded => {
                    let seen: u32 = match self.last_state {
                        Some(state) => state,
                        None => SERVICE_STOP_PENDING,
                    };
                    self.stage = StopStage::Finished(Err(StopServiceError::FailedToStop(seen)));
                },
            },
            StopStage::Sleep => {
                self.stage = StopStage::QueryStatus;
            },
            StopStage::Finished(_) => {},
        }
    }

    /// The result of the operation, once it has ended.
    pub fn outcome(&self) -> (result: Option<Result<(), StopServiceError>>)
        ensures
            result == self.spec_outcome(),
    {
        match self.stage {
            StopStage::Finished(result) => Some(result),
            _ => None,
        }
    }
}

} // verus!
