//! The hand-over of a thread to the service control dispatcher.

use vstd::prelude::*;
use crate::text::{get_utf16, wide_text};
use crate::windows::{request_view, Reply, Request, RequestView};

verus! {

/// Where the hand-over to the service control dispatcher stands.
#[derive(Clone, Copy, Debug, PartialEq, Eq)]
pub enum DispatchStage {
    /// The dispatcher is to be started
    StartDispatcher,
    /// The dispatcher has returned, or could not be started
    Finished(Result<(), u32>),
}

/// The hand-over of the calling thread to the service control dispatcher.
#[derive(Debug, PartialEq, Eq)]
pub struct DispatchOp {
    /// Where the operation stands
    pub stage: DispatchStage,
}

impl DispatchOp {
    /// The request that is to be put next; `None` once the operation has
    /// ended. The dispatch table names the service by the empty string: a
    /// service in a process of its own is found without its name, but the
    /// entry must hold one.
    pub open spec fn spec_pending(self) -> Option<RequestView> {
        match self.stage {
            DispatchStage::StartDispatcher => Some(
                RequestView::StartDispatcher { service_name: seq![0u16] },
            ),
            DispatchStage::Finished(_) => None,
        }
    }

    /// The operation after the reply to its pending request: a dispatcher
    /// that could not be started ends it with the error code.
    pub open spec fn spec_advance(self, reply: Reply) -> DispatchOp {
        match self.stage {
            DispatchStage::StartDispatcher => match reply {
                Reply::Failed(code) => DispatchOp { stage: DispatchStage::Finished(Err(code)) },
                _ => DispatchOp { stage: DispatchStage::Finished(Ok(())) },
            },
            DispatchStage::Finished(_) => self,
        }
    }

    /// The result of the operation, once it has ended.
    pub open spec fn spec_outcome(self) -> Option<Result<(), u32>> {
        match self.stage {
            DispatchStage::Finished(result) => Some(result),
            _ => None,
        }
    }

    /// The request that is to be put next; `None` once the operation has
    /// ended.
    pub fn pending(&self) -> (request: Option<Request>)
        ensures
            request_view(request) == self.spec_pending(),
            request is None <==> self.spec_outcome() is Some,
    {
        match self.stage {
            DispatchStage::StartDispatcher => {
                let service_name = get_utf16("");
                proof {
                    reveal_strlit("");
                    assert(""@ =~= Seq::<char>::empty());
                    assert(wide_text(Seq::<char>::empty()) =~= seq![0u16]);
                }
                Some(Request::StartDispatcher { service_name })
            },
            DispatchStage::Finished(_) => None,
        }
    }

    /// Takes the reply to the pending request. An operation that has ended
    /// stays as it is.
    pub fn advance(&mut self, reply: Reply)
        ensures
            *final(self) == old(self).spec_advance(reply),
    {
        match self.stage {
            DispatchStage::StartDispatcher => match reply {
                Reply::Failed(code) => {
                    self.stage = DispatchStage::Finished(Err(code));
                },
                _ => {
                    self.stage = DispatchStage::Finished(Ok(()));
                },
            },
            DispatchStage::Finished(_) => {},
        }
    }

    /// The result of the operation, once it has ended.
    pub fn outcome(&self) -> (result: Option<Result<(), u32>>)
        ensures
            result == self.spec_outcome(),
    {
        match self.stage {
            DispatchStage::Finished(result) => Some(result),
            _ => None,
        }
    }
}

} // verus!
