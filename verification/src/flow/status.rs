//! The status flow: `status`, `statusRsp`, `statusCmp`.

use vstd::prelude::*;

use crate::flow::MuchsyncProtocolFlow;
use crate::operation::Status;
use crate::operation::StatusFin;
use crate::operation::StatusReply;

verus! {

/// The status flow.
pub struct StatusOperation;

impl MuchsyncProtocolFlow for StatusOperation {
    type StartMessage = Status;

    type ResponseMessage = StatusReply;

    type CompleteMessage = StatusFin;
}

} // verus!
