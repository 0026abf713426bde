//! The ping flow: `ping`, `pingRsp`, `pingCmp`.

use vstd::prelude::*;

use crate::flow::MuchsyncProtocolFlow;
use crate::operation::Ping;
use crate::operation::PingFin;
use crate::operation::PingReply;

verus! {

/// The ping flow.
pub struct PingOperation;

impl MuchsyncProtocolFlow for PingOperation {
    type StartMessage = Ping;

    type ResponseMessage = PingReply;

    type CompleteMessage = PingFin;
}

} // verus!
