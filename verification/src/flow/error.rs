//! The error flow: `error`, `errorAck`. It has no completion, and may end
//! any other flow from either side.

use vstd::prelude::*;

use crate::flow::MuchsyncProtocolFlow;
use crate::operation::Error;
use crate::operation::ErrorAcknowledgement;

verus! {

/// The error flow.
pub struct ErrorOperation;

impl MuchsyncProtocolFlow for ErrorOperation {
    type StartMessage = Error;

    type ResponseMessage = ErrorAcknowledgement;

    type CompleteMessage = CustomInfallible;
}

/// Stands where a flow has no completion. It is no message, and no value of
/// it can be made.
#[derive(Debug)]
pub struct CustomInfallible {
    never: (),
}

} // verus!
