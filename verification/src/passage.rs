use crate::error::DecodeError;
use crate::layer::after_steps;
use crate::layer::before_steps;
use crate::layer::middle;
use crate::layer::observed;
use crate::layer::passes;
use crate::layer::LayerChain;
use crate::layer::PubSubLayer;
use crate::layer::Step;
use crate::message::RawMessage;
use vstd::prelude::*;

verus! {

/// What became of an envelope once the layers had seen it.
#[derive(Debug)]
pub enum Delivery {
    /// No handler is registered under its type name; it was dropped.
    Unmatched,
    /// The handler registered under its type name was invoked.
    Handled,
    /// A handler is registered, but the envelope could not be resolved into
    /// its message type; the handler was not invoked.
    Failed(DecodeError),
}

/// The delivery that a dispatcher's answer amounts to; no answer means that
/// no dispatcher was found.
pub open spec fn delivery_of(outcome: Option<Result<(), DecodeError>>) -> Delivery {
    match outcome {
        None => Delivery::Unmatched,
        Some(Ok(_)) => Delivery::Handled,
        Some(Err(fault)) => Delivery::Failed(fault),
    }
}

/// An envelope that the `before` layers have seen and the `after` layers
/// have not.
pub struct Passage {
    pub envelope: RawMessage,
    pub steps: Vec<Step>,
}

/// The record of one dispatch: the envelope as the layers left it, what
/// became of it, and the calls that were made, in order.
pub struct Dispatch {
    pub envelope: RawMessage,
    pub delivery: Delivery,
    pub steps: Vec<Step>,
}

impl<L: PubSubLayer> LayerChain<L> {
    /// Opens a dispatch: every layer's `before` runs on the envelope, in
    /// registration order.
    pub fn begin(&self, raw_msg: RawMessage) -> (passage: Passage)
        ensures
            passes(self@, self@.len(), raw_msg@, passage.envelope@),
            passage.steps@ == before_steps(self@.len()),
    {
        let mut envelope = raw_msg;
        let mut steps = Vec::new();
        self.enter(&mut envelope, &mut steps);
        proof {
            assert(steps@ =~= before_steps(self@.len()));
        }
        Passage { envelope, steps }
    }

    /// Closes a passage: the call in the middle, if one was made, is
    /// recorded, and every layer's `after` runs on the envelope, in reverse
    /// registration order.
    pub fn close(&self, passage: Passage, delivered: bool) -> (closed: Passage)
        ensures
            closed.envelope == passage.envelope,
            observed(self@, passage.envelope@),
            closed.steps@ == passage.steps@ + middle(delivered) + after_steps(self@.len()),
    {
        let Passage { envelope, steps } = passage;
        let mut steps = steps;
        if delivered {
            steps.push(Step::Deliver);
        }
        proof {
            assert(steps@ =~= passage.steps@ + middle(delivered));
        }
        self.leave(&envelope, &mut steps);
        Passage { envelope, steps }
    }

    /// Closes a dispatch: the passage is closed, and the dispatcher's
    /// answer, if one was invoked, becomes the delivery.
    pub fn finish(&self, passage: Passage, outcome: Option<Result<(), DecodeError>>) -> (report:
        Dispatch)
        ensures
            report.envelope == passage.envelope,
            observed(self@, passage.envelope@),
            report.delivery == delivery_of(outcome),
            report.steps@ == passage.steps@ + middle(outcome is Some) + after_steps(self@.len()),
    {
        let closed = self.close(passage, outcome.is_some());
        let delivery = match outcome {
            None => Delivery::Unmatched,
            Some(Ok(())) => Delivery::Handled,
            Some(Err(fault)) => Delivery::Failed(fault),
        };
        Dispatch { envelope: closed.envelope, delivery, steps: closed.steps }
    }
}

} // verus!
