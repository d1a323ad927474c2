use crate::message::optional_view;
use crate::message::MessageConstraints;
use std::collections::HashMap;
use vstd::prelude::*;

verus! {

/// A handler of one message type: it receives each message of that type
/// together with the envelope's headers, absent when the envelope had none.
pub trait MessageHandler<TMessage> where TMessage: MessageConstraints {
    /// What handling one message makes of the handler: holds of the handler
    /// as it was, of what it was handed, and of the handler as it was left.
    /// A handler that does not say may be left in any state.
    open spec fn handles(
        &self,
        msg: TMessage,
        headers: Option<Map<String, String>>,
        left: &Self,
    ) -> bool {
        true
    }

    fn handle(&mut self, msg: TMessage, headers: Option<HashMap<String, String>>)
        ensures
            old(self).handles(msg, optional_view(headers), final(self)),
    ;
}

} // verus!
