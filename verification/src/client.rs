use crate::context::same_registrations;
use crate::context::ContextContainer;
use crate::dispatcher::ErasedDispatcher;
use crate::error::ClientError;
use crate::layer::PubSubLayer;
use crate::message::Envelope;
use crate::message::RawMessage;
use vstd::prelude::*;

verus! {

/// The context that a listener lends to its transport.
pub type Inbox = ContextContainer<Box<dyn PubSubLayer>, ErasedDispatcher>;

/// What the bus asks of a transport: a receive loop and a send.
pub trait Client: Send + Sync {
    /// What one run of the receive loop makes of an inbox, and how it ends:
    /// holds of the transport as it stood, of the inbox as it was lent and
    /// as it came back, and of the answer. A transport that does not say
    /// may make anything of it.
    open spec fn receives(&self, lent: Inbox, back: Inbox, ended: Result<(), ClientError>) -> bool {
        true
    }

    /// Whether the transport, as it stands, may give this answer for
    /// sending this envelope. A transport that does not say may give any
    /// answer.
    open spec fn sends(&self, msg: Envelope, sent: Result<(), ClientError>) -> bool {
        true
    }

    /// Runs the receive loop: every inbound envelope is dispatched through
    /// the inbox, until the subscription ends or fails. What the loop made
    /// of the inbox and how it ended is what `receives` says.
    ///
    /// An implementation is taken at its word that the registrations are
    /// the same when the loop returns. Nothing else is open to it: all that
    /// a transport can do with an inbox is dispatch an envelope, and a
    /// dispatch keeps the registrations.
    fn receiver(&mut self, inbox: &mut Inbox) -> (ended: Result<(), ClientError>)
        ensures
            same_registrations(*old(inbox), *final(inbox)),
            old(self).receives(*old(inbox), *final(inbox), ended),
    ;

    /// Sends one envelope and answers as `sends` says.
    fn send(&mut self, msg: &RawMessage) -> (sent: Result<(), ClientError>)
        ensures
            old(self).sends(msg@, sent),
    ;
}

/// The transport that a builder collects layers for and that a listener or
/// a publisher then owns.
pub struct Port {
    pub client: Box<dyn Client>,
}

impl Port {
    /// Whether this is the transport that the port holds.
    pub open spec fn holds(&self, client: Box<dyn Client>) -> bool {
        self.client == client
    }
}

} // verus!
