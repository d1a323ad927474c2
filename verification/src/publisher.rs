use crate::client::Client;
use crate::client::Port;
use crate::codec::encode;
use crate::codec::encodes;
use crate::error::ClientError;
use crate::error::PublishError;
use crate::layer::observed;
use crate::layer::onion;
use crate::layer::passes;
use crate::layer::LayerChain;
use crate::layer::PubSubLayer;
use crate::layer::Step;
use crate::message::optional_view;
use crate::message::supplied;
use crate::message::Envelope;
use crate::message::MessageConstraints;
use crate::message::RawMessage;
use serde::Serialize;
use std::collections::HashMap;
use vstd::prelude::*;

verus! {

/// What a publisher sends with: the transport and the layer chain.
pub struct PublisherContext {
    pub(crate) port: Port,
    pub(crate) layers: LayerChain<Box<dyn PubSubLayer>>,
}

impl PublisherContext {
    /// The transport.
    pub closed spec fn port(&self) -> Port {
        self.port
    }

    /// The layers, in registration order.
    pub closed spec fn layers(&self) -> Seq<Box<dyn PubSubLayer>> {
        self.layers@
    }

    /// A context on the given transport, with the given layers in their
    /// order.
    pub fn new(client: Box<dyn Client>, layers: Vec<Box<dyn PubSubLayer>>) -> (context: Self)
        ensures
            context.port().holds(client),
            context.layers() == layers@,
    {
        PublisherContext { port: Port { client }, layers: LayerChain::new(layers) }
    }

    /// A context on the transport of the given port, with the given layers
    /// in their order.
    pub(crate) fn on(port: Port, layers: LayerChain<Box<dyn PubSubLayer>>) -> (context: Self)
        ensures
            context.port() == port,
            context.layers() == layers@,
    {
        PublisherContext { port, layers }
    }
}

/// The record of one publication: the envelope as it was handed to the
/// transport, and the calls that were made, in order.
pub struct Publication {
    pub envelope: RawMessage,
    pub steps: Vec<Step>,
}

/// The envelope that a publication starts from.
pub open spec fn composed(
    msg_type: Seq<char>,
    headers: Option<Map<String, String>>,
    payload: Seq<char>,
) -> Envelope {
    Envelope { msg_type, headers: supplied(headers), payload }
}

/// What the caller gets for a publication and the transport's answer: the
/// record where the envelope was sent, the transport's fault where it was
/// not.
pub open spec fn concluded(publication: Publication, sent: Result<(), ClientError>) -> Result<
    Publication,
    PublishError,
> {
    match sent {
        Ok(_) => Ok(publication),
        Err(fault) => Err(PublishError::Transport(fault)),
    }
}

/// Surfaces the transport's answer to the caller.
pub fn conclude(publication: Publication, sent: Result<(), ClientError>) -> (result: Result<
    Publication,
    PublishError,
>)
    ensures
        result == concluded(publication, sent),
{
    match sent {
        Ok(()) => Ok(publication),
        Err(fault) => Err(PublishError::Transport(fault)),
    }
}

/// What the encoder's answer becomes for the caller: its text as the
/// payload, or its fault as an `Encode` fault.
pub open spec fn encoded_as(
    encoded: Result<String, serde_json::Error>,
    payload: Result<String, PublishError>,
) -> bool {
    match encoded {
        Ok(text) => payload == Ok::<String, PublishError>(text),
        Err(_) => payload is Err && payload->Err_0 is Encode,
    }
}

/// Turns the encoder's answer into the payload to publish: the text as it
/// is, a fault as `PublishError::Encode` with the encoder's description.
pub fn payload_of(encoded: Result<String, serde_json::Error>) -> (payload: Result<
    String,
    PublishError,
>)
    ensures
        encoded_as(encoded, payload),
{
    match encoded {
        Ok(text) => Ok(text),
        Err(fault) => Err(PublishError::Encode(fault.to_string())),
    }
}

/// A publisher: it turns typed messages into envelopes and sends them
/// through the layer chain.
pub struct Publisher {
    context: PublisherContext,
}

impl Publisher {
    /// The layers, in registration order.
    pub closed spec fn layers(&self) -> Seq<Box<dyn PubSubLayer>> {
        self.context.layers()
    }

    /// The transport that the publisher sends on.
    pub closed spec fn port(&self) -> Port {
        self.context.port()
    }

    /// A publisher on the given context.
    pub fn new(context: PublisherContext) -> (publisher: Self)
        ensures
            publisher.port() == context.port(),
            publisher.layers() == context.layers(),
    {
        Publisher { context }
    }

    /// What publishing from the envelope `start` may give, with the
    /// publisher as it stands: the layers rewrite `start`, the transport
    /// answers for what they left, and the caller gets the record where the
    /// transport sent it and the transport's fault where it did not.
    pub open spec fn publishes(&self, start: Envelope, result: Result<Publication, PublishError>) -> bool {
        exists|publication: Publication, sent: Result<(), ClientError>|
            #![trigger concluded(publication, sent)]
            {
                &&& publication.steps@ == onion(self.layers().len(), true)
                &&& passes(self.layers(), self.layers().len(), start, publication.envelope@)
                &&& observed(self.layers(), publication.envelope@)
                &&& self.port().client.sends(publication.envelope@, sent)
                &&& result == concluded(publication, sent)
            }
    }

    /// Publishes a typed message: serializes it, builds the envelope under
    /// the name of its type with the given headers, and sends it through the
    /// layer chain. A message that cannot be serialized is reported before
    /// any layer runs; otherwise the outcome is that of publishing the
    /// serialized message.
    pub fn publish<TMessage>(&mut self, msg: &TMessage, headers: Option<HashMap<String, String>>) -> (result:
        Result<Publication, PublishError>) where TMessage: MessageConstraints + Serialize
        ensures
            final(self).layers() == old(self).layers(),
            exists|encoded: Result<String, serde_json::Error>| #[trigger]
                encodes::<TMessage>(msg, encoded) && match encoded {
                    Err(_) => result is Err && result->Err_0 is Encode,
                    Ok(text) => exists|name: Seq<char>|
                        #![trigger composed(name, optional_view(headers), text@)]
                        TMessage::named(name) && old(self).publishes(
                            composed(name, optional_view(headers), text@),
                            result,
                        ),
                },
    {
        let encoded = encode::<TMessage>(msg);
        let ghost given = encoded;
        match payload_of(encoded) {
            Err(fault) => Err(fault),
            Ok(payload) => {
                let name = TMessage::name();
                let result = self.publish_encoded(name, payload, headers);
                proof {
                    assert(TMessage::named(name@) && old(self).publishes(
                        composed(name@, optional_view(headers), given->Ok_0@),
                        result,
                    ));
                }
                result
            },
        }
    }

    /// Publishes a serialized message: builds the envelope and sends it
    /// through the layer chain. Every layer's `before` runs in registration
    /// order, the transport sends what they left, and every layer's `after`
    /// runs in reverse order, whatever the transport answered. The caller
    /// gets the record where the transport sent the envelope, and the
    /// transport's own fault where it did not.
    pub fn publish_encoded(
        &mut self,
        msg_type: &str,
        payload: String,
        headers: Option<HashMap<String, String>>,
    ) -> (result: Result<Publication, PublishError>)
        ensures
            final(self).layers() == old(self).layers(),
            old(self).publishes(composed(msg_type@, optional_view(headers), payload@), result),
    {
        let passage = self.context.layers.begin(RawMessage::compose(msg_type, headers, payload));
        let sent = self.context.port.client.send(&passage.envelope);
        let closed = self.context.layers.close(passage, true);
        let publication = Publication { envelope: closed.envelope, steps: closed.steps };
        proof {
            assert(publication.steps@ =~= onion(old(self).layers().len(), true));
        }
        let ghost record = publication;
        let result = conclude(publication, sent);
        proof {
            assert(result == concluded(record, sent));
        }
        result
    }
}

} // verus!
