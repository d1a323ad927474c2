use crate::client::Client;
use crate::client::Port;
use crate::layer::grown;
use crate::layer::lemma_pushed_has_grown;
use crate::layer::LayerChain;
use crate::layer::PubSubLayer;
use crate::listener::Listener;
use crate::publisher::Publisher;
use crate::publisher::PublisherContext;
use vstd::prelude::*;

verus! {

/// Something that can be built into a `TPubSub`.
pub trait Builder<TPubSub>: Sized {
    /// What the product has of its builder. A builder that does not say may
    /// build any product.
    open spec fn builds(self, product: TPubSub) -> bool {
        true
    }

    fn build(self) -> (product: TPubSub)
        ensures
            self.builds(product),
    ;
}

/// A transport and the layers collected for it so far.
pub struct PubSubBuilder {
    port: Port,
    layers: LayerChain<Box<dyn PubSubLayer>>,
}

/// Starts a builder on a transport, with no layers.
pub fn pubsub(client: Box<dyn Client>) -> (builder: PubSubBuilder)
    ensures
        builder.port().holds(client),
        builder.layers() == Seq::<Box<dyn PubSubLayer>>::empty(),
{
    PubSubBuilder { port: Port { client }, layers: LayerChain::new(Vec::new()) }
}

impl PubSubBuilder {
    /// The transport that the builder was started on.
    pub closed spec fn port(&self) -> Port {
        self.port
    }

    /// The layers collected so far, in the order they were added.
    pub closed spec fn layers(&self) -> Seq<Box<dyn PubSubLayer>> {
        self.layers@
    }

    /// Adds a layer after those added before: the layers are those that
    /// were there with the given one pushed. That they have grown by one
    /// and kept the others says the same without naming the layer.
    pub fn add_layer(self, layer: Box<dyn PubSubLayer>) -> (builder: Self)
        ensures
            builder.port() == self.port(),
            builder.layers() == self.layers().push(layer),
            grown(self.layers(), builder.layers()),
    {
        let mut builder = self;
        builder.layers.push(layer);
        proof {
            lemma_pushed_has_grown(self.layers(), layer, builder.layers());
        }
        builder
    }

    /// A listener on the builder's transport with the builder's layers and
    /// no handler registered.
    pub fn build_listener(self) -> (listener: Listener)
        ensures
            listener.port() == self.port(),
            listener.context().layers() == self.layers(),
            listener.handler_names() == Set::<Seq<char>>::empty(),
    {
        Listener::on(self.port, self.layers)
    }

    /// A publisher on the builder's transport with the builder's layers.
    pub fn build_publisher(self) -> (publisher: Publisher)
        ensures
            publisher.port() == self.port(),
            publisher.layers() == self.layers(),
    {
        Publisher::new(PublisherContext::on(self.port, self.layers))
    }
}

impl Builder<Listener> for PubSubBuilder {
    /// The listener has the builder's transport and layers and no handler.
    open spec fn builds(self, product: Listener) -> bool {
        &&& product.port() == self.port()
        &&& product.context().layers() == self.layers()
        &&& product.handler_names() == Set::<Seq<char>>::empty()
    }

    fn build(self) -> Listener {
        self.build_listener()
    }
}

impl Builder<Publisher> for PubSubBuilder {
    /// The publisher has the builder's transport and layers.
    open spec fn builds(self, product: Publisher) -> bool {
        &&& product.port() == self.port()
        &&& product.layers() == self.layers()
    }

    fn build(self) -> Publisher {
        self.build_publisher()
    }
}

} // verus!
