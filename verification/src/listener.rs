use crate::client::Client;
use crate::client::Inbox;
use crate::client::Port;
use crate::codec::decode;
use crate::codec::decodes;
use crate::codec::tag_of;
use crate::codec::tagged;
use crate::context::dispatched;
use crate::registrations::in_step;
use crate::context::same_registrations;
use crate::context::ContextContainer;
use crate::dispatcher::answers_by;
use crate::dispatcher::settled;
use crate::dispatcher::lemma_typed_answers_keep_to;
use crate::dispatcher::typed_answers;
use crate::dispatcher::typed_hands_on;
use crate::dispatcher::Decoder;
use crate::dispatcher::Dispatcher;
use crate::dispatcher::ErasedDispatcher;
use crate::dispatcher::TypedDispatcher;
use crate::error::ClientError;
use crate::error::DecodeError;
use crate::layer::LayerChain;
use crate::layer::PubSubLayer;
use crate::message::normalized;
use crate::message::Envelope;
use crate::message::MessageConstraints;
use crate::message::RawMessage;
use crate::message_handler::MessageHandler;
use crate::message_store::admission;
use crate::passage::delivery_of;
use crate::passage::Dispatch;
use crate::registry::routed;
use serde::de::DeserializeOwned;
use std::any::TypeId;
use vstd::prelude::*;

verus! {

/// A listener: the registries and the layer chain, and the transport whose
/// receive loop feeds them.
pub struct Listener {
    context: Inbox,
    port: Port,
}

/// What registering a handler under `name` does to a context: the name gets
/// a type and a handler, both replacing what stood there, and no other name
/// and no layer is touched.
pub open spec fn registered(before: Inbox, name: Seq<char>, after: Inbox) -> bool {
    &&& after.handlers().dom() == before.handlers().dom().insert(name)
    &&& after.types().dom() == before.types().dom().insert(name)
    &&& after.handlers().remove(name) == before.handlers().remove(name)
    &&& after.types().remove(name) == before.types().remove(name)
    &&& after.layers() == before.layers()
    &&& in_step(after.types(), after.handlers())
}

/// The answers that dispatching to this handler may give for an envelope:
/// those that the handler makes of what the envelope's payload decodes to
/// as a `TMessage`.
pub open spec fn handler_answers<TMessage, H>(
    handler: H,
    raw_msg: Envelope,
    outcome: Result<(), DecodeError>,
) -> bool where TMessage: MessageConstraints + DeserializeOwned, H: MessageHandler<TMessage> {
    exists|payload: &str, decoded: Result<TMessage, serde_json::Error>|
        {
            &&& payload@ == raw_msg.payload
            &&& #[trigger] decodes::<TMessage>(payload, decoded)
            &&& settled(handler, raw_msg, decoded, outcome)
        }
}

/// What a dispatch to this handler that succeeds hands on: the envelope's
/// payload decoded to a message, the handler took it with the envelope's
/// normalized headers, and what may be answered afterwards is among what
/// dispatching to the handler as it was left may answer.
pub open spec fn handler_hands_on<TMessage, H>(
    handler: H,
    raw_msg: Envelope,
    next: Envelope,
    answer: Result<(), DecodeError>,
    may: bool,
) -> bool where TMessage: MessageConstraints + DeserializeOwned, H: MessageHandler<TMessage> {
    exists|payload: &str, message: TMessage, left: H|
        #![trigger decodes::<TMessage>(payload, Ok(message)), handler.handles(message, normalized(raw_msg.headers), &left)]
        {
            &&& payload@ == raw_msg.payload
            &&& decodes::<TMessage>(payload, Ok(message))
            &&& handler.handles(message, normalized(raw_msg.headers), &left)
            &&& may ==> handler_answers::<TMessage, H>(left, next, answer)
        }
}

/// What stands under `name` once `handler` was registered there: the
/// identity `tag` of its message type, in both registries, and a dispatcher
/// that answers only as dispatching to this handler may.
pub open spec fn stands<TMessage, H>(context: Inbox, name: Seq<char>, tag: TypeId, handler: H) -> bool where
    TMessage: MessageConstraints + DeserializeOwned,
    H: MessageHandler<TMessage>,
 {
    &&& tagged::<TMessage>(tag)
    &&& context.types().contains_key(name)
    &&& context.types()[name] == tag
    &&& context.handlers().contains_key(name)
    &&& context.handlers()[name].tag == tag
    &&& forall|raw_msg: Envelope, outcome: Result<(), DecodeError>| #[trigger]
        context.handlers()[name].dispatcher.answers(raw_msg, outcome) ==> handler_answers::<
            TMessage,
            H,
        >(handler, raw_msg, outcome)
    &&& forall|raw_msg: Envelope, next: Envelope, answer: Result<(), DecodeError>, may: bool|
        #[trigger] context.handlers()[name].dispatcher.hands_on(raw_msg, next, answer, may)
            ==> handler_hands_on::<TMessage, H>(handler, raw_msg, next, answer, may)
}

/// An envelope that the layers leave under a name goes to what stands
/// there: where `handler` stands under the name, the envelope is not
/// dropped, and a delivery means that this handler was handed a message
/// with the envelope's normalized headers: none for an empty header map,
/// the map otherwise.
pub proof fn lemma_what_stands_is_handed<TMessage, H>(
    before: Inbox,
    name: Seq<char>,
    tag: TypeId,
    handler: H,
    raw_msg: RawMessage,
    after: Inbox,
    report: Dispatch,
) where TMessage: MessageConstraints + DeserializeOwned, H: MessageHandler<TMessage>
    requires
        stands::<TMessage, H>(before, name, tag, handler),
        dispatched(before, raw_msg, after, report),
        report.envelope@.msg_type == name,
    ensures
        !(report.delivery is Unmatched),
        report.delivery is Handled ==> exists|
            payload: &str,
            message: TMessage,
            left: H,
        |
            {
                &&& payload@ == report.envelope@.payload
                &&& #[trigger] decodes::<TMessage>(payload, Ok(message))
                &&& #[trigger] handler.handles(
                    message,
                    normalized(report.envelope@.headers),
                    &left,
                )
            },
{
    let outcome = choose|outcome: Option<Result<(), DecodeError>>|
        report.delivery == #[trigger] delivery_of(outcome) && routed(
            before.handlers(),
            before.types(),
            report.envelope@,
            after.handlers(),
            outcome,
        );
    if report.delivery is Handled {
        let answer = outcome->Some_0;
        assert(admission(before.types(), name, tag) is Ok);
        assert(before.handlers()[name].dispatcher.answers(report.envelope@, answer));
        assert(handler_answers::<TMessage, H>(handler, report.envelope@, answer));
        let (payload, decoded) = choose|
            payload: &str,
            decoded: Result<TMessage, serde_json::Error>,
        |
            {
                &&& payload@ == report.envelope@.payload
                &&& #[trigger] decodes::<TMessage>(payload, decoded)
                &&& settled(handler, report.envelope@, decoded, answer)
            };
        assert(decoded is Ok);
        let message = decoded->Ok_0;
        let left = choose|left: H| #[trigger]
            handler.handles(message, normalized(report.envelope@.headers), &left);
        assert(decodes::<TMessage>(payload, Ok(message)) && handler.handles(
            message,
            normalized(report.envelope@.headers),
            &left,
        ));
    }
}

/// What stands under a name stays there through every dispatch that does
/// not succeed under that name: an envelope of another name, an envelope
/// that is dropped, or one that cannot be resolved leaves the handler for
/// the next envelope of the name.
pub proof fn lemma_what_stands_stays<TMessage, H>(
    before: Inbox,
    name: Seq<char>,
    tag: TypeId,
    handler: H,
    raw_msg: RawMessage,
    after: Inbox,
    report: Dispatch,
) where TMessage: MessageConstraints + DeserializeOwned, H: MessageHandler<TMessage>
    requires
        stands::<TMessage, H>(before, name, tag, handler),
        dispatched(before, raw_msg, after, report),
        report.envelope@.msg_type != name || !(report.delivery is Handled),
    ensures
        stands::<TMessage, H>(after, name, tag, handler),
{
    let outcome = choose|outcome: Option<Result<(), DecodeError>>|
        report.delivery == #[trigger] delivery_of(outcome) && routed(
            before.handlers(),
            before.types(),
            report.envelope@,
            after.handlers(),
            outcome,
        );
    assert(after.handlers().contains_key(name));
    assert(after.handlers()[name] == before.handlers()[name]);
}

/// A dispatch that succeeds under a name leaves there the handler as
/// handling the message left it: whatever is answered under the name
/// afterwards is an answer of dispatching to a handler that this one became
/// by taking the decoded message with the envelope's normalized headers.
pub proof fn lemma_what_stands_is_handed_on<TMessage, H>(
    before: Inbox,
    name: Seq<char>,
    tag: TypeId,
    handler: H,
    raw_msg: RawMessage,
    after: Inbox,
    report: Dispatch,
    next: Envelope,
    answer: Result<(), DecodeError>,
) where TMessage: MessageConstraints + DeserializeOwned, H: MessageHandler<TMessage>
    requires
        stands::<TMessage, H>(before, name, tag, handler),
        dispatched(before, raw_msg, after, report),
        report.envelope@.msg_type == name,
        report.delivery is Handled,
        after.handlers()[name].dispatcher.answers(next, answer),
    ensures
        handler_hands_on::<TMessage, H>(handler, report.envelope@, next, answer, true),
{
    let outcome = choose|outcome: Option<Result<(), DecodeError>>|
        report.delivery == #[trigger] delivery_of(outcome) && routed(
            before.handlers(),
            before.types(),
            report.envelope@,
            after.handlers(),
            outcome,
        );
    assert(admission(before.types(), name, tag) is Ok);
    assert(before.handlers()[name].dispatcher.hands_on(
        report.envelope@,
        next,
        answer,
        after.handlers()[name].dispatcher.answers(next, answer),
    ));
}

/// Registering a second handler under a name that holds one adds no name:
/// the count of names that hold a handler stays.
pub proof fn lemma_registering_again_adds_no_name(
    before: Inbox,
    name: Seq<char>,
    between: Inbox,
    after: Inbox,
)
    requires
        registered(before, name, between),
        registered(between, name, after),
    ensures
        after.handlers().dom() == between.handlers().dom(),
        after.handlers().dom().len() == between.handlers().dom().len(),
{
    assert(after.handlers().dom() =~= between.handlers().dom());
}

impl Listener {
    /// What the listener dispatches with.
    pub closed spec fn context(&self) -> Inbox {
        self.context
    }

    /// The type names that hold a handler.
    pub open spec fn handler_names(&self) -> Set<Seq<char>> {
        self.context().handlers().dom()
    }

    /// The transport that the listener runs on.
    pub closed spec fn port(&self) -> Port {
        self.port
    }

    /// A listener on the given transport, with the given layers in their
    /// order and no handler registered.
    pub fn new(client: Box<dyn Client>, layers: Vec<Box<dyn PubSubLayer>>) -> (listener: Self)
        ensures
            listener.port().holds(client),
            listener.context().layers() == layers@,
            listener.handler_names() == Set::<Seq<char>>::empty(),
            listener.context().types() == Map::<Seq<char>, TypeId>::empty(),
            in_step(listener.context().types(), listener.context().handlers()),
    {
        let listener = Listener { context: ContextContainer::new(layers), port: Port { client } };
        proof {
            assert(listener.handler_names() =~= Set::<Seq<char>>::empty());
        }
        listener
    }

    /// A listener on the transport of the given port, with the given layers
    /// in their order and no handler registered.
    pub(crate) fn on(port: Port, layers: LayerChain<Box<dyn PubSubLayer>>) -> (listener: Self)
        ensures
            listener.port() == port,
            listener.context().layers() == layers@,
            listener.handler_names() == Set::<Seq<char>>::empty(),
            listener.context().types() == Map::<Seq<char>, TypeId>::empty(),
            in_step(listener.context().types(), listener.context().handlers()),
    {
        let listener = Listener { context: ContextContainer::on(layers), port };
        proof {
            assert(listener.handler_names() =~= Set::<Seq<char>>::empty());
        }
        listener
    }

    /// Runs the transport's receive loop on this listener's own context and
    /// returns the transport's answer as it is. What the loop made of the
    /// context is what the transport says it makes of an inbox; the
    /// registrations are what they were, and the two registries agree.
    pub fn listen(&mut self) -> (ended: Result<(), ClientError>)
        ensures
            old(self).port().client.receives(old(self).context(), final(self).context(), ended),
            same_registrations(old(self).context(), final(self).context()),
            in_step(final(self).context().types(), final(self).context().handlers()),
    {
        let ended = self.port.client.receiver(&mut self.context);
        proof {
            use_type_invariant(&self.context);
        }
        ended
    }

    /// Registers a handler under the name of its message type: what
    /// `register_handler_as` does with that name.
    pub fn register_handler<TMessage, H>(&mut self, handler: H) where
        TMessage: MessageConstraints + DeserializeOwned + Send + Sync,
        H: MessageHandler<TMessage> + Send + Sync + 'static,

        ensures
            final(self).port() == old(self).port(),
            exists|name: Seq<char>, tag: TypeId|
                {
                    &&& TMessage::named(name)
                    &&& #[trigger] registered(old(self).context(), name, final(self).context())
                    &&& #[trigger] stands::<TMessage, H>(final(self).context(), name, tag, handler)
                },
    {
        let name = TMessage::name();
        self.register_handler_as::<TMessage, H>(name, handler);
    }

    /// Registers a handler of `TMessage` under a name. The name gets the
    /// message type in the type registry and a dispatcher to this handler
    /// in the handler registry; both replace what stood under that name,
    /// and no other name, no layer and not the transport is touched.
    pub fn register_handler_as<TMessage, H>(&mut self, name: &str, handler: H) where
        TMessage: MessageConstraints + DeserializeOwned + Send + Sync,
        H: MessageHandler<TMessage> + Send + Sync + 'static,

        ensures
            final(self).port() == old(self).port(),
            registered(old(self).context(), name@, final(self).context()),
            exists|tag: TypeId| #[trigger]
                stands::<TMessage, H>(final(self).context(), name@, tag, handler),
    {
        let decode = |payload: &str| -> (decoded: Result<TMessage, serde_json::Error>)
            ensures
                decodes::<TMessage>(payload, decoded),
            { decode::<TMessage>(payload) };
        let tag = tag_of::<TMessage>();
        let ghost decoding = |payload: &str, decoded: Result<TMessage, serde_json::Error>|
            decodes::<TMessage>(payload, decoded);
        self.register_handler_callback(name, tag, handler, decode, Ghost(decoding));
        proof {
            let stored = self.context().handlers()[name@].dispatcher;
            assert forall|raw_msg: Envelope, outcome: Result<(), DecodeError>| #[trigger]
                stored.answers(raw_msg, outcome) implies handler_answers::<TMessage, H>(
                handler,
                raw_msg,
                outcome,
            ) by {
                assert(answers_by::<TMessage, H>(decoding, handler, raw_msg, outcome));
                let (payload, decoded) = choose|
                    payload: &str,
                    decoded: Result<TMessage, serde_json::Error>,
                |
                    {
                        &&& payload@ == raw_msg.payload
                        &&& #[trigger] decoding(payload, decoded)
                        &&& settled(handler, raw_msg, decoded, outcome)
                    };
                assert(decodes::<TMessage>(payload, decoded));
            }
            assert forall|
                raw_msg: Envelope,
                next: Envelope,
                answer: Result<(), DecodeError>,
                may: bool,
            | #[trigger] stored.hands_on(raw_msg, next, answer, may) implies handler_hands_on::<
                TMessage,
                H,
            >(handler, raw_msg, next, answer, may) by {
                let (payload, message, left) = choose|payload: &str, message: TMessage, left: H|
                    {
                        &&& payload@ == raw_msg.payload
                        &&& #[trigger] call_ensures(
                            decode,
                            (payload,),
                            Ok::<TMessage, serde_json::Error>(message),
                        )
                        &&& #[trigger] handler.handles(
                            message,
                            normalized(raw_msg.headers),
                            &left,
                        )
                        &&& may == typed_answers::<TMessage, H, _>(left, decode, next, answer)
                    };
                assert(decodes::<TMessage>(payload, Ok(message)));
                if may {
                    lemma_typed_answers_keep_to::<TMessage, H, _>(
                        decoding,
                        left,
                        decode,
                        next,
                        answer,
                    );
                    let (text, decoded) = choose|
                        text: &str,
                        decoded: Result<TMessage, serde_json::Error>,
                    |
                        {
                            &&& text@ == next.payload
                            &&& #[trigger] decoding(text, decoded)
                            &&& settled(left, next, decoded, answer)
                        };
                    assert(decodes::<TMessage>(text, decoded));
                    assert(handler_answers::<TMessage, H>(left, next, answer));
                }
            }
            assert(stands::<TMessage, H>(self.context(), name@, tag, handler));
        }
    }

    /// Dispatches one envelope as the receive loop does for each inbound
    /// one: the `before` layers in registration order, the handler
    /// registered under the type name that they left, if there is one, and
    /// the `after` layers in reverse order, whether or not a handler was
    /// found and whatever it answered.
    pub fn handle(&mut self, msg: RawMessage) -> (report: Dispatch)
        ensures
            final(self).port() == old(self).port(),
            dispatched(old(self).context(), msg, final(self).context(), report),
            same_registrations(old(self).context(), final(self).context()),
    {
        self.context.dispatch(msg)
    }

    /// The number of type names that hold a handler.
    pub fn registered_handlers_count(&self) -> (count: usize)
        ensures
            self.handler_names().finite(),
            count == self.handler_names().len(),
    {
        self.context.registered_handlers_count()
    }

    fn register_handler_callback<TMessage, H, F>(
        &mut self,
        name: &str,
        tag: TypeId,
        handler: H,
        decode: F,
        Ghost(decoding): Ghost<spec_fn(&str, Result<TMessage, serde_json::Error>) -> bool>,
    ) where
        TMessage: MessageConstraints + Send + Sync,
        H: MessageHandler<TMessage> + Send + Sync + 'static,
        F: Fn(&str) -> Result<TMessage, serde_json::Error> + Send + Sync + 'static,

        requires
            forall|payload: &str| call_requires(decode, (payload,)),
            forall|payload: &str, decoded: Result<TMessage, serde_json::Error>| #[trigger]
                call_ensures(decode, (payload,), decoded) ==> decoding(payload, decoded),
        ensures
            final(self).port() == old(self).port(),
            registered(old(self).context(), name@, final(self).context()),
            final(self).context().types()[name@] == tag,
            final(self).context().handlers()[name@].tag == tag,
            forall|raw_msg: Envelope, outcome: Result<(), DecodeError>| #[trigger]
                final(self).context().handlers()[name@].dispatcher.answers(raw_msg, outcome)
                    == typed_answers::<TMessage, H, F>(handler, decode, raw_msg, outcome),
            forall|raw_msg: Envelope, outcome: Result<(), DecodeError>| #[trigger]
                final(self).context().handlers()[name@].dispatcher.answers(raw_msg, outcome)
                    ==> answers_by::<TMessage, H>(decoding, handler, raw_msg, outcome),
            forall|raw_msg: Envelope, next: Envelope, answer: Result<(), DecodeError>, may: bool|
                #[trigger] final(self).context().handlers()[name@].dispatcher.hands_on(
                    raw_msg,
                    next,
                    answer,
                    may,
                ) == typed_hands_on::<TMessage, H, F>(handler, decode, raw_msg, next, answer, may),
    {
        let typed = TypedDispatcher::new(handler, Decoder::new(decode));
        let dispatcher = ErasedDispatcher::of(typed);
        self.context.register(name, tag, dispatcher);
        proof {
            use_type_invariant(&self.context);
            let before = old(self).context().types();
            let after = self.context().types();
            assert(after.dom() =~= before.dom().insert(name@));
            assert(after.remove(name@) =~= before.remove(name@));
            let held = old(self).context().handlers();
            let holds = self.context().handlers();
            assert(holds.dom() =~= held.dom().insert(name@));
            assert(holds.remove(name@) =~= held.remove(name@));
            let stored = self.context().handlers()[name@].dispatcher;
            assert(stored == dispatcher);
            assert forall|raw_msg: Envelope, outcome: Result<(), DecodeError>| #[trigger]
                stored.answers(raw_msg, outcome) implies answers_by::<TMessage, H>(
                decoding,
                handler,
                raw_msg,
                outcome,
            ) by {
                assert(typed.answers(raw_msg, outcome));
                lemma_typed_answers_keep_to::<TMessage, H, F>(
                    decoding,
                    handler,
                    decode,
                    raw_msg,
                    outcome,
                );
            }
        }
    }
}

} // verus!
