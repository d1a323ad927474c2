use crate::error::DecodeError;
use crate::message::normalized;
use crate::message::Envelope;
use crate::message::MessageConstraints;
use crate::message::RawMessage;
use crate::message_handler::MessageHandler;
use crate::message_store::settle;
use std::marker::PhantomData;
use vstd::prelude::*;

verus! {

/// A handler behind a single way of invoking it with an envelope, whatever
/// its message type.
pub trait Dispatcher: Send + Sync {
    /// Whether the dispatcher, as it stands, may give this answer for this
    /// envelope. A dispatcher that does not say may give any answer.
    open spec fn answers(&self, raw_msg: Envelope, outcome: Result<(), DecodeError>) -> bool {
        true
    }

    /// What a dispatch that succeeds makes of the dispatcher, told by what
    /// the dispatcher answers afterwards: holds of the dispatcher as it
    /// stood, of the envelope that it took, and, for one further envelope
    /// and answer, of whether the dispatcher as it was left may give that
    /// answer. A dispatcher that does not say may be left in any state.
    open spec fn hands_on(
        &self,
        raw_msg: Envelope,
        next: Envelope,
        answer: Result<(), DecodeError>,
        may: bool,
    ) -> bool {
        true
    }

    /// Decodes the payload into the handler's message type and, if that
    /// succeeds, hands message and headers to the handler. The only fault is
    /// a payload that does not decode; it leaves the dispatcher as it was.
    fn dispatch(&mut self, raw_msg: &RawMessage) -> (outcome: Result<(), DecodeError>)
        ensures
            outcome is Err ==> outcome->Err_0 is Payload,
            old(self).answers(raw_msg@, outcome),
            outcome is Err ==> &*final(self) == &*old(self),
            outcome is Ok ==> forall|next: Envelope, answer: Result<(), DecodeError>|
                old(self).hands_on(raw_msg@, next, answer, #[trigger] final(self).answers(next, answer)),
    ;
}

impl Dispatcher for Box<dyn Dispatcher> {
    /// The answers of a boxed dispatcher are those of the dispatcher in the
    /// box.
    open spec fn answers(&self, raw_msg: Envelope, outcome: Result<(), DecodeError>) -> bool {
        (**self).answers(raw_msg, outcome)
    }

    /// A boxed dispatcher is left as the dispatcher in the box is.
    open spec fn hands_on(
        &self,
        raw_msg: Envelope,
        next: Envelope,
        answer: Result<(), DecodeError>,
        may: bool,
    ) -> bool {
        (**self).hands_on(raw_msg, next, answer, may)
    }

    /// Hands the envelope to the dispatcher in the box and answers what it
    /// answers.
    fn dispatch(&mut self, raw_msg: &RawMessage) -> (outcome: Result<(), DecodeError>) {
        (**self).dispatch(raw_msg)
    }
}

/// A payload decoder for one message type, callable on every payload.
#[verifier::reject_recursive_types(TMessage)]
pub struct Decoder<TMessage, F: Fn(&str) -> Result<TMessage, serde_json::Error>> {
    decode: F,
    marker: PhantomData<TMessage>,
}

impl<TMessage, F: Fn(&str) -> Result<TMessage, serde_json::Error>> Decoder<TMessage, F> {
    #[verifier::type_invariant]
    spec fn total(self) -> bool {
        forall|payload: &str| call_requires(self.decode, (payload,))
    }

    /// The function that the decoder decodes with.
    pub closed spec fn function(&self) -> F {
        self.decode
    }

    /// A decoder that decodes with the given function.
    pub(crate) fn new(decode: F) -> (decoder: Self)
        requires
            forall|payload: &str| call_requires(decode, (payload,)),
        ensures
            decoder.function() == decode,
    {
        Decoder { decode, marker: PhantomData }
    }

    /// What the decoder may give for a payload: what its function may give.
    pub open spec fn decodes(&self, payload: &str, decoded: Result<TMessage, serde_json::Error>) -> bool {
        call_ensures(self.function(), (payload,), decoded)
    }

    /// Decodes a payload.
    pub fn run(&self, payload: &str) -> (decoded: Result<TMessage, serde_json::Error>)
        ensures
            self.decodes(payload, decoded),
    {
        proof {
            use_type_invariant(self);
        }
        (self.decode)(payload)
    }
}

/// What a handler makes of a decoder's outcome for an envelope: a message
/// is handed to it with the envelope's normalized headers, which it can
/// handle, and the answer is success; a decoder's fault is the answer's
/// fault, and the handler is not asked.
pub open spec fn settled<TMessage: MessageConstraints, H: MessageHandler<TMessage>>(
    handler: H,
    raw_msg: Envelope,
    decoded: Result<TMessage, serde_json::Error>,
    outcome: Result<(), DecodeError>,
) -> bool {
    match decoded {
        Ok(message) => outcome is Ok && exists|left: H| #[trigger]
            handler.handles(message, normalized(raw_msg.headers), &left),
        Err(_) => outcome is Err,
    }
}

/// The answers that dispatching to this handler may give for an envelope,
/// where decoding is this relation between a payload and what it decodes
/// to: those that the handler makes of what the payload decodes to.
pub open spec fn answers_by<TMessage: MessageConstraints, H: MessageHandler<TMessage>>(
    decoding: spec_fn(&str, Result<TMessage, serde_json::Error>) -> bool,
    handler: H,
    raw_msg: Envelope,
    outcome: Result<(), DecodeError>,
) -> bool {
    exists|payload: &str, decoded: Result<TMessage, serde_json::Error>|
        #![trigger decoding(payload, decoded)]
        {
            &&& payload@ == raw_msg.payload
            &&& decoding(payload, decoded)
            &&& settled(handler, raw_msg, decoded, outcome)
        }
}

/// The answers that dispatching to this handler through this decoding
/// function may give for an envelope: those that the handler makes of what
/// the function gives for the payload.
pub open spec fn typed_answers<TMessage, H, F>(
    handler: H,
    decode: F,
    raw_msg: Envelope,
    outcome: Result<(), DecodeError>,
) -> bool where
    TMessage: MessageConstraints,
    H: MessageHandler<TMessage>,
    F: Fn(&str) -> Result<TMessage, serde_json::Error>,
 {
    exists|payload: &str, decoded: Result<TMessage, serde_json::Error>|
        #![trigger call_ensures(decode, (payload,), decoded)]
        {
            &&& payload@ == raw_msg.payload
            &&& call_ensures(decode, (payload,), decoded)
            &&& settled(handler, raw_msg, decoded, outcome)
        }
}

/// What a dispatch that succeeds makes of this handler through this
/// decoding function: the payload decoded to a message, the handler took it
/// with the envelope's normalized headers, and what may be answered
/// afterwards is what dispatching to the handler as it was left may answer.
pub open spec fn typed_hands_on<TMessage, H, F>(
    handler: H,
    decode: F,
    raw_msg: Envelope,
    next: Envelope,
    answer: Result<(), DecodeError>,
    may: bool,
) -> bool where
    TMessage: MessageConstraints,
    H: MessageHandler<TMessage>,
    F: Fn(&str) -> Result<TMessage, serde_json::Error>,
 {
    exists|payload: &str, message: TMessage, left: H|
        #![trigger call_ensures(decode, (payload,), Ok::<TMessage, serde_json::Error>(message)), handler.handles(message, normalized(raw_msg.headers), &left)]
        {
            &&& payload@ == raw_msg.payload
            &&& call_ensures(decode, (payload,), Ok::<TMessage, serde_json::Error>(message))
            &&& handler.handles(message, normalized(raw_msg.headers), &left)
            &&& may == typed_answers::<TMessage, H, F>(left, decode, next, answer)
        }
}

/// Where the decoding function keeps to a relation, the answers of a typed
/// dispatcher are answers by that relation.
pub proof fn lemma_typed_answers_keep_to<TMessage, H, F>(
    decoding: spec_fn(&str, Result<TMessage, serde_json::Error>) -> bool,
    handler: H,
    decode: F,
    raw_msg: Envelope,
    outcome: Result<(), DecodeError>,
) where
    TMessage: MessageConstraints,
    H: MessageHandler<TMessage>,
    F: Fn(&str) -> Result<TMessage, serde_json::Error>,

    requires
        forall|payload: &str, decoded: Result<TMessage, serde_json::Error>| #[trigger]
            call_ensures(decode, (payload,), decoded) ==> decoding(payload, decoded),
        typed_answers::<TMessage, H, F>(handler, decode, raw_msg, outcome),
    ensures
        answers_by::<TMessage, H>(decoding, handler, raw_msg, outcome),
{
    let (payload, decoded) = choose|payload: &str, decoded: Result<TMessage, serde_json::Error>|
        {
            &&& payload@ == raw_msg.payload
            &&& #[trigger] call_ensures(decode, (payload,), decoded)
            &&& settled(handler, raw_msg, decoded, outcome)
        };
    assert(decoding(payload, decoded));
}

/// A typed handler with the decoder of its message type.
#[verifier::reject_recursive_types(TMessage)]
pub struct TypedDispatcher<TMessage, H, F: Fn(&str) -> Result<TMessage, serde_json::Error>> {
    handler: H,
    decoder: Decoder<TMessage, F>,
}

impl<TMessage, H, F> TypedDispatcher<TMessage, H, F> where
    TMessage: MessageConstraints,
    H: MessageHandler<TMessage>,
    F: Fn(&str) -> Result<TMessage, serde_json::Error>,
 {
    /// The handler.
    pub closed spec fn handler(&self) -> H {
        self.handler
    }

    /// The decoder of the handler's message type.
    pub closed spec fn decoder(&self) -> Decoder<TMessage, F> {
        self.decoder
    }

    pub(crate) fn new(handler: H, decoder: Decoder<TMessage, F>) -> (dispatcher: Self)
        ensures
            dispatcher.handler() == handler,
            dispatcher.decoder() == decoder,
    {
        TypedDispatcher { handler, decoder }
    }
}

impl<TMessage, H, F> Dispatcher for TypedDispatcher<TMessage, H, F> where
    TMessage: MessageConstraints + Send + Sync,
    H: MessageHandler<TMessage> + Send + Sync,
    F: Fn(&str) -> Result<TMessage, serde_json::Error> + Send + Sync,
 {
    /// The answers are those of the handler through the decoder's function.
    open spec fn answers(&self, raw_msg: Envelope, outcome: Result<(), DecodeError>) -> bool {
        typed_answers::<TMessage, H, F>(
            self.handler(),
            self.decoder().function(),
            raw_msg,
            outcome,
        )
    }

    /// A success leaves the handler as handling the decoded message left
    /// it, behind the same decoder.
    open spec fn hands_on(
        &self,
        raw_msg: Envelope,
        next: Envelope,
        answer: Result<(), DecodeError>,
        may: bool,
    ) -> bool {
        typed_hands_on::<TMessage, H, F>(
            self.handler(),
            self.decoder().function(),
            raw_msg,
            next,
            answer,
            may,
        )
    }

    /// The handler runs exactly when the payload decodes; it then gets the
    /// decoded message and the envelope's normalized headers.
    fn dispatch(&mut self, raw_msg: &RawMessage) -> (outcome: Result<(), DecodeError>)
        ensures
            final(self).decoder() == old(self).decoder(),
            outcome is Ok ==> exists|message: TMessage| #[trigger]
                old(self).handler().handles(
                    message,
                    normalized(raw_msg@.headers),
                    &final(self).handler(),
                ),
            outcome is Err ==> final(self).handler() == old(self).handler(),
    {
        let payload = raw_msg.payload.as_str();
        let decoded = self.decoder.run(payload);
        let ghost given = decoded;
        proof {
            assert(call_ensures(old(self).decoder().function(), (payload,), given));
        }
        match settle(decoded) {
            Err(fault) => {
                proof {
                    assert(settled(old(self).handler(), raw_msg@, given, Err(fault)));
                }
                Err(fault)
            },
            Ok(message) => {
                let ghost handed = message;
                self.handler.handle(message, raw_msg.header_view());
                proof {
                    assert(old(self).handler().handles(
                        handed,
                        normalized(raw_msg@.headers),
                        &self.handler(),
                    ));
                    assert(settled(old(self).handler(), raw_msg@, given, Ok(())));
                    assert(call_ensures(
                        old(self).decoder().function(),
                        (payload,),
                        Ok::<TMessage, serde_json::Error>(handed),
                    ));
                    assert forall|next: Envelope, answer: Result<(), DecodeError>|
                        old(self).hands_on(
                            raw_msg@,
                            next,
                            answer,
                            #[trigger] self.answers(next, answer),
                        ) by {}
                }
                Ok(())
            },
        }
    }
}

/// A dispatcher of any message type, behind one type: what the handler
/// registry of a listener holds.
pub struct ErasedDispatcher {
    inner: Box<dyn Dispatcher>,
}

impl ErasedDispatcher {
    /// Puts a typed dispatcher behind the one type. Its answers stay what
    /// they are.
    pub(crate) fn of<TMessage, H, F>(typed: TypedDispatcher<TMessage, H, F>) -> (erased: Self) where
        TMessage: MessageConstraints + Send + Sync,
        H: MessageHandler<TMessage> + Send + Sync + 'static,
        F: Fn(&str) -> Result<TMessage, serde_json::Error> + Send + Sync + 'static,

        ensures
            forall|raw_msg: Envelope, outcome: Result<(), DecodeError>| #[trigger]
                erased.answers(raw_msg, outcome) == typed.answers(raw_msg, outcome),
            forall|raw_msg: Envelope, next: Envelope, answer: Result<(), DecodeError>, may: bool|
                #[trigger] erased.hands_on(raw_msg, next, answer, may) == typed.hands_on(
                    raw_msg,
                    next,
                    answer,
                    may,
                ),
    {
        ErasedDispatcher { inner: Box::new(typed) }
    }
}

impl Dispatcher for ErasedDispatcher {
    /// The answers are those of the dispatcher behind.
    closed spec fn answers(&self, raw_msg: Envelope, outcome: Result<(), DecodeError>) -> bool {
        self.inner.answers(raw_msg, outcome)
    }

    /// It is left as the dispatcher behind is.
    closed spec fn hands_on(
        &self,
        raw_msg: Envelope,
        next: Envelope,
        answer: Result<(), DecodeError>,
        may: bool,
    ) -> bool {
        self.inner.hands_on(raw_msg, next, answer, may)
    }

    /// Hands the envelope to the dispatcher behind and answers what it
    /// answers.
    fn dispatch(&mut self, raw_msg: &RawMessage) -> (outcome: Result<(), DecodeError>) {
        self.inner.dispatch(raw_msg)
    }
}

} // verus!
