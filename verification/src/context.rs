use crate::dispatcher::Dispatcher;
use crate::error::DecodeError;
use crate::layer::after_steps;
use crate::layer::before_steps;
use crate::layer::observed;
use crate::layer::onion;
use crate::layer::passes;
use crate::layer::LayerChain;
use crate::layer::PubSubLayer;
use crate::layer::Step;
use crate::message::RawMessage;
use crate::passage::delivery_of;
use crate::passage::Dispatch;
use crate::registry::routed;
use crate::registrations::in_step;
use crate::registrations::Registrations;
use crate::registry::Registration;
use std::any::TypeId;
use vstd::prelude::*;

verus! {

/// What a listener dispatches with: the type registry, the handler registry
/// and the layer chain. A transport is lent one for the time of a receive
/// loop and can do one thing with it: dispatch an envelope.
pub struct ContextContainer<L: PubSubLayer, D: Dispatcher> {
    registrations: Registrations<D>,
    layers: LayerChain<L>,
}

/// Two contexts hold the same registrations: the same layers, the same
/// types, and under the same names dispatchers for the same types.
pub open spec fn same_registrations<L: PubSubLayer, D: Dispatcher>(
    before: ContextContainer<L, D>,
    after: ContextContainer<L, D>,
) -> bool {
    &&& after.layers() == before.layers()
    &&& after.types() == before.types()
    &&& after.handlers().dom() == before.handlers().dom()
    &&& forall|name: Seq<char>| #[trigger]
        before.handlers().contains_key(name) ==> after.handlers()[name].tag
            == before.handlers()[name].tag
}

/// What one dispatch of `raw_msg` does to a context and reports.
pub open spec fn dispatched<L: PubSubLayer, D: Dispatcher>(
    before: ContextContainer<L, D>,
    raw_msg: RawMessage,
    after: ContextContainer<L, D>,
    report: Dispatch,
) -> bool {
    let name = report.envelope@.msg_type;
    let matched = before.handlers().contains_key(name);
    &&& after.layers() == before.layers()
    &&& after.types() == before.types()
    &&& passes(before.layers(), before.layers().len(), raw_msg@, report.envelope@)
    &&& observed(before.layers(), report.envelope@)
    &&& report.steps@ == onion(before.layers().len(), matched)
    &&& report.delivery is Unmatched <==> !matched
    &&& report.delivery is Failed ==> report.delivery->Failed_0 is Payload
    &&& in_step(after.types(), after.handlers())
    &&& exists|outcome: Option<Result<(), DecodeError>>|
        #![trigger delivery_of(outcome)]
        report.delivery == delivery_of(outcome) && routed(
            before.handlers(),
            before.types(),
            report.envelope@,
            after.handlers(),
            outcome,
        )
}

impl<L: PubSubLayer, D: Dispatcher> ContextContainer<L, D> {
    #[verifier::type_invariant]
    pub(crate) open spec fn coherent(self) -> bool {
        in_step(self.types(), self.handlers())
    }

    /// The registered types, by name.
    pub closed spec fn types(&self) -> Map<Seq<char>, TypeId> {
        self.registrations.types()
    }

    /// The registered dispatchers and the types they take, by name.
    pub closed spec fn handlers(&self) -> Map<Seq<char>, Registration<D>> {
        self.registrations.handlers()
    }

    /// The layers, in registration order.
    pub closed spec fn layers(&self) -> Seq<L> {
        self.layers@
    }

    /// A context with the given layers and nothing registered.
    pub(crate) fn new(layers: Vec<L>) -> (context: Self)
        ensures
            context.layers() == layers@,
            context.handlers() == Map::<Seq<char>, Registration<D>>::empty(),
            context.types() == Map::<Seq<char>, TypeId>::empty(),
            in_step(context.types(), context.handlers()),
    {
        ContextContainer { registrations: Registrations::new(), layers: LayerChain::new(layers) }
    }

    /// A context with the layers of the given chain and nothing registered.
    pub(crate) fn on(layers: LayerChain<L>) -> (context: Self)
        ensures
            context.layers() == layers@,
            context.handlers() == Map::<Seq<char>, Registration<D>>::empty(),
            context.types() == Map::<Seq<char>, TypeId>::empty(),
            in_step(context.types(), context.handlers()),
    {
        ContextContainer { registrations: Registrations::new(), layers }
    }

    /// Registers a dispatcher for the type identified by `tag` under `name`;
    /// type and dispatcher replace what stood under that name.
    pub(crate) fn register(&mut self, name: &str, tag: TypeId, dispatcher: D)
        ensures
            final(self).types() == old(self).types().insert(name@, tag),
            final(self).handlers() == old(self).handlers().insert(
                name@,
                Registration { tag, dispatcher },
            ),
            final(self).layers() == old(self).layers(),
    {
        proof {
            use_type_invariant(&*self);
        }
        let mut registrations = Registrations::new();
        std::mem::swap(&mut self.registrations, &mut registrations);
        registrations.register(name, tag, dispatcher);
        proof {
            use_type_invariant(&registrations);
        }
        std::mem::swap(&mut self.registrations, &mut registrations);
    }

    /// The number of type names that hold a dispatcher.
    pub fn registered_handlers_count(&self) -> (count: usize)
        ensures
            self.handlers().dom().finite(),
            count == self.handlers().dom().len(),
    {
        self.registrations.len()
    }

    /// Dispatches one envelope: the `before` layers in registration order,
    /// the handler registered under the type name that they left, if there
    /// is one, and the `after` layers in reverse order, whether or not a
    /// handler was found and whatever it answered.
    pub fn dispatch(&mut self, raw_msg: RawMessage) -> (report: Dispatch)
        ensures
            dispatched(*old(self), raw_msg, *final(self), report),
            same_registrations(*old(self), *final(self)),
    {
        proof {
            use_type_invariant(&*self);
        }
        let passage = self.layers.begin(raw_msg);
        let name = passage.envelope.msg_type.as_str();
        let mut registrations = Registrations::new();
        std::mem::swap(&mut self.registrations, &mut registrations);
        let taken = registrations.take(name);
        proof {
            use_type_invariant(&registrations);
        }
        std::mem::swap(&mut self.registrations, &mut registrations);
        let outcome = match taken {
            None => None,
            Some(registration) => {
                let Registration { tag, dispatcher } = registration;
                let mut dispatcher = dispatcher;
                let outcome = match self.registrations.message_store().check(name, &tag) {
                    Err(fault) => Err(fault),
                    Ok(()) => dispatcher.dispatch(&passage.envelope),
                };
                std::mem::swap(&mut self.registrations, &mut registrations);
                registrations.put(name, Registration { tag, dispatcher });
                proof {
                    use_type_invariant(&registrations);
                    assert(registrations.handlers().dom() =~= old(self).handlers().dom());
                }
                std::mem::swap(&mut self.registrations, &mut registrations);
                Some(outcome)
            },
        };
        let ghost witness = outcome;
        let report = self.layers.finish(passage, outcome);
        proof {
            assert(report.steps@ =~= onion(self.layers().len(), witness is Some));
            assert(report.delivery == delivery_of(witness));
        }
        report
    }
}

/// An envelope whose type name holds no handler still passes every layer:
/// each `before` in registration order, then each `after` in reverse order,
/// and nothing in between; no dispatcher is touched.
pub proof fn lemma_unmatched_passes_the_layers<L: PubSubLayer, D: Dispatcher>(
    before: ContextContainer<L, D>,
    raw_msg: RawMessage,
    after: ContextContainer<L, D>,
    report: Dispatch,
)
    requires
        dispatched(before, raw_msg, after, report),
        !before.handlers().contains_key(report.envelope@.msg_type),
    ensures
        report.delivery is Unmatched,
        report.steps@ == before_steps(before.layers().len()) + after_steps(before.layers().len()),
        !report.steps@.contains(Step::Deliver),
        after.handlers() == before.handlers(),
{
    let count = before.layers().len();
    assert(onion(count, false) =~= before_steps(count) + after_steps(count));
}

/// A dispatch keeps the registrations.
pub proof fn lemma_dispatch_keeps_registrations<L: PubSubLayer, D: Dispatcher>(
    before: ContextContainer<L, D>,
    raw_msg: RawMessage,
    after: ContextContainer<L, D>,
    report: Dispatch,
)
    requires
        dispatched(before, raw_msg, after, report),
    ensures
        same_registrations(before, after),
{
    let outcome = choose|outcome: Option<Result<(), DecodeError>>|
        report.delivery == #[trigger] delivery_of(outcome) && routed(
            before.handlers(),
            before.types(),
            report.envelope@,
            after.handlers(),
            outcome,
        );
    assert forall|name: Seq<char>| #[trigger] before.handlers().contains_key(name) implies after.handlers()[name].tag
        == before.handlers()[name].tag by {
        if name != report.envelope@.msg_type {
            assert(after.handlers()[name] == before.handlers()[name]);
        }
    }
}

/// An envelope that cannot be resolved does not end anything: the fault is
/// reported as a payload fault, the `after` layers have run, and the
/// registrations stand for the next envelope.
pub proof fn lemma_failure_is_reported<L: PubSubLayer, D: Dispatcher>(
    before: ContextContainer<L, D>,
    raw_msg: RawMessage,
    after: ContextContainer<L, D>,
    report: Dispatch,
)
    requires
        dispatched(before, raw_msg, after, report),
        report.delivery is Failed,
    ensures
        report.delivery->Failed_0 is Payload,
        before.handlers().contains_key(report.envelope@.msg_type),
        report.steps@ == onion(before.layers().len(), true),
        same_registrations(before, after),
{
    lemma_dispatch_keeps_registrations(before, raw_msg, after, report);
}

/// The context `after` is what dispatching the envelopes one after the
/// other makes of `before`, each dispatch starting where the one before it
/// ended, with these reports in that order.
pub open spec fn replayed<L: PubSubLayer, D: Dispatcher>(
    before: ContextContainer<L, D>,
    envelopes: Seq<RawMessage>,
    after: ContextContainer<L, D>,
    reports: Seq<Dispatch>,
) -> bool
    decreases envelopes.len(),
{
    if envelopes.len() == 0 {
        after == before && reports.len() == 0
    } else {
        &&& reports.len() == envelopes.len()
        &&& exists|mid: ContextContainer<L, D>|
            #![trigger dispatched(mid, envelopes.last(), after, reports.last())]
            replayed(before, envelopes.drop_last(), mid, reports.drop_last()) && dispatched(
                mid,
                envelopes.last(),
                after,
                reports.last(),
            )
    }
}

/// However many envelopes are dispatched one after the other, matched or
/// not, each passes every layer once: its calls are the `before` of every
/// layer in registration order, the handler if its name holds one, and the
/// `after` of every layer in reverse order. The registrations are at the
/// end what they were at the start.
pub proof fn lemma_every_envelope_passes_the_layers<L: PubSubLayer, D: Dispatcher>(
    before: ContextContainer<L, D>,
    envelopes: Seq<RawMessage>,
    after: ContextContainer<L, D>,
    reports: Seq<Dispatch>,
)
    requires
        replayed(before, envelopes, after, reports),
    ensures
        reports.len() == envelopes.len(),
        same_registrations(before, after),
        forall|i: int|
            0 <= i < reports.len() ==> (#[trigger] reports[i]).steps@ == onion(
                before.layers().len(),
                before.handlers().contains_key(reports[i].envelope@.msg_type),
            ),
        forall|i: int|
            0 <= i < reports.len() ==> ((#[trigger] reports[i]).delivery is Unmatched
                <==> !before.handlers().contains_key(reports[i].envelope@.msg_type)),
    decreases envelopes.len(),
{
    if envelopes.len() > 0 {
        let mid = choose|mid: ContextContainer<L, D>|
            replayed(before, envelopes.drop_last(), mid, reports.drop_last()) && #[trigger] dispatched(
                mid,
                envelopes.last(),
                after,
                reports.last(),
            );
        lemma_every_envelope_passes_the_layers(
            before,
            envelopes.drop_last(),
            mid,
            reports.drop_last(),
        );
        lemma_dispatch_keeps_registrations(mid, envelopes.last(), after, reports.last());
        assert forall|i: int| 0 <= i < reports.len() implies (#[trigger] reports[i]).steps@ == onion(
            before.layers().len(),
            before.handlers().contains_key(reports[i].envelope@.msg_type),
        ) && (reports[i].delivery is Unmatched <==> !before.handlers().contains_key(
            reports[i].envelope@.msg_type,
        )) by {
            if i < reports.len() - 1 {
                assert(reports[i] == reports.drop_last()[i]);
            } else {
                assert(reports[i] == reports.last());
            }
        }
    }
}

} // verus!
