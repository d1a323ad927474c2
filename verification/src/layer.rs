use crate::message::Envelope;
use crate::message::RawMessage;
use vstd::prelude::*;

verus! {

/// A middleware unit around every dispatch and every publication: `before`
/// may rewrite the envelope, `after` only observes it.
pub trait PubSubLayer: Send + Sync {
    /// What `before` does to an envelope: holds of the envelope as it was
    /// handed in and as it was left. A layer that does not say may leave
    /// any envelope.
    open spec fn rewrites(&self, given: Envelope, left: Envelope) -> bool {
        true
    }

    fn before(&self, raw_msg: &mut RawMessage)
        ensures
            self.rewrites(old(raw_msg)@, final(raw_msg)@),
    ;

    /// What `after` makes of an envelope: holds of the layer and of the
    /// envelope that it was shown. A layer that does not say may make
    /// anything of it.
    open spec fn observes(&self, shown: Envelope) -> bool {
        true
    }

    fn after(&self, raw_msg: &RawMessage)
        ensures
            self.observes(raw_msg@),
    ;
}

impl PubSubLayer for Box<dyn PubSubLayer> {
    open spec fn rewrites(&self, given: Envelope, left: Envelope) -> bool {
        (**self).rewrites(given, left)
    }

    open spec fn observes(&self, shown: Envelope) -> bool {
        (**self).observes(shown)
    }

    fn before(&self, raw_msg: &mut RawMessage) {
        (**self).before(raw_msg)
    }

    fn after(&self, raw_msg: &RawMessage) {
        (**self).after(raw_msg)
    }
}

/// One call made while an envelope passes through the chain. A layer is
/// named by its place in registration order.
#[derive(Clone, Copy, Debug, PartialEq, Eq)]
pub enum Step {
    /// The `before` of a layer.
    Before(usize),
    /// The call in the middle: a handler, or the transport's send.
    Deliver,
    /// The `after` of a layer.
    After(usize),
}

/// The `before` calls over `count` layers: in registration order.
pub open spec fn before_steps(count: nat) -> Seq<Step> {
    Seq::new(count, |i: int| Step::Before(i as usize))
}

/// The `after` calls over `count` layers: in reverse registration order.
pub open spec fn after_steps(count: nat) -> Seq<Step> {
    Seq::new(count, |i: int| Step::After((count - 1 - i) as usize))
}

/// The call in the middle, if one is made.
pub open spec fn middle(delivered: bool) -> Seq<Step> {
    if delivered {
        seq![Step::Deliver]
    } else {
        Seq::empty()
    }
}

/// The calls of one passage over `count` layers.
pub open spec fn onion(count: nat, delivered: bool) -> Seq<Step> {
    before_steps(count) + middle(delivered) + after_steps(count)
}

/// The envelope `left` is what the first `count` layers make of `given`, each
/// rewriting what the one before it left.
pub open spec fn passes<L: PubSubLayer>(layers: Seq<L>, count: nat, given: Envelope, left: Envelope) -> bool
    decreases count,
{
    if count == 0 {
        given == left
    } else {
        exists|mid: Envelope|
            #![trigger layers[count - 1].rewrites(mid, left)]
            passes(layers, (count - 1) as nat, given, mid) && layers[count - 1].rewrites(mid, left)
    }
}

/// Every layer was shown the envelope by a call of its `after`.
pub open spec fn observed<L: PubSubLayer>(layers: Seq<L>, shown: Envelope) -> bool {
    forall|i: int| 0 <= i < layers.len() ==> (#[trigger] layers[i]).observes(shown)
}

/// The layers `after` are the layers `before` and one more behind them.
pub open spec fn grown<L>(before: Seq<L>, after: Seq<L>) -> bool {
    &&& after.len() == before.len() + 1
    &&& forall|i: int| 0 <= i < before.len() ==> #[trigger] after[i] == before[i]
}

/// A chain with a layer pushed has grown by it.
pub proof fn lemma_pushed_has_grown<L>(before: Seq<L>, layer: L, after: Seq<L>)
    requires
        after == before.push(layer),
    ensures
        grown(before, after),
{
}

/// One more layer extends a passage by its own rewriting.
pub proof fn lemma_passes_step<L: PubSubLayer>(
    layers: Seq<L>,
    count: nat,
    given: Envelope,
    mid: Envelope,
    left: Envelope,
)
    requires
        passes(layers, count, given, mid),
        layers[count as int].rewrites(mid, left),
    ensures
        passes(layers, (count + 1) as nat, given, left),
{
    let next = (count + 1) as nat;
    assert(passes(layers, (next - 1) as nat, given, mid) && layers[next - 1].rewrites(mid, left));
    assert(passes(layers, next, given, left));
}

/// The ordered list of layers.
pub struct LayerChain<L> {
    layers: Vec<L>,
}

impl<L: PubSubLayer> LayerChain<L> {
    /// The layers, in registration order.
    pub closed spec fn view(&self) -> Seq<L> {
        self.layers@
    }

    /// A chain of the given layers, in their order.
    pub fn new(layers: Vec<L>) -> (chain: Self)
        ensures
            chain@ == layers@,
    {
        LayerChain { layers }
    }

    /// Adds a layer as the innermost one.
    pub fn push(&mut self, layer: L)
        ensures
            final(self)@ == old(self)@.push(layer),
    {
        self.layers.push(layer);
    }

    /// The number of layers.
    pub fn len(&self) -> (count: usize)
        ensures
            count == self@.len(),
    {
        self.layers.len()
    }

    /// Runs every layer's `before` on the envelope, in registration order,
    /// and records each call.
    pub fn enter(&self, raw_msg: &mut RawMessage, steps: &mut Vec<Step>)
        ensures
            passes(self@, self@.len(), old(raw_msg)@, final(raw_msg)@),
            final(steps)@ == old(steps)@ + before_steps(self@.len()),
    {
        let count = self.layers.len();
        let mut i: usize = 0;
        while i < count
            invariant
                count == self.layers@.len(),
                i <= count,
                passes(self@, i as nat, old(raw_msg)@, raw_msg@),
                steps@ == old(steps)@ + before_steps(i as nat),
            decreases count - i,
        {
            let ghost mid = raw_msg@;
            self.layers[i].before(raw_msg);
            steps.push(Step::Before(i));
            proof {
                lemma_passes_step(self@, i as nat, old(raw_msg)@, mid, raw_msg@);
                assert(before_steps((i + 1) as nat) =~= before_steps(i as nat).push(
                    Step::Before(i),
                ));
                assert(steps@ =~= old(steps)@ + before_steps((i + 1) as nat));
            }
            i = i + 1;
        }
    }

    /// Runs every layer's `after` on the envelope, in reverse registration
    /// order, and records each call.
    pub fn leave(&self, raw_msg: &RawMessage, steps: &mut Vec<Step>)
        ensures
            observed(self@, raw_msg@),
            final(steps)@ == old(steps)@ + after_steps(self@.len()),
    {
        let count = self.layers.len();
        let mut done: usize = 0;
        while done < count
            invariant
                count == self.layers@.len(),
                done <= count,
                forall|i: int| count - done <= i < count ==> (#[trigger] self@[i]).observes(raw_msg@),
                steps@ == old(steps)@ + after_steps(count as nat).subrange(0, done as int),
            decreases count - done,
        {
            let i = count - 1 - done;
            self.layers[i].after(raw_msg);
            steps.push(Step::After(i));
            proof {
                assert(after_steps(count as nat).subrange(0, done + 1) =~= after_steps(
                    count as nat,
                ).subrange(0, done as int).push(Step::After(i)));
                assert(steps@ =~= old(steps)@ + after_steps(count as nat).subrange(0, done + 1));
            }
            done = done + 1;
        }
        proof {
            assert(after_steps(count as nat).subrange(0, count as int) =~= after_steps(
                count as nat,
            ));
        }
    }
}

/// The shape of a passage: the `before` of layer `i` is call `i`, the `after`
/// of layer `i` is call `i` counted from the end, and the call in the middle,
/// if made, stands between the two runs.
pub proof fn lemma_onion_shape(count: nat, delivered: bool)
    requires
        count <= usize::MAX,
    ensures
        onion(count, delivered).len() == 2 * count + (if delivered { 1nat } else { 0nat }),
        forall|i: int| 0 <= i < count ==> #[trigger] onion(count, delivered)[i] == Step::Before(i as usize),
        forall|i: int| 0 <= i < count ==> #[trigger] onion(count, delivered)[onion(count, delivered).len() - 1 - i]
            == Step::After(i as usize),
        delivered ==> onion(count, delivered)[count as int] == Step::Deliver,
{
}

/// Every call of a passage is made exactly once: a call stands at one place
/// only.
pub proof fn lemma_onion_once(count: nat, delivered: bool, i: int, j: int)
    requires
        count <= usize::MAX,
        0 <= i < onion(count, delivered).len(),
        0 <= j < onion(count, delivered).len(),
        onion(count, delivered)[i] == onion(count, delivered)[j],
    ensures
        i == j,
{
}

} // verus!
