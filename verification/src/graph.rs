//! Mixers and the closed set of nodes that a graph is made of.

use crate::binary32::{
    count_to_sample, count_value, product, product_of, quotient, quotient_of, sum, sum_of, ONE,
    ZERO,
};
use crate::synth::{advanced, limit, limited, Clip, Silence, Synth};
use crate::volume::VolumeControl;
use vstd::prelude::*;

verus! {

/// The shape of a graph: what its nodes are and which gains they carry.
pub enum Node {
    /// A limiter over one node, with the encoding of its limit.
    Clip(Box<Node>, u32),
    /// A mixer over its children in order, each with the encoding of its weight.
    Mixer(Seq<(Node, u32)>),
    /// A quiet leaf.
    Silence,
}

/// The weighted samples added up from the left, starting at zero.
pub open spec fn weighted_sum(samples: Seq<u32>, weights: Seq<u32>) -> u32
    decreases samples.len(),
{
    if samples.len() == 0 {
        ZERO
    } else {
        sum(
            weighted_sum(samples.drop_last(), weights.drop_last()),
            product(samples.last(), weights.last()),
        )
    }
}

/// The sample of a mixer whose children gave `samples` and carry `weights`:
/// the weighted sum divided by the number of children, whatever the weights
/// add up to, and zero where there are no children.
pub open spec fn mixed(samples: Seq<u32>, weights: Seq<u32>) -> u32 {
    if samples.len() == 0 {
        ZERO
    } else {
        quotient(weighted_sum(samples, weights), count_value(samples.len() as usize))
    }
}

/// Adds one weighted sample to what a mixer has added up so far.
pub fn accumulate(total: u32, sample: u32, weight: VolumeControl) -> (r: u32)
    ensures
        r == sum(total, product(sample, weight@)),
{
    sum_of(total, product_of(sample, weight.value()))
}

/// Divides what a mixer has added up by the number of its children. Where
/// there are none the result is zero.
pub fn average(total: u32, count: usize) -> (r: u32)
    ensures
        count == 0 ==> r == ZERO,
        count != 0 ==> r == quotient(total, count_value(count)),
{
    if count == 0 {
        ZERO
    } else {
        quotient_of(total, count_to_sample(count))
    }
}

/// The samples of `children`, in order.
pub open spec fn given_samples(children: Seq<(u32, VolumeControl)>) -> Seq<u32> {
    Seq::new(children.len(), |i: int| children[i].0)
}

/// The weights of `children`, in order.
pub open spec fn given_weights(children: Seq<(u32, VolumeControl)>) -> Seq<u32> {
    Seq::new(children.len(), |i: int| children[i].1@)
}

/// Mixes samples that were taken already, each with its weight.
pub fn mix(children: &[(u32, VolumeControl)]) -> (r: u32)
    ensures
        r == mixed(given_samples(children@), given_weights(children@)),
{
    let n: usize = children.len();
    let ghost samples = given_samples(children@);
    let ghost weights = given_weights(children@);
    let mut total: u32 = ZERO;
    let mut i: usize = 0;
    while i < n
        invariant
            i <= n,
            n == children@.len(),
            samples == given_samples(children@),
            weights == given_weights(children@),
            total == weighted_sum(samples.take(i as int), weights.take(i as int)),
        decreases n - i,
    {
        total = accumulate(total, children[i].0, children[i].1);
        proof {
            assert(samples.take(i + 1).drop_last() =~= samples.take(i as int));
            assert(weights.take(i + 1).drop_last() =~= weights.take(i as int));
        }
        i += 1;
    }
    proof {
        assert(samples.take(n as int) =~= samples);
        assert(weights.take(n as int) =~= weights);
    }
    average(total, n)
}

/// The samples that the children of a mixer give, in order.
pub open spec fn child_samples(children: Seq<(Node, u32)>) -> Seq<u32>
    decreases children,
{
    Seq::new(
        children.len(),
        |i: int|
            if 0 <= i < children.len() {
                node_output(children[i].0)
            } else {
                ZERO
            },
    )
}

/// The weights that the children of a mixer carry, in order.
pub open spec fn child_weights(children: Seq<(Node, u32)>) -> Seq<u32> {
    Seq::new(children.len(), |i: int| children[i].1)
}

/// The sample that a graph of this shape gives.
pub open spec fn node_output(node: Node) -> u32
    decreases node,
{
    match node {
        Node::Clip(inner, limit) => limited(node_output(*inner), limit),
        Node::Mixer(children) => mixed(child_samples(children), child_weights(children)),
        Node::Silence => ZERO,
    }
}

/// Any node of a graph.
#[derive(Debug)]
pub enum SynthType {
    Clip(Clip<Box<SynthType>>),
    Mixer(Mixer),
    Silence,
}

/// A mixer: children in order, each with its weight.
#[derive(Debug)]
pub struct Mixer {
    sub_synths: Vec<(SynthType, VolumeControl)>,
}

/// The shapes and weights of a mixer's children.
pub open spec fn children_shape(children: Seq<(SynthType, VolumeControl)>) -> Seq<(Node, u32)>
    decreases children,
{
    Seq::new(
        children.len(),
        |i: int|
            if 0 <= i < children.len() {
                (shape(children[i].0), children[i].1@)
            } else {
                (Node::Silence, ZERO)
            },
    )
}

/// The shape of a graph.
pub open spec fn shape(synth: SynthType) -> Node
    decreases synth,
{
    match synth {
        SynthType::Clip(c) => Node::Clip(Box::new(shape(*c.inner)), c.max_vol@),
        SynthType::Mixer(m) => Node::Mixer(m.state()),
        SynthType::Silence => Node::Silence,
    }
}

impl Synth for SynthType {
    type State = Node;

    open spec fn state(&self) -> Node {
        shape(*self)
    }

    open spec fn output(state: Node) -> u32 {
        node_output(state)
    }

    open spec fn next(state: Node) -> Node {
        state
    }

    /// The next sample of the node, whatever it is. The graph is left as it
    /// was.
    fn sample(&mut self) -> (s: u32)
        ensures
            s == node_output(shape(*old(self))),
            shape(*final(self)) == shape(*old(self)),
        decreases *old(self),
    {
        match self {
            SynthType::Clip(c) => {
                let raw: u32 = (*c.inner).sample();
                limit(raw, c.max_vol)
            },
            SynthType::Mixer(m) => m.sample(),
            SynthType::Silence => {
                let mut leaf = Silence;
                leaf.sample()
            },
        }
    }

    proof fn lemma_clone_keeps_state(&self, copy: &Self) {
    }
}

impl Synth for Mixer {
    type State = Seq<(Node, u32)>;

    closed spec fn state(&self) -> Seq<(Node, u32)>
        decreases self,
    {
        children_shape(self.sub_synths@)
    }

    open spec fn output(state: Seq<(Node, u32)>) -> u32 {
        mixed(child_samples(state), child_weights(state))
    }

    open spec fn next(state: Seq<(Node, u32)>) -> Seq<(Node, u32)> {
        state
    }

    /// The weighted samples of the children, added up in order from zero and
    /// divided by the number of children; zero where there are none. The
    /// mixer is left as it was.
    fn sample(&mut self) -> (s: u32)
        ensures
            s == mixed(child_samples(old(self).state()), child_weights(old(self).state())),
            old(self).state().len() == 0 ==> s == ZERO,
            final(self).state() == old(self).state(),
        decreases *old(self),
    {
        let n: usize = self.sub_synths.len();
        let ghost before = self.sub_synths@;
        let ghost samples = child_samples(children_shape(before));
        let ghost weights = child_weights(children_shape(before));
        let mut acc: u32 = ZERO;
        let mut i: usize = 0;
        while i < n
            invariant
                i <= n,
                n == self.sub_synths.len(),
                n == before.len(),
                before == old(self).sub_synths@,
                samples == child_samples(children_shape(before)),
                weights == child_weights(children_shape(before)),
                forall|j: int| i <= j < n ==> self.sub_synths@[j] == before[j],
                forall|j: int|
                    0 <= j < i ==> shape(#[trigger] self.sub_synths@[j].0) == shape(before[j].0)
                        && self.sub_synths@[j].1 == before[j].1,
                acc == weighted_sum(samples.take(i as int), weights.take(i as int)),
            decreases n - i,
        {
            let weight: VolumeControl = self.sub_synths[i].1;
            proof {
                assert(decreases_to!(*old(self) => self.sub_synths@[i as int].0));
            }
            let s: u32 = self.sub_synths[i].0.sample();
            acc = accumulate(acc, s, weight);
            proof {
                assert(samples.take(i + 1).drop_last() =~= samples.take(i as int));
                assert(weights.take(i + 1).drop_last() =~= weights.take(i as int));
            }
            i += 1;
        }
        proof {
            assert(samples.take(n as int) =~= samples);
            assert(weights.take(n as int) =~= weights);
            assert(children_shape(self.sub_synths@) =~= children_shape(before));
        }
        average(acc, n)
    }

    proof fn lemma_clone_keeps_state(&self, copy: &Self) {
    }
}

impl Clone for SynthType {
    fn clone(&self) -> (copy: Self)
        ensures
            shape(copy) == shape(*self),
        decreases *self,
    {
        match self {
            SynthType::Clip(c) => SynthType::Clip(
                Clip { inner: Box::new((*c.inner).clone()), max_vol: c.max_vol },
            ),
            SynthType::Mixer(m) => SynthType::Mixer(m.clone()),
            SynthType::Silence => SynthType::Silence,
        }
    }
}

impl Clone for Mixer {
    fn clone(&self) -> (copy: Self)
        ensures
            copy.state() == self.state(),
        decreases *self,
    {
        let mut children: Vec<(SynthType, VolumeControl)> = Vec::new();
        let mut i: usize = 0;
        while i < self.sub_synths.len()
            invariant
                i <= self.sub_synths.len(),
                children.len() == i,
                children_shape(children@) == children_shape(self.sub_synths@).take(i as int),
            decreases self.sub_synths.len() - i,
        {
            let child: SynthType = self.sub_synths[i].0.clone();
            children.push((child, self.sub_synths[i].1));
            i += 1;
        }
        Mixer { sub_synths: children }
    }
}

impl Default for Mixer {
    /// A mixer without children.
    fn default() -> (mixer: Self)
        ensures
            mixer.state() == Seq::<(Node, u32)>::empty(),
    {
        Mixer::new()
    }
}

impl Mixer {
    /// A mixer without children.
    pub fn new() -> (mixer: Self)
        ensures
            mixer.state() == Seq::<(Node, u32)>::empty(),
    {
        let mixer = Mixer { sub_synths: Vec::new() };
        assert(mixer.state() =~= Seq::<(Node, u32)>::empty());
        mixer
    }

    /// The number of children.
    pub fn len(&self) -> (n: usize)
        ensures
            n == self.state().len(),
    {
        self.sub_synths.len()
    }

    /// Adds a child behind the others.
    pub fn push(&mut self, synth: SynthType, weight: VolumeControl)
        ensures
            final(self).state() == old(self).state().push((shape(synth), weight@)),
    {
        self.sub_synths.push((synth, weight));
        assert(self.state() =~= old(self).state().push((shape(synth), weight@)));
    }

    /// Takes the child at `index` out and closes the gap. Nothing happens
    /// where there is no such child.
    pub fn remove(&mut self, index: usize) -> (taken: Option<(SynthType, VolumeControl)>)
        ensures
            taken is Some <==> index < old(self).state().len(),
            taken matches Some(child) ==> (shape(child.0), child.1@) == old(self).state()[index as int]
                && final(self).state() == old(self).state().remove(index as int),
            taken is None ==> final(self).state() == old(self).state(),
    {
        if index < self.sub_synths.len() {
            let child = self.sub_synths.remove(index);
            assert(self.state() =~= old(self).state().remove(index as int));
            Some(child)
        } else {
            None
        }
    }

    /// Puts a child in the place of the one at `index` and hands the old one
    /// back. Where there is no such child the new one comes back unused.
    pub fn replace(&mut self, index: usize, synth: SynthType, weight: VolumeControl) -> (outcome:
        Result<(SynthType, VolumeControl), (SynthType, VolumeControl)>)
        ensures
            outcome is Ok <==> index < old(self).state().len(),
            outcome matches Ok(child) ==> (shape(child.0), child.1@) == old(self).state()[index as int]
                && final(self).state() == old(self).state().update(
                    index as int,
                    (shape(synth), weight@),
                ),
            outcome matches Err(unused) ==> unused == (synth, weight) && final(self).state()
                == old(self).state(),
    {
        if index < self.sub_synths.len() {
            self.sub_synths.push((synth, weight));
            let child = self.sub_synths.swap_remove(index);
            assert(self.state() =~= old(self).state().update(index as int, (shape(synth), weight@)));
            Ok(child)
        } else {
            Err((synth, weight))
        }
    }
}

/// A mixer without children gives zero, and not the zero divided by zero
/// that its formula would come to.
pub proof fn lemma_childless_mixer_gives_zero(state: Seq<(Node, u32)>)
    requires
        state.len() == 0,
    ensures
        Mixer::output(state) == ZERO,
        Mixer::next(state) == state,
{
}

/// What a mixer with a single child comes to: the weighted sample is added
/// to zero and the sum is divided by the encoding of one child.
pub proof fn lemma_mix_of_one(sample: u32, weight: u32)
    ensures
        mixed(seq![sample], seq![weight]) == quotient(
            sum(ZERO, product(sample, weight)),
            count_value(1),
        ),
{
    reveal_with_fuel(weighted_sum, 2);
    assert(seq![sample].drop_last() =~= Seq::<u32>::empty());
    assert(seq![weight].drop_last() =~= Seq::<u32>::empty());
}

/// What a mixer with two children comes to: the weighted samples are added
/// to zero in order and the sum is divided by the encoding of two children.
pub proof fn lemma_mix_of_two(first: u32, first_weight: u32, second: u32, second_weight: u32)
    ensures
        mixed(seq![first, second], seq![first_weight, second_weight]) == quotient(
            sum(sum(ZERO, product(first, first_weight)), product(second, second_weight)),
            count_value(2),
        ),
{
    reveal_with_fuel(weighted_sum, 3);
    assert(seq![first, second].drop_last() =~= seq![first]);
    assert(seq![first_weight, second_weight].drop_last() =~= seq![first_weight]);
    assert(seq![first].drop_last() =~= Seq::<u32>::empty());
    assert(seq![first_weight].drop_last() =~= Seq::<u32>::empty());
}

/// The graph that a server starts with, an empty mixer behind a limit of
/// one, gives zero, and goes on giving zero: sampling leaves it as it was.
pub proof fn lemma_default_graph_gives_zero(state: (Seq<(Node, u32)>, u32))
    requires
        state.0.len() == 0,
        state.1 == ONE,
    ensures
        Clip::<Mixer>::output(state) == ZERO,
        Clip::<Mixer>::next(state) == state,
{
}

/// Whatever it is made of, a graph of the closed set holds after any number
/// of samples what it held before, so every sample it gives is the same.
pub proof fn lemma_graph_is_steady(state: (Seq<(Node, u32)>, u32), count: nat)
    ensures
        advanced::<Clip<Mixer>>(state, count) == state,
    decreases count,
{
    if count > 0 {
        lemma_graph_is_steady(state, (count - 1) as nat);
    }
}

} // verus!
