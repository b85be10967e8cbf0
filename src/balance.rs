//! The balancer factory layer, the balancer factory, and the future that
//! builds one balancer.
use vstd::prelude::*;
use crate::progress::Progress;
use crate::rng::{fork_run, forked, lemma_forks_distinct, Generator, GeneratorError, GeneratorState};

verus! {

/// Builds balancer factories, each with a generator forked from this
/// layer's own.
pub struct BalanceLayer {
    rng: Generator,
}

/// Makes balancers, given an inner factory that makes endpoint sets.
pub struct BalanceMake<S> {
    inner: S,
    rng: Generator,
}

/// A balancer under construction: the inner factory's operation, and the
/// generator forked for the balancer it will yield.
pub struct MakeFuture<F> {
    inner: F,
    rng: Option<Generator>,
}

/// A balancer over one endpoint set, with a generator of its own.
pub struct Balance<D> {
    discover: D,
    rng: Generator,
}

impl BalanceLayer {
    pub closed spec fn generator(&self) -> Generator {
        self.rng
    }

    /// The generator that factories are forked from.
    pub fn rng(&self) -> (r: &Generator)
        ensures
            *r == self.generator(),
    {
        &self.rng
    }

    /// Builds a layer from the process entropy source.
    pub fn new() -> (r: BalanceLayer)
        ensures
            r.generator().state().lineage.len() == 0,
            r.generator().next_fork() == 0,
    {
        BalanceLayer { rng: Generator::from_entropy() }
    }

    /// Builds a layer seeded by what an outside generator drew; fails with
    /// the outside generator's error when it could not supply a seed.
    pub fn from_rng(draw: Result<u64, rand::Error>) -> (r: Result<BalanceLayer, GeneratorError>)
        ensures
            draw is Ok <==> r is Ok,
            draw is Ok ==> r->Ok_0.generator().state() == (GeneratorState {
                seed: draw->Ok_0,
                lineage: Seq::<u64>::empty(),
            }) && r->Ok_0.generator().next_fork() == 0,
    {
        match Generator::from_draw(draw) {
            Ok(rng) => Ok(BalanceLayer { rng }),
            Err(e) => Err(e),
        }
    }

    /// Wraps an inner factory into a balancer factory whose generator is a
    /// fresh fork of this layer's.
    pub fn layer<S>(&mut self, make_discover: S) -> (r: BalanceMake<S>)
        requires
            old(self).generator().next_fork() < u64::MAX,
        ensures
            r.inner() == make_discover,
            r.generator().state() == forked(
                old(self).generator().state(),
                old(self).generator().next_fork(),
            ),
            r.generator().next_fork() == 0,
            final(self).generator().state() == old(self).generator().state(),
            final(self).generator().next_fork() == old(self).generator().next_fork() + 1,
    {
        let rng = self.rng.fork();
        BalanceMake::new(make_discover, rng)
    }
}

impl<S> BalanceMake<S> {
    pub closed spec fn inner(&self) -> S {
        self.inner
    }

    pub closed spec fn generator(&self) -> Generator {
        self.rng
    }

    /// The generator that balancers are forked from.
    pub fn rng(&self) -> (r: &Generator)
        ensures
            *r == self.generator(),
    {
        &self.rng
    }

    /// A factory over `inner` that forks balancer generators from `rng`.
    pub fn new(inner: S, rng: Generator) -> (r: BalanceMake<S>)
        ensures
            r.inner() == inner,
            r.generator() == rng,
    {
        BalanceMake { inner, rng }
    }

    /// A factory whose generator is seeded from the process entropy source.
    pub fn from_entropy(make_discover: S) -> (r: BalanceMake<S>)
        ensures
            r.inner() == make_discover,
            r.generator().state().lineage.len() == 0,
            r.generator().next_fork() == 0,
    {
        BalanceMake::new(make_discover, Generator::from_entropy())
    }

    /// The inner factory.
    pub fn inner_ref(&self) -> (r: &S)
        ensures
            *r == self.inner(),
    {
        &self.inner
    }

    /// The inner factory, to query its readiness or start an operation.
    pub fn inner_mut(&mut self) -> (r: &mut S)
        ensures
            *r == old(self).inner(),
            final(self).inner() == *final(r),
            final(self).generator() == old(self).generator(),
    {
        &mut self.inner
    }

    /// Starts building one balancer around the inner factory's operation
    /// `inner`, with a generator forked from this factory's.
    pub fn call<F>(&mut self, inner: F) -> (r: MakeFuture<F>)
        requires
            old(self).generator().next_fork() < u64::MAX,
        ensures
            r.inner() == inner,
            r.is_pending(),
            r.generator().state() == forked(
                old(self).generator().state(),
                old(self).generator().next_fork(),
            ),
            final(self).inner() == old(self).inner(),
            final(self).generator().state() == old(self).generator().state(),
            final(self).generator().next_fork() == old(self).generator().next_fork() + 1,
    {
        let rng = self.rng.fork();
        MakeFuture { inner, rng: Some(rng) }
    }
}

impl<F> MakeFuture<F> {
    pub closed spec fn inner(&self) -> F {
        self.inner
    }

    /// Whether the future has not resolved yet.
    pub closed spec fn is_pending(&self) -> bool {
        self.rng is Some
    }

    /// The generator held for the balancer; meaningful while pending.
    pub closed spec fn generator(&self) -> Generator {
        self.rng->Some_0
    }

    /// Whether the future has not resolved yet.
    pub fn pending(&self) -> (r: bool)
        ensures
            r == self.is_pending(),
    {
        self.rng.is_some()
    }

    /// The inner factory's operation, to poll it.
    pub fn inner_mut(&mut self) -> (r: &mut F)
        ensures
            *r == old(self).inner(),
            final(self).inner() == *final(r),
            final(self).is_pending() == old(self).is_pending(),
            final(self).generator() == old(self).generator(),
    {
        &mut self.inner
    }

    /// Takes one poll of the inner operation and reports this future's
    /// progress: still pending, a balancer over the endpoint set that the
    /// inner operation yielded, or the inner error unchanged.
    pub fn poll<D, E>(&mut self, outcome: Progress<D, E>) -> (r: Progress<Balance<D>, E>)
        requires
            old(self).is_pending(),
        ensures
            final(self).inner() == old(self).inner(),
            match outcome {
                Progress::Pending => r is Pending && *final(self) == *old(self),
                Progress::Ready(d) => r matches Progress::Ready(b) && b.discover() == d
                    && b.generator() == old(self).generator() && !final(self).is_pending(),
                Progress::Failed(e) => r == Progress::<Balance<D>, E>::Failed(e)
                    && !final(self).is_pending(),
            },
    {
        match outcome {
            Progress::Pending => Progress::Pending,
            Progress::Ready(d) => {
                let rng = self.rng.take().unwrap();
                Progress::Ready(Balance::new(d, rng))
            },
            Progress::Failed(e) => {
                self.rng = None;
                Progress::Failed(e)
            },
        }
    }
}

impl<D> Balance<D> {
    pub closed spec fn discover(&self) -> D {
        self.discover
    }

    pub closed spec fn generator(&self) -> Generator {
        self.rng
    }

    /// The balancer's own generator.
    pub fn rng(&self) -> (r: &Generator)
        ensures
            *r == self.generator(),
    {
        &self.rng
    }

    /// The endpoint set the balancer chooses from.
    pub fn discover_ref(&self) -> (r: &D)
        ensures
            *r == self.discover(),
    {
        &self.discover
    }

    /// A balancer over the endpoint set `discover`, choosing with `rng`.
    pub fn new(discover: D, rng: Generator) -> (r: Balance<D>)
        ensures
            r.discover() == discover,
            r.generator() == rng,
    {
        Balance { discover, rng }
    }
}

/// `n` consecutive applications of one layer hand the factories they build
/// pairwise distinct generator states, none equal to the layer's own: the
/// `k`-th application hands out `fork_run(..)[k]`.
pub proof fn lemma_layer_factories_distinct(layer: BalanceLayer, n: nat)
    requires
        layer.generator().next_fork() + n <= u64::MAX + 1,
    ensures
        forall|i: int, j: int|
            0 <= i < j < n ==> #[trigger] fork_run(
                layer.generator().state(),
                layer.generator().next_fork(),
                n,
            )[i] != #[trigger] fork_run(
                layer.generator().state(),
                layer.generator().next_fork(),
                n,
            )[j],
        forall|i: int|
            0 <= i < n ==> #[trigger] fork_run(
                layer.generator().state(),
                layer.generator().next_fork(),
                n,
            )[i] != layer.generator().state(),
{
    lemma_forks_distinct(layer.generator().state(), layer.generator().next_fork(), n);
}

/// `n` consecutive builds on one factory hand the balancers they yield
/// pairwise distinct generator states, while the factory's own state stays
/// as it was: the `k`-th build hands out `fork_run(..)[k]`.
pub proof fn lemma_factory_balancers_distinct<S>(make: BalanceMake<S>, n: nat)
    requires
        make.generator().next_fork() + n <= u64::MAX + 1,
    ensures
        forall|i: int, j: int|
            0 <= i < j < n ==> #[trigger] fork_run(
                make.generator().state(),
                make.generator().next_fork(),
                n,
            )[i] != #[trigger] fork_run(
                make.generator().state(),
                make.generator().next_fork(),
                n,
            )[j],
        forall|i: int|
            0 <= i < n ==> #[trigger] fork_run(
                make.generator().state(),
                make.generator().next_fork(),
                n,
            )[i] != make.generator().state(),
{
    lemma_forks_distinct(make.generator().state(), make.generator().next_fork(), n);
}

} // verus!
