//! Random generator states that are forked, never shared.
//!
//! A generator is identified by the seed it was started from and by its
//! lineage: the fork indices that lead from that seed to it. Each fork
//! appends the parent's next unused index, so two forks of one parent, or a
//! fork and its parent, never hold the same state.
use vstd::prelude::*;

verus! {

#[verifier::external_type_specification]
#[verifier::external_body]
pub struct ExRandError(rand::Error);

#[verifier::external_type_specification]
#[verifier::external_body]
pub struct ExSmallRng(rand::rngs::SmallRng);

/// Relies on `rand::random`, which draws from the thread-local generator
/// that is seeded from the operating system's entropy source; nothing is
/// promised of the value drawn.
pub assume_specification<T>[ rand::random::<T> ]() -> (r: T)
    where
        rand::distributions::Standard: rand::distributions::Distribution<T>,
;

/// The identity of a generator state: its root seed and its lineage.
pub struct GeneratorState {
    pub seed: u64,
    pub lineage: Seq<u64>,
}

/// The state that fork number `k` of a generator in state `s` receives.
pub open spec fn forked(s: GeneratorState, k: u64) -> GeneratorState {
    GeneratorState { seed: s.seed, lineage: s.lineage.push(k) }
}

/// The states that `n` consecutive forks of a generator in state `s`, whose
/// next unused fork index is `next`, hand out, in order.
pub open spec fn fork_run(s: GeneratorState, next: u64, n: nat) -> Seq<GeneratorState> {
    Seq::new(n, |i: int| forked(s, (next + i) as u64))
}

/// The splitmix64 finaliser: a bijection on `u64` that spreads every input
/// bit over the whole output.
pub open spec fn mix(x: u64) -> u64 {
    let a = (x ^ (x >> 30u64)).wrapping_mul(0xbf58476d1ce4e5b9u64);
    let b = (a ^ (a >> 27u64)).wrapping_mul(0x94d049bb133111ebu64);
    b ^ (b >> 31u64)
}

/// The 64-bit seed that a generator in state `s` feeds to its random
/// number generator: the root seed, mixed, then each fork index of the
/// lineage folded in and mixed again.
pub open spec fn derived_seed(s: GeneratorState) -> u64
    decreases s.lineage.len(),
{
    if s.lineage.len() == 0 {
        mix(s.seed)
    } else {
        let prefix = GeneratorState { seed: s.seed, lineage: s.lineage.drop_last() };
        mix(derived_seed(prefix).wrapping_add(0x9e3779b97f4a7c15u64) ^ s.lineage.last())
    }
}

/// Relies on `SeedableRng::seed_from_u64` for `SmallRng`, which expands a
/// 64-bit seed into the generator's full seed.
#[verifier::external_body]
fn small_rng_from_seed(seed: u64) -> rand::rngs::SmallRng {
    <rand::rngs::SmallRng as rand::SeedableRng>::seed_from_u64(seed)
}

fn mix_exec(x: u64) -> (r: u64)
    ensures
        r == mix(x),
{
    let a = (x ^ (x >> 30u64)).wrapping_mul(0xbf58476d1ce4e5b9u64);
    let b = (a ^ (a >> 27u64)).wrapping_mul(0x94d049bb133111ebu64);
    b ^ (b >> 31u64)
}

/// A generator state that owns its fork counter.
pub struct Generator {
    seed: u64,
    lineage: Vec<u64>,
    forks: u64,
}

/// Why a generator could not be derived from an outside source.
pub enum GeneratorError {
    /// The outside source could not supply seed material.
    Exhausted(rand::Error),
}

impl Generator {
    /// The state this generator stands for.
    pub closed spec fn state(&self) -> GeneratorState {
        GeneratorState { seed: self.seed, lineage: self.lineage@ }
    }

    /// The index that the next fork of this generator receives.
    pub closed spec fn next_fork(&self) -> u64 {
        self.forks
    }

    /// A root generator with the given seed.
    pub fn from_seed(seed: u64) -> (r: Generator)
        ensures
            r.state() == (GeneratorState { seed, lineage: Seq::<u64>::empty() }),
            r.next_fork() == 0,
    {
        Generator { seed, lineage: Vec::new(), forks: 0 }
    }

    /// A root generator seeded from the process entropy source.
    pub fn from_entropy() -> (r: Generator)
        ensures
            r.state().lineage.len() == 0,
            r.next_fork() == 0,
    {
        let seed: u64 = rand::random::<u64>();
        Generator::from_seed(seed)
    }

    /// A root generator seeded by what an outside generator drew, or the
    /// error that the outside generator reported instead.
    pub fn from_draw(draw: Result<u64, rand::Error>) -> (r: Result<Generator, GeneratorError>)
        ensures
            draw is Ok <==> r is Ok,
            draw is Ok ==> r->Ok_0.state() == (GeneratorState {
                seed: draw->Ok_0,
                lineage: Seq::<u64>::empty(),
            }) && r->Ok_0.next_fork() == 0,
    {
        match draw {
            Ok(seed) => Ok(Generator::from_seed(seed)),
            Err(e) => Err(GeneratorError::Exhausted(e)),
        }
    }

    /// How many forks this generator has handed out.
    pub fn fork_count(&self) -> (r: u64)
        ensures
            r == self.next_fork(),
    {
        self.forks
    }

    /// The 64-bit seed this generator's random number generator starts from.
    pub fn seed_value(&self) -> (r: u64)
        ensures
            r == derived_seed(self.state()),
    {
        let mut acc = mix_exec(self.seed);
        let mut i: usize = 0;
        while i < self.lineage.len()
            invariant
                i <= self.lineage@.len(),
                acc == derived_seed(GeneratorState { seed: self.seed, lineage: self.lineage@.subrange(0, i as int) }),
            decreases self.lineage@.len() - i,
        {
            let ghost prev = self.lineage@.subrange(0, i as int);
            let ghost next = self.lineage@.subrange(0, i + 1);
            assert(next.drop_last() == prev);
            assert(next.last() == self.lineage@[i as int]);
            acc = mix_exec(acc.wrapping_add(0x9e3779b97f4a7c15u64) ^ self.lineage[i]);
            i = i + 1;
        }
        assert(self.lineage@.subrange(0, i as int) == self.lineage@);
        acc
    }

    /// A small, fast random number generator started from `seed_value()`.
    pub fn small_rng(&self) -> rand::rngs::SmallRng {
        small_rng_from_seed(self.seed_value())
    }

    /// Forks a new, independent generator; this one keeps its state and
    /// moves on to its next fork index.
    pub fn fork(&mut self) -> (r: Generator)
        requires
            old(self).next_fork() < u64::MAX,
        ensures
            r.state() == forked(old(self).state(), old(self).next_fork()),
            r.next_fork() == 0,
            final(self).state() == old(self).state(),
            final(self).next_fork() == old(self).next_fork() + 1,
    {
        let mut lineage: Vec<u64> = Vec::new();
        let mut i: usize = 0;
        while i < self.lineage.len()
            invariant
                i <= self.lineage@.len(),
                lineage@ == self.lineage@.subrange(0, i as int),
            decreases self.lineage@.len() - i,
        {
            lineage.push(self.lineage[i]);
            i = i + 1;
        }
        lineage.push(self.forks);
        assert(lineage@ == self.lineage@.push(self.forks));
        let child = Generator { seed: self.seed, lineage, forks: 0 };
        self.forks = self.forks + 1;
        child
    }
}

/// Forks of one generator are pairwise distinct, and none of them equals
/// the generator it was forked from.
pub proof fn lemma_forks_distinct(s: GeneratorState, next: u64, n: nat)
    requires
        next + n <= u64::MAX + 1,
    ensures
        forall|i: int, j: int|
            0 <= i < j < n ==> #[trigger] fork_run(s, next, n)[i] != #[trigger] fork_run(s, next, n)[j],
        forall|i: int| 0 <= i < n ==> #[trigger] fork_run(s, next, n)[i] != s,
{
    assert forall|i: int, j: int|
        0 <= i < j < n implies #[trigger] fork_run(s, next, n)[i] != #[trigger] fork_run(s, next, n)[j] by {
        let a = fork_run(s, next, n)[i];
        let b = fork_run(s, next, n)[j];
        assert(a.lineage.last() != b.lineage.last());
    }
    assert forall|i: int| 0 <= i < n implies #[trigger] fork_run(s, next, n)[i] != s by {
        assert(fork_run(s, next, n)[i].lineage.len() != s.lineage.len());
    }
}

} // verus!
