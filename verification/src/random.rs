use rand::rngs::mock::StepRng;
use rand::rngs::StdRng;
use rand::seq::SliceRandom;
use rand::Rng;
use rand::SeedableRng;
use vstd::prelude::*;

verus! {

/// `rand::rngs::mock::StepRng`, of which nothing is seen from here.
#[verifier::external_type_specification]
#[verifier::external_body]
pub struct ExStepRng(StepRng);

/// `rand::rngs::StdRng`, of which nothing is seen from here.
#[verifier::external_type_specification]
#[verifier::external_body]
pub struct ExStdRng(StdRng);

/// A generator that steps through an arithmetic sequence, together with the
/// step that it was made with.
pub struct Stepper {
    rng: StepRng,
    increment: u64,
}

impl Stepper {
    /// The step of the sequence.
    pub closed spec fn increment(self) -> u64 {
        self.increment
    }

    /// A generator that starts at `initial` and steps by `increment`.
    pub fn new(initial: u64, increment: u64) -> (stepper: Self)
        ensures
            stepper.increment() == increment,
    {
        Stepper { rng: stepping_rng(initial, increment), increment }
    }
}

/// A seeded generator of the `rand` crate, together with the seed that it
/// was made with.
pub struct Seeded {
    rng: StdRng,
    seed: u64,
}

impl Seeded {
    /// The seed that the generator was made with.
    pub closed spec fn seed(self) -> u64 {
        self.seed
    }

    /// A generator seeded with `seed`.
    pub fn new(seed: u64) -> (seeded: Self)
        ensures
            seeded.seed() == seed,
    {
        Seeded { rng: seeded_rng(seed), seed }
    }
}

/// The source of every random draw of the domain. Nothing is known of what
/// a draw returns beyond what its contract states, so whatever is proved of
/// a caller holds for every source.
pub enum RandomSource {
    /// An arithmetic sequence: the same draws on every run.
    Stepping(Stepper),
    /// A seeded generator of the `rand` crate.
    Standard(Seeded),
}

/// `rand::rngs::mock::StepRng::new`.
#[verifier::external_body]
fn stepping_rng(initial: u64, increment: u64) -> (rng: StepRng)
{
    StepRng::new(initial, increment)
}

/// `rand::SeedableRng::seed_from_u64` for `rand::rngs::StdRng`.
#[verifier::external_body]
fn seeded_rng(seed: u64) -> (rng: StdRng)
{
    StdRng::seed_from_u64(seed)
}

/// `rand::seq::SliceRandom::shuffle` on a slice. It swaps items of the slice
/// with each other and does nothing else to it, so the items after the call
/// are those before it, each as often as before. For each swap it draws an
/// index, and draws again until a draw is accepted; a draw of zero always
/// is. A stepping generator with an odd step reaches every number, so the
/// call returns; one with an even step may repeat refused draws for ever,
/// and is left out. A generator keeps its kind and its step.
#[verifier::external_body]
fn shuffle_items<T>(items: &mut Vec<T>, rng: &mut RandomSource)
    requires
        old(rng).never_stalls(),
    ensures
        final(items)@.to_multiset() == old(items)@.to_multiset(),
        final(rng).step() == old(rng).step(),
{
    match rng {
        RandomSource::Stepping(stepper) => items.shuffle(&mut stepper.rng),
        RandomSource::Standard(seeded) => items.shuffle(&mut seeded.rng),
    }
}

/// `rand::seq::SliceRandom::choose` on a slice: `None` for an empty slice,
/// else a reference to the item at an index below the length. The index is
/// drawn as in a shuffle, so a stepping generator with an even step is left
/// out. A generator keeps its kind and its step.
#[verifier::external_body]
fn choose_item<'a, T>(items: &'a Vec<T>, rng: &mut RandomSource) -> (chosen: Option<&'a T>)
    requires
        old(rng).never_stalls(),
    ensures
        items@.len() == 0 ==> chosen is None,
        items@.len() > 0 ==> chosen is Some && items@.contains(*chosen->0),
        final(rng).step() == old(rng).step(),
{
    match rng {
        RandomSource::Stepping(stepper) => items.choose(&mut stepper.rng),
        RandomSource::Standard(seeded) => items.choose(&mut seeded.rng),
    }
}

/// `rand::Rng::gen` for `bool`: one draw, of which either value may come
/// back. A generator keeps its kind and its step.
#[verifier::external_body]
fn draw_bool(rng: &mut RandomSource) -> (drawn: bool)
    ensures
        final(rng).step() == old(rng).step(),
{
    match rng {
        RandomSource::Stepping(stepper) => stepper.rng.gen(),
        RandomSource::Standard(seeded) => seeded.rng.gen(),
    }
}

impl RandomSource {
    /// The step of a stepping source.
    pub open spec fn step(self) -> Option<u64> {
        match self {
            RandomSource::Stepping(stepper) => Some(stepper.increment()),
            RandomSource::Standard(_) => None,
        }
    }

    /// The seed of a seeded source.
    pub open spec fn seed(self) -> Option<u64> {
        match self {
            RandomSource::Stepping(_) => None,
            RandomSource::Standard(seeded) => Some(seeded.seed()),
        }
    }

    /// Whether every draw of an index comes to an end. A draw is repeated
    /// until it is accepted, and a stepping source with an even step may
    /// repeat refused draws for ever.
    pub open spec fn never_stalls(self) -> bool {
        match self.step() {
            Some(increment) => increment % 2 == 1,
            None => true,
        }
    }

    /// Whether this source never stalls.
    pub fn is_steady(&self) -> (steady: bool)
        ensures
            steady == self.never_stalls(),
    {
        match self {
            RandomSource::Stepping(stepper) => stepper.increment % 2 == 1,
            RandomSource::Standard(_) => true,
        }
    }

    /// Reorders `items` at random: the items stay the same, each as often
    /// as before.
    pub fn shuffle<T>(&mut self, items: &mut Vec<T>)
        requires
            old(self).never_stalls(),
        ensures
            final(items)@.to_multiset() == old(items)@.to_multiset(),
            final(self).step() == old(self).step(),
    {
        shuffle_items(items, self)
    }

    /// Picks one of `items` at random, or nothing where there is none.
    pub fn pick<'a, T>(&mut self, items: &'a Vec<T>) -> (chosen: Option<&'a T>)
        requires
            old(self).never_stalls(),
        ensures
            items@.len() == 0 ==> chosen is None,
            items@.len() > 0 ==> chosen is Some && items@.contains(*chosen->0),
            final(self).step() == old(self).step(),
    {
        choose_item(items, self)
    }

    /// Draws a random `bool`.
    pub fn next_bool(&mut self) -> (drawn: bool)
        ensures
            final(self).step() == old(self).step(),
    {
        draw_bool(self)
    }
}

/// Makes random sources that step through an arithmetic sequence, so that
/// every run draws the same.
pub struct MockRngFactory {
    initial: u64,
    increment: u64,
}

impl MockRngFactory {
    pub fn new(initial: u64, increment: u64) -> (factory: Self)
        ensures
            factory.initial() == initial,
            factory.increment() == increment,
    {
        MockRngFactory { initial, increment }
    }

    /// The first number of the sequence.
    pub closed spec fn initial(self) -> u64 {
        self.initial
    }

    /// The step of the sequence.
    pub closed spec fn increment(self) -> u64 {
        self.increment
    }

    /// A stepping source that starts at `initial` and steps by `increment`.
    pub fn create(&self) -> (source: RandomSource)
        ensures
            source.step() == Some(self.increment()),
    {
        RandomSource::Stepping(Stepper::new(self.initial, self.increment))
    }
}

/// Makes random sources that are seeded generators.
pub struct RngCoreFactory {
    seed: u64,
}

impl RngCoreFactory {
    pub fn new(seed: u64) -> (factory: Self)
        ensures
            factory.seed() == seed,
    {
        RngCoreFactory { seed }
    }

    /// The seed of every source that this factory makes.
    pub closed spec fn seed(self) -> u64 {
        self.seed
    }

    /// A generator seeded with this factory's seed, which never stalls.
    pub fn create(&self) -> (source: RandomSource)
        ensures
            source.seed() == Some(self.seed()),
            source.step() is None,
    {
        RandomSource::Standard(Seeded::new(self.seed))
    }
}

} // verus!
