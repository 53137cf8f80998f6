//! The random policies: which way the pointer steps, and which key is
//! pressed.

use vstd::prelude::*;
use crate::types::Position;

verus! {

/// A source of pointer displacements, one per tick.
pub trait StepGenerator {
    /// Whether the generator, as it stands, may produce `step` next. A
    /// generator that says nothing of its steps may produce any.
    open spec fn may_step(&self, step: Position) -> bool {
        true
    }

    /// Whether `next` is this generator after it produced `step`.
    open spec fn follows_step(&self, step: Position, next: &Self) -> bool {
        true
    }

    /// The next displacement.
    fn step(&mut self) -> (step: Position)
        ensures
            old(self).may_step(step),
            old(self).follows_step(step, final(self)),
    ;
}

/// A source of keys, one per tick.
pub trait KeyGenerator {
    /// Whether the generator, as it stands, may produce `key` next. A
    /// generator that says nothing of its keys may produce any.
    open spec fn may_produce(&self, key: char) -> bool {
        true
    }

    /// Whether `next` is this generator after it produced `key`.
    open spec fn follows_key(&self, key: char, next: &Self) -> bool {
        true
    }

    /// The next key.
    fn next_key(&mut self) -> (key: char)
        ensures
            old(self).may_produce(key),
            old(self).follows_key(key, final(self)),
    ;
}

/// The seeded generator of `rand`, which Verus carries through unopened.
#[verifier::external_type_specification]
#[verifier::external_body]
pub struct ExStdRng(rand::rngs::StdRng);

/// The number of directions a random walk chooses among.
pub const DIRECTIONS: i32 = 4;

/// Calls `rand::SeedableRng::from_rng` for `StdRng` on `rand::rngs::OsRng`:
/// a generator seeded by the operating system, or nothing where the system
/// gives no seed. Which of the two comes back, and with what seed, is not
/// known.
#[verifier::external_body]
fn entropy_rng() -> (rng: Option<rand::rngs::StdRng>) {
    let seeded: Result<rand::rngs::StdRng, rand::Error> = rand::SeedableRng::from_rng(
        rand::rngs::OsRng,
    );
    seeded.ok()
}

/// Calls `rand::Rng::gen_range` of `StdRng` on the half-open range from
/// `low` to `high`. The draw lies in that range; nothing else is known of
/// it. The call panics on an empty range, which the precondition leaves out.
#[verifier::external_body]
fn draw_i32(rng: &mut rand::rngs::StdRng, low: i32, high: i32) -> (n: i32)
    requires
        low < high,
    ensures
        low <= n < high,
{
    rand::Rng::gen_range(rng, low..high)
}

/// Calls `rand::Rng::gen_range` of `StdRng` on the closed range from `low`
/// to `high`. The draw lies in that range; nothing else is known of it. The
/// call panics on an empty range, which the precondition leaves out.
#[verifier::external_body]
fn draw_char(rng: &mut rand::rngs::StdRng, low: char, high: char) -> (c: char)
    requires
        low <= high,
    ensures
        low <= c <= high,
{
    rand::Rng::gen_range(rng, low..=high)
}

/// The displacement of length `step_size` in the direction numbered
/// `choice`: down, up, right, left.
pub open spec fn displacement_spec(choice: int, step_size: u32) -> Position {
    if choice == 0 {
        Position { x: 0, y: step_size as i64 }
    } else if choice == 1 {
        Position { x: 0, y: (-step_size) as i64 }
    } else if choice == 2 {
        Position { x: step_size as i64, y: 0 }
    } else {
        Position { x: (-step_size) as i64, y: 0 }
    }
}

/// Whether `step` runs along exactly one axis and is `step_size` long.
pub open spec fn is_axis_step(step: Position, step_size: u32) -> bool {
    ||| (step.x == 0 && step.y == step_size)
    ||| (step.x == 0 && step.y == -step_size)
    ||| (step.x == step_size && step.y == 0)
    ||| (step.x == -step_size && step.y == 0)
}

/// The displacement of length `step_size` in the direction numbered
/// `choice`.
pub fn displacement(choice: i32, step_size: u32) -> (step: Position)
    requires
        0 <= choice < DIRECTIONS,
    ensures
        step == displacement_spec(choice as int, step_size),
{
    let length: i64 = step_size as i64;
    if choice == 0 {
        Position { x: 0, y: length }
    } else if choice == 1 {
        Position { x: 0, y: -length }
    } else if choice == 2 {
        Position { x: length, y: 0 }
    } else {
        Position { x: -length, y: 0 }
    }
}

/// Every direction gives a step along exactly one axis, `step_size` long:
/// none is diagonal, and none is zero unless the step size is.
pub proof fn lemma_displacement_is_axis_step(choice: int, step_size: u32)
    requires
        0 <= choice < DIRECTIONS,
    ensures
        is_axis_step(displacement_spec(choice, step_size), step_size),
        displacement_spec(choice, step_size).x == 0 || displacement_spec(choice, step_size).y
            == 0,
        step_size > 0 ==> displacement_spec(choice, step_size) != (Position { x: 0, y: 0 }),
{
}

/// A random walk on the pixel grid: each step goes `step_size` sub-pixel
/// units up, down, left or right.
pub struct RandomWalk<R> {
    step_size: u32,
    rng: R,
}

impl<R> RandomWalk<R> {
    /// The length of every step, in sub-pixel units.
    pub closed spec fn step_size(self) -> u32 {
        self.step_size
    }

    /// The random source the directions are drawn from.
    pub closed spec fn source(self) -> R {
        self.rng
    }

    /// A walk that takes steps of `step_size` sub-pixel units, in directions
    /// drawn from `rng`.
    pub fn new(step_size: u32, rng: R) -> (walk: Self)
        ensures
            walk.step_size() == step_size,
            walk.source() == rng,
    {
        RandomWalk { step_size, rng }
    }

    /// A walk over `source`, where there is one.
    pub fn with_source(step_size: u32, source: Option<R>) -> (walk: Option<Self>)
        ensures
            walk.is_some() == source.is_some(),
            walk.is_some() ==> walk.unwrap().step_size() == step_size && walk.unwrap().source()
                == source.unwrap(),
    {
        match source {
            Some(rng) => Some(RandomWalk::new(step_size, rng)),
            None => None,
        }
    }
}

impl StepGenerator for RandomWalk<rand::rngs::StdRng> {
    /// A walk produces the steps of its length along one axis.
    open spec fn may_step(&self, step: Position) -> bool {
        is_axis_step(step, self.step_size())
    }

    /// A walk keeps its step size.
    open spec fn follows_step(&self, step: Position, next: &Self) -> bool {
        next.step_size() == self.step_size()
    }

    /// One step of the walk, in a direction drawn from the random source:
    /// never diagonal, and zero only for a walk whose step size is zero.
    fn step(&mut self) -> (step: Position)
        ensures
            old(self).step_size() > 0 ==> step != (Position { x: 0, y: 0 }),
    {
        let choice: i32 = draw_i32(&mut self.rng, 0, DIRECTIONS);
        displacement(choice, self.step_size)
    }
}

impl RandomWalk<rand::rngs::StdRng> {
    /// A walk that takes steps of `step_size` sub-pixel units, seeded by the
    /// operating system; none where the system gives no seed.
    pub fn from_entropy(step_size: u32) -> (walk: Option<Self>)
        ensures
            walk.is_some() ==> walk.unwrap().step_size() == step_size,
    {
        RandomWalk::with_source(step_size, entropy_rng())
    }
}

/// Lowercase letters, each as likely as the other.
pub struct RandomKeyGenerator<R> {
    rng: R,
}

impl<R> RandomKeyGenerator<R> {
    /// The random source the keys are drawn from.
    pub closed spec fn source(self) -> R {
        self.rng
    }

    /// A key generator that draws from `rng`.
    pub fn new(rng: R) -> (generator: Self)
        ensures
            generator.source() == rng,
    {
        RandomKeyGenerator { rng }
    }

    /// A key generator over `source`, where there is one.
    pub fn with_source(source: Option<R>) -> (generator: Option<Self>)
        ensures
            generator.is_some() == source.is_some(),
            generator.is_some() ==> generator.unwrap().source() == source.unwrap(),
    {
        match source {
            Some(rng) => Some(RandomKeyGenerator::new(rng)),
            None => None,
        }
    }
}

impl KeyGenerator for RandomKeyGenerator<rand::rngs::StdRng> {
    /// The lowercase ASCII letters.
    open spec fn may_produce(&self, key: char) -> bool {
        'a' <= key <= 'z'
    }

    /// One lowercase ASCII letter, drawn from the random source.
    fn next_key(&mut self) -> (key: char) {
        draw_char(&mut self.rng, 'a', 'z')
    }
}

impl RandomKeyGenerator<rand::rngs::StdRng> {
    /// A key generator seeded by the operating system; none where the system
    /// gives no seed.
    pub fn from_entropy() -> (generator: Option<Self>) {
        RandomKeyGenerator::with_source(entropy_rng())
    }
}

} // verus!
