//! How long the keystroke task pauses between two keys.

use vstd::prelude::*;

verus! {

/// The pause between two keystrokes, in milliseconds: the same every time,
/// or drawn anew every time between two bounds.
#[derive(Clone, Copy, Debug)]
pub struct KeystrokeInterval {
    min_millis: u64,
    max_millis: u64,
}

/// Calls `rand::Rng::gen_range` of `StdRng` on the closed range from `low`
/// to `high`. The draw lies in that range; nothing else is known of it. The
/// call panics on an empty range, which the precondition leaves out.
#[verifier::external_body]
fn draw_u64(rng: &mut rand::rngs::StdRng, low: u64, high: u64) -> (n: u64)
    requires
        low <= high,
    ensures
        low <= n <= high,
{
    rand::Rng::gen_range(rng, low..=high)
}

impl KeystrokeInterval {
    #[verifier::type_invariant]
    spec fn ordered(self) -> bool {
        self.min_millis <= self.max_millis
    }

    /// The shortest pause.
    pub closed spec fn min_millis(self) -> u64 {
        self.min_millis
    }

    /// The longest pause.
    pub closed spec fn max_millis(self) -> u64 {
        self.max_millis
    }

    /// A pause of `millis` every time.
    pub fn fixed(millis: u64) -> (interval: Self)
        ensures
            interval.min_millis() == millis,
            interval.max_millis() == millis,
    {
        KeystrokeInterval { min_millis: millis, max_millis: millis }
    }

    /// A pause between `min_millis` and `max_millis`, both included. There
    /// is none where the bounds are the wrong way round.
    pub fn jittered(min_millis: u64, max_millis: u64) -> (interval: Option<Self>)
        ensures
            interval.is_some() <==> min_millis <= max_millis,
            interval.is_some() ==> interval.unwrap().min_millis() == min_millis
                && interval.unwrap().max_millis() == max_millis,
    {
        if min_millis <= max_millis {
            Some(KeystrokeInterval { min_millis, max_millis })
        } else {
            None
        }
    }

    /// The bounds of the pause, shortest first.
    pub fn bounds(&self) -> (r: (u64, u64))
        ensures
            r.0 == self.min_millis(),
            r.1 == self.max_millis(),
            r.0 <= r.1,
    {
        proof {
            use_type_invariant(self);
        }
        (self.min_millis, self.max_millis)
    }

    /// The next pause. A fixed interval draws nothing from `rng`.
    pub fn next_delay(&self, rng: &mut rand::rngs::StdRng) -> (millis: u64)
        ensures
            self.min_millis() <= millis <= self.max_millis(),
            self.min_millis() == self.max_millis() ==> *final(rng) == *old(rng),
    {
        proof {
            use_type_invariant(self);
        }
        if self.min_millis == self.max_millis {
            self.min_millis
        } else {
            draw_u64(rng, self.min_millis, self.max_millis)
        }
    }
}

} // verus!
