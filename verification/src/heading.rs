use vstd::prelude::*;
use vstd::arithmetic::div_mod::{lemma_mod_add_multiples_vanish, lemma_small_mod};

verus! {

/// Full circle in centidegrees.
pub const FULL_CIRCLE_CDEG: u32 = 36000;

/// A compass heading, stored in centidegrees so that the classification
/// boundaries are exact. Invariant: always in [0, 360) degrees; a heading is
/// derived fresh from each sample pair and never averaged across cycles.
#[derive(Clone, Copy, PartialEq, Eq, Structural, Debug)]
pub struct Heading {
    cdeg: u32,
}

impl View for Heading {
    type V = int;

    /// The heading in centidegrees, as a mathematical integer.
    closed spec fn view(&self) -> int {
        self.cdeg as int
    }
}

/// The heading value that normalizing `raw` centidegrees yields: the
/// representative of `raw` modulo a full circle that lies in [0, 360).
pub open spec fn spec_normalize_centidegrees(raw: int) -> int {
    raw % (FULL_CIRCLE_CDEG as int)
}

/// The heading that `Heading::from_raw_centidegrees` returns.
pub closed spec fn spec_heading_from_raw(raw: int) -> Heading {
    Heading { cdeg: spec_normalize_centidegrees(raw) as u32 }
}

/// Normalization lands in [0, 360) and the constructed heading carries
/// exactly the normalized value.
pub proof fn lemma_heading_from_raw(raw: int)
    ensures
        spec_heading_from_raw(raw)@ == spec_normalize_centidegrees(raw),
        0 <= spec_heading_from_raw(raw)@ < FULL_CIRCLE_CDEG,
{
}

/// On the range an angle conversion from (-180, 180] degrees can produce,
/// normalization is exactly the wraparound rule "add a full circle when
/// negative, keep as is when already in range".
pub proof fn lemma_normalize_is_wraparound(raw: int)
    ensures
        0 <= raw < FULL_CIRCLE_CDEG ==> spec_normalize_centidegrees(raw) == raw,
        -FULL_CIRCLE_CDEG <= raw < 0 ==> spec_normalize_centidegrees(raw) == raw
            + FULL_CIRCLE_CDEG,
{
    let full = FULL_CIRCLE_CDEG as int;
    if 0 <= raw < full {
        lemma_small_mod(raw as nat, full as nat);
    }
    if -full <= raw < 0 {
        lemma_mod_add_multiples_vanish(raw, full);
        lemma_small_mod((raw + full) as nat, full as nat);
    }
}

impl Heading {
    #[verifier::type_invariant]
    spec fn in_range(self) -> bool {
        self.cdeg < FULL_CIRCLE_CDEG
    }

    /// Build a heading from a raw, possibly out-of-range centidegree count
    /// (for example the conversion of an angle in (-180, 180] degrees):
    /// the result is congruent to the input modulo a full circle and always
    /// lies in [0, 360) degrees, never negative, never a full turn or more.
    pub fn from_raw_centidegrees(raw: i64) -> (h: Heading)
        ensures
            h == spec_heading_from_raw(raw as int),
            h@ == spec_normalize_centidegrees(raw as int),
            0 <= h@ < FULL_CIRCLE_CDEG,
    {
        let full: i64 = FULL_CIRCLE_CDEG as i64;
        let rem = raw % full;
        let r = if rem < 0 {
            rem + full
        } else {
            rem
        };
        Heading { cdeg: r as u32 }
    }

    /// The heading split for display: whole degrees and hundredths of a
    /// degree, as the log line prints them.
    pub fn degrees_and_hundredths(&self) -> (d: (u32, u32))
        ensures
            d.0 == self@ / 100,
            d.1 == self@ % 100,
            d.0 <= 359,
            d.1 <= 99,
    {
        proof {
            use_type_invariant(self);
        }
        (self.cdeg / 100, self.cdeg % 100)
    }

    /// The stored value, in centidegrees.
    pub fn centidegrees(&self) -> (c: u32)
        ensures
            c == self@,
            c < FULL_CIRCLE_CDEG,
    {
        proof {
            use_type_invariant(self);
        }
        self.cdeg
    }
}

} // verus!
