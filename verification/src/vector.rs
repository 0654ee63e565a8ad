use vstd::prelude::*;

verus! {

/// One three-axis sensor sample: either an acceleration in milli-g or a
/// magnetic field in nanotesla. The two quantities share only the 3-tuple
/// shape and are combined solely by the heading estimator.
#[derive(Clone, Copy, PartialEq, Eq, Structural, Debug)]
pub struct Vector3 {
    pub x: i32,
    pub y: i32,
    pub z: i32,
}

/// The integer square root: the largest r with r * r <= n.
pub open spec fn spec_sqrt_floor(n: nat) -> nat
    decreases n,
{
    if n == 0 {
        0
    } else {
        let r = spec_sqrt_floor((n - 1) as nat);
        if (r + 1) * (r + 1) <= n {
            r + 1
        } else {
            r
        }
    }
}

/// `spec_sqrt_floor(n)` is the unique value whose square is at most n while
/// the next square is beyond n.
pub proof fn lemma_sqrt_floor_brackets(n: nat)
    ensures
        spec_sqrt_floor(n) * spec_sqrt_floor(n) <= n,
        n < (spec_sqrt_floor(n) + 1) * (spec_sqrt_floor(n) + 1),
    decreases n,
{
    if n == 0 {
        let s = spec_sqrt_floor(n);
        assert(s == 0);
        assert((s + 1) * (s + 1) == 1) by (nonlinear_arith)
            requires
                s == 0,
        ;
    } else {
        lemma_sqrt_floor_brackets((n - 1) as nat);
        let prev = spec_sqrt_floor((n - 1) as nat);
        assert(prev * prev <= n - 1);
        assert(n - 1 < (prev + 1) * (prev + 1));
        if (prev + 1) * (prev + 1) <= n {
            assert(spec_sqrt_floor(n) == prev + 1);
            assert(n <= (prev + 1) * (prev + 1));
            assert((prev + 1) * (prev + 1) < (prev + 2) * (prev + 2)) by (nonlinear_arith)
                requires
                    prev >= 0,
            ;
        } else {
            assert(spec_sqrt_floor(n) == prev);
        }
    }
}

impl Vector3 {
    pub fn new(x: i32, y: i32, z: i32) -> (v: Vector3)
        ensures
            v.x == x,
            v.y == y,
            v.z == z,
    {
        Vector3 { x, y, z }
    }

    /// Squared Euclidean norm as a mathematical integer.
    pub open spec fn spec_norm_squared(self) -> int {
        self.x * self.x + self.y * self.y + self.z * self.z
    }

    /// Squared Euclidean norm, exact: a sample is degenerate (and unusable
    /// for tilt compensation) exactly when this is zero.
    pub fn norm_squared(&self) -> (n: u64)
        ensures
            n == self.spec_norm_squared(),
            n <= 0xC000_0000_0000_0000,
    {
        proof {
            assert(0 <= (self.x as int) * (self.x as int) <= 0x4000_0000_0000_0000int)
                by (nonlinear_arith)
                requires
                    -0x8000_0000 <= self.x as int <= 0x7FFF_FFFF,
            ;
            assert(0 <= (self.y as int) * (self.y as int) <= 0x4000_0000_0000_0000int)
                by (nonlinear_arith)
                requires
                    -0x8000_0000 <= self.y as int <= 0x7FFF_FFFF,
            ;
            assert(0 <= (self.z as int) * (self.z as int) <= 0x4000_0000_0000_0000int)
                by (nonlinear_arith)
                requires
                    -0x8000_0000 <= self.z as int <= 0x7FFF_FFFF,
            ;
        }
        let xx = (self.x as i64) * (self.x as i64);
        let yy = (self.y as i64) * (self.y as i64);
        let zz = (self.z as i64) * (self.z as i64);
        (xx as u64) + (yy as u64) + (zz as u64)
    }

    /// Euclidean norm rounded down: the integer square root of the squared
    /// norm, found by binary search.
    pub fn norm(&self) -> (r: u64)
        ensures
            r == spec_sqrt_floor(self.spec_norm_squared() as nat),
            r * r <= self.spec_norm_squared(),
            self.spec_norm_squared() < (r + 1) * (r + 1),
    {
        let n = self.norm_squared();
        let mut lo: u64 = 0;
        let mut hi: u64 = 0xFFFF_FFFF;
        proof {
            assert((hi + 1) * (hi + 1) > 0xC000_0000_0000_0000int);
        }
        while lo < hi
            invariant
                lo <= hi <= 0xFFFF_FFFF,
                lo * lo <= n,
                n < (hi + 1) * (hi + 1),
            decreases hi - lo,
        {
            let mid = lo + (hi - lo + 1) / 2;
            proof {
                assert(mid * mid <= 0xFFFF_FFFFint * 0xFFFF_FFFFint) by (nonlinear_arith)
                    requires
                        0 <= mid <= 0xFFFF_FFFFint,
                ;
            }
            if mid * mid <= n {
                lo = mid;
            } else {
                hi = mid - 1;
            }
        }
        proof {
            lemma_sqrt_floor_brackets(n as nat);
            let s = spec_sqrt_floor(n as nat);
            assert(lo == s) by (nonlinear_arith)
                requires
                    lo * lo <= n < (lo + 1) * (lo + 1),
                    s * s <= n < (s + 1) * (s + 1),
                    lo >= 0,
                    s >= 0,
            ;
        }
        lo
    }

    /// True exactly when every component is zero, i.e. the sample carries no
    /// direction at all.
    pub fn is_zero(&self) -> (r: bool)
        ensures
            r <==> (self.x == 0 && self.y == 0 && self.z == 0),
            r <==> self.spec_norm_squared() == 0,
    {
        proof {
            assert(self.x * self.x == 0 <==> self.x == 0) by (nonlinear_arith);
            assert(self.y * self.y == 0 <==> self.y == 0) by (nonlinear_arith);
            assert(self.z * self.z == 0 <==> self.z == 0) by (nonlinear_arith);
            assert(self.x * self.x >= 0) by (nonlinear_arith);
            assert(self.y * self.y >= 0) by (nonlinear_arith);
            assert(self.z * self.z >= 0) by (nonlinear_arith);
        }
        self.x == 0 && self.y == 0 && self.z == 0
    }
}

} // verus!
