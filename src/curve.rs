//! The closed set of supported pairing-friendly curves.
use vstd::prelude::*;

verus! {

/// A supported pairing-friendly curve: the tag carried by every encoded artifact.
#[derive(Debug, Clone, Copy, PartialEq, Eq, Structural)]
pub enum Curve {
    Bn254,
    Bls12_381,
}

/// Error of a curve selection that names no supported curve.
#[derive(Debug, Clone, PartialEq, Eq)]
pub struct UnsupportedCurve {
    pub name: String,
}

impl Curve {
    /// Uncompressed size in bytes of a G1 point (two base-field coordinates).
    pub open spec fn spec_g1_size(self) -> nat {
        match self {
            Curve::Bn254 => 64,
            Curve::Bls12_381 => 96,
        }
    }

    /// Uncompressed size in bytes of a G2 point (two coordinates over the quadratic extension).
    pub open spec fn spec_g2_size(self) -> nat {
        match self {
            Curve::Bn254 => 128,
            Curve::Bls12_381 => 192,
        }
    }

    /// Uncompressed size in bytes of a scalar-field element.
    pub open spec fn spec_scalar_size(self) -> nat {
        32
    }

    /// The name by which a user selects the curve.
    pub open spec fn spec_name(self) -> Seq<char> {
        match self {
            Curve::Bn254 => seq!['b', 'n', '2', '5', '4'],
            Curve::Bls12_381 => seq!['b', 'l', 's', '1', '2', '-', '3', '8', '1'],
        }
    }

    pub fn g1_size(&self) -> (r: usize)
        ensures
            r == self.spec_g1_size(),
    {
        match self {
            Curve::Bn254 => 64,
            Curve::Bls12_381 => 96,
        }
    }

    pub fn g2_size(&self) -> (r: usize)
        ensures
            r == self.spec_g2_size(),
    {
        match self {
            Curve::Bn254 => 128,
            Curve::Bls12_381 => 192,
        }
    }

    pub fn scalar_size(&self) -> (r: usize)
        ensures
            r == self.spec_scalar_size(),
    {
        32
    }

    pub fn name(&self) -> (r: &'static str)
        ensures
            r@ == self.spec_name(),
    {
        match self {
            Curve::Bn254 => {
                proof {
                    reveal_strlit("bn254");
                }
                "bn254"
            },
            Curve::Bls12_381 => {
                proof {
                    reveal_strlit("bls12-381");
                }
                "bls12-381"
            },
        }
    }

    /// Selects the curve that `name` names; any other name is rejected, so
    /// that an unsupported curve is refused before any artifact is built.
    pub fn from_name(name: &str) -> (r: Result<Curve, UnsupportedCurve>)
        ensures
            match r {
                Ok(c) => name@ == c.spec_name(),
                Err(e) => e.name@ == name@ && name@ != Curve::Bn254.spec_name()
                    && name@ != Curve::Bls12_381.spec_name(),
            },
    {
        if str_equal(name, Curve::Bn254.name()) {
            Ok(Curve::Bn254)
        } else if str_equal(name, Curve::Bls12_381.name()) {
            Ok(Curve::Bls12_381)
        } else {
            Err(UnsupportedCurve { name: String::from_str(name) })
        }
    }
}

/// Character-wise equality of two strings.
pub fn str_equal(a: &str, b: &str) -> (r: bool)
    ensures
        r == (a@ == b@),
{
    let n = a.unicode_len();
    if n != b.unicode_len() {
        return false;
    }
    let mut i: usize = 0;
    while i < n
        invariant
            n == a@.len(),
            n == b@.len(),
            i <= n,
            forall|j: int| 0 <= j < i ==> a@[j] == b@[j],
        decreases n - i,
    {
        if a.get_char(i) != b.get_char(i) {
            return false;
        }
        i = i + 1;
    }
    assert(a@ =~= b@);
    true
}

} // verus!
