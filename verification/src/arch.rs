//! GPU architecture descriptors: each supported compute-capability tier and
//! the compiler flag strings derived from its numeric code.

use vstd::prelude::*;

use crate::text::{dec_rep, push_dec};

verus! {

/// A supported GPU compute-capability tier, ordered by capability.
#[derive(Copy, Clone, PartialEq, Eq, Structural, Debug)]
pub enum GpuArchitecture {
    /// "Turing"
    Rtx2,
    /// "Ampere"
    Rtx3,
    /// "Ada"
    Rtx4,
    /// "Blackwell"
    Rtx5,
}

/// The fixed numeric compute-capability code bound to each architecture.
pub open spec fn spec_code(a: GpuArchitecture) -> u32 {
    match a {
        GpuArchitecture::Rtx2 => 75,
        GpuArchitecture::Rtx3 => 86,
        GpuArchitecture::Rtx4 => 89,
        GpuArchitecture::Rtx5 => 100,
    }
}

/// The combined gencode flag value: `arch=compute_<code>,code=sm_<code>`.
pub open spec fn spec_gencode(a: GpuArchitecture) -> Seq<char> {
    "arch=compute_"@ + dec_rep(spec_code(a) as nat) + ",code=sm_"@ + dec_rep(spec_code(a) as nat)
}

/// The standalone virtual-architecture flag: `-arch=compute_<code>`.
pub open spec fn spec_compute(a: GpuArchitecture) -> Seq<char> {
    "-arch=compute_"@ + dec_rep(spec_code(a) as nat)
}

/// The standalone real-architecture flag: `-arch=sm_<code>`.
pub open spec fn spec_sm(a: GpuArchitecture) -> Seq<char> {
    "-arch=sm_"@ + dec_rep(spec_code(a) as nat)
}

impl GpuArchitecture {
    /// The numeric compute-capability code of this architecture.
    pub fn code(&self) -> (r: u32)
        ensures
            r == spec_code(*self),
    {
        match self {
            GpuArchitecture::Rtx2 => 75,
            GpuArchitecture::Rtx3 => 86,
            GpuArchitecture::Rtx4 => 89,
            GpuArchitecture::Rtx5 => 100,
        }
    }

    /// The combined gencode flag value pairing the virtual and real
    /// architecture, `arch=compute_<code>,code=sm_<code>`.
    pub fn gencode_val(&self) -> (r: String)
        ensures
            r@ == spec_gencode(*self),
    {
        let mut s = String::from_str("arch=compute_");
        push_dec(&mut s, self.code());
        s.append(",code=sm_");
        push_dec(&mut s, self.code());
        proof {
            assert(s@ =~= spec_gencode(*self));
        }
        s
    }

    /// The standalone virtual-architecture flag, `-arch=compute_<code>`.
    pub fn compute_val(&self) -> (r: String)
        ensures
            r@ == spec_compute(*self),
    {
        let mut s = String::from_str("-arch=compute_");
        push_dec(&mut s, self.code());
        proof {
            assert(s@ =~= spec_compute(*self));
        }
        s
    }

    /// The standalone real-architecture flag, `-arch=sm_<code>`.
    pub fn sm_val(&self) -> (r: String)
        ensures
            r@ == spec_sm(*self),
    {
        let mut s = String::from_str("-arch=sm_");
        push_dec(&mut s, self.code());
        proof {
            assert(s@ =~= spec_sm(*self));
        }
        s
    }
}

} // verus!
