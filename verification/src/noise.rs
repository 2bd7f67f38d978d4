//! The catalog of noise generators, addressed by a stable index.

use vstd::prelude::*;

verus! {

/// How many generators the catalog holds.
pub const NOISE_FN_COUNT: usize = 9;

/// The seed of every generator that takes one.
pub const NOISE_SEED: u32 = 0;

/// A generator of the catalog.
#[derive(Clone, Copy, Debug, PartialEq, Eq, Structural)]
pub enum NoiseKind {
    /// Fractal noise sampled in a space that fractal noise has warped twice.
    DomainWarping,
    Billow,
    /// Heterogeneous multifractal noise.
    BasicMulti,
    /// Fractal Brownian motion.
    Fbm,
    HybridMulti,
    OpenSimplex,
    Perlin,
    Value,
    Worley,
}

/// The generator that the catalog holds at `index`.
pub open spec fn noise_kind_at(index: int) -> NoiseKind
    recommends
        0 <= index < NOISE_FN_COUNT,
{
    if index == 0 {
        NoiseKind::DomainWarping
    } else if index == 1 {
        NoiseKind::Billow
    } else if index == 2 {
        NoiseKind::BasicMulti
    } else if index == 3 {
        NoiseKind::Fbm
    } else if index == 4 {
        NoiseKind::HybridMulti
    } else if index == 5 {
        NoiseKind::OpenSimplex
    } else if index == 6 {
        NoiseKind::Perlin
    } else if index == 7 {
        NoiseKind::Value
    } else {
        NoiseKind::Worley
    }
}

impl NoiseKind {
    /// The place of the generator in the catalog.
    pub open spec fn spec_index(self) -> int {
        match self {
            NoiseKind::DomainWarping => 0,
            NoiseKind::Billow => 1,
            NoiseKind::BasicMulti => 2,
            NoiseKind::Fbm => 3,
            NoiseKind::HybridMulti => 4,
            NoiseKind::OpenSimplex => 5,
            NoiseKind::Perlin => 6,
            NoiseKind::Value => 7,
            NoiseKind::Worley => 8,
        }
    }

    /// The seed that the generator is built with; none for the one that draws fresh random
    /// parameters every time it is built.
    pub open spec fn spec_seed(self) -> Option<u32> {
        if self == NoiseKind::DomainWarping {
            None
        } else {
            Some(NOISE_SEED)
        }
    }

    /// The place of the generator in the catalog.
    pub fn index(self) -> (index: usize)
        ensures
            index == self.spec_index(),
            index < NOISE_FN_COUNT,
    {
        match self {
            NoiseKind::DomainWarping => 0,
            NoiseKind::Billow => 1,
            NoiseKind::BasicMulti => 2,
            NoiseKind::Fbm => 3,
            NoiseKind::HybridMulti => 4,
            NoiseKind::OpenSimplex => 5,
            NoiseKind::Perlin => 6,
            NoiseKind::Value => 7,
            NoiseKind::Worley => 8,
        }
    }

    /// The seed that the generator is built with; none for the one that draws fresh random
    /// parameters every time it is built.
    pub fn seed(self) -> (seed: Option<u32>)
        ensures
            seed == self.spec_seed(),
    {
        match self {
            NoiseKind::DomainWarping => None,
            _ => Some(NOISE_SEED),
        }
    }
}

/// Picks the generator to build for a catalog index.
pub fn new_noise_fn_by_index(index: usize) -> (kind: NoiseKind)
    requires
        index < NOISE_FN_COUNT,
    ensures
        kind == noise_kind_at(index as int),
        kind.spec_index() == index,
{
    match index {
        0 => NoiseKind::DomainWarping,
        1 => NoiseKind::Billow,
        2 => NoiseKind::BasicMulti,
        3 => NoiseKind::Fbm,
        4 => NoiseKind::HybridMulti,
        5 => NoiseKind::OpenSimplex,
        6 => NoiseKind::Perlin,
        7 => NoiseKind::Value,
        _ => NoiseKind::Worley,
    }
}

/// The catalog index and the generator determine each other: every index below the catalog's
/// size names one generator, and every generator has one index below that size.
pub proof fn lemma_noise_index_is_stable(index: int, kind: NoiseKind)
    ensures
        0 <= kind.spec_index() < NOISE_FN_COUNT,
        noise_kind_at(kind.spec_index()) == kind,
        0 <= index < NOISE_FN_COUNT ==> noise_kind_at(index).spec_index() == index,
{
}

} // verus!
