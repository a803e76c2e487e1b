use vstd::prelude::*;

verus! {

/// The abstract resize-algorithm choice a caller makes.
#[derive(Clone, Copy, Debug, PartialEq, Eq, Structural)]
pub enum ResizeAlgorithm {
    Nearest,
    Bilinear,
    Lanczos3,
}

/// A convolution filter kernel the resampler understands.
#[derive(Clone, Copy, Debug, PartialEq, Eq, Structural)]
pub enum FilterKind {
    Bilinear,
    Lanczos3,
}

/// The concrete resampling strategy handed to the resampler: plain
/// nearest-neighbor sampling, or convolution under a filter kernel.
#[derive(Clone, Copy, Debug, PartialEq, Eq, Structural)]
pub enum ResamplingStrategy {
    Nearest,
    Convolution(FilterKind),
}

/// The one-to-one mapping from algorithm choice to resampling strategy.
pub open spec fn strategy_spec(a: ResizeAlgorithm) -> ResamplingStrategy {
    match a {
        ResizeAlgorithm::Nearest => ResamplingStrategy::Nearest,
        ResizeAlgorithm::Bilinear => ResamplingStrategy::Convolution(FilterKind::Bilinear),
        ResizeAlgorithm::Lanczos3 => ResamplingStrategy::Convolution(FilterKind::Lanczos3),
    }
}

/// Chooses the concrete resampling strategy for an abstract algorithm choice;
/// a pure one-to-one mapping with no failure path.
pub fn map_algorithm_to_filter(algorithm: &ResizeAlgorithm) -> (r: ResamplingStrategy)
    ensures
        r == strategy_spec(*algorithm),
{
    match algorithm {
        ResizeAlgorithm::Nearest => ResamplingStrategy::Nearest,
        ResizeAlgorithm::Bilinear => ResamplingStrategy::Convolution(FilterKind::Bilinear),
        ResizeAlgorithm::Lanczos3 => ResamplingStrategy::Convolution(FilterKind::Lanczos3),
    }
}

} // verus!
