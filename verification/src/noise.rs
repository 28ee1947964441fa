use vstd::prelude::*;

verus! {

/// The parameters of the two noise passes, derived from the complexity
/// level.  Every field is exact: the outside noise routines receive these
/// values unchanged (the salt-and-pepper rate as `rate_per_mille / 1000`).
#[derive(Clone, Copy, Debug, PartialEq, Eq, Structural)]
pub struct NoiseParams {
    /// Mean of the additive Gaussian pass.
    pub mean: u32,
    /// Standard deviation of the additive Gaussian pass.
    pub stddev: u32,
    /// Seed of the Gaussian pass.
    pub gaussian_seed: u64,
    /// Corruption probability of the salt-and-pepper pass, in thousandths.
    pub rate_per_mille: u32,
    /// Seed of the salt-and-pepper pass.
    pub salt_pepper_seed: u64,
}

/// The noise parameters for a clamped complexity level: none at level one,
/// and linearly scaled intensities above it.
pub open spec fn spec_noise_params(complexity: u32) -> Option<NoiseParams> {
    if complexity <= 1 {
        None
    } else {
        Some(
            NoiseParams {
                mean: (complexity - 1) as u32,
                stddev: (5 * complexity - 5) as u32,
                gaussian_seed: (5 * complexity - 5) as u64,
                rate_per_mille: (2 * complexity - 2) as u32,
                salt_pepper_seed: (complexity / 2) as u64,
            },
        )
    }
}

/// Derives the noise-pass parameters from the complexity level: level one
/// means no noise at all, and each unit above one adds one to the Gaussian
/// mean, five to its standard deviation, and two thousandths to the
/// salt-and-pepper rate.
pub fn noise_params(complexity: u32) -> (r: Option<NoiseParams>)
    requires
        1 <= complexity <= 10,
    ensures
        r == spec_noise_params(complexity),
        complexity == 1 <==> r is None,
{
    if complexity > 1 {
        Some(
            NoiseParams {
                mean: complexity - 1,
                stddev: 5 * complexity - 5,
                gaussian_seed: (5 * complexity - 5) as u64,
                rate_per_mille: 2 * complexity - 2,
                salt_pepper_seed: (complexity / 2) as u64,
            },
        )
    } else {
        None
    }
}

} // verus!
