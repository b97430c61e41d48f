use vstd::prelude::*;

verus! {

/// The channel bound of a `GhostConfig` made by `default`.
pub const DEFAULT_CHANNEL_BOUND: usize = 32;

/// Configuration tuning parameters for actors.
#[non_exhaustive]
pub struct GhostConfig {
    /// Channel bound for communicating with an actor.
    pub channel_bound: usize,
}

impl Default for GhostConfig {
    fn default() -> (c: GhostConfig)
        ensures
            c.channel_bound == DEFAULT_CHANNEL_BOUND,
    {
        GhostConfig { channel_bound: DEFAULT_CHANNEL_BOUND }
    }
}

} // verus!
