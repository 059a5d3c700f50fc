use vstd::prelude::*;

verus! {

/// The configuration the agent needs. Loading it from configuration files
/// and environment variables happens outside this library; the agent only
/// consumes the resulting plain values.
#[derive(Debug, Clone)]
pub struct AinoConfig {
    /// The API endpoint the batches are posted to.
    pub url: String,

    /// The API key sent with every batch.
    pub api_key: String,

    /// The interval, in milliseconds, after which a non-empty buffer is
    /// flushed even if it has not outgrown one batch.
    pub send_interval: u32,
}

} // verus!
