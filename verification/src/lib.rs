//! A continuous payment-streaming accounting engine.
//!
//! A sender locks a token deposit that unlocks linearly over time to a
//! recipient. Streams support incremental top-ups, on-demand partial
//! withdrawal, and early cancellation with fair settlement; a protocol-level
//! fee is skimmed from every inbound deposit. The engine is a pure state
//! machine over plain values: caller identities arrive pre-authenticated,
//! the current time is an explicit parameter, and token movements are left
//! to the host that drives the engine.

mod engine;
mod errors;
mod fees;
mod laws;
mod types;

pub use engine::StreamContract;
pub use errors::StreamError;
pub use fees::compute_fee;
pub use fees::lemma_fee_bounds;
pub use fees::spec_fee;
pub use fees::spec_net_amount;
pub use laws::lemma_cancel_settlement;
pub use laws::lemma_claimable_monotone;
pub use laws::lemma_no_claimable_without_elapsed;
pub use types::ProtocolConfig;
pub use types::Stream;
pub use types::MAX_FEE_RATE_BPS;
