use vstd::prelude::*;

verus! {

/// Maximum allowed protocol fee: 1 000 bps = 10%.
pub const MAX_FEE_RATE_BPS: u32 = 1000;

/// The singleton protocol fee configuration.
///
/// Created once, mutated only by the admin, never deleted. Identities are
/// plain numeric handles: the host that drives the engine maps them to real
/// addresses and performs authentication before calling in.
#[derive(Clone, Copy, Debug, PartialEq, Eq, Structural)]
pub struct ProtocolConfig {
    /// Identity authorized to change the fee configuration.
    pub admin: u64,
    /// Identity that receives collected fees.
    pub treasury: u64,
    /// Protocol fee in basis points (1/10000).
    pub fee_rate_bps: u32,
}

impl ProtocolConfig {
    /// The configuration invariant: the fee rate never exceeds the maximum.
    pub open spec fn wf(self) -> bool {
        self.fee_rate_bps <= MAX_FEE_RATE_BPS
    }
}

/// One payment stream: a fixed deposit unlocking linearly over time from
/// `sender` to `recipient`.
///
/// Never physically deleted; logically terminated via `is_active = false`.
#[derive(Clone, Copy, Debug, PartialEq, Eq, Structural)]
pub struct Stream {
    /// The depositing party; immutable after creation.
    pub sender: u64,
    /// The receiving party; immutable after creation.
    pub recipient: u64,
    /// The token the stream is denominated in; immutable after creation.
    pub token_address: u64,
    /// Tokens unlocked per second of elapsed time; fixed at creation and
    /// never recalculated, even on top-up.
    pub rate_per_second: i128,
    /// Cumulative net (post-fee) amount ever deposited.
    pub deposited_amount: i128,
    /// Cumulative amount paid out to the recipient.
    pub withdrawn_amount: i128,
    /// Timestamp of creation; immutable.
    pub start_time: u64,
    /// Timestamp of the last event that advanced vesting accounting.
    pub last_update_time: u64,
    /// False exactly once the stream is cancelled or fully drained.
    pub is_active: bool,
}

impl Stream {
    /// The per-stream invariant, re-established by every transition.
    pub open spec fn wf(self) -> bool {
        &&& self.deposited_amount >= 0
        &&& self.withdrawn_amount >= 0
        &&& self.withdrawn_amount <= self.deposited_amount
        &&& self.rate_per_second >= 0
        &&& (self.withdrawn_amount == self.deposited_amount ==> !self.is_active)
    }

    /// The un-withdrawn balance still held for this stream.
    pub open spec fn remaining(self) -> int {
        self.deposited_amount - self.withdrawn_amount
    }

    /// How much the recipient may claim at time `now`: the amount streamed
    /// since the last accounting event (saturating at the largest
    /// representable value on overflow, and at zero if the clock ran
    /// backwards), capped at the remaining balance.
    pub open spec fn claimable(self, now: u64) -> int {
        let elapsed: int = if now >= self.last_update_time {
            now - self.last_update_time
        } else {
            0
        };
        let streamed: int = if elapsed * self.rate_per_second > i128::MAX {
            i128::MAX as int
        } else {
            elapsed * self.rate_per_second
        };
        let remaining: int = if self.deposited_amount >= self.withdrawn_amount {
            self.deposited_amount - self.withdrawn_amount
        } else {
            0
        };
        if streamed <= remaining {
            streamed
        } else {
            remaining
        }
    }
}

} // verus!
