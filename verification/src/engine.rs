use vstd::arithmetic::div_mod::lemma_div_is_ordered;
use vstd::arithmetic::mul::lemma_mul_nonnegative;
use vstd::pervasive::VecAdditionalExecFns;
use vstd::prelude::*;

use crate::errors::StreamError;
use crate::fees::compute_fee;
use crate::fees::spec_net_amount;
use crate::types::ProtocolConfig;
use crate::types::Stream;
use crate::types::MAX_FEE_RATE_BPS;

verus! {

/// The streaming ledger: the singleton protocol configuration plus one
/// record per stream, keyed by a monotonically increasing identifier.
///
/// Stream ids are allocated starting at 1 and never reused; the record for
/// id `i` is held at index `i - 1`. Records are never physically deleted,
/// only logically terminated, so the index never shifts.
///
/// The engine is driven by a host that authenticates callers, supplies the
/// current time, and moves tokens; every method here is a pure, total state
/// transition over plain values.
#[derive(Clone, Debug)]
pub struct StreamContract {
    /// The singleton protocol fee configuration, absent until initialized.
    pub config: Option<ProtocolConfig>,
    /// All stream records ever created, in id order.
    pub streams: Vec<Stream>,
}

impl StreamContract {
    /// The ledger invariant: the configuration (if any) and every stream
    /// record are well-formed.
    pub open spec fn wf(self) -> bool {
        &&& (self.config matches Some(c) ==> c.wf())
        &&& forall|i: int|
            0 <= i < self.streams@.len() ==> (#[trigger] self.streams@[i]).wf()
    }

    /// Whether a stream with this id exists.
    pub open spec fn valid_id(self, stream_id: u64) -> bool {
        1 <= stream_id <= self.streams@.len()
    }

    /// The stream record stored under `stream_id`.
    pub open spec fn stream_at(self, stream_id: u64) -> Stream
        recommends
            self.valid_id(stream_id),
    {
        self.streams@[stream_id - 1]
    }

    /// An empty ledger: no configuration, no streams.
    pub fn new() -> (c: StreamContract)
        ensures
            c.wf(),
            c.config is None,
            c.streams@.len() == 0,
    {
        StreamContract { config: None, streams: Vec::new() }
    }

    // ─── Protocol Administration ──────────────────────────────────────────

    /// One-time initialization of the protocol fee configuration.
    ///
    /// The host authenticates the caller as `admin` before calling in.
    pub fn initialize(
        &mut self,
        admin: u64,
        treasury: u64,
        fee_rate_bps: u32,
    ) -> (r: Result<(), StreamError>)
        requires
            old(self).wf(),
        ensures
            final(self).wf(),
            final(self).streams@ == old(self).streams@,
            old(self).config is Some ==> r == Err::<(), StreamError>(
                StreamError::AlreadyInitialized,
            ),
            old(self).config is None && fee_rate_bps > MAX_FEE_RATE_BPS ==> r == Err::<
                (),
                StreamError,
            >(StreamError::InvalidFeeRate),
            r is Ok <==> old(self).config is None && fee_rate_bps <= MAX_FEE_RATE_BPS,
            r is Ok ==> final(self).config == Some(
                ProtocolConfig { admin, treasury, fee_rate_bps },
            ),
            r is Err ==> final(self).config == old(self).config,
    {
        if self.config.is_some() {
            return Err(StreamError::AlreadyInitialized);
        }
        if fee_rate_bps > MAX_FEE_RATE_BPS {
            return Err(StreamError::InvalidFeeRate);
        }
        self.config = Some(ProtocolConfig { admin, treasury, fee_rate_bps });
        Ok(())
    }

    /// Update the treasury address and/or fee rate. Admin-only; the stored
    /// admin identity itself is preserved.
    pub fn update_fee_config(
        &mut self,
        admin: u64,
        treasury: u64,
        fee_rate_bps: u32,
    ) -> (r: Result<(), StreamError>)
        requires
            old(self).wf(),
        ensures
            final(self).wf(),
            final(self).streams@ == old(self).streams@,
            old(self).config is None ==> r == Err::<(), StreamError>(
                StreamError::NotInitialized,
            ),
            (old(self).config matches Some(c) && c.admin != admin) ==> r == Err::<
                (),
                StreamError,
            >(StreamError::NotAdmin),
            (old(self).config matches Some(c) && c.admin == admin && fee_rate_bps
                > MAX_FEE_RATE_BPS) ==> r == Err::<(), StreamError>(StreamError::InvalidFeeRate),
            r is Ok <==> (old(self).config matches Some(c) && c.admin == admin && fee_rate_bps
                <= MAX_FEE_RATE_BPS),
            r is Ok ==> final(self).config == Some(
                ProtocolConfig { admin, treasury, fee_rate_bps },
            ),
            r is Err ==> final(self).config == old(self).config,
    {
        match self.config {
            None => Err(StreamError::NotInitialized),
            Some(config) => {
                if config.admin != admin {
                    return Err(StreamError::NotAdmin);
                }
                if fee_rate_bps > MAX_FEE_RATE_BPS {
                    return Err(StreamError::InvalidFeeRate);
                }
                self.config = Some(ProtocolConfig { admin: config.admin, treasury, fee_rate_bps });
                Ok(())
            },
        }
    }

    /// Returns the current protocol fee configuration, or `None` if not yet
    /// initialized.
    pub fn get_fee_config(&self) -> (r: Option<ProtocolConfig>)
        ensures
            r == self.config,
    {
        self.config
    }

    // ─── Stream Operations ────────────────────────────────────────────────

    /// Create a new payment stream.
    ///
    /// The host authenticates the caller as `sender`, probes the token
    /// address for token capability (passing the outcome in
    /// `token_supported`), and on success moves `amount` tokens from the
    /// sender into custody and the fee portion on to the treasury.
    ///
    /// The protocol fee is deducted from `amount`; the stream is recorded
    /// with `deposited_amount` equal to the net amount and a fixed
    /// `rate_per_second = net_amount / duration` (truncating division; the
    /// remainder is an accepted rounding loss). Returns the new stream id.
    pub fn create_stream(
        &mut self,
        sender: u64,
        recipient: u64,
        token_address: u64,
        amount: i128,
        duration: u64,
        token_supported: bool,
        now: u64,
    ) -> (r: Result<u64, StreamError>)
        requires
            old(self).wf(),
            old(self).streams@.len() + 1 <= u64::MAX,
        ensures
            final(self).wf(),
            final(self).config == old(self).config,
            amount <= 0 ==> r == Err::<u64, StreamError>(StreamError::InvalidAmount),
            0 < amount && duration == 0 ==> r == Err::<u64, StreamError>(
                StreamError::InvalidDuration,
            ),
            0 < amount && 0 < duration && !token_supported ==> r == Err::<u64, StreamError>(
                StreamError::InvalidTokenAddress,
            ),
            r is Ok <==> 0 < amount && 0 < duration && token_supported,
            r is Err ==> final(self).streams@ == old(self).streams@,
            r is Ok ==> r == Ok::<u64, StreamError>((old(self).streams@.len() + 1) as u64),
            r is Ok ==> ({
                let net = spec_net_amount(old(self).config, amount as int);
                final(self).streams@ == old(self).streams@.push(
                    (Stream {
                        sender,
                        recipient,
                        token_address,
                        rate_per_second: (net / duration as int) as i128,
                        deposited_amount: net as i128,
                        withdrawn_amount: 0,
                        start_time: now,
                        last_update_time: now,
                        is_active: true,
                    }),
                )
            }),
    {
        if amount <= 0 {
            return Err(StreamError::InvalidAmount);
        }
        if duration == 0 {
            return Err(StreamError::InvalidDuration);
        }
        if !token_supported {
            return Err(StreamError::InvalidTokenAddress);
        }

        let net_amount = self.collect_fee(amount);
        let rate_per_second = net_amount / (duration as i128);
        let stream_id = (self.streams.len() as u64) + 1;
        proof {
            lemma_div_is_ordered(0, net_amount as int, duration as int);
        }
        let stream = Stream {
            sender,
            recipient,
            token_address,
            rate_per_second,
            deposited_amount: net_amount,
            withdrawn_amount: 0,
            start_time: now,
            last_update_time: now,
            is_active: true,
        };
        self.streams.push(stream);
        Ok(stream_id)
    }

    /// Top up an active stream with additional tokens.
    ///
    /// Only the original sender may top up. The top-up amount is subject to
    /// the protocol fee before being added to `deposited_amount`; the rate
    /// is deliberately not recalculated, and `last_update_time` advances to
    /// the top-up moment.
    pub fn top_up_stream(
        &mut self,
        sender: u64,
        stream_id: u64,
        amount: i128,
        now: u64,
    ) -> (r: Result<(), StreamError>)
        requires
            old(self).wf(),
            0 < amount && old(self).valid_id(stream_id) ==> old(self).stream_at(
                stream_id,
            ).deposited_amount + amount <= i128::MAX,
        ensures
            final(self).wf(),
            final(self).config == old(self).config,
            amount <= 0 ==> r == Err::<(), StreamError>(StreamError::InvalidAmount),
            0 < amount && !old(self).valid_id(stream_id) ==> r == Err::<(), StreamError>(
                StreamError::StreamNotFound,
            ),
            0 < amount && old(self).valid_id(stream_id) && old(self).stream_at(stream_id).sender
                != sender ==> r == Err::<(), StreamError>(StreamError::Unauthorized),
            0 < amount && old(self).valid_id(stream_id) && old(self).stream_at(stream_id).sender
                == sender && !old(self).stream_at(stream_id).is_active ==> r == Err::<
                (),
                StreamError,
            >(StreamError::StreamInactive),
            r is Ok <==> 0 < amount && old(self).valid_id(stream_id) && old(self).stream_at(
                stream_id,
            ).sender == sender && old(self).stream_at(stream_id).is_active,
            r is Err ==> final(self).streams@ == old(self).streams@,
            r is Ok ==> ({
                let s = old(self).stream_at(stream_id);
                let net = spec_net_amount(old(self).config, amount as int);
                final(self).streams@ == old(self).streams@.update(
                    stream_id - 1,
                    (Stream {
                        sender: s.sender,
                        recipient: s.recipient,
                        token_address: s.token_address,
                        rate_per_second: s.rate_per_second,
                        deposited_amount: (s.deposited_amount + net) as i128,
                        withdrawn_amount: s.withdrawn_amount,
                        start_time: s.start_time,
                        last_update_time: now,
                        is_active: true,
                    }),
                )
            }),
    {
        if amount <= 0 {
            return Err(StreamError::InvalidAmount);
        }
        if stream_id < 1 || stream_id > self.streams.len() as u64 {
            return Err(StreamError::StreamNotFound);
        }
        let idx: usize = (stream_id - 1) as usize;
        let stream = self.streams[idx];
        if let Err(e) = Self::validate_stream_ownership(&stream, sender) {
            return Err(e);
        }
        if let Err(e) = Self::validate_stream_active(&stream) {
            return Err(e);
        }

        let net_amount = self.collect_fee(amount);
        let updated = Stream {
            sender: stream.sender,
            recipient: stream.recipient,
            token_address: stream.token_address,
            rate_per_second: stream.rate_per_second,
            deposited_amount: stream.deposited_amount + net_amount,
            withdrawn_amount: stream.withdrawn_amount,
            start_time: stream.start_time,
            last_update_time: now,
            is_active: stream.is_active,
        };
        self.streams.set(idx, updated);
        Ok(())
    }

    /// Withdraw all currently claimable tokens from a stream.
    ///
    /// Only the stream's recipient may withdraw; the host authenticates the
    /// caller and, on success, moves the returned amount from custody to the
    /// recipient. The stream auto-closes once fully drained.
    pub fn withdraw(&mut self, recipient: u64, stream_id: u64, now: u64) -> (r: Result<
        i128,
        StreamError,
    >)
        requires
            old(self).wf(),
        ensures
            final(self).wf(),
            final(self).config == old(self).config,
            !old(self).valid_id(stream_id) ==> r == Err::<i128, StreamError>(
                StreamError::StreamNotFound,
            ),
            old(self).valid_id(stream_id) && old(self).stream_at(stream_id).recipient != recipient
                ==> r == Err::<i128, StreamError>(StreamError::Unauthorized),
            old(self).valid_id(stream_id) && old(self).stream_at(stream_id).recipient == recipient
                && !old(self).stream_at(stream_id).is_active ==> r == Err::<i128, StreamError>(
                StreamError::StreamInactive,
            ),
            old(self).valid_id(stream_id) && old(self).stream_at(stream_id).recipient == recipient
                && old(self).stream_at(stream_id).is_active && old(self).stream_at(
                stream_id,
            ).claimable(now) <= 0 ==> r == Err::<i128, StreamError>(StreamError::InvalidAmount),
            r is Ok <==> old(self).valid_id(stream_id) && old(self).stream_at(stream_id).recipient
                == recipient && old(self).stream_at(stream_id).is_active && old(self).stream_at(
                stream_id,
            ).claimable(now) > 0,
            r is Err ==> final(self).streams@ == old(self).streams@,
            r is Ok ==> ({
                let s = old(self).stream_at(stream_id);
                let c = s.claimable(now);
                &&& r == Ok::<i128, StreamError>(c as i128)
                &&& final(self).streams@ == old(self).streams@.update(
                    stream_id - 1,
                    (Stream {
                        sender: s.sender,
                        recipient: s.recipient,
                        token_address: s.token_address,
                        rate_per_second: s.rate_per_second,
                        deposited_amount: s.deposited_amount,
                        withdrawn_amount: (s.withdrawn_amount + c) as i128,
                        start_time: s.start_time,
                        last_update_time: now,
                        is_active: s.withdrawn_amount + c < s.deposited_amount,
                    }),
                )
            }),
    {
        if stream_id < 1 || stream_id > self.streams.len() as u64 {
            return Err(StreamError::StreamNotFound);
        }
        let idx: usize = (stream_id - 1) as usize;
        let stream = self.streams[idx];
        if stream.recipient != recipient {
            return Err(StreamError::Unauthorized);
        }
        if let Err(e) = Self::validate_stream_active(&stream) {
            return Err(e);
        }

        let claimable = Self::calculate_claimable(&stream, now);
        if claimable <= 0 {
            return Err(StreamError::InvalidAmount);
        }

        let new_withdrawn = stream.withdrawn_amount + claimable;
        let updated = Stream {
            sender: stream.sender,
            recipient: stream.recipient,
            token_address: stream.token_address,
            rate_per_second: stream.rate_per_second,
            deposited_amount: stream.deposited_amount,
            withdrawn_amount: new_withdrawn,
            start_time: stream.start_time,
            last_update_time: now,
            is_active: new_withdrawn < stream.deposited_amount,
        };
        self.streams.set(idx, updated);
        Ok(claimable)
    }

    /// Cancel an active stream.
    ///
    /// Only the stream's original sender may cancel. The recipient is first
    /// settled with everything accrued up to the cancellation moment; the
    /// un-streamed remainder (`deposited_amount` minus the new
    /// `withdrawn_amount`) is then refunded to the sender by the host.
    pub fn cancel_stream(&mut self, sender: u64, stream_id: u64, now: u64) -> (r: Result<
        (),
        StreamError,
    >)
        requires
            old(self).wf(),
        ensures
            final(self).wf(),
            final(self).config == old(self).config,
            !old(self).valid_id(stream_id) ==> r == Err::<(), StreamError>(
                StreamError::StreamNotFound,
            ),
            old(self).valid_id(stream_id) && old(self).stream_at(stream_id).sender != sender ==> r
                == Err::<(), StreamError>(StreamError::Unauthorized),
            old(self).valid_id(stream_id) && old(self).stream_at(stream_id).sender == sender && !old(
                self,
            ).stream_at(stream_id).is_active ==> r == Err::<(), StreamError>(
                StreamError::StreamInactive,
            ),
            r is Ok <==> old(self).valid_id(stream_id) && old(self).stream_at(stream_id).sender
                == sender && old(self).stream_at(stream_id).is_active,
            r is Err ==> final(self).streams@ == old(self).streams@,
            r is Ok ==> ({
                let s = old(self).stream_at(stream_id);
                let accrued = s.claimable(now);
                final(self).streams@ == old(self).streams@.update(
                    stream_id - 1,
                    (Stream {
                        sender: s.sender,
                        recipient: s.recipient,
                        token_address: s.token_address,
                        rate_per_second: s.rate_per_second,
                        deposited_amount: s.deposited_amount,
                        withdrawn_amount: (s.withdrawn_amount + accrued) as i128,
                        start_time: s.start_time,
                        last_update_time: now,
                        is_active: false,
                    }),
                )
            }),
    {
        if stream_id < 1 || stream_id > self.streams.len() as u64 {
            return Err(StreamError::StreamNotFound);
        }
        let idx: usize = (stream_id - 1) as usize;
        let stream = self.streams[idx];
        if let Err(e) = Self::validate_stream_ownership(&stream, sender) {
            return Err(e);
        }
        if let Err(e) = Self::validate_stream_active(&stream) {
            return Err(e);
        }

        let accrued = Self::calculate_claimable(&stream, now);
        let new_withdrawn = stream.withdrawn_amount + accrued;
        let updated = Stream {
            sender: stream.sender,
            recipient: stream.recipient,
            token_address: stream.token_address,
            rate_per_second: stream.rate_per_second,
            deposited_amount: stream.deposited_amount,
            withdrawn_amount: new_withdrawn,
            start_time: stream.start_time,
            last_update_time: now,
            is_active: false,
        };
        self.streams.set(idx, updated);
        Ok(())
    }

    // ─── Internal Helpers ─────────────────────────────────────────────────

    /// Calculate the claimable amount for a stream at a given timestamp:
    /// the amount streamed since the last accounting event, capped at the
    /// remaining balance so that over-withdrawal is impossible.
    pub fn calculate_claimable(stream: &Stream, now: u64) -> (r: i128)
        requires
            stream.wf(),
        ensures
            r == stream.claimable(now),
            0 <= r <= stream.remaining(),
    {
        let elapsed: u64 = if now >= stream.last_update_time {
            now - stream.last_update_time
        } else {
            0
        };
        proof {
            lemma_mul_nonnegative(elapsed as int, stream.rate_per_second as int);
        }
        let streamed: i128 = match (elapsed as i128).checked_mul(stream.rate_per_second) {
            Some(v) => v,
            None => i128::MAX,
        };
        let remaining: i128 = stream.deposited_amount - stream.withdrawn_amount;
        if streamed <= remaining {
            streamed
        } else {
            remaining
        }
    }

    /// Validate that a stream is owned (as sender) by the caller.
    pub fn validate_stream_ownership(stream: &Stream, caller: u64) -> (r: Result<(), StreamError>)
        ensures
            r is Ok <==> stream.sender == caller,
            stream.sender != caller ==> r == Err::<(), StreamError>(StreamError::Unauthorized),
    {
        if stream.sender != caller {
            return Err(StreamError::Unauthorized);
        }
        Ok(())
    }

    /// Validate that a stream is active.
    pub fn validate_stream_active(stream: &Stream) -> (r: Result<(), StreamError>)
        ensures
            r is Ok <==> stream.is_active,
            !stream.is_active ==> r == Err::<(), StreamError>(StreamError::StreamInactive),
    {
        if !stream.is_active {
            return Err(StreamError::StreamInactive);
        }
        Ok(())
    }

    /// Deducts the protocol fee from `amount` and returns the net amount to
    /// credit; the host moves the fee portion to the treasury. If no
    /// configuration exists or the fee rate is 0, the net amount equals the
    /// gross amount.
    fn collect_fee(&self, amount: i128) -> (net: i128)
        requires
            self.wf(),
            1 <= amount,
        ensures
            net == spec_net_amount(self.config, amount as int),
            1 <= net <= amount,
    {
        match self.config {
            Some(cfg) => {
                if cfg.fee_rate_bps > 0 {
                    let fee = compute_fee(amount, cfg.fee_rate_bps);
                    amount - fee
                } else {
                    amount
                }
            },
            None => amount,
        }
    }

    // ─── Read-only Queries ────────────────────────────────────────────────

    /// Returns the stream record for `stream_id`, or `None` if it does not
    /// exist.
    pub fn get_stream(&self, stream_id: u64) -> (r: Option<Stream>)
        ensures
            r is Some <==> self.valid_id(stream_id),
            self.valid_id(stream_id) ==> r == Some(self.stream_at(stream_id)),
    {
        if stream_id >= 1 && stream_id <= self.streams.len() as u64 {
            Some(self.streams[(stream_id - 1) as usize])
        } else {
            None
        }
    }

    /// Get the current claimable amount for a stream without modifying
    /// state: 0 for an inactive stream (nothing further ever accrues), and
    /// `None` if the id is unknown.
    pub fn get_claimable_amount(&self, stream_id: u64, now: u64) -> (r: Option<i128>)
        requires
            self.wf(),
        ensures
            r is Some <==> self.valid_id(stream_id),
            self.valid_id(stream_id) && !self.stream_at(stream_id).is_active ==> r == Some(0i128),
            self.valid_id(stream_id) && self.stream_at(stream_id).is_active ==> r == Some(
                self.stream_at(stream_id).claimable(now) as i128,
            ),
    {
        if stream_id >= 1 && stream_id <= self.streams.len() as u64 {
            let stream = self.streams[(stream_id - 1) as usize];
            if !stream.is_active {
                Some(0)
            } else {
                Some(Self::calculate_claimable(&stream, now))
            }
        } else {
            None
        }
    }
}

} // verus!
