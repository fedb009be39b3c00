use vstd::prelude::*;

use crate::errors::Error;

verus! {

/// The refill configuration, observed and replaced as one unit.
///
/// Invariant (stated by [`Ratelimiter::inv`]): `refill_amount <= capacity`.
#[derive(Debug, Clone, Copy, PartialEq, Eq, Structural)]
pub struct Parameters {
    /// Maximum number of tokens the bucket can hold (the burst size).
    pub capacity: u64,
    /// Tokens added per elapsed refill interval.
    pub refill_amount: u64,
    /// Length of one refill interval, in nanoseconds. Always fits in 64 bits.
    pub refill_interval_ns: u64,
}

/// A token-bucket rate limiter with a lazily computed refill schedule.
///
/// Times are absolute nanosecond counts on the caller's clock; every
/// operation that depends on the clock takes the current reading `now`
/// as an argument.
#[derive(Debug)]
pub struct Ratelimiter {
    /// The refill configuration.
    pub parameters: Parameters,
    /// The live token balance.
    pub available: u64,
    /// Absolute time, in nanoseconds, at which the next refill becomes due.
    pub refill_at_ns: u64,
    /// Cumulative count of tokens discarded because the bucket was full
    /// when a refill credited them. Never decreases.
    pub dropped: u64,
}

impl Ratelimiter {
    /// The limiter's well-formedness: the refill amount never exceeds the
    /// capacity, and the balance stays within the capacity.
    pub open spec fn inv(self) -> bool {
        &&& self.parameters.refill_amount <= self.parameters.capacity
        &&& self.available <= self.parameters.capacity
    }

    /// Whether a refill is due at time `now`.
    pub open spec fn refill_due(self, now: u64) -> bool {
        now >= self.refill_at_ns
    }

    /// Number of whole refill intervals that have elapsed by `now`, counting
    /// the one currently due. A single refill call catches up an arbitrarily
    /// long idle period through this count.
    pub open spec fn intervals_elapsed(self, now: u64) -> int
        recommends
            self.refill_due(now),
            self.parameters.refill_interval_ns >= 1,
    {
        (now - self.refill_at_ns) / (self.parameters.refill_interval_ns as int) + 1
    }

    /// Tokens earned across all intervals caught up by a refill at `now`.
    pub open spec fn refill_credit(self, now: u64) -> int {
        self.intervals_elapsed(now) * self.parameters.refill_amount
    }

    /// The refill schedule after a refill at `now`: the old deadline advanced
    /// by a whole number of intervals, to the first deadline beyond `now`.
    pub open spec fn next_refill_at(self, now: u64) -> int {
        self.refill_at_ns + self.intervals_elapsed(now) * self.parameters.refill_interval_ns
    }

    /// The balance after a refill at `now`: credited tokens are added,
    /// capped at the capacity; if no refill is due nothing changes.
    pub open spec fn available_after_refill(self, now: u64) -> int {
        if self.refill_due(now) {
            vstd::math::min(
                self.available + self.refill_credit(now),
                self.parameters.capacity as int,
            )
        } else {
            self.available as int
        }
    }

    /// Tokens a refill at `now` would credit beyond the capacity and
    /// therefore discard.
    pub open spec fn overflow_excess(self, now: u64) -> int {
        if self.refill_due(now) && self.available + self.refill_credit(now)
            >= self.parameters.capacity {
            self.available + self.refill_credit(now) - self.parameters.capacity
        } else {
            0
        }
    }

    /// The drop counter after a refill at `now`.
    pub open spec fn dropped_after_refill(self, now: u64) -> int {
        self.dropped + self.overflow_excess(now)
    }

    /// Side conditions under which a refill at `now` stays within 64-bit
    /// arithmetic: a positive interval, a balance within the capacity (so
    /// capping the bucket cannot underflow), and counts that fit in a
    /// machine word. Nothing here narrows the behaviour the limiter is
    /// specified for; it only keeps each intermediate count representable.
    pub open spec fn refill_fits(self, now: u64) -> bool {
        self.refill_due(now) ==> {
            &&& self.parameters.refill_interval_ns >= 1
            &&& self.available <= self.parameters.capacity
            &&& self.next_refill_at(now) <= u64::MAX
            &&& self.available + self.refill_credit(now) <= u64::MAX
            &&& self.dropped_after_refill(now) <= u64::MAX
        }
    }

    /// Whole refill cycles needed before `n` tokens have been earned,
    /// by the integer division the wait hints use. When `n` is below the
    /// refill amount the hint rounds down to zero even though the tokens
    /// only arrive with the next interval.
    pub open spec fn wait_cycles(self, n: u64) -> int {
        (n as int) / (self.parameters.refill_amount as int)
    }

    /// The wait hint returned when the bucket is empty and no refill is due:
    /// the time left until the next refill, scaled by the number of refill
    /// cycles `n` tokens need.
    pub open spec fn empty_hint(self, now: u64, n: u64) -> int {
        (self.refill_at_ns - now) * self.wait_cycles(n)
    }

    /// The wait hint returned when some tokens are held but fewer than `n`:
    /// one refill interval, scaled by the number of refill cycles the
    /// shortfall needs.
    pub open spec fn shortfall_hint(self, now: u64, n: u64) -> int {
        self.parameters.refill_interval_ns * (
            (n - self.available_after_refill(now)) / (self.parameters.refill_amount as int)
        )
    }

    /// Machine-limit side conditions under which the wait hints of
    /// [`Self::try_wait_n`] fit in 64 bits.
    pub open spec fn hint_fits(self, now: u64, n: u64) -> bool {
        &&& (self.available_after_refill(now) == 0 ==> self.empty_hint(now, n) <= u64::MAX)
        &&& (0 < self.available_after_refill(now) < n ==> self.shortfall_hint(now, n)
            <= u64::MAX)
    }

    /// Catch the refill schedule up to `now` and credit the earned tokens.
    ///
    /// When no refill is due yet, nothing changes and the remaining wait in
    /// nanoseconds is returned as the error. Otherwise the schedule advances
    /// past `now` by a whole number of intervals, the tokens earned across
    /// all of them are added to the balance up to the capacity, and the
    /// excess is recorded as dropped.
    pub fn refill(&mut self, now: u64) -> (r: Result<(), u64>)
        requires
            old(self).refill_fits(now),
        ensures
            final(self).parameters == old(self).parameters,
            final(self).available as int == old(self).available_after_refill(now),
            final(self).dropped as int == old(self).dropped_after_refill(now),
            final(self).dropped >= old(self).dropped,
            !old(self).refill_due(now) ==> {
                &&& r == Result::<(), u64>::Err((old(self).refill_at_ns - now) as u64)
                &&& final(self).refill_at_ns == old(self).refill_at_ns
            },
            old(self).refill_due(now) ==> {
                &&& r == Result::<(), u64>::Ok(())
                &&& final(self).refill_at_ns as int == old(self).next_refill_at(now)
            },
            old(self).inv() ==> final(self).inv(),
    {
        let refill_at: u64 = self.refill_at_ns;
        if now < refill_at {
            return Err(refill_at - now);
        }
        let interval: u64 = self.parameters.refill_interval_ns;
        let elapsed: u64 = now - refill_at;
        let quotient: u64 = elapsed / interval;
        proof {
            let k = old(self).intervals_elapsed(now);
            assert(quotient + 1 == k);
            assert(k <= k * interval) by (nonlinear_arith)
                requires
                    1 <= k,
                    1 <= interval,
            ;
        }
        let intervals: u64 = quotient + 1;
        let advance: u64 = intervals * interval;
        self.refill_at_ns = refill_at + advance;
        let amount: u64 = intervals * self.parameters.refill_amount;
        let available: u64 = self.available;
        if available + amount >= self.parameters.capacity {
            let to_add: u64 = self.parameters.capacity - available;
            self.available = available + to_add;
            self.dropped = self.dropped + (amount - to_add);
        } else {
            self.available = available + amount;
        }
        Ok(())
    }

    /// Attempt to take `n` tokens at time `now`.
    ///
    /// The refill schedule is first caught up to `now`. If the bucket then
    /// holds at least `n` tokens they are deducted and the call succeeds.
    /// Otherwise the call fails and returns an advisory hint, in
    /// nanoseconds, of how long to wait before retrying: with an empty
    /// bucket, the time left until the next refill scaled by `n`'s refill
    /// cycles; with a shortfall, one interval scaled by the shortfall's
    /// refill cycles.
    pub fn try_wait_n(&mut self, now: u64, n: u64) -> (r: Result<(), u64>)
        requires
            old(self).inv(),
            old(self).parameters.refill_amount >= 1,
            old(self).refill_fits(now),
            old(self).hint_fits(now, n),
        ensures
            final(self).parameters == old(self).parameters,
            final(self).dropped as int == old(self).dropped_after_refill(now),
            final(self).dropped >= old(self).dropped,
            final(self).refill_at_ns as int == if old(self).refill_due(now) {
                old(self).next_refill_at(now)
            } else {
                old(self).refill_at_ns as int
            },
            r is Ok <==> n <= old(self).available_after_refill(now)
                && old(self).available_after_refill(now) > 0,
            old(self).available_after_refill(now) == 0 ==> {
                &&& r == Result::<(), u64>::Err(old(self).empty_hint(now, n) as u64)
                &&& final(self).available == 0
            },
            0 < old(self).available_after_refill(now) < n ==> {
                &&& r == Result::<(), u64>::Err(old(self).shortfall_hint(now, n) as u64)
                &&& final(self).available as int == old(self).available_after_refill(now)
            },
            n <= old(self).available_after_refill(now) && old(self).available_after_refill(now)
                > 0 ==> {
                &&& r == Result::<(), u64>::Ok(())
                &&& final(self).available as int == old(self).available_after_refill(now) - n
            },
            final(self).inv(),
    {
        let refill_result: Result<(), u64> = self.refill(now);
        let available: u64 = self.available;
        if available == 0 {
            // A due refill credits at least one token into a bucket whose
            // capacity is at least one, so an empty bucket here means the
            // refill was not due.
            proof {
                if old(self).refill_due(now) {
                    let k = old(self).intervals_elapsed(now);
                    let ra = old(self).parameters.refill_amount as int;
                    assert(k * ra >= 1) by (nonlinear_arith)
                        requires
                            k >= 1,
                            ra >= 1,
                    ;
                }
            }
            match refill_result {
                Err(remaining) => {
                    return Err(remaining * (n / self.parameters.refill_amount));
                },
                Ok(()) => {
                    return unreached();
                },
            }
        }
        if n <= available {
            self.available = available - n;
            Ok(())
        } else {
            let short: u64 = n - available;
            Err(self.parameters.refill_interval_ns * (short / self.parameters.refill_amount))
        }
    }

    /// Attempt to take a single token at time `now`.
    ///
    /// Equivalent to [`Self::try_wait_n`] with `n == 1`.
    pub fn try_wait(&mut self, now: u64) -> (r: Result<(), u64>)
        requires
            old(self).inv(),
            old(self).parameters.refill_amount >= 1,
            old(self).refill_fits(now),
            old(self).hint_fits(now, 1),
        ensures
            final(self).parameters == old(self).parameters,
            final(self).dropped as int == old(self).dropped_after_refill(now),
            final(self).dropped >= old(self).dropped,
            final(self).refill_at_ns as int == if old(self).refill_due(now) {
                old(self).next_refill_at(now)
            } else {
                old(self).refill_at_ns as int
            },
            r is Ok <==> old(self).available_after_refill(now) > 0,
            old(self).available_after_refill(now) == 0 ==> {
                &&& r == Result::<(), u64>::Err(old(self).empty_hint(now, 1) as u64)
                &&& final(self).available == 0
            },
            old(self).available_after_refill(now) > 0 ==> {
                &&& r == Result::<(), u64>::Ok(())
                &&& final(self).available as int == old(self).available_after_refill(now) - 1
            },
            final(self).inv(),
    {
        self.try_wait_n(now, 1)
    }

    /// Give back `n` tokens, for work that was charged but not performed.
    ///
    /// The balance rises by `n`, clamped to the capacity: returned tokens
    /// are never silently dropped below the capacity, and the bucket never
    /// ends above it.
    pub fn return_n(&mut self, n: u64)
        requires
            old(self).available + n <= u64::MAX,
        ensures
            final(self).parameters == old(self).parameters,
            final(self).refill_at_ns == old(self).refill_at_ns,
            final(self).dropped == old(self).dropped,
            final(self).available as int == vstd::math::min(
                old(self).available + n,
                old(self).parameters.capacity as int,
            ),
            final(self).available <= final(self).parameters.capacity,
            final(self).inv() == (final(self).parameters.refill_amount
                <= final(self).parameters.capacity),
    {
        let raised: u64 = self.available + n;
        if raised < self.parameters.capacity {
            self.available = raised;
        } else {
            self.available = self.parameters.capacity;
        }
    }

    /// Change the maximum number of tokens the bucket can hold (the burst
    /// size).
    ///
    /// Fails with [`Error::MaxTokensTooLow`], leaving the limiter unchanged,
    /// exactly when `amount` is below the refill amount. On success the new
    /// capacity is committed and the balance is raised to it if it was
    /// below; a capacity decrease never lowers a balance already held.
    pub fn set_max_tokens(&mut self, amount: u64) -> (r: Result<(), Error>)
        ensures
            amount < old(self).parameters.refill_amount ==> {
                &&& r == Result::<(), Error>::Err(Error::MaxTokensTooLow)
                &&& *final(self) == *old(self)
            },
            amount >= old(self).parameters.refill_amount ==> {
                &&& r == Result::<(), Error>::Ok(())
                &&& final(self).parameters.capacity == amount
                &&& final(self).available as int == vstd::math::max(
                    old(self).available as int,
                    amount as int,
                )
            },
            final(self).parameters.refill_amount == old(self).parameters.refill_amount,
            final(self).parameters.refill_interval_ns == old(self).parameters.refill_interval_ns,
            final(self).refill_at_ns == old(self).refill_at_ns,
            final(self).dropped == old(self).dropped,
            r is Ok && old(self).available <= amount ==> final(self).inv(),
            r is Err ==> final(self).inv() == old(self).inv(),
    {
        if amount < self.parameters.refill_amount {
            Err(Error::MaxTokensTooLow)
        } else {
            self.parameters.capacity = amount;
            let available: u64 = self.available;
            if amount > available {
                self.available = amount;
            }
            Ok(())
        }
    }

    /// Set the balance to `amount`.
    ///
    /// Fails with [`Error::AvailableTokensTooHigh`], leaving the limiter
    /// unchanged, exactly when `amount` exceeds the capacity.
    pub fn set_available(&mut self, amount: u64) -> (r: Result<(), Error>)
        ensures
            amount > old(self).parameters.capacity ==> {
                &&& r == Result::<(), Error>::Err(Error::AvailableTokensTooHigh)
                &&& *final(self) == *old(self)
            },
            amount <= old(self).parameters.capacity ==> {
                &&& r == Result::<(), Error>::Ok(())
                &&& final(self).available == amount
            },
            final(self).parameters == old(self).parameters,
            final(self).refill_at_ns == old(self).refill_at_ns,
            final(self).dropped == old(self).dropped,
            old(self).inv() ==> final(self).inv(),
    {
        if amount > self.parameters.capacity {
            Err(Error::AvailableTokensTooHigh)
        } else {
            self.available = amount;
            Ok(())
        }
    }

    /// Change the number of tokens added on each refill.
    ///
    /// Fails with [`Error::RefillAmountTooHigh`], leaving the limiter
    /// unchanged, exactly when `amount` exceeds the capacity.
    pub fn set_refill_amount(&mut self, amount: u64) -> (r: Result<(), Error>)
        ensures
            amount > old(self).parameters.capacity ==> {
                &&& r == Result::<(), Error>::Err(Error::RefillAmountTooHigh)
                &&& *final(self) == *old(self)
            },
            amount <= old(self).parameters.capacity ==> {
                &&& r == Result::<(), Error>::Ok(())
                &&& final(self).parameters.refill_amount == amount
            },
            final(self).parameters.capacity == old(self).parameters.capacity,
            final(self).parameters.refill_interval_ns == old(self).parameters.refill_interval_ns,
            final(self).available == old(self).available,
            final(self).refill_at_ns == old(self).refill_at_ns,
            final(self).dropped == old(self).dropped,
            old(self).inv() ==> final(self).inv(),
    {
        if amount > self.parameters.capacity {
            Err(Error::RefillAmountTooHigh)
        } else {
            self.parameters.refill_amount = amount;
            Ok(())
        }
    }

    /// Change the interval between refills. The new length applies to
    /// future intervals only; the already scheduled refill keeps its time.
    ///
    /// Fails with [`Error::RefillIntervalTooLong`], leaving the limiter
    /// unchanged, exactly when `interval_ns` nanoseconds do not fit in 64
    /// bits.
    pub fn set_refill_interval(&mut self, interval_ns: u128) -> (r: Result<(), Error>)
        ensures
            interval_ns > u64::MAX ==> {
                &&& r == Result::<(), Error>::Err(Error::RefillIntervalTooLong)
                &&& *final(self) == *old(self)
            },
            interval_ns <= u64::MAX ==> {
                &&& r == Result::<(), Error>::Ok(())
                &&& final(self).parameters.refill_interval_ns == interval_ns
            },
            final(self).parameters.capacity == old(self).parameters.capacity,
            final(self).parameters.refill_amount == old(self).parameters.refill_amount,
            final(self).available == old(self).available,
            final(self).refill_at_ns == old(self).refill_at_ns,
            final(self).dropped == old(self).dropped,
            old(self).inv() ==> final(self).inv(),
    {
        if interval_ns > u64::MAX as u128 {
            Err(Error::RefillIntervalTooLong)
        } else {
            self.parameters.refill_interval_ns = interval_ns as u64;
            Ok(())
        }
    }

    /// Initialize a builder for a limiter that adds `amount` tokens to the
    /// bucket each time `interval_ns` nanoseconds have elapsed.
    pub fn builder(amount: u64, interval_ns: u128) -> (b: Builder)
        ensures
            b.refill_amount == amount,
            b.refill_interval_ns == interval_ns,
            b.max_tokens == 1,
            b.initial_available == 0,
    {
        Builder::new(amount, interval_ns)
    }

    /// Returns the maximum number of tokens the bucket can hold.
    pub fn max_tokens(&self) -> (r: u64)
        ensures
            r == self.parameters.capacity,
    {
        self.parameters.capacity
    }

    /// Returns the number of tokens added on each refill.
    pub fn refill_amount(&self) -> (r: u64)
        ensures
            r == self.parameters.refill_amount,
    {
        self.parameters.refill_amount
    }

    /// Returns the current interval between refills, in nanoseconds.
    pub fn refill_interval(&self) -> (r: u64)
        ensures
            r == self.parameters.refill_interval_ns,
    {
        self.parameters.refill_interval_ns
    }

    /// Returns the number of tokens currently available.
    pub fn available(&self) -> (r: u64)
        ensures
            r == self.available,
    {
        self.available
    }

    /// Returns the time of the next refill, in nanoseconds.
    pub fn next_refill(&self) -> (r: u64)
        ensures
            r == self.refill_at_ns,
    {
        self.refill_at_ns
    }

    /// Returns the cumulative number of tokens dropped by overflowing
    /// refills.
    pub fn dropped(&self) -> (r: u64)
        ensures
            r == self.dropped,
    {
        self.dropped
    }
}

/// The balance a refill yields stays within `[0, capacity]`: however long
/// the limiter sat idle, a catch-up refill credits the bucket at most up to
/// its capacity, never beyond it.
pub proof fn lemma_refill_keeps_balance_bounded(s: Ratelimiter, now: u64)
    requires
        s.inv(),
        s.parameters.refill_interval_ns >= 1,
    ensures
        0 <= s.available_after_refill(now) <= s.parameters.capacity,
{
    if s.refill_due(now) {
        let k = s.intervals_elapsed(now);
        let ra = s.parameters.refill_amount as int;
        vstd::arithmetic::div_mod::lemma_div_pos_is_pos(
            now - s.refill_at_ns,
            s.parameters.refill_interval_ns as int,
        );
        assert(k * ra >= 0) by (nonlinear_arith)
            requires
                k >= 1,
                ra >= 0,
        ;
    }
}

/// The drop counter never decreases: a refill leaves it unchanged unless
/// the bucket overflows, and an overflow only adds the discarded excess.
pub proof fn lemma_refill_keeps_dropped_monotone(s: Ratelimiter, now: u64)
    ensures
        s.dropped_after_refill(now) >= s.dropped,
{
}

/// The refill schedule only moves forward: a due refill advances the
/// deadline by at least one whole interval, to the first deadline strictly
/// beyond `now`, so the clock never runs backwards and a limiter that just
/// refilled is not immediately due again.
pub proof fn lemma_refill_schedule_advances(s: Ratelimiter, now: u64)
    requires
        s.refill_due(now),
        s.parameters.refill_interval_ns >= 1,
    ensures
        s.next_refill_at(now) > now,
        s.next_refill_at(now) >= s.refill_at_ns + s.parameters.refill_interval_ns,
{
    let interval = s.parameters.refill_interval_ns as int;
    let elapsed = now - s.refill_at_ns;
    let q = elapsed / interval;
    vstd::arithmetic::div_mod::lemma_fundamental_div_mod(elapsed, interval);
    vstd::arithmetic::div_mod::lemma_mod_bound(elapsed, interval);
    vstd::arithmetic::div_mod::lemma_div_pos_is_pos(elapsed, interval);
    assert((q + 1) * interval == interval * q + interval) by (nonlinear_arith);
    assert(interval * q >= 0) by (nonlinear_arith)
        requires
            q >= 0,
            interval >= 1,
    ;
}

/// Collects the construction parameters for a [`Ratelimiter`] and validates
/// them when the limiter is built.
pub struct Builder {
    /// Tokens available as soon as the limiter is built. Accepted as given:
    /// construction does not hold it to the capacity.
    pub initial_available: u64,
    /// Maximum tokens the bucket can hold.
    pub max_tokens: u64,
    /// Tokens added per elapsed refill interval.
    pub refill_amount: u64,
    /// Length of one refill interval, in nanoseconds.
    pub refill_interval_ns: u128,
}

impl Builder {
    /// Initialize a builder that will add `amount` tokens after each
    /// `interval_ns` nanoseconds have elapsed.
    ///
    /// By default no tokens are initially available and the bucket holds at
    /// most one, prohibiting bursts.
    pub fn new(amount: u64, interval_ns: u128) -> (b: Builder)
        ensures
            b.refill_amount == amount,
            b.refill_interval_ns == interval_ns,
            b.max_tokens == 1,
            b.initial_available == 0,
    {
        Builder {
            initial_available: 0,
            max_tokens: 1,
            refill_amount: amount,
            refill_interval_ns: interval_ns,
        }
    }

    /// Set the maximum number of tokens the bucket can hold at any time,
    /// bounding the size of bursts. The value must be at least the refill
    /// amount for the build to succeed.
    pub fn max_tokens(self, tokens: u64) -> (b: Builder)
        ensures
            b.max_tokens == tokens,
            b.refill_amount == self.refill_amount,
            b.refill_interval_ns == self.refill_interval_ns,
            b.initial_available == self.initial_available,
    {
        Builder { max_tokens: tokens, ..self }
    }

    /// Set the number of tokens that are initially available, for admission
    /// control setups that start with a budget.
    pub fn initial_available(self, tokens: u64) -> (b: Builder)
        ensures
            b.initial_available == tokens,
            b.refill_amount == self.refill_amount,
            b.refill_interval_ns == self.refill_interval_ns,
            b.max_tokens == self.max_tokens,
    {
        Builder { initial_available: tokens, ..self }
    }

    /// Consume the builder and construct a [`Ratelimiter`], reading the
    /// clock as `now` nanoseconds.
    ///
    /// Fails with [`Error::MaxTokensTooLow`] when the capacity is below the
    /// refill amount, and otherwise with [`Error::RefillIntervalTooLong`]
    /// when the interval does not fit in 64 bits of nanoseconds. On success
    /// the first refill is scheduled one whole interval after `now`, so a
    /// fresh limiter is not immediately due.
    pub fn build(self, now: u64) -> (r: Result<Ratelimiter, Error>)
        requires
            self.refill_interval_ns <= u64::MAX ==> now + self.refill_interval_ns <= u64::MAX,
        ensures
            self.max_tokens < self.refill_amount ==> r == Result::<Ratelimiter, Error>::Err(
                Error::MaxTokensTooLow,
            ),
            self.max_tokens >= self.refill_amount && self.refill_interval_ns > u64::MAX ==> r
                == Result::<Ratelimiter, Error>::Err(Error::RefillIntervalTooLong),
            self.max_tokens >= self.refill_amount && self.refill_interval_ns <= u64::MAX ==> {
                &&& r is Ok
                &&& r->Ok_0.parameters.capacity == self.max_tokens
                &&& r->Ok_0.parameters.refill_amount == self.refill_amount
                &&& r->Ok_0.parameters.refill_interval_ns == self.refill_interval_ns
                &&& r->Ok_0.available == self.initial_available
                &&& r->Ok_0.dropped == 0
                &&& r->Ok_0.refill_at_ns as int == now + self.refill_interval_ns
            },
            r is Ok && self.initial_available <= self.max_tokens ==> r->Ok_0.inv(),
    {
        if self.max_tokens < self.refill_amount {
            return Err(Error::MaxTokensTooLow);
        }
        if self.refill_interval_ns > u64::MAX as u128 {
            return Err(Error::RefillIntervalTooLong);
        }
        let interval: u64 = self.refill_interval_ns as u64;
        Ok(
            Ratelimiter {
                parameters: Parameters {
                    capacity: self.max_tokens,
                    refill_amount: self.refill_amount,
                    refill_interval_ns: interval,
                },
                available: self.initial_available,
                dropped: 0,
                refill_at_ns: now + interval,
            },
        )
    }
}

} // verus!
