//! The send-side token bucket.
//!
//! A bucket refills at `rate` tokens per second and holds at most one
//! second's worth, so a sender may save up at most `rate` tokens of
//! burst.  One token pays for one byte.  Reserving `n` tokens from a
//! bucket that holds too few asks the caller to sleep: the wait is
//! `ceil(missing tokens) / rate` seconds, so waits land on whole-token
//! boundaries and one byte per second leaves at rate 1.
//!
//! Time and tokens are exact integers here.  A clock reading is a
//! nanosecond count from a monotonic clock; tokens are counted in
//! nano-tokens (one billionth of a token), which makes the refill
//! `elapsed_nanos * rate` with no rounding at all.  The caller supplies
//! the clock readings and performs the sleeps; the bucket decides
//! everything else and accounts for every token it ever grants, which
//! is what bounds the long-term average rate.
use vstd::prelude::*;

verus! {

/// Nanoseconds per second; also nano-tokens per token.
pub const NANOS_PER_SEC: u64 = 1_000_000_000;

/// A token bucket: the configured rate, the tokens on hand, and the
/// clock reading of the last refill.  The two ghost fields carry its
/// whole history: when it was created and how many nano-tokens it has
/// granted since, which is what the rate bound is proved from.
pub struct TokenBucket {
    /// Tokens per second; also the capacity in whole tokens.
    pub rate: u32,
    /// Nano-tokens on hand, at most `capacity_nt`.
    pub available: u64,
    /// The clock reading, in nanoseconds, of the last refill.
    pub last_sync: u64,
    /// The clock reading the bucket was created at.
    pub origin: Ghost<u64>,
    /// Every nano-token ever granted.
    pub consumed: Ghost<nat>,
}

/// The bucket's capacity in nano-tokens: one second's refill.
pub open spec fn spec_capacity_nt(rate: u32) -> int {
    rate * NANOS_PER_SEC
}

impl TokenBucket {
    /// A sound bucket: a positive rate, no more on hand than the
    /// capacity, a refill no earlier than creation, and every granted
    /// nano-token covered by the time that has passed — the bucket
    /// starts empty, gains at most `rate` nano-tokens per nanosecond,
    /// and what is granted comes out of what it gained.
    pub open spec fn wf(&self) -> bool {
        &&& self.rate >= 1
        &&& self.available <= spec_capacity_nt(self.rate)
        &&& self.origin@ <= self.last_sync
        &&& self.consumed@ + self.available <= (self.last_sync - self.origin@) * self.rate
    }

    /// The tokens on hand right after a refill at clock reading `now`:
    /// grown by `elapsed * rate` nano-tokens, capped at the capacity.
    pub open spec fn spec_synced_available(&self, now: u64) -> int
        recommends
            self.last_sync <= now,
    {
        vstd::math::min(
            self.available + (now - self.last_sync) * self.rate,
            spec_capacity_nt(self.rate),
        )
    }

    /// A fresh bucket is empty: the first token must be earned.
    pub fn new(rate: u32, now: u64) -> (b: TokenBucket)
        requires
            rate >= 1,
        ensures
            b.wf(),
            b.rate == rate,
            b.available == 0,
            b.last_sync == now,
            b.origin@ == now,
            b.consumed@ == 0,
    {
        TokenBucket {
            rate,
            available: 0,
            last_sync: now,
            origin: Ghost(now),
            consumed: Ghost(0),
        }
    }

    /// The capacity in nano-tokens.
    pub fn capacity_nt(&self) -> (cap: u64)
        ensures
            cap == spec_capacity_nt(self.rate),
    {
        self.rate as u64 * NANOS_PER_SEC
    }

    /// Refills the bucket for the time passed since the last refill:
    /// the tokens on hand grow by `min(elapsed * rate, capacity -
    /// available)` nano-tokens and the refill clock moves to `now`.
    /// Nothing is granted here.
    pub fn sync(&mut self, now: u64)
        requires
            old(self).wf(),
            old(self).last_sync <= now,
        ensures
            final(self).wf(),
            final(self).rate == old(self).rate,
            final(self).origin == old(self).origin,
            final(self).consumed == old(self).consumed,
            final(self).last_sync == now,
            final(self).available == old(self).spec_synced_available(now),
    {
        let elapsed: u64 = now - self.last_sync;
        proof {
            let e = elapsed as int;
            let r = self.rate as int;
            assert(e * r <= u64::MAX * (u32::MAX as int)) by (nonlinear_arith)
                requires
                    0 <= e <= u64::MAX,
                    0 <= r <= u32::MAX,
            ;
        }
        let gained: u128 = elapsed as u128 * self.rate as u128;
        let cap: u64 = self.rate as u64 * NANOS_PER_SEC;
        let room: u64 = cap - self.available;
        if gained >= room as u128 {
            self.available = cap;
        } else {
            self.available = self.available + gained as u64;
        }
        self.last_sync = now;
        proof {
            let e = elapsed as int;
            let r = self.rate as int;
            let o = self.origin@ as int;
            let ls = old(self).last_sync as int;
            assert((ls - o) * r + e * r == (now - o) * r) by (nonlinear_arith)
                requires
                    e == now - ls,
            ;
        }
    }

    /// Grants `n_nt` nano-tokens out of what is on hand.
    fn take_nt(&mut self, n_nt: u64)
        requires
            old(self).wf(),
            n_nt <= old(self).available,
        ensures
            final(self).wf(),
            final(self).rate == old(self).rate,
            final(self).origin == old(self).origin,
            final(self).last_sync == old(self).last_sync,
            final(self).available == old(self).available - n_nt,
            final(self).consumed@ == old(self).consumed@ + n_nt,
    {
        self.available = self.available - n_nt;
        proof {
            self.consumed@ = self.consumed@ + n_nt as nat;
        }
    }

    /// The nanoseconds a reservation of `n` tokens must wait when only
    /// `avail` nano-tokens are on hand: the missing amount rounded up
    /// to whole tokens, delivered at `rate` tokens per second.
    pub open spec fn spec_wait_nanos(avail: int, n: u64, rate: u32) -> int
        recommends
            0 <= avail < n * NANOS_PER_SEC,
            rate >= 1,
    {
        let missing_nt = n * NANOS_PER_SEC - avail;
        let missing_tokens = (missing_nt + (NANOS_PER_SEC - 1)) / (NANOS_PER_SEC as int);
        (missing_tokens * NANOS_PER_SEC + (rate - 1)) / (rate as int)
    }

    /// Reserves `n` tokens at clock reading `now`.  The bucket refills
    /// first.  When enough tokens are on hand they are granted at once
    /// and the wait is zero; otherwise nothing is granted and the
    /// returned wait says how long the caller must sleep before
    /// completing the reservation with [`Self::complete_reserve`].
    ///
    /// A request may not exceed the capacity: it could never be
    /// granted.  [`Self::reserve_checked`] screens for that.
    pub fn reserve_at(&mut self, n: u64, now: u64) -> (wait: u64)
        requires
            old(self).wf(),
            old(self).last_sync <= now,
            n <= old(self).rate,
        ensures
            final(self).wf(),
            final(self).rate == old(self).rate,
            final(self).origin == old(self).origin,
            final(self).last_sync == now,
            ({
                let synced = old(self).spec_synced_available(now);
                if synced >= n * NANOS_PER_SEC {
                    &&& wait == 0
                    &&& final(self).available == synced - n * NANOS_PER_SEC
                    &&& final(self).consumed@ == old(self).consumed@ + n * NANOS_PER_SEC
                } else {
                    &&& wait == Self::spec_wait_nanos(synced, n, old(self).rate)
                    &&& wait >= 1
                    &&& final(self).available == synced
                    &&& final(self).consumed == old(self).consumed
                }
            }),
    {
        proof {
            let r = old(self).rate;
            assert(n * NANOS_PER_SEC <= r * NANOS_PER_SEC) by (nonlinear_arith)
                requires
                    n <= r,
            ;
        }
        self.sync(now);
        let needed_nt: u64 = n * NANOS_PER_SEC;
        if self.available >= needed_nt {
            self.take_nt(needed_nt);
            0
        } else {
            let missing_nt: u64 = needed_nt - self.available;
            let missing_tokens: u64 = (missing_nt + (NANOS_PER_SEC - 1)) / NANOS_PER_SEC;
            proof {
                assert(missing_tokens <= n) by (nonlinear_arith)
                    requires
                        missing_tokens == (missing_nt + (NANOS_PER_SEC - 1)) / (
                        NANOS_PER_SEC as int),
                        1 <= missing_nt <= n * NANOS_PER_SEC,
                        n <= u32::MAX,
                ;
            }
            let wait: u64 = (missing_tokens * NANOS_PER_SEC + (self.rate as u64 - 1)) / self.rate as u64;
            proof {
                assert(wait >= 1) by (nonlinear_arith)
                    requires
                        wait == (missing_tokens * NANOS_PER_SEC + (self.rate as u64 - 1)) / (
                        self.rate as int),
                        missing_tokens >= 1,
                        1 <= self.rate <= u32::MAX,
                ;
            }
            wait
        }
    }

    /// Finishes a reservation after the caller slept.  The bucket
    /// refills at `now` and grants the `n` tokens if they are on hand,
    /// which they are whenever at least the returned wait has passed
    /// since the reservation refilled the bucket: the last clause
    /// promises the grant in that case.  A shortfall grants nothing
    /// and returns false; the caller treats it as the programming
    /// error it is.
    pub fn complete_reserve(&mut self, n: u64, now: u64) -> (ok: bool)
        requires
            old(self).wf(),
            old(self).last_sync <= now,
            n <= old(self).rate,
        ensures
            final(self).wf(),
            final(self).rate == old(self).rate,
            final(self).origin == old(self).origin,
            final(self).last_sync == now,
            ({
                let synced = old(self).spec_synced_available(now);
                if synced >= n * NANOS_PER_SEC {
                    &&& ok
                    &&& final(self).available == synced - n * NANOS_PER_SEC
                    &&& final(self).consumed@ == old(self).consumed@ + n * NANOS_PER_SEC
                } else {
                    &&& !ok
                    &&& final(self).available == synced
                    &&& final(self).consumed == old(self).consumed
                }
            }),
            old(self).available + (now - old(self).last_sync) * old(self).rate >= n * NANOS_PER_SEC
                ==> ok,
    {
        proof {
            let r = old(self).rate;
            assert(n * NANOS_PER_SEC <= r * NANOS_PER_SEC) by (nonlinear_arith)
                requires
                    n <= r,
            ;
        }
        self.sync(now);
        let needed_nt: u64 = n * NANOS_PER_SEC;
        if self.available >= needed_nt {
            self.take_nt(needed_nt);
            true
        } else {
            false
        }
    }

    /// Reserves `n` tokens, screening the one request the bucket can
    /// never serve: more tokens than the capacity.  That request is a
    /// programming error in the caller and is answered with `None`;
    /// anything else behaves as [`Self::reserve_at`].
    pub fn reserve_checked(&mut self, n: u64, now: u64) -> (r: Option<u64>)
        requires
            old(self).wf(),
            old(self).last_sync <= now,
        ensures
            final(self).wf(),
            final(self).rate == old(self).rate,
            final(self).origin == old(self).origin,
            r is None <==> n > old(self).rate,
            r is None ==> *final(self) == *old(self),
            r is Some ==> {
                let synced = old(self).spec_synced_available(now);
                let wait = r->0;
                &&& final(self).last_sync == now
                &&& if synced >= n * NANOS_PER_SEC {
                    &&& wait == 0
                    &&& final(self).available == synced - n * NANOS_PER_SEC
                    &&& final(self).consumed@ == old(self).consumed@ + n * NANOS_PER_SEC
                } else {
                    &&& wait == Self::spec_wait_nanos(synced, n, old(self).rate)
                    &&& wait >= 1
                    &&& final(self).available == synced
                    &&& final(self).consumed == old(self).consumed
                }
            },
    {
        if n > self.rate as u64 {
            None
        } else {
            Some(self.reserve_at(n, now))
        }
    }
}

/// Reserving `n` tokens from an empty bucket at rate `R` waits
/// `ceil(n) / R` seconds: the wait in nanoseconds is `n * 10^9 / R`
/// rounded up, so it differs from the exact quotient by less than one
/// nanosecond — at rate 1 that is one full second per token.
pub proof fn lemma_wait_from_empty(n: u64, rate: u32)
    requires
        1 <= n <= rate,
    ensures
        TokenBucket::spec_wait_nanos(0, n, rate) == (n * NANOS_PER_SEC + (rate - 1)) / (
        rate as int),
        TokenBucket::spec_wait_nanos(0, n, rate) * rate >= n * NANOS_PER_SEC,
        (TokenBucket::spec_wait_nanos(0, n, rate) - 1) * rate < n * NANOS_PER_SEC,
{
    let missing_nt = n * NANOS_PER_SEC - 0;
    let d = NANOS_PER_SEC as int;
    assert((n * NANOS_PER_SEC + (NANOS_PER_SEC - 1)) / (NANOS_PER_SEC as int) == n)
        by (nonlinear_arith)
        requires
            n >= 1,
    ;
    let w = (n * NANOS_PER_SEC + (rate - 1)) / (rate as int);
    assert(w * rate >= n * NANOS_PER_SEC && (w - 1) * rate < n * NANOS_PER_SEC)
        by (nonlinear_arith)
        requires
            w == (n * NANOS_PER_SEC + (rate - 1)) / (rate as int),
            rate >= 1,
            n >= 1,
    ;
}

/// The long-term average rate is bounded: whatever the pattern of
/// reservations and sleeps, the tokens a bucket has granted over its
/// whole life never exceed `elapsed * rate`.  Granting the `S` bytes
/// of a file at rate `R` therefore takes at least `S / R` seconds of
/// clock time, and the bound survives a reconnection because the
/// bucket does.
pub proof fn lemma_granted_bounded_by_elapsed(b: &TokenBucket)
    requires
        b.wf(),
    ensures
        b.consumed@ <= (b.last_sync - b.origin@) * b.rate,
{
}

} // verus!
