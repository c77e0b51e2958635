//! Per-connection chat rate limiting: a token bucket driven by the server tick.

use vstd::prelude::*;

verus! {

/// Maximum number of relayed chat lines a connection may burst.
pub const CHAT_BURST: u32 = 8;

/// Server ticks that must elapse to refill one chat token.
pub const CHAT_TICKS_PER_TOKEN: u64 = 10;

/// A per-connection token bucket that paces relayed chat.
#[derive(Clone, Copy, Debug, PartialEq, Eq, Structural)]
pub struct ChatRateLimiter {
    /// Tokens currently available; one is spent per relayed line.
    pub tokens: u32,
    /// The tick the token count was last brought up to.
    pub last_tick: u64,
}

impl ChatRateLimiter {
    /// Whether no more than a burst is saved up.
    pub open spec fn wf(self) -> bool {
        self.tokens <= CHAT_BURST
    }

    /// The whole refill intervals that have passed by `now`.
    pub open spec fn intervals(self, now: u64) -> int {
        if now >= self.last_tick {
            (now - self.last_tick) / (CHAT_TICKS_PER_TOKEN as int)
        } else {
            0
        }
    }

    /// The tokens available at `now`, before one is spent.
    pub open spec fn available(self, now: u64) -> int {
        let sum = self.tokens + self.intervals(now);
        if sum > CHAT_BURST {
            CHAT_BURST as int
        } else {
            sum
        }
    }

    /// The bucket after a line at `now`.
    pub open spec fn after(self, now: u64) -> ChatRateLimiter {
        let available = self.available(now);
        ChatRateLimiter {
            tokens: if available > 0 {
                (available - 1) as u32
            } else {
                0
            },
            last_tick: (self.last_tick + self.intervals(now) * CHAT_TICKS_PER_TOKEN) as u64,
        }
    }

    /// Builds a full bucket as of `now`.
    pub fn new(now: u64) -> (r: ChatRateLimiter)
        ensures
            r.wf(),
            r.tokens == CHAT_BURST,
            r.last_tick == now,
    {
        ChatRateLimiter { tokens: CHAT_BURST, last_tick: now }
    }

    /// Refills any tokens earned since the last call, then spends one; tells whether
    /// there was one to spend.
    ///
    /// The tick advances by whole refill intervals only, so progress toward the next
    /// token is kept.
    pub fn try_consume(&mut self, now: u64) -> (r: bool)
        requires
            old(self).wf(),
        ensures
            final(self).wf(),
            *final(self) == old(self).after(now),
            r == (old(self).available(now) > 0),
            final(self).last_tick as int == old(self).last_tick + old(self).intervals(now)
                * CHAT_TICKS_PER_TOKEN,
    {
        let elapsed: u64 = if now >= self.last_tick {
            now - self.last_tick
        } else {
            0
        };
        let intervals: u64 = elapsed / CHAT_TICKS_PER_TOKEN;
        let refill: u32 = if intervals < CHAT_BURST as u64 {
            intervals as u32
        } else {
            CHAT_BURST
        };
        let sum: u32 = self.tokens + refill;
        self.tokens =
        if sum > CHAT_BURST {
            CHAT_BURST
        } else {
            sum
        };
        self.last_tick = self.last_tick + intervals * CHAT_TICKS_PER_TOKEN;
        if self.tokens > 0 {
            self.tokens = self.tokens - 1;
            true
        } else {
            false
        }
    }
}

/// How many of the lines at the given ticks are relayed, one after the other.
pub open spec fn relayed(bucket: ChatRateLimiter, ticks: Seq<u64>) -> nat
    decreases ticks.len(),
{
    if ticks.len() == 0 {
        0
    } else {
        let now = ticks[0];
        let first: nat = if bucket.available(now) > 0 {
            1
        } else {
            0
        };
        first + relayed(bucket.after(now), ticks.drop_first())
    }
}

/// Up to any tick, no more lines are relayed than the tokens at hand and those
/// earned by then.
pub proof fn relayed_lines_are_bounded(bucket: ChatRateLimiter, ticks: Seq<u64>, end: u64)
    requires
        bucket.wf(),
        bucket.last_tick <= end,
        forall|i: int| 0 <= i < ticks.len() ==> #[trigger] ticks[i] <= end,
    ensures
        relayed(bucket, ticks) <= bucket.tokens + (end - bucket.last_tick) / (
        CHAT_TICKS_PER_TOKEN as int),
    decreases ticks.len(),
{
    if ticks.len() > 0 {
        let now = ticks[0];
        let next = bucket.after(now);
        let rest = ticks.drop_first();
        assert(ticks[0] <= end);
        assert forall|i: int| 0 <= i < rest.len() implies #[trigger] rest[i] <= end by {
            assert(rest[i] == ticks[i + 1]);
        }
        relayed_lines_are_bounded(next, rest, end);
    }
}

/// A full bucket relays a whole burst at one tick and nothing beyond it.
pub proof fn burst_is_relayed_whole(bucket: ChatRateLimiter, ticks: Seq<u64>)
    requires
        bucket.wf(),
        forall|i: int| 0 <= i < ticks.len() ==> #[trigger] ticks[i] == bucket.last_tick,
    ensures
        relayed(bucket, ticks) == if ticks.len() < bucket.tokens {
            ticks.len() as int
        } else {
            bucket.tokens as int
        },
    decreases ticks.len(),
{
    if ticks.len() > 0 {
        let rest = ticks.drop_first();
        assert(ticks[0] == bucket.last_tick);
        assert forall|i: int| 0 <= i < rest.len() implies #[trigger] rest[i]
            == bucket.last_tick by {
            assert(rest[i] == ticks[i + 1]);
        }
        burst_is_relayed_whole(bucket.after(ticks[0]), rest);
    }
}

/// A new bucket relays a burst of eight. Whoever waits for half a second has a token again,
/// however empty the bucket was; waiting longer never means less; a line costs one token; and
/// a line that is refused costs none of the time that was waited.
pub proof fn waiting_earns_tokens(bucket: ChatRateLimiter, now: u64, later: u64)
    requires
        bucket.wf(),
        bucket.last_tick <= now <= later,
    ensures
        CHAT_BURST == 8,
        now >= bucket.last_tick + 10 ==> bucket.available(now) > 0,
        now < bucket.last_tick + 10 ==> bucket.available(now) == bucket.tokens,
        bucket.available(now) <= bucket.available(later),
        bucket.after(now).wf(),
        bucket.after(now).tokens == if bucket.available(now) > 0 {
            bucket.available(now) - 1
        } else {
            0
        },
        bucket.after(now).last_tick <= now < bucket.after(now).last_tick + 10,
        bucket.available(now) == 0 ==> bucket.after(now).available(later) == bucket.available(later),
{
    let waited = now - bucket.last_tick;
    let more = later - bucket.last_tick;
    vstd::arithmetic::div_mod::lemma_div_is_ordered(waited, more, 10);
    vstd::arithmetic::div_mod::lemma_fundamental_div_mod(waited, 10);
}

} // verus!
