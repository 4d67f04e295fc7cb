//! The side of the agent on the connection over which it is told what to do.

use vstd::arithmetic::power2::{
    lemma2_to64, lemma_pow2_pos, lemma_pow2_strictly_increases, lemma_pow2_unfold, pow2,
};
use vstd::prelude::*;

use crate::checkin::{AgentAction, CheckInResponse};

verus! {

/// The shortest time before a new attempt to connect, in milliseconds.
pub const BACKOFF_MIN_MS: u64 = 1_000;

/// The longest time before a new attempt to connect, in milliseconds.
pub const BACKOFF_MAX_MS: u64 = 30_000;

/// The time of the system clock.
#[verifier::external_type_specification]
#[verifier::external_body]
pub struct ExSystemTime(std::time::SystemTime);

/// `std::time::SystemTime::now` gives the time of the system clock, of which nothing is known
/// beforehand.
pub assume_specification[ std::time::SystemTime::now ]() -> (r: std::time::SystemTime)
;

/// `std::time::SystemTime::duration_since`, from the start of 1970 on, in nanoseconds; nothing
/// before that. The time is that of the system clock, so nothing is known of how much has gone by.
#[verifier::external_body]
fn since_epoch(t: std::time::SystemTime) -> (r: Option<u128>) {
    t.duration_since(std::time::UNIX_EPOCH).ok().map(|d| d.as_nanos())
}

/// The nanoseconds behind the last whole second, of the nanoseconds since the start of 1970; none
/// before that.
pub open spec fn fraction(elapsed: Option<u128>) -> u32 {
    match elapsed {
        Some(nanos) => (nanos as int % 1_000_000_000) as u32,
        None => 0,
    }
}

/// The nanoseconds behind the last whole second of a time.
pub fn fraction_of(elapsed: Option<u128>) -> (r: u32)
    ensures
        r == fraction(elapsed),
        r < 1_000_000_000,
{
    match elapsed {
        Some(nanos) => (nanos % 1_000_000_000) as u32,
        None => 0,
    }
}

/// The nanoseconds behind the last whole second of the system clock; none before 1970.
fn clock_nanos() -> (r: u32)
    ensures
        r < 1_000_000_000,
{
    fraction_of(since_epoch(std::time::SystemTime::now()))
}

/// The deviation in milliseconds that a number of nanoseconds stands for: from -3 to 3.
pub open spec fn jitter_ms(nanos: u32) -> int {
    nanos as int % 7 - 3
}

/// A time to wait with the deviation, but not below zero.
pub open spec fn jittered(backoff_ms: u64, nanos: u32) -> u64 {
    let total = (backoff_ms as i64) + jitter_ms(nanos);
    if total < 0 {
        0
    } else {
        total as u64
    }
}

#[verifier::truncate]
fn signed(n: u64) -> (r: i64)
    ensures
        r == n as i64,
{
    n as i64
}

/// A time to wait, in milliseconds, with the deviation that a number of nanoseconds stands for.
pub fn backoff_with_nanos(backoff_ms: u64, nanos: u32) -> (r: u64)
    requires
        (backoff_ms as i64) + 3 <= i64::MAX,
    ensures
        r == jittered(backoff_ms, nanos),
{
    let jitter: i64 = (nanos % 7) as i64 - 3;
    let base: i64 = signed(backoff_ms);
    if base < -3 {
        return 0;
    }
    let total: i64 = base + jitter;
    if total < 0 {
        0
    } else {
        total as u64
    }
}

/// A time to wait, in milliseconds, with a deviation of at most three milliseconds that the clock
/// decides on.
pub fn backoff_with_jitter(backoff_ms: u64) -> (r: u64)
    requires
        (backoff_ms as i64) + 3 <= i64::MAX,
    ensures
        exists|nanos: u32| nanos < 1_000_000_000 && r == #[trigger] jittered(backoff_ms, nanos),
        backoff_ms <= i64::MAX ==> backoff_ms - 3 <= r <= backoff_ms + 3,
{
    let nanos: u32 = clock_nanos();
    proof {
        if backoff_ms <= i64::MAX {
            jitter_is_small(backoff_ms, nanos);
        }
    }
    backoff_with_nanos(backoff_ms, nanos)
}

/// The deviation is at most three milliseconds either way, and no time to wait is below zero.
pub proof fn jitter_is_small(backoff_ms: u64, nanos: u32)
    requires
        backoff_ms <= i64::MAX,
    ensures
        backoff_ms - 3 <= jittered(backoff_ms, nanos) <= backoff_ms + 3,
{
}

/// How a connection ended.
#[derive(Clone, Copy, Debug, PartialEq, Eq, Structural)]
pub enum LinkOutcome {
    /// The agent did what it was told, and needs no more connections.
    Terminal,
    /// It was closed.
    Disconnected,
    /// It could not be made, or broke.
    Lost,
}

/// The time that the agent waits before it connects again.
#[derive(Clone, Copy, Debug, PartialEq, Eq, Structural)]
pub struct Backoff {
    pub ms: u64,
}

/// Twice a time to wait, as far as the longest allows.
pub open spec fn doubled(ms: u64) -> u64 {
    if 2 * ms < BACKOFF_MAX_MS {
        (2 * ms) as u64
    } else {
        BACKOFF_MAX_MS
    }
}

/// What follows a connection: nothing after the last, else the time to wait before the next and
/// the time that the one after it starts from. A connection that was closed starts over.
pub open spec fn backoff_next(ms: u64, outcome: LinkOutcome) -> Option<(u64, u64)> {
    match outcome {
        LinkOutcome::Terminal => None,
        LinkOutcome::Disconnected => Some((BACKOFF_MIN_MS, doubled(BACKOFF_MIN_MS))),
        LinkOutcome::Lost => Some((ms, doubled(ms))),
    }
}

impl Backoff {
    /// The time to wait is within its bounds.
    pub open spec fn wf(self) -> bool {
        BACKOFF_MIN_MS <= self.ms <= BACKOFF_MAX_MS
    }

    /// The shortest time to wait.
    pub fn new() -> (r: Backoff)
        ensures
            r.ms == BACKOFF_MIN_MS,
            r.wf(),
    {
        Backoff { ms: BACKOFF_MIN_MS }
    }

    /// Goes on from a connection: gives the time to wait before the next one, before the
    /// deviation is added, or nothing where there is none.
    pub fn after(&mut self, outcome: LinkOutcome) -> (r: Option<u64>)
        requires
            old(self).wf(),
        ensures
            final(self).wf(),
            match backoff_next(old(self).ms, outcome) {
                Some((wait, next)) => r == Some(wait) && final(self).ms == next,
                None => r is None && final(self).ms == old(self).ms,
            },
            r matches Some(wait) ==> BACKOFF_MIN_MS <= wait <= BACKOFF_MAX_MS,
    {
        match outcome {
            LinkOutcome::Terminal => None,
            LinkOutcome::Disconnected => {
                self.ms = 2 * BACKOFF_MIN_MS;
                Some(BACKOFF_MIN_MS)
            },
            LinkOutcome::Lost => {
                let wait: u64 = self.ms;
                self.ms = if 2 * wait < BACKOFF_MAX_MS {
                    2 * wait
                } else {
                    BACKOFF_MAX_MS
                };
                Some(wait)
            },
        }
    }
}

/// The times to wait after connections that break one after the other.
pub open spec fn waits(ms: u64, failures: nat) -> Seq<u64>
    decreases failures,
{
    if failures == 0 {
        Seq::empty()
    } else {
        seq![ms] + waits(doubled(ms), (failures - 1) as nat)
    }
}

/// While connections break, the times to wait never get shorter, and stay within their bounds.
pub proof fn waits_grow(ms: u64, failures: nat)
    requires
        BACKOFF_MIN_MS <= ms <= BACKOFF_MAX_MS,
    ensures
        waits(ms, failures).len() == failures,
        forall|i: int|
            0 <= i < failures ==> ms <= #[trigger] waits(ms, failures)[i] <= BACKOFF_MAX_MS,
        forall|i: int, j: int|
            0 <= i <= j < failures ==> #[trigger] waits(ms, failures)[i] <= #[trigger] waits(
                ms,
                failures,
            )[j],
    decreases failures,
{
    if failures > 0 {
        let rest = waits(doubled(ms), (failures - 1) as nat);
        waits_grow(doubled(ms), (failures - 1) as nat);
        let all = waits(ms, failures);
        assert(all == seq![ms] + rest);
        assert forall|i: int| 0 <= i < failures implies ms <= #[trigger] all[i]
            <= BACKOFF_MAX_MS by {
            if i > 0 {
                assert(all[i] == rest[i - 1]);
            }
        }
        assert forall|i: int, j: int| 0 <= i <= j < failures implies #[trigger] all[i]
            <= #[trigger] all[j] by {
            if i > 0 {
                assert(all[i] == rest[i - 1] && all[j] == rest[j - 1]);
            }
        }
    }
}

/// While connections break, the time to wait doubles each time until it is the longest: before the
/// attempt behind `i` others that broke it is the first one times two to the power of `i`. From the
/// shortest time on that makes 1, 2, 4, 8 and 16 seconds, and then 30.
pub proof fn waits_double(ms: u64, failures: nat, i: nat)
    requires
        BACKOFF_MIN_MS <= ms <= BACKOFF_MAX_MS,
        i < failures,
    ensures
        waits(ms, failures)[i as int] == (if ms * pow2(i) < BACKOFF_MAX_MS {
            ms * pow2(i)
        } else {
            BACKOFF_MAX_MS as int
        }),
        ms == BACKOFF_MIN_MS ==> waits(ms, failures)[i as int] == (if i == 0 {
            1_000int
        } else if i == 1 {
            2_000
        } else if i == 2 {
            4_000
        } else if i == 3 {
            8_000
        } else if i == 4 {
            16_000
        } else {
            30_000
        }),
    decreases failures,
{
    lemma2_to64();
    waits_grow(ms, failures);
    let next = doubled(ms);
    let rest = waits(next, (failures - 1) as nat);
    assert(waits(ms, failures) == seq![ms] + rest);
    if i > 0 {
        let j = (i - 1) as nat;
        waits_double(next, (failures - 1) as nat, j);
        assert(waits(ms, failures)[i as int] == rest[j as int]);
        lemma_pow2_unfold(i);
        lemma_pow2_pos(j);
        let p = pow2(j) as int;
        assert(ms * pow2(i) == (2 * ms) * p) by (nonlinear_arith)
            requires
                pow2(i) == 2 * p,
        ;
        if 2 * ms >= BACKOFF_MAX_MS {
            assert((2 * ms) * p >= BACKOFF_MAX_MS) by (nonlinear_arith)
                requires
                    2 * ms >= BACKOFF_MAX_MS,
                    p >= 1,
            ;
            assert(BACKOFF_MAX_MS * p >= BACKOFF_MAX_MS) by (nonlinear_arith)
                requires
                    p >= 1,
            ;
        }
    }
    if i > 5 {
        lemma_pow2_strictly_increases(5, i);
    }
}

/// The address to connect to.
pub fn endpoint(ws_base_url: &str) -> (r: String)
    ensures
        r@ == ws_base_url@ + "/api/agent/ws"@,
{
    ws_base_url.to_owned().concat("/api/agent/ws")
}

/// What comes over a connection.
#[derive(Debug, PartialEq, Eq)]
pub enum LinkMessage {
    /// A text, with the answer to a check-in that it holds, if it holds one.
    Text(Option<CheckInResponse>),
    /// The end, by a close frame or without one.
    Closed,
    /// Anything else.
    Other,
    /// An error.
    Failed,
}

/// What an agent does about a message.
#[derive(Clone, Copy, Debug, PartialEq, Eq, Structural)]
pub enum LinkReaction {
    /// Carry out the action; `last` says that nothing is to be waited for behind it.
    Act { action: AgentAction, last: bool },
    /// Wait for the next message.
    Ignore,
    /// End the connection in this way.
    End(LinkOutcome),
}

/// What an agent does about a message: it carries out what it is told, and is done unless it was
/// told to wait.
pub open spec fn link_reaction(message: LinkMessage) -> LinkReaction {
    match message {
        LinkMessage::Text(Some(response)) => LinkReaction::Act {
            action: response.action,
            last: response.action != AgentAction::Wait,
        },
        LinkMessage::Text(None) | LinkMessage::Other => LinkReaction::Ignore,
        LinkMessage::Closed => LinkReaction::End(LinkOutcome::Disconnected),
        LinkMessage::Failed => LinkReaction::End(LinkOutcome::Lost),
    }
}

/// Decides what an agent does about a message.
pub fn on_message(message: &LinkMessage) -> (r: LinkReaction)
    ensures
        r == link_reaction(*message),
{
    match message {
        LinkMessage::Text(Some(response)) => LinkReaction::Act {
            action: response.action,
            last: response.action != AgentAction::Wait,
        },
        LinkMessage::Text(None) | LinkMessage::Other => LinkReaction::Ignore,
        LinkMessage::Closed => LinkReaction::End(LinkOutcome::Disconnected),
        LinkMessage::Failed => LinkReaction::End(LinkOutcome::Lost),
    }
}

/// An agent acts on what it is told and on nothing else, and waits for more exactly where it was told
/// to; a closed connection and a broken one end it, each in its own way.
pub proof fn agent_does_what_it_is_told(message: LinkMessage)
    ensures
        message matches LinkMessage::Text(Some(response)) ==> (link_reaction(message)
            matches LinkReaction::Act { action, last } && action == response.action && (last <==>
            action != AgentAction::Wait)),
        link_reaction(message) is Act <==> (message matches LinkMessage::Text(Some(_))),
        link_reaction(message) == LinkReaction::End(LinkOutcome::Disconnected) <==> message
            is Closed,
        link_reaction(message) == LinkReaction::End(LinkOutcome::Lost) <==> message is Failed,
        link_reaction(message) is Ignore <==> message is Other || (message matches LinkMessage::Text(
            None,
        )),
{
}

/// The deviation goes round through all whole milliseconds from -3 to 3, one by one with the nanoseconds,
/// and is added to the time to wait as it is.
pub proof fn jitter_goes_round(backoff_ms: u64, nanos: u32)
    requires
        3 <= backoff_ms <= 0x7FFF_FFFF,
        nanos < u32::MAX,
    ensures
        jitter_ms(0) == -3,
        jitter_ms((nanos + 1) as u32) == (if jitter_ms(nanos) == 3 {
            -3
        } else {
            jitter_ms(nanos) + 1
        }),
        jittered(backoff_ms, nanos) == backoff_ms + jitter_ms(nanos),
{
    assert(((nanos + 1) as int) % 7 == (if nanos as int % 7 == 6 {
        0
    } else {
        nanos as int % 7 + 1
    }));
}

/// Whole seconds do not count for the fraction.
pub proof fn whole_seconds_do_not_count(seconds: nat, nanos: u32)
    requires
        nanos < 1_000_000_000,
        seconds * 1_000_000_000 + nanos <= u128::MAX,
    ensures
        fraction(Some((seconds * 1_000_000_000 + nanos) as u128)) == nanos,
        fraction(None) == 0,
{
}

} // verus!
