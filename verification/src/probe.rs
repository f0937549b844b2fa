//! Subjects for integration probes that share one Valkey server.
//!
//! Probes run in threads against a single store, so every user id, token and
//! session id they use must be unique per probe and per process: a fixed
//! user id would have them revoking each other's sessions. Uniqueness comes
//! from the process id, which the caller reads, and from a counter that
//! every probe in the process draws from.
use vstd::prelude::*;

use crate::clock::{Duration, Timestamp, max_delta, max_instant, min_instant};
use crate::session::Session;
use crate::text::{
    decimal_digits, decimal_i64, i64_to_decimal, lemma_decimal_digits_are_digits,
    lemma_decimal_digits_injective, lemma_decimal_i64_injective, u64_to_decimal,
};
use crate::types::{GitHubId, SessionId, UserId};

verus! {

/// The process-wide counter: each draw hands out the current value and
/// advances it by one, wrapping at the end of `i64` as an atomic
/// `fetch_add` does.
pub struct Sequence {
    pub counter: i64,
}

/// The counter after one draw from `n`.
pub open spec fn advanced(n: i64) -> i64 {
    if n == i64::MAX {
        i64::MIN
    } else {
        (n + 1) as i64
    }
}

/// Process ids are spaced this far apart in the user-id space.
pub open spec fn user_stride() -> int {
    1_000_000
}

pub open spec fn spec_unique_user(process_id: u32, n: i64) -> int {
    process_id * user_stride() + n
}

/// `probe-{process_id}-{n}`.
pub open spec fn spec_unique_token(process_id: u32, n: i64) -> Seq<char> {
    "probe-"@ + decimal_digits(process_id as nat) + "-"@ + decimal_i64(n as int)
}

/// A probe's user id is representable when the next draw, offset by the
/// process's stride, stays inside `i64`.
pub open spec fn user_fits(process_id: u32, n: i64) -> bool {
    spec_unique_user(process_id, n) <= i64::MAX
}

impl Sequence {
    /// A counter that starts at zero.
    pub fn new() -> (s: Sequence)
        ensures
            s.counter == 0,
    {
        Sequence { counter: 0 }
    }

    /// Draws the next number.
    pub fn next(&mut self) -> (n: i64)
        ensures
            n == old(self).counter,
            final(self).counter == advanced(old(self).counter),
    {
        let n = self.counter;
        self.counter = if n == i64::MAX {
            i64::MIN
        } else {
            n + 1
        };
        n
    }
}

/// A user id no other probe in any process uses: the process id times a
/// million, plus the next draw.
pub fn unique_user(process_id: u32, seq: &mut Sequence) -> (u: UserId)
    requires
        user_fits(process_id, old(seq).counter),
    ensures
        u.0 == spec_unique_user(process_id, old(seq).counter),
        final(seq).counter == advanced(old(seq).counter),
{
    let n = seq.next();
    let base: i64 = (process_id as i64) * 1_000_000;
    UserId(base + n)
}

/// A token no other probe uses: `probe-{process_id}-{draw}`.
pub fn unique_token(process_id: u32, seq: &mut Sequence) -> (t: String)
    ensures
        t@ == spec_unique_token(process_id, old(seq).counter),
        final(seq).counter == advanced(old(seq).counter),
{
    let n = seq.next();
    let mut t = String::from_str("probe-");
    let pid = u64_to_decimal(process_id as u64);
    t.append(pid.as_str());
    t.append("-");
    let draw = i64_to_decimal(n);
    t.append(draw.as_str());
    proof {
        reveal_strlit("probe-");
        reveal_strlit("-");
        assert(t@ =~= spec_unique_token(process_id, n));
    }
    t
}

/// A session id made from a unique token.
pub fn unique_session(process_id: u32, seq: &mut Sequence) -> (s: SessionId)
    ensures
        s.0@ == spec_unique_token(process_id, old(seq).counter),
        final(seq).counter == advanced(old(seq).counter),
{
    SessionId(unique_token(process_id, seq))
}

/// A session for `user_id`, started at `now`, whose absolute cap is
/// `absolute_ttl` later; a zero TTL gives one already past its cap. Its
/// GitHub id mirrors the user id, and its address and agent are fixed.
pub fn session(user_id: UserId, now: Timestamp, absolute_ttl: Duration) -> (s: Session)
    requires
        absolute_ttl@ <= max_delta(),
        min_instant() <= now@ + absolute_ttl@ <= max_instant(),
    ensures
        s.user_id == user_id,
        s.github_id == GitHubId(user_id.0),
        s.ip@ == "203.0.113.7"@,
        s.user_agent@ == "probe"@,
        s.created_at == now,
        s.last_seen_at == now,
        s.expires_at@ == now@ + absolute_ttl@,
{
    let ip = String::from_str("203.0.113.7");
    let agent = String::from_str("probe");
    Session::new(user_id, GitHubId(user_id.0), ip, agent, now, absolute_ttl).unwrap()
}

/// Probes never share a token: two tokens are equal only when they come
/// from the same process and the same draw.
pub proof fn lemma_tokens_are_unique(p1: u32, n1: i64, p2: u32, n2: i64)
    requires
        p1 != p2 || n1 != n2,
    ensures
        spec_unique_token(p1, n1) != spec_unique_token(p2, n2),
{
    let t1 = spec_unique_token(p1, n1);
    let t2 = spec_unique_token(p2, n2);
    let d1 = decimal_digits(p1 as nat);
    let d2 = decimal_digits(p2 as nat);
    let l1: int = d1.len() as int;
    let l2: int = d2.len() as int;
    if t1 == t2 {
        lemma_decimal_digits_are_digits(p1 as nat);
        lemma_decimal_digits_are_digits(p2 as nat);
        assert("probe-"@.len() == 6) by {
            reveal_strlit("probe-");
        }
        assert("-"@ =~= seq!['-']) by {
            reveal_strlit("-");
        }
        if l1 < l2 {
            assert(t1[6 + l1] == '-');
            assert(t2[6 + l1] == d2[l1]);
        } else if l2 < l1 {
            assert(t2[6 + l2] == '-');
            assert(t1[6 + l2] == d1[l2]);
        } else {
            assert(d1 =~= t1.subrange(6, 6 + l1));
            assert(d2 =~= t2.subrange(6, 6 + l2));
            lemma_decimal_digits_injective(p1 as nat, p2 as nat);
            assert(decimal_i64(n1 as int) =~= t1.skip(7 + l1));
            assert(decimal_i64(n2 as int) =~= t2.skip(7 + l2));
            lemma_decimal_i64_injective(n1 as int, n2 as int);
        }
    }
}

/// Within one process, a run of fewer than a million draws from zero gives
/// every probe its own user id, and no two processes' runs overlap.
pub proof fn lemma_user_ids_are_unique(p1: u32, n1: i64, p2: u32, n2: i64)
    requires
        0 <= n1 < user_stride(),
        0 <= n2 < user_stride(),
        p1 != p2 || n1 != n2,
    ensures
        spec_unique_user(p1, n1) != spec_unique_user(p2, n2),
{
    if p1 < p2 {
        assert(p1 * user_stride() + user_stride() <= p2 * user_stride()) by (nonlinear_arith)
            requires
                p1 < p2,
        ;
    } else if p2 < p1 {
        assert(p2 * user_stride() + user_stride() <= p1 * user_stride()) by (nonlinear_arith)
            requires
                p2 < p1,
        ;
    }
}

/// The value the `k`-th draw hands out, from a counter at `n`.
pub open spec fn draw(n: i64, k: nat) -> i64
    decreases k,
{
    if k == 0 {
        n
    } else {
        advanced(draw(n, (k - 1) as nat))
    }
}

/// Size of the counter's cycle.
pub open spec fn cycle() -> int {
    0x1_0000_0000_0000_0000
}

/// `n + k`, wrapped into `i64` as two's complement wraps it.
pub open spec fn wrapped(x: int) -> int {
    (x - i64::MIN) % cycle() + i64::MIN
}

proof fn lemma_draw_is_wrapped_sum(n: i64, k: nat)
    ensures
        draw(n, k) as int == wrapped(n + k),
    decreases k,
{
    if k == 0 {
        assert((n - i64::MIN) % cycle() == n - i64::MIN);
    } else {
        lemma_draw_is_wrapped_sum(n, (k - 1) as nat);
        let prev = n + k - 1 - i64::MIN;
        assert(prev >= 0);
        let q = prev / cycle();
        let r = prev % cycle();
        assert(prev == q * cycle() + r && 0 <= r < cycle()) by (nonlinear_arith)
            requires
                prev >= 0,
                q == prev / cycle(),
                r == prev % cycle(),
        ;
        if r == cycle() - 1 {
            assert((prev + 1) % cycle() == 0) by (nonlinear_arith)
                requires
                    prev == q * cycle() + r,
                    r == cycle() - 1,
                    q >= 0,
            ;
        } else {
            assert((prev + 1) % cycle() == r + 1) by (nonlinear_arith)
                requires
                    prev == q * cycle() + r,
                    0 <= r < cycle() - 1,
                    q >= 0,
            ;
        }
    }
}

/// One counter never hands out the same value twice within a cycle: any
/// two of the first 2^64 draws differ.
pub proof fn lemma_draws_are_distinct(n: i64, i: nat, j: nat)
    requires
        i < j < cycle(),
    ensures
        draw(n, i) != draw(n, j),
{
    lemma_draw_is_wrapped_sum(n, i);
    lemma_draw_is_wrapped_sum(n, j);
    let a = n + i - i64::MIN;
    let b = n + j - i64::MIN;
    assert(a % cycle() != b % cycle()) by (nonlinear_arith)
        requires
            0 <= a < b,
            b - a < cycle(),
    {
        let qa = a / cycle();
        let qb = b / cycle();
        assert(a == qa * cycle() + a % cycle());
        assert(b == qb * cycle() + b % cycle());
    }
}

} // verus!
