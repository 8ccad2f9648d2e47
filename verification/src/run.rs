//! The timing decisions of the main loop.
//!
//! The loop updates at a fixed rate and renders when enough time has passed
//! since the last render. Time is counted in nanoseconds. The loop itself,
//! with its clock and its calls into the running program, stands outside the
//! library; each pass hands the elapsed times to [`tick`] and performs what
//! it returns.

use vstd::prelude::*;
use crate::event::EventKind;

verus! {

/// The default time between two updates, and between two renders: a
/// sixtieth of a second, in nanoseconds.
pub const DEFAULT_FREQ_NANOS: u64 = 16_666_666;

/// What one pass of the main loop does after handling its events.
#[derive(Clone, Copy, PartialEq, Eq, Structural, Debug)]
pub struct Tick {
    /// How many updates to run, one after another.
    pub updates: u128,
    /// The update lag left after those updates, in nanoseconds.
    pub lag: u128,
    /// Whether to render, and to restart the render clock.
    pub render: bool,
}

/// Decides one pass of the main loop.
///
/// The time since the last pass is added to the update lag; then one update
/// runs for each whole update period in the lag, each taking one period off
/// it. A render is due when strictly more than one render period has passed
/// since the last render.
pub fn tick(
    lag: u128,
    since_update: u128,
    since_render: u128,
    update_freq: u128,
    render_freq: u128,
) -> (t: Tick)
    requires
        update_freq > 0,
        lag + since_update <= u128::MAX,
    ensures
        t.updates == (lag + since_update) / (update_freq as int),
        t.lag == (lag + since_update) % (update_freq as int),
        t.updates * update_freq + t.lag == lag + since_update,
        t.lag < update_freq,
        t.render == (since_render > render_freq),
{
    let mut lag = lag + since_update;
    let total: Ghost<int> = Ghost(lag as int);
    let mut updates: u128 = 0;
    while lag >= update_freq
        invariant
            update_freq > 0,
            updates * update_freq + lag == total@,
            total@ <= u128::MAX,
        decreases lag,
    {
        proof {
            assert(updates * update_freq + update_freq == (updates + 1) * update_freq) by (nonlinear_arith);
            assert((updates + 1) * update_freq <= total@);
            assert(updates + 1 <= total@) by (nonlinear_arith)
                requires
                    (updates + 1) * update_freq <= total@,
                    update_freq >= 1,
                    updates >= 0,
            ;
        }
        updates = updates + 1;
        lag = lag - update_freq;
    }
    proof {
        vstd::arithmetic::div_mod::lemma_fundamental_div_mod_converse(
            total@,
            update_freq as int,
            updates as int,
            lag as int,
        );
    }
    Tick { updates, lag, render: since_render > render_freq }
}

/// Whether an event of the given kind ends the main loop: only a request to
/// quit does.
pub fn ends_loop(kind: EventKind) -> (r: bool)
    ensures
        r == (kind == EventKind::Quit),
{
    match kind {
        EventKind::Quit => true,
        _ => false,
    }
}

/// The sum of the elapsed times.
pub open spec fn total(elapsed: Seq<nat>) -> nat
    decreases elapsed.len(),
{
    if elapsed.len() == 0 {
        0
    } else {
        total(elapsed.drop_last()) + elapsed.last()
    }
}

/// The updates run so far and the lag left after the passes of the main loop
/// that saw the elapsed times `elapsed`, one pass each, starting with no lag:
/// each pass is a [`tick`].
pub open spec fn run_ticks(elapsed: Seq<nat>, freq: nat) -> (nat, nat)
    decreases elapsed.len(),
{
    if elapsed.len() == 0 {
        (0, 0)
    } else {
        let (updates, lag) = run_ticks(elapsed.drop_last(), freq);
        let sum = lag + elapsed.last();
        (updates + sum / freq, sum % freq)
    }
}

/// Over a whole run, the main loop has run one update for each whole update
/// period in the total time it saw, and the lag is what is left of it, less
/// than one period.
pub proof fn lemma_run_ticks(elapsed: Seq<nat>, freq: nat)
    requires
        freq > 0,
    ensures
        run_ticks(elapsed, freq).0 == total(elapsed) / freq,
        run_ticks(elapsed, freq).1 == total(elapsed) % freq,
        run_ticks(elapsed, freq).1 < freq,
    decreases elapsed.len(),
{
    if elapsed.len() > 0 {
        let prev = elapsed.drop_last();
        lemma_run_ticks(prev, freq);
        let (u, l) = run_ticks(prev, freq);
        let f = freq as int;
        let tp = total(prev) as int;
        let si = (l + elapsed.last()) as int;
        let qi = si / f;
        let ri = si % f;
        vstd::arithmetic::div_mod::lemma_fundamental_div_mod(tp, f);
        vstd::arithmetic::div_mod::lemma_fundamental_div_mod(si, f);
        vstd::arithmetic::div_mod::lemma_mod_pos_bound(si, f);
        assert(u * f + l == tp) by (nonlinear_arith)
            requires
                tp == f * (tp / f) + tp % f,
                u == tp / f,
                l == tp % f,
        ;
        let u2 = u + qi;
        let l2 = ri;
        assert(u2 * f + l2 == total(elapsed)) by (nonlinear_arith)
            requires
                u * f + l == tp,
                si == f * qi + ri,
                si == l + elapsed.last(),
                u2 == u + qi,
                l2 == ri,
                total(elapsed) == tp + elapsed.last(),
        ;
        assert(run_ticks(elapsed, freq) == (u2 as nat, l2 as nat));
        vstd::arithmetic::div_mod::lemma_fundamental_div_mod_converse(total(elapsed) as int, f, u2, l2);
    }
}

} // verus!
