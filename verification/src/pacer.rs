use vstd::prelude::*;
use crate::transport::TransportState;

verus! {

/// The target spacing of frame releases in milliseconds: one second split
/// into `fps` frames, stretched by the inverse of the speed multiplier.
/// Computed with a single division so rounding error is least.
pub open spec fn interval_millis_spec(fps: u32, speed_percent: u32) -> int
    recommends
        fps > 0,
        speed_percent > 0,
{
    100_000int / ((fps as int) * (speed_percent as int))
}

/// Exec computation of the release interval.
pub fn interval_millis(fps: u32, speed_percent: u32) -> (r: u64)
    requires
        fps > 0,
        speed_percent > 0,
    ensures
        r == interval_millis_spec(fps, speed_percent),
{
    proof {
        assert((fps as int) * (speed_percent as int) <= (u32::MAX as int) * (u32::MAX as int))
            by (nonlinear_arith)
            requires
                fps <= u32::MAX,
                speed_percent <= u32::MAX,
        ;
        assert((fps as int) * (speed_percent as int) >= 1) by (nonlinear_arith)
            requires
                fps >= 1,
                speed_percent >= 1,
        ;
    }
    100_000u64 / ((fps as u64) * (speed_percent as u64))
}

/// The playback pacer: owns the wall-clock reference from which elapsed
/// playing time is measured and decides, from the transport state, when the
/// next video frame is due. All times are wall-clock milliseconds.
#[derive(Clone, Copy, PartialEq, Eq, Structural, Debug)]
pub struct Pacer {
    /// The container's frame rate; positive.
    pub fps: u32,
    /// Timestamp the current release interval is measured from.
    pub reference_ms: u64,
    /// True when the previous poll saw the transport paused.
    pub in_pause: bool,
    /// While `in_pause`: the time of the most recent paused poll.
    pub pause_mark_ms: u64,
}

impl Pacer {
    pub open spec fn wf(self) -> bool {
        self.fps > 0
    }

    /// `self` with any pending pause window folded away at time `now`: the
    /// reference slides forward by the time spent paused since the last poll,
    /// so paused time never counts as elapsed playing time. Saturates at the
    /// end of the clock's range.
    pub open spec fn advanced(self, now: u64) -> Pacer {
        if self.in_pause && now > self.pause_mark_ms {
            let shifted = self.reference_ms + (now - self.pause_mark_ms);
            Pacer {
                reference_ms: if shifted <= u64::MAX {
                    shifted as u64
                } else {
                    u64::MAX
                },
                pause_mark_ms: now,
                ..self
            }
        } else {
            self
        }
    }

    /// Milliseconds of playing time elapsed at `now` (zero if the clock ran
    /// backwards past the reference).
    pub open spec fn elapsed_at(self, now: u64) -> int {
        if now >= self.reference_ms {
            now - self.reference_ms
        } else {
            0
        }
    }

    /// Whether a frame release is due at `now`: the transport is running,
    /// and at least one release interval of playing time has elapsed.
    pub open spec fn due_spec(self, t: TransportState, now: u64) -> bool {
        &&& !t.paused
        &&& t.speed_percent > 0
        &&& self.advanced(now).elapsed_at(now) >= interval_millis_spec(self.fps, t.speed_percent)
    }

    /// The pacer state after one poll at `now` under transport `t`.
    pub open spec fn after_poll(self, t: TransportState, now: u64) -> Pacer {
        if t.paused {
            Pacer { in_pause: true, pause_mark_ms: now, ..self.advanced(now) }
        } else {
            Pacer { in_pause: false, ..self.advanced(now) }
        }
    }

    /// A fresh pacer measures its first interval from `now`.
    pub fn new(fps: u32, now: u64) -> (r: Pacer)
        requires
            fps > 0,
        ensures
            r == (Pacer { fps, reference_ms: now, in_pause: false, pause_mark_ms: now }),
    {
        Pacer { fps, reference_ms: now, in_pause: false, pause_mark_ms: now }
    }

    /// Poll the pacer at wall-clock `now`. Never blocks: reports whether a
    /// release is due right now, and false the whole time the transport is
    /// paused. Paused spans are folded into the reference, so unpausing
    /// resumes the interval where the pause froze it rather than restarting
    /// it or skipping it.
    pub fn poll_due(&mut self, now: u64, t: &TransportState) -> (r: bool)
        requires
            old(self).wf(),
        ensures
            final(self).wf(),
            r == old(self).due_spec(*t, now),
            *final(self) == old(self).after_poll(*t, now),
    {
        if self.in_pause && now > self.pause_mark_ms {
            let d = now - self.pause_mark_ms;
            self.reference_ms = if self.reference_ms <= u64::MAX - d {
                self.reference_ms + d
            } else {
                u64::MAX
            };
            self.pause_mark_ms = now;
        }
        if t.paused {
            self.in_pause = true;
            self.pause_mark_ms = now;
            return false;
        }
        self.in_pause = false;
        if t.speed_percent == 0 {
            return false;
        }
        let iv = interval_millis(self.fps, t.speed_percent);
        let elapsed = if now >= self.reference_ms {
            now - self.reference_ms
        } else {
            0
        };
        elapsed >= iv
    }

    /// Record that a frame was released at `now`. The reference resets to
    /// `now` itself — not to "previous reference plus one interval" — so a
    /// late release self-corrects to the wall clock instead of compounding.
    pub fn mark_released(&mut self, now: u64)
        requires
            old(self).wf(),
        ensures
            final(self).wf(),
            *final(self) == (Pacer {
                reference_ms: now,
                pause_mark_ms: now,
                ..*old(self)
            }),
    {
        self.reference_ms = now;
        self.pause_mark_ms = now;
    }
}

/// Law: after a release is marked at time `r_ms`, a release is due at `now`
/// exactly when a full interval has elapsed since `r_ms` — no earlier (so
/// polling immediately after the mark reports not due whenever the interval
/// is nonzero) and no later. The threshold depends only on `r_ms`, not on any
/// earlier schedule, which is why one late release never compounds into the
/// next.
pub proof fn lemma_due_threshold(p: Pacer, t: TransportState, r_ms: u64, now: u64)
    requires
        p.wf(),
        p.reference_ms == r_ms,
        !p.in_pause,
        !t.paused,
        t.speed_percent > 0,
        r_ms <= now,
    ensures
        p.due_spec(t, now) <==> now >= r_ms + interval_millis_spec(p.fps, t.speed_percent),
{
}

/// Law: a release made at any due time after a mark at `r0` falls at least
/// one full interval after `r0`, so releases never come faster than the
/// container's frame rate allows.
pub proof fn lemma_release_spacing(p: Pacer, t: TransportState, r0: u64, r1: u64)
    requires
        p.wf(),
        p.reference_ms == r0,
        !p.in_pause,
        !t.paused,
        t.speed_percent > 0,
        r0 <= r1,
        p.due_spec(t, r1),
    ensures
        r1 >= r0 + interval_millis_spec(p.fps, t.speed_percent),
{
    lemma_due_threshold(p, t, r0, r1);
}

/// Law: releases made at their due times keep the container's frame rate on
/// average. If consecutive releases are spaced at least one interval apart
/// (they must be: see `lemma_due_threshold`) and at most `slack` late each,
/// then `n + 1` releases span between `n * interval` and
/// `n * (interval + slack)` milliseconds: per-release delays add up linearly
/// and never compound.
pub proof fn lemma_release_rate(times: Seq<u64>, iv: int, slack: int)
    requires
        times.len() >= 1,
        iv >= 0,
        slack >= 0,
        forall|i: int|
            0 <= i < times.len() - 1 ==> times[i] + iv <= #[trigger] times[i + 1] && times[i + 1]
                <= times[i] + iv + slack,
    ensures
        times[0] + (times.len() - 1) * iv <= times[times.len() - 1],
        times[times.len() - 1] <= times[0] + (times.len() - 1) * (iv + slack),
    decreases times.len(),
{
    if times.len() == 1 {
        assert(times[0] + 0 * iv <= times[0]) by (nonlinear_arith);
        assert(times[0] <= times[0] + 0 * (iv + slack)) by (nonlinear_arith);
    } else {
        let head = times.drop_last();
        let n = times.len() - 1;
        assert(forall|i: int|
            0 <= i < head.len() - 1 ==> head[i] + iv <= #[trigger] head[i + 1] && head[i + 1]
                <= head[i] + iv + slack);
        lemma_release_rate(head, iv, slack);
        assert(head[head.len() - 1] == times[n - 1]);
        let j = n - 1;
        assert(times[j] + iv <= times[j + 1] && times[j + 1] <= times[j] + iv + slack);
        assert(times[n - 1] + iv <= times[n] <= times[n - 1] + iv + slack);
        assert((n - 1) * iv + iv == n * iv) by (nonlinear_arith);
        assert((n - 1) * (iv + slack) + (iv + slack) == n * (iv + slack)) by (nonlinear_arith);
    }
}

/// Law: while the transport is paused, polling reports not due, and each
/// paused poll preserves the frozen elapsed share `pause_mark - reference`,
/// so how often the engine polls during a pause is unobservable.
pub proof fn lemma_paused_poll_freezes(p: Pacer, t: TransportState, now: u64)
    requires
        p.wf(),
        p.in_pause,
        t.paused,
        p.reference_ms <= p.pause_mark_ms <= now,
        p.reference_ms + (now - p.pause_mark_ms) <= u64::MAX,
    ensures
        !p.due_spec(t, now),
        p.after_poll(t, now).in_pause,
        p.after_poll(t, now).pause_mark_ms == now,
        p.after_poll(t, now).pause_mark_ms - p.after_poll(t, now).reference_ms
            == p.pause_mark_ms - p.reference_ms,
{
}

/// Law: pausing freezes the interval and unpausing resumes it in place. A
/// poll that enters pause at `t_pause` and a later poll that leaves it at
/// `t_resume` shift the reference forward by exactly the paused span
/// `t_resume - t_pause`; with the transport running again, a release becomes
/// due at the original threshold plus the paused span — not one full interval
/// after `t_resume`, and not at `t_resume` just because the interval had
/// expired on the wall clock while paused.
pub proof fn lemma_pause_resume(
    p: Pacer,
    paused_t: TransportState,
    running_t: TransportState,
    t_pause: u64,
    t_resume: u64,
)
    requires
        p.wf(),
        !p.in_pause,
        paused_t.paused,
        !running_t.paused,
        running_t.speed_percent > 0,
        p.reference_ms <= t_pause <= t_resume,
        p.reference_ms + (t_resume - t_pause) <= u64::MAX,
    ensures
        !p.due_spec(paused_t, t_pause),
        p.after_poll(paused_t, t_pause).after_poll(running_t, t_resume).reference_ms
            == p.reference_ms + (t_resume - t_pause),
        forall|now: u64|
            t_resume <= now ==> (#[trigger] p.after_poll(paused_t, t_pause).after_poll(
                running_t,
                t_resume,
            ).due_spec(running_t, now) <==> now >= p.reference_ms + (t_resume - t_pause)
                + interval_millis_spec(p.fps, running_t.speed_percent)),
{
    let resumed = p.after_poll(paused_t, t_pause).after_poll(running_t, t_resume);
    assert(resumed.reference_ms == p.reference_ms + (t_resume - t_pause));
    assert forall|now: u64| t_resume <= now implies (#[trigger] resumed.due_spec(running_t, now)
        <==> now >= p.reference_ms + (t_resume - t_pause) + interval_millis_spec(
        p.fps,
        running_t.speed_percent,
    )) by {
        assert(resumed.advanced(now) == resumed);
    }
}

} // verus!
