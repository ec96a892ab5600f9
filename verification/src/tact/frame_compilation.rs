//! Splitting a project into frames at a fixed step: which path-mode feedbacks play at each
//! frame, at what time within their effect, and between which of their points.
//!
//! Turning a sample into motor intensities (interpolating coordinates and intensities,
//! then mapping the point onto motors) is floating-point work done by the caller.
use vstd::prelude::*;
use std::sync::Arc;
use crate::device::DevicePosition;
use crate::path_point_mapper::PositionMapper;
use crate::tact::{EffectMode, EffectPathModeFeedback, EffectPathModePoint, HapticEffect, TactFileProject, Track};
use crate::tact::duration::{effect_end, effect_ends_fit, effect_start, total_duration};

verus! {

/// How a project is split into frames.
#[derive(Clone, Copy, Debug, PartialEq, Eq, Structural)]
pub struct FrameCompilationConfig {
    /// Step size in milliseconds for frame splitting
    pub step_size_ms: u32,
}

impl FrameCompilationConfig {
    pub fn new(step_size_ms: u32) -> (r: Self)
        ensures
            r.step_size_ms == step_size_ms,
    {
        FrameCompilationConfig { step_size_ms }
    }
}

impl Default for FrameCompilationConfig {
    /// Frames every 20 milliseconds.
    fn default() -> (r: Self)
        ensures
            r.step_size_ms == 20,
    {
        FrameCompilationConfig { step_size_ms: 20 }
    }
}

/// Splits projects into frames, with the mappers that turn path points into motors.
pub struct FrameCompiler<M> {
    pub config: FrameCompilationConfig,
    pub position_mapper: Arc<PositionMapper<M>>,
}

impl<M> FrameCompiler<M> {
    pub fn new(config: FrameCompilationConfig, position_mapper: Arc<PositionMapper<M>>) -> (r: Self)
        ensures
            r.config == config,
            r.position_mapper == position_mapper,
    {
        FrameCompiler { config, position_mapper }
    }
}

/// What one path-mode feedback plays at one frame: the device position, the time within
/// its effect, and the feedback points just before (or at) and just after that time.
#[derive(Clone, Copy, Debug, PartialEq, Eq, Structural)]
pub struct PathSample {
    pub position: DevicePosition,
    pub local_time: u32,
    /// The latest point at or before the local time (the last of equal ones).
    pub before: Option<EffectPathModePoint>,
    /// The earliest point after the local time (the first of equal ones).
    pub after: Option<EffectPathModePoint>,
}

/// The samples of one frame.
#[derive(Clone, Debug, PartialEq, Eq)]
pub struct FrameSamples {
    /// Timestamp in milliseconds
    pub timestamp: u32,
    pub samples: Vec<PathSample>,
}

/// The latest point at or before `t`, the last one among equal times.
pub open spec fn spec_point_before(ps: Seq<EffectPathModePoint>, t: u32) -> Option<EffectPathModePoint>
    decreases ps.len(),
{
    if ps.len() == 0 {
        None
    } else {
        let rest = spec_point_before(ps.drop_last(), t);
        let p = ps.last();
        if p.time <= t && (rest is None || p.time >= rest->Some_0.time) {
            Some(p)
        } else {
            rest
        }
    }
}

/// The earliest point after `t`, the first one among equal times.
pub open spec fn spec_point_after(ps: Seq<EffectPathModePoint>, t: u32) -> Option<EffectPathModePoint>
    decreases ps.len(),
{
    if ps.len() == 0 {
        None
    } else {
        let rest = spec_point_after(ps.drop_last(), t);
        let p = ps.last();
        if p.time > t && (rest is None || p.time < rest->Some_0.time) {
            Some(p)
        } else {
            rest
        }
    }
}

/// The sample of a feedback with points `ps` on `position` at local time `t`.
pub open spec fn spec_sample(ps: Seq<EffectPathModePoint>, position: DevicePosition, t: u32) -> PathSample {
    PathSample {
        position,
        local_time: t,
        before: spec_point_before(ps, t),
        after: spec_point_after(ps, t),
    }
}

/// The samples of the feedbacks that have points.
pub open spec fn feedback_samples(fs: Seq<EffectPathModeFeedback>, position: DevicePosition, t: u32) -> Seq<PathSample>
    decreases fs.len(),
{
    if fs.len() == 0 {
        seq![]
    } else {
        feedback_samples(fs.drop_last(), position, t) + if fs.last().point_list@.len() == 0 {
            Seq::<PathSample>::empty()
        } else {
            seq![spec_sample(fs.last().point_list@, position, t)]
        }
    }
}

/// The samples of the path-mode patterns among `ms`; dot-mode patterns give none.
pub open spec fn modes_samples(ms: Seq<(DevicePosition, EffectMode)>, t: u32) -> Seq<PathSample>
    decreases ms.len(),
{
    if ms.len() == 0 {
        seq![]
    } else {
        modes_samples(ms.drop_last(), t) + match ms.last().1 {
            EffectMode::PathMode { path_mode } => feedback_samples(path_mode.feedback@, ms.last().0, t),
            EffectMode::DotMode { .. } => Seq::<PathSample>::empty(),
        }
    }
}

/// Whether an effect plays at time `t` of the project: from its start to its end, both
/// included.
pub open spec fn effect_active(e: HapticEffect, t: int) -> bool {
    effect_start(e) <= t <= effect_end(e)
}

/// The samples of an effect at time `t` of the project.
pub open spec fn effect_samples(e: HapticEffect, t: u32) -> Seq<PathSample> {
    if effect_active(e, t as int) {
        modes_samples(e.modes@, (t - effect_start(e)) as u32)
    } else {
        seq![]
    }
}

pub open spec fn effects_samples(es: Seq<HapticEffect>, t: u32) -> Seq<PathSample>
    decreases es.len(),
{
    if es.len() == 0 {
        seq![]
    } else {
        effects_samples(es.drop_last(), t) + effect_samples(es.last(), t)
    }
}

/// Whether a track plays: only an explicit `Some(false)` switches it off.
pub open spec fn track_enabled(tr: Track) -> bool {
    tr.enable != Some(false)
}

/// The samples of all enabled tracks at time `t` of the project.
pub open spec fn tracks_samples(ts: Seq<Track>, t: u32) -> Seq<PathSample>
    decreases ts.len(),
{
    if ts.len() == 0 {
        seq![]
    } else {
        tracks_samples(ts.drop_last(), t) + if track_enabled(ts.last()) {
            effects_samples(ts.last().effects@, t)
        } else {
            Seq::<PathSample>::empty()
        }
    }
}

/// The number of frames of a project lasting `total` with steps of `step`: one per step
/// from 0 up to `total`, both included; none for a project that lasts no time.
pub open spec fn frame_count(total: int, step: int) -> int {
    if total == 0 {
        0
    } else {
        total / step + 1
    }
}

/// Frames can be counted: a project that lasts no time has none, and otherwise the step
/// is positive and the step after the last frame still fits in a `u32`.
pub open spec fn frames_fit(total: int, step: int) -> bool {
    total == 0 || (step > 0 && (total / step) * step + step <= u32::MAX)
}

/// The first and last points around time `t`: the latest point at or before `t` (the
/// last of equal times) and the earliest point after `t` (the first of equal times).
pub fn interpolation_bounds(points: &[EffectPathModePoint], local_time: u32) -> (r: (
    Option<EffectPathModePoint>,
    Option<EffectPathModePoint>,
))
    ensures
        r.0 == spec_point_before(points@, local_time),
        r.1 == spec_point_after(points@, local_time),
{
    let mut before: Option<EffectPathModePoint> = None;
    let mut after: Option<EffectPathModePoint> = None;
    let mut i: usize = 0;
    while i < points.len()
        invariant
            i <= points@.len(),
            before == spec_point_before(points@.take(i as int), local_time),
            after == spec_point_after(points@.take(i as int), local_time),
        decreases points@.len() - i,
    {
        let p = points[i];
        assert(points@.take(i + 1).drop_last() =~= points@.take(i as int));
        assert(points@.take(i + 1).last() == p);
        let take_before = match before {
            None => p.time <= local_time,
            Some(b) => p.time <= local_time && p.time >= b.time,
        };
        if take_before {
            before = Some(p);
        }
        let take_after = match after {
            None => p.time > local_time,
            Some(a) => p.time > local_time && p.time < a.time,
        };
        if take_after {
            after = Some(p);
        }
        i = i + 1;
    }
    assert(points@.take(i as int) =~= points@);
    (before, after)
}

fn push_feedback_samples(
    out: &mut Vec<PathSample>,
    feedback: &Vec<EffectPathModeFeedback>,
    position: DevicePosition,
    local_time: u32,
)
    ensures
        final(out)@ == old(out)@ + feedback_samples(feedback@, position, local_time),
{
    let mut i: usize = 0;
    while i < feedback.len()
        invariant
            i <= feedback@.len(),
            out@ == old(out)@ + feedback_samples(feedback@.take(i as int), position, local_time),
        decreases feedback@.len() - i,
    {
        let points = &feedback[i].point_list;
        let ghost prev = out@;
        assert(feedback@.take(i + 1).drop_last() =~= feedback@.take(i as int));
        if points.len() > 0 {
            let (before, after) = interpolation_bounds(points.as_slice(), local_time);
            out.push(PathSample { position, local_time, before, after });
            assert(out@ =~= old(out)@ + feedback_samples(
                feedback@.take(i + 1),
                position,
                local_time,
            ));
        } else {
            assert(out@ =~= old(out)@ + feedback_samples(
                feedback@.take(i + 1),
                position,
                local_time,
            ));
        }
        i = i + 1;
    }
    assert(feedback@.take(i as int) =~= feedback@);
}

fn push_mode_samples(out: &mut Vec<PathSample>, modes: &Vec<(DevicePosition, EffectMode)>, local_time: u32)
    ensures
        final(out)@ == old(out)@ + modes_samples(modes@, local_time),
{
    let mut i: usize = 0;
    while i < modes.len()
        invariant
            i <= modes@.len(),
            out@ == old(out)@ + modes_samples(modes@.take(i as int), local_time),
        decreases modes@.len() - i,
    {
        assert(modes@.take(i + 1).drop_last() =~= modes@.take(i as int));
        let ghost prev = out@;
        match &modes[i].1 {
            EffectMode::PathMode { path_mode } => {
                push_feedback_samples(out, &path_mode.feedback, modes[i].0, local_time);
            },
            EffectMode::DotMode { .. } => {},
        }
        assert(out@ =~= old(out)@ + modes_samples(modes@.take(i + 1), local_time));
        i = i + 1;
    }
    assert(modes@.take(i as int) =~= modes@);
}

impl<M> FrameCompiler<M> {
    fn push_effect_samples(&self, project: &TactFileProject, out: &mut Vec<PathSample>, effect: &HapticEffect, timestamp: u32)
        requires
            effect_end(*effect) <= u32::MAX,
        ensures
            final(out)@ == old(out)@ + effect_samples(*effect, timestamp),
    {
        let effect_start: u32 = effect.start_time + effect.offset_time;
        let effect_end: u32 = effect_start + project.get_effect_duration(effect);
        if timestamp < effect_start || timestamp > effect_end {
            assert(out@ =~= old(out)@ + effect_samples(*effect, timestamp));
            return;
        }
        let local_time: u32 = timestamp - effect_start;
        push_mode_samples(out, &effect.modes, local_time);
    }

    fn push_track_samples(&self, project: &TactFileProject, out: &mut Vec<PathSample>, timestamp: u32)
        requires
            effect_ends_fit(*project),
        ensures
            final(out)@ == old(out)@ + tracks_samples(project.tracks@, timestamp),
    {
        let tracks = &project.tracks;
        let mut i: usize = 0;
        while i < tracks.len()
            invariant
                i <= tracks@.len(),
                tracks@ == project.tracks@,
                effect_ends_fit(*project),
                out@ == old(out)@ + tracks_samples(tracks@.take(i as int), timestamp),
            decreases tracks@.len() - i,
        {
            assert(tracks@.take(i + 1).drop_last() =~= tracks@.take(i as int));
            let enabled = match tracks[i].enable {
                Some(e) => e,
                None => true,
            };
            if enabled {
                let effects = &tracks[i].effects;
                let ghost base = out@;
                let mut j: usize = 0;
                while j < effects.len()
                    invariant
                        j <= effects@.len(),
                        i < tracks@.len(),
                        effects@ == tracks@[i as int].effects@,
                        tracks@ == project.tracks@,
                        effect_ends_fit(*project),
                        out@ == base + effects_samples(effects@.take(j as int), timestamp),
                    decreases effects@.len() - j,
                {
                    assert(effects@.take(j + 1).drop_last() =~= effects@.take(j as int));
                    assert(effect_end(project.tracks@[i as int].effects@[j as int]) <= u32::MAX);
                    let ghost prev = out@;
                    self.push_effect_samples(project, out, &effects[j], timestamp);
                    assert(out@ =~= base + effects_samples(effects@.take(j + 1), timestamp));
                    j = j + 1;
                }
                assert(effects@.take(j as int) =~= effects@);
            }
            assert(out@ =~= old(out)@ + tracks_samples(tracks@.take(i + 1), timestamp));
            i = i + 1;
        }
        assert(tracks@.take(i as int) =~= tracks@);
    }

    /// Splits the project into frames: one every `step_size_ms` milliseconds from 0 up to
    /// the project's total duration, both included (none for a project that lasts no
    /// time). A frame holds one sample for every path-mode feedback with points of every
    /// effect that plays at that time on an enabled track.
    pub fn compile(&self, project: &TactFileProject) -> (r: Vec<FrameSamples>)
        requires
            effect_ends_fit(*project),
            frames_fit(total_duration(*project), self.config.step_size_ms as int),
        ensures
            r@.len() == frame_count(total_duration(*project), self.config.step_size_ms as int),
            forall|k: int|
                0 <= k < r@.len() ==> (#[trigger] r@[k]).timestamp == k
                    * self.config.step_size_ms && r@[k].samples@ == tracks_samples(
                    project.tracks@,
                    r@[k].timestamp,
                ),
    {
        let mut frames: Vec<FrameSamples> = Vec::new();
        let total: u32 = project.get_total_duration();
        if total == 0 {
            return frames;
        }
        let step: u32 = self.config.step_size_ms;
        let ghost t = total as int;
        let ghost st = step as int;
        let mut current: u32 = 0;
        let ghost mut k: int = 0;
        while current <= total
            invariant
                step == self.config.step_size_ms,
                st == step,
                t == total,
                total == total_duration(*project),
                effect_ends_fit(*project),
                step > 0,
                (t / st) * st + st <= u32::MAX,
                current == k * st,
                k == 0 || (k - 1) * st <= t,
                frames@.len() == k,
                forall|j: int|
                    0 <= j < frames@.len() ==> (#[trigger] frames@[j]).timestamp == j * step
                        && frames@[j].samples@ == tracks_samples(project.tracks@, frames@[j].timestamp),
            decreases t + st - current,
        {
            let mut samples: Vec<PathSample> = Vec::new();
            self.push_track_samples(project, &mut samples, current);
            assert(samples@ =~= tracks_samples(project.tracks@, current));
            frames.push(FrameSamples { timestamp: current, samples });
            assert(k * st <= t);
            assert(k <= t / st) by (nonlinear_arith)
                requires
                    k * st <= t,
                    st > 0,
                    t >= 0,
            ;
            assert(k * st <= (t / st) * st) by (nonlinear_arith)
                requires
                    k <= t / st,
                    st > 0,
            ;
            assert((k + 1) * st == k * st + st) by (nonlinear_arith);
            current = current + step;
            proof {
                k = k + 1;
            }
        }
        assert(k - 1 == t / st) by (nonlinear_arith)
            requires
                k >= 1,
                (k - 1) * st <= t,
                t < k * st,
                st > 0,
        ;
        frames
    }
}

/// The point chosen before a time is the latest at or before it, and there is none exactly
/// when every point comes later.
pub proof fn lemma_point_before(ps: Seq<EffectPathModePoint>, t: u32)
    ensures
        spec_point_before(ps, t) matches Some(b) ==> b.time <= t && ps.contains(b) && forall|j: int|
            0 <= j < ps.len() && ps[j].time <= t ==> #[trigger] ps[j].time <= b.time,
        spec_point_before(ps, t) is None <==> forall|j: int| 0 <= j < ps.len() ==> #[trigger] ps[j].time > t,
    decreases ps.len(),
{
    if ps.len() > 0 {
        lemma_point_before(ps.drop_last(), t);
        assert forall|j: int| 0 <= j < ps.len() - 1 implies #[trigger] ps[j] == ps.drop_last()[j] by {}
        if spec_point_before(ps, t) == Some(ps.last()) {
            assert(ps[ps.len() - 1] == ps.last());
        } else {
            if let Some(b) = spec_point_before(ps.drop_last(), t) {
                let w = choose|w: int| 0 <= w < ps.drop_last().len() && ps.drop_last()[w] == b;
                assert(ps[w] == b);
            }
        }
    }
}

/// The point chosen after a time is the earliest after it, and there is none exactly when no
/// point comes later.
pub proof fn lemma_point_after(ps: Seq<EffectPathModePoint>, t: u32)
    ensures
        spec_point_after(ps, t) matches Some(a) ==> a.time > t && ps.contains(a) && forall|j: int|
            0 <= j < ps.len() && ps[j].time > t ==> #[trigger] ps[j].time >= a.time,
        spec_point_after(ps, t) is None <==> forall|j: int| 0 <= j < ps.len() ==> #[trigger] ps[j].time <= t,
    decreases ps.len(),
{
    if ps.len() > 0 {
        lemma_point_after(ps.drop_last(), t);
        assert forall|j: int| 0 <= j < ps.len() - 1 implies #[trigger] ps[j] == ps.drop_last()[j] by {}
        if spec_point_after(ps, t) == Some(ps.last()) {
            assert(ps[ps.len() - 1] == ps.last());
        } else {
            if let Some(a) = spec_point_after(ps.drop_last(), t) {
                let w = choose|w: int| 0 <= w < ps.drop_last().len() && ps.drop_last()[w] == a;
                assert(ps[w] == a);
            }
        }
    }
}

/// The order of the points does not matter when no two share a time: for any reordering
/// of them, [`interpolation_bounds`] gives the same point before and the same point after
/// any time.
pub proof fn lemma_bounds_ignore_order(ps: Seq<EffectPathModePoint>, qs: Seq<EffectPathModePoint>, t: u32)
    requires
        qs.to_multiset() == ps.to_multiset(),
        forall|i: int, j: int| 0 <= i < j < ps.len() ==> ps[i].time != ps[j].time,
    ensures
        spec_point_before(qs, t) == spec_point_before(ps, t),
        spec_point_after(qs, t) == spec_point_after(ps, t),
{
    lemma_point_before(ps, t);
    lemma_point_before(qs, t);
    lemma_point_after(ps, t);
    lemma_point_after(qs, t);
    assert forall|x: EffectPathModePoint| #[trigger] ps.contains(x) <==> qs.contains(x) by {
        vstd::seq_lib::to_multiset_contains(ps, x);
        vstd::seq_lib::to_multiset_contains(qs, x);
    }
    // Two points of `ps` with the same time are the same point.
    assert forall|i: int, j: int|
        0 <= i < ps.len() && 0 <= j < ps.len() && #[trigger] ps[i].time == #[trigger] ps[j].time implies i == j by {
        if i < j {
            assert(ps[i].time != ps[j].time);
        } else if j < i {
            assert(ps[j].time != ps[i].time);
        }
    }
    match (spec_point_before(ps, t), spec_point_before(qs, t)) {
        (Some(b1), Some(b2)) => {
            let i1 = choose|i: int| 0 <= i < ps.len() && ps[i] == b1;
            assert(qs.contains(b1));
            let k1 = choose|k: int| 0 <= k < qs.len() && qs[k] == b1;
            assert(qs[k1].time <= b2.time);
            assert(ps.contains(b2));
            let i2 = choose|i: int| 0 <= i < ps.len() && ps[i] == b2;
            assert(ps[i2].time <= b1.time);
            assert(ps[i1].time == ps[i2].time);
        },
        (Some(b1), None) => {
            assert(qs.contains(b1));
            let k1 = choose|k: int| 0 <= k < qs.len() && qs[k] == b1;
            assert(qs[k1].time > t);
        },
        (None, Some(b2)) => {
            assert(ps.contains(b2));
            let i2 = choose|i: int| 0 <= i < ps.len() && ps[i] == b2;
            assert(ps[i2].time > t);
        },
        (None, None) => {},
    }
    match (spec_point_after(ps, t), spec_point_after(qs, t)) {
        (Some(a1), Some(a2)) => {
            let i1 = choose|i: int| 0 <= i < ps.len() && ps[i] == a1;
            assert(qs.contains(a1));
            let k1 = choose|k: int| 0 <= k < qs.len() && qs[k] == a1;
            assert(qs[k1].time >= a2.time);
            assert(ps.contains(a2));
            let i2 = choose|i: int| 0 <= i < ps.len() && ps[i] == a2;
            assert(ps[i2].time >= a1.time);
            assert(ps[i1].time == ps[i2].time);
        },
        (Some(a1), None) => {
            assert(qs.contains(a1));
            let k1 = choose|k: int| 0 <= k < qs.len() && qs[k] == a1;
            assert(qs[k1].time <= t);
        },
        (None, Some(a2)) => {
            assert(ps.contains(a2));
            let i2 = choose|i: int| 0 <= i < ps.len() && ps[i] == a2;
            assert(ps[i2].time <= t);
        },
        (None, None) => {},
    }
}

/// The bounds at the ends, when no two points share a time: there is no bound exactly when
/// there are no points; at or before the earliest point, the earliest is the point after
/// (or, at its very time, the point before); at or after the latest point, it is the point
/// before and there is none after.
pub proof fn lemma_bounds_at_ends(ps: Seq<EffectPathModePoint>, t: u32)
    requires
        forall|i: int, j: int| 0 <= i < j < ps.len() ==> ps[i].time != ps[j].time,
    ensures
        (spec_point_before(ps, t) is None && spec_point_after(ps, t) is None) <==> ps.len() == 0,
        forall|k: int|
            0 <= k < ps.len() && (forall|j: int| 0 <= j < ps.len() ==> ps[k].time <= #[trigger] ps[j].time) ==> {
                &&& t < ps[k].time ==> spec_point_before(ps, t) is None && spec_point_after(ps, t) == Some(ps[k])
                &&& t == ps[k].time ==> spec_point_before(ps, t) == Some(ps[k])
            },
        forall|k: int|
            0 <= k < ps.len() && ps[k].time <= t && (forall|j: int|
                0 <= j < ps.len() ==> #[trigger] ps[j].time <= ps[k].time) ==> spec_point_after(ps, t) is None
                && spec_point_before(ps, t) == Some(ps[k]),
{
    lemma_point_before(ps, t);
    lemma_point_after(ps, t);
    // Two points with the same time are the same point.
    assert forall|i: int, j: int|
        0 <= i < ps.len() && 0 <= j < ps.len() && #[trigger] ps[i].time == #[trigger] ps[j].time implies i == j by {
        if i < j {
            assert(ps[i].time != ps[j].time);
        } else if j < i {
            assert(ps[j].time != ps[i].time);
        }
    }
    if ps.len() > 0 {
        if ps[0].time <= t {
            assert(spec_point_before(ps, t) is Some);
        } else {
            assert(spec_point_after(ps, t) is Some);
        }
    }
    assert forall|k: int|
        0 <= k < ps.len() && (forall|j: int| 0 <= j < ps.len() ==> ps[k].time <= #[trigger] ps[j].time) implies {
            &&& t < ps[k].time ==> spec_point_before(ps, t) is None && spec_point_after(ps, t) == Some(ps[k])
            &&& t == ps[k].time ==> spec_point_before(ps, t) == Some(ps[k])
        } by {
        if t < ps[k].time {
            assert forall|j: int| 0 <= j < ps.len() implies #[trigger] ps[j].time > t by {
                assert(ps[k].time <= ps[j].time);
            }
            let a = spec_point_after(ps, t)->Some_0;
            let w = choose|w: int| 0 <= w < ps.len() && ps[w] == a;
            assert(ps[w].time >= ps[k].time);
            assert(ps[k].time >= a.time);
        }
        if t == ps[k].time {
            let b = spec_point_before(ps, t)->Some_0;
            let w = choose|w: int| 0 <= w < ps.len() && ps[w] == b;
            assert(ps[w].time >= ps[k].time);
            assert(ps[k].time <= b.time);
        }
    }
    assert forall|k: int|
        0 <= k < ps.len() && ps[k].time <= t && (forall|j: int|
            0 <= j < ps.len() ==> #[trigger] ps[j].time <= ps[k].time) implies spec_point_after(ps, t) is None
            && spec_point_before(ps, t) == Some(ps[k]) by {
        assert forall|j: int| 0 <= j < ps.len() implies #[trigger] ps[j].time <= t by {
            assert(ps[j].time <= ps[k].time);
        }
        let b = spec_point_before(ps, t)->Some_0;
        let w = choose|w: int| 0 <= w < ps.len() && ps[w] == b;
        assert(ps[w].time <= ps[k].time);
        assert(ps[k].time <= b.time);
    }
}

/// A switched-off track contributes nothing: switching a track off gives the frames of the
/// project without that track.
pub proof fn lemma_disabled_track_silent(ts: Seq<Track>, tr: Track, t: u32)
    requires
        !track_enabled(tr),
    ensures
        tracks_samples(ts.push(tr), t) == tracks_samples(ts, t),
{
    assert(ts.push(tr).drop_last() =~= ts);
    assert(tracks_samples(ts.push(tr), t) =~= tracks_samples(ts, t));
}

/// An effect gives no samples outside the time span from its start to its end.
pub proof fn lemma_inactive_effect_silent(e: HapticEffect, t: u32)
    requires
        !effect_active(e, t as int),
    ensures
        effect_samples(e, t) == Seq::<PathSample>::empty(),
{
}

/// A project whose tracks are all switched off plays nothing at any time.
pub proof fn lemma_all_disabled_silent(ts: Seq<Track>, t: u32)
    requires
        forall|i: int| 0 <= i < ts.len() ==> !track_enabled(#[trigger] ts[i]),
    ensures
        tracks_samples(ts, t) == Seq::<PathSample>::empty(),
    decreases ts.len(),
{
    if ts.len() > 0 {
        assert forall|i: int| 0 <= i < ts.drop_last().len() implies !track_enabled(
            #[trigger] ts.drop_last()[i],
        ) by {
            assert(ts.drop_last()[i] == ts[i]);
        }
        lemma_all_disabled_silent(ts.drop_last(), t);
        assert(!track_enabled(ts[ts.len() - 1]));
        assert(tracks_samples(ts, t) =~= Seq::<PathSample>::empty());
    }
}

} // verus!
