//! How long effects and projects last.
use vstd::prelude::*;
use crate::device::DevicePosition;
use crate::tact::{EffectMode, EffectPathMode, EffectPathModeFeedback, EffectPathModePoint, HapticEffect, TactFileProject, Track};

verus! {

pub open spec fn max_u32(a: u32, b: u32) -> u32 {
    if a >= b { a } else { b }
}

pub open spec fn max_int(a: int, b: int) -> int {
    if a >= b { a } else { b }
}

/// The latest time among the points (0 when there are none).
pub open spec fn points_max_time(ps: Seq<EffectPathModePoint>) -> u32
    decreases ps.len(),
{
    if ps.len() == 0 {
        0
    } else {
        max_u32(points_max_time(ps.drop_last()), ps.last().time)
    }
}

/// The latest point time among the feedbacks (0 when there is none).
pub open spec fn feedback_max_time(fs: Seq<EffectPathModeFeedback>) -> u32
    decreases fs.len(),
{
    if fs.len() == 0 {
        0
    } else {
        max_u32(feedback_max_time(fs.drop_last()), points_max_time(fs.last().point_list@))
    }
}

/// How long a path-mode pattern lasts: the time of its latest point.
pub open spec fn path_mode_duration(pm: EffectPathMode) -> u32 {
    feedback_max_time(pm.feedback@)
}

/// How long a pattern lasts; dot-mode patterns count as lasting no time.
pub open spec fn mode_duration(m: EffectMode) -> u32 {
    match m {
        EffectMode::PathMode { path_mode } => path_mode_duration(path_mode),
        EffectMode::DotMode { .. } => 0,
    }
}

/// The longest duration among the patterns (0 when there is none).
pub open spec fn modes_duration(ms: Seq<(DevicePosition, EffectMode)>) -> u32
    decreases ms.len(),
{
    if ms.len() == 0 {
        0
    } else {
        max_u32(modes_duration(ms.drop_last()), mode_duration(ms.last().1))
    }
}

/// How long an effect lasts: its longest pattern.
pub open spec fn effect_duration(e: HapticEffect) -> u32 {
    modes_duration(e.modes@)
}

/// When an effect starts, counted from the start of the project.
pub open spec fn effect_start(e: HapticEffect) -> int {
    e.start_time + e.offset_time
}

/// When an effect ends, counted from the start of the project.
pub open spec fn effect_end(e: HapticEffect) -> int {
    e.start_time + e.offset_time + effect_duration(e)
}

/// The latest end among the effects (0 when there is none).
pub open spec fn effects_end(es: Seq<HapticEffect>) -> int
    decreases es.len(),
{
    if es.len() == 0 {
        0
    } else {
        max_int(effects_end(es.drop_last()), effect_end(es.last()))
    }
}

/// The latest end among the effects of the tracks (0 when there is none).
pub open spec fn tracks_end(ts: Seq<Track>) -> int
    decreases ts.len(),
{
    if ts.len() == 0 {
        0
    } else {
        max_int(tracks_end(ts.drop_last()), effects_end(ts.last().effects@))
    }
}

/// How long a project lasts: the latest end of any of its effects, enabled or not.
pub open spec fn total_duration(p: TactFileProject) -> int {
    tracks_end(p.tracks@)
}

/// Every effect of every track ends within the range of `u32`.
pub open spec fn effect_ends_fit(p: TactFileProject) -> bool {
    forall|i: int, j: int|
        0 <= i < p.tracks@.len() && 0 <= j < p.tracks@[i].effects@.len() ==> effect_end(
            #[trigger] p.tracks@[i].effects@[j],
        ) <= u32::MAX
}

impl TactFileProject {
    /// The duration of a path-mode pattern: the latest time of any of its points.
    pub fn get_path_mode_duration(&self, path_mode: &EffectPathMode) -> (r: u32)
        ensures
            r == path_mode_duration(*path_mode),
    {
        let mut best: u32 = 0;
        let mut i: usize = 0;
        while i < path_mode.feedback.len()
            invariant
                i <= path_mode.feedback@.len(),
                best == feedback_max_time(path_mode.feedback@.take(i as int)),
            decreases path_mode.feedback@.len() - i,
        {
            let points = &path_mode.feedback[i].point_list;
            let mut fbest: u32 = 0;
            let mut j: usize = 0;
            while j < points.len()
                invariant
                    j <= points@.len(),
                    fbest == points_max_time(points@.take(j as int)),
                decreases points@.len() - j,
            {
                let t: u32 = points[j].time;
                if t > fbest {
                    fbest = t;
                }
                assert(points@.take(j + 1).drop_last() =~= points@.take(j as int));
                j = j + 1;
            }
            assert(points@.take(j as int) =~= points@);
            if fbest > best {
                best = fbest;
            }
            assert(path_mode.feedback@.take(i + 1).drop_last() =~= path_mode.feedback@.take(
                i as int,
            ));
            i = i + 1;
        }
        assert(path_mode.feedback@.take(i as int) =~= path_mode.feedback@);
        best
    }

    /// The duration of an effect: its longest pattern; dot-mode patterns count as
    /// lasting no time.
    pub fn get_effect_duration(&self, effect: &HapticEffect) -> (r: u32)
        ensures
            r == effect_duration(*effect),
    {
        let mut best: u32 = 0;
        let mut i: usize = 0;
        while i < effect.modes.len()
            invariant
                i <= effect.modes@.len(),
                best == modes_duration(effect.modes@.take(i as int)),
            decreases effect.modes@.len() - i,
        {
            let d = match &effect.modes[i].1 {
                EffectMode::PathMode { path_mode } => self.get_path_mode_duration(path_mode),
                EffectMode::DotMode { .. } => 0,
            };
            if d > best {
                best = d;
            }
            assert(effect.modes@.take(i + 1).drop_last() =~= effect.modes@.take(i as int));
            i = i + 1;
        }
        assert(effect.modes@.take(i as int) =~= effect.modes@);
        best
    }

    /// The duration of the project: the latest end (start time + offset time + duration)
    /// of any effect of any track, enabled or not; 0 for a project without effects.
    pub fn get_total_duration(&self) -> (r: u32)
        requires
            effect_ends_fit(*self),
        ensures
            r == total_duration(*self),
    {
        let mut best: u32 = 0;
        let mut i: usize = 0;
        while i < self.tracks.len()
            invariant
                i <= self.tracks@.len(),
                effect_ends_fit(*self),
                best == tracks_end(self.tracks@.take(i as int)),
            decreases self.tracks@.len() - i,
        {
            let effects = &self.tracks[i].effects;
            let mut tbest: u32 = 0;
            let mut j: usize = 0;
            while j < effects.len()
                invariant
                    j <= effects@.len(),
                    effects@ == self.tracks@[i as int].effects@,
                    i < self.tracks@.len(),
                    effect_ends_fit(*self),
                    tbest == effects_end(effects@.take(j as int)),
                decreases effects@.len() - j,
            {
                let e = &effects[j];
                assert(effect_end(self.tracks@[i as int].effects@[j as int]) <= u32::MAX);
                let end: u32 = e.start_time + e.offset_time + self.get_effect_duration(e);
                if end > tbest {
                    tbest = end;
                }
                assert(effects@.take(j + 1).drop_last() =~= effects@.take(j as int));
                j = j + 1;
            }
            assert(effects@.take(j as int) =~= effects@);
            if tbest > best {
                best = tbest;
            }
            assert(self.tracks@.take(i + 1).drop_last() =~= self.tracks@.take(i as int));
            i = i + 1;
        }
        assert(self.tracks@.take(i as int) =~= self.tracks@);
        best
    }
}

/// The latest time of a list of points bounds every point's time and, for a non-empty
/// list, is the time of one of them.
pub proof fn lemma_points_max_time(ps: Seq<EffectPathModePoint>)
    ensures
        forall|k: int| 0 <= k < ps.len() ==> #[trigger] ps[k].time <= points_max_time(ps),
        ps.len() > 0 ==> exists|k: int| 0 <= k < ps.len() && ps[k].time == points_max_time(ps),
    decreases ps.len(),
{
    if ps.len() > 0 {
        lemma_points_max_time(ps.drop_last());
        assert forall|k: int| 0 <= k < ps.len() implies #[trigger] ps[k].time <= points_max_time(
            ps,
        ) by {
            if k < ps.len() - 1 {
                assert(ps[k] == ps.drop_last()[k]);
            }
        }
        if ps.len() > 1 && points_max_time(ps.drop_last()) >= ps.last().time {
            let k = choose|k: int|
                0 <= k < ps.drop_last().len() && ps.drop_last()[k].time == points_max_time(
                    ps.drop_last(),
                );
            assert(ps[k] == ps.drop_last()[k]);
            assert(ps[k].time == points_max_time(ps));
        } else {
            assert(ps[ps.len() - 1].time == points_max_time(ps));
        }
    }
}

/// The end of a list of effects bounds every effect's end.
pub proof fn lemma_effects_end_bounds(es: Seq<HapticEffect>)
    ensures
        forall|k: int| 0 <= k < es.len() ==> effect_end(#[trigger] es[k]) <= effects_end(es),
        effects_end(es) >= 0,
    decreases es.len(),
{
    if es.len() > 0 {
        lemma_effects_end_bounds(es.drop_last());
        assert forall|k: int| 0 <= k < es.len() implies effect_end(#[trigger] es[k])
            <= effects_end(es) by {
            if k < es.len() - 1 {
                assert(es[k] == es.drop_last()[k]);
            }
        }
    }
}

/// The end of a list of tracks bounds the end of every effect in them.
pub proof fn lemma_tracks_end_bounds(ts: Seq<Track>)
    ensures
        forall|i: int, j: int|
            0 <= i < ts.len() && 0 <= j < ts[i].effects@.len() ==> effect_end(
                #[trigger] ts[i].effects@[j],
            ) <= tracks_end(ts),
    decreases ts.len(),
{
    if ts.len() > 0 {
        lemma_tracks_end_bounds(ts.drop_last());
        lemma_effects_end_bounds(ts.last().effects@);
        assert forall|i: int, j: int|
            0 <= i < ts.len() && 0 <= j < ts[i].effects@.len() implies effect_end(
            #[trigger] ts[i].effects@[j],
        ) <= tracks_end(ts) by {
            if i < ts.len() - 1 {
                assert(ts[i] == ts.drop_last()[i]);
            }
        }
    }
}

/// Every effect of a project, on an enabled track or not, ends by the project's total
/// duration.
pub proof fn lemma_total_duration_covers_effects(p: TactFileProject)
    ensures
        forall|i: int, j: int|
            0 <= i < p.tracks@.len() && 0 <= j < p.tracks@[i].effects@.len() ==> effect_end(
                #[trigger] p.tracks@[i].effects@[j],
            ) <= total_duration(p),
{
    lemma_tracks_end_bounds(p.tracks@);
}

/// Point `k` of feedback `f` of pattern `i` among `ms` is a path-mode point at time `t`.
pub open spec fn has_point_at(ms: Seq<(DevicePosition, EffectMode)>, i: int, f: int, k: int, t: u32) -> bool {
    &&& 0 <= i < ms.len()
    &&& ms[i].1 matches EffectMode::PathMode { path_mode }
    &&& 0 <= f < path_mode.feedback@.len()
    &&& 0 <= k < path_mode.feedback@[f].point_list@.len()
    &&& path_mode.feedback@[f].point_list@[k].time == t
}

/// The latest point time among feedbacks bounds every point's time and, when positive, is
/// the time of one of their points.
proof fn lemma_feedback_max_time(fs: Seq<EffectPathModeFeedback>)
    ensures
        forall|f: int, k: int|
            0 <= f < fs.len() && 0 <= k < fs[f].point_list@.len() ==> #[trigger] fs[f].point_list@[k].time
                <= feedback_max_time(fs),
        feedback_max_time(fs) > 0 ==> exists|f: int, k: int|
            0 <= f < fs.len() && 0 <= k < fs[f].point_list@.len() && #[trigger] fs[f].point_list@[k].time
                == feedback_max_time(fs),
    decreases fs.len(),
{
    if fs.len() > 0 {
        let rest = fs.drop_last();
        lemma_feedback_max_time(rest);
        lemma_points_max_time(fs.last().point_list@);
        assert forall|f: int, k: int| 0 <= f < fs.len() && 0 <= k < fs[f].point_list@.len() implies #[trigger] fs[
            f].point_list@[k].time <= feedback_max_time(fs) by {
            if f < fs.len() - 1 {
                assert(fs[f] == rest[f]);
            } else {
                assert(fs[f] == fs.last());
            }
        }
        if feedback_max_time(fs) > 0 {
            if feedback_max_time(rest) >= points_max_time(fs.last().point_list@) {
                let (f, k) = choose|f: int, k: int|
                    0 <= f < rest.len() && 0 <= k < rest[f].point_list@.len() && #[trigger] rest[f].point_list@[k].time
                        == feedback_max_time(rest);
                assert(fs[f] == rest[f]);
                assert(fs[f].point_list@[k].time == feedback_max_time(fs));
            } else {
                let ps = fs.last().point_list@;
                let k = choose|k: int| 0 <= k < ps.len() && ps[k].time == points_max_time(ps);
                assert(fs[fs.len() - 1] == fs.last());
                assert(fs[fs.len() - 1].point_list@[k].time == feedback_max_time(fs));
            }
        }
    }
}

/// The longest pattern bounds the time of every path-mode point and, when positive, is
/// the time of one of them.
proof fn lemma_modes_duration(ms: Seq<(DevicePosition, EffectMode)>)
    ensures
        forall|i: int, f: int, k: int, t: u32| #[trigger] has_point_at(ms, i, f, k, t) ==> t <= modes_duration(ms),
        modes_duration(ms) > 0 ==> exists|i: int, f: int, k: int| #[trigger] has_point_at(ms, i, f, k, modes_duration(ms)),
    decreases ms.len(),
{
    if ms.len() > 0 {
        let rest = ms.drop_last();
        lemma_modes_duration(rest);
        let last = ms.last().1;
        if let EffectMode::PathMode { path_mode } = last {
            lemma_feedback_max_time(path_mode.feedback@);
        }
        assert forall|i: int, f: int, k: int, t: u32| #[trigger] has_point_at(ms, i, f, k, t) implies t
            <= modes_duration(ms) by {
            if i < ms.len() - 1 {
                assert(ms[i] == rest[i]);
                assert(has_point_at(rest, i, f, k, t));
            } else {
                assert(ms[i] == ms.last());
                if let EffectMode::PathMode { path_mode } = last {
                    let fs = path_mode.feedback@;
                    assert(fs[f].point_list@[k].time <= feedback_max_time(fs));
                }
            }
        }
        if modes_duration(ms) > 0 {
            if modes_duration(rest) >= mode_duration(last) {
                let (i, f, k) = choose|i: int, f: int, k: int| #[trigger] has_point_at(rest, i, f, k, modes_duration(rest));
                assert(ms[i] == rest[i]);
                assert(has_point_at(ms, i, f, k, modes_duration(ms)));
            } else {
                let i = ms.len() - 1;
                assert(ms[i] == ms.last());
                if let EffectMode::PathMode { path_mode } = last {
                    let fs = path_mode.feedback@;
                    let (f, k) = choose|f: int, k: int|
                        0 <= f < fs.len() && 0 <= k < fs[f].point_list@.len() && #[trigger] fs[f].point_list@[k].time
                            == feedback_max_time(fs);
                    assert(has_point_at(ms, i, f, k, modes_duration(ms)));
                }
            }
        }
    }
}

/// How long an effect lasts is the time of its latest path-mode point, over all its
/// patterns: no point of any pattern comes later, and a positive duration is the time of
/// some point (dot-mode patterns, which have no times, count as lasting no time).
pub proof fn lemma_effect_duration_is_latest_point(e: HapticEffect)
    ensures
        forall|i: int, f: int, k: int, t: u32| #[trigger] has_point_at(e.modes@, i, f, k, t) ==> t <= effect_duration(e),
        effect_duration(e) > 0 ==> exists|i: int, f: int, k: int| #[trigger] has_point_at(e.modes@, i, f, k, effect_duration(e)),
{
    lemma_modes_duration(e.modes@);
}

/// How long a path-mode pattern lasts is the time of its latest point: no point comes
/// later, and a positive duration is the time of some point.
pub proof fn lemma_path_mode_duration_is_latest_point(pm: EffectPathMode)
    ensures
        forall|f: int, k: int|
            0 <= f < pm.feedback@.len() && 0 <= k < pm.feedback@[f].point_list@.len() ==> #[trigger] pm.feedback@[f].point_list@[k].time
                <= path_mode_duration(pm),
        path_mode_duration(pm) > 0 ==> exists|f: int, k: int|
            0 <= f < pm.feedback@.len() && 0 <= k < pm.feedback@[f].point_list@.len() && #[trigger] pm.feedback@[f].point_list@[k].time
                == path_mode_duration(pm),
{
    lemma_feedback_max_time(pm.feedback@);
}

} // verus!
