//! Turning a dot-mode pattern into the path-mode pattern that plays the same motors, using
//! the positions of the motors in the project's layout.
use vstd::prelude::*;
use crate::device::DevicePosition;
use crate::path_point_mapper::entry_of;
use crate::tact::{
    EffectDotMode, EffectDotModeFeedback, EffectDotModePoint, EffectPathMode, EffectPathModeFeedback,
    EffectPathModeMovingPattern, EffectPathModePoint, Layout, LayoutPoint, TactFileProject,
};

verus! {

/// The layout points of `position`, if the layout has any for it.
pub open spec fn spec_layout_points(layout: Layout, position: DevicePosition) -> Option<Seq<LayoutPoint>> {
    match layout.layouts {
        None => None,
        Some(v) => match entry_of(v@, position) {
            Some(k) => Some(v@[k].1@),
            None => None,
        },
    }
}

/// Whether `k` is the first place in `lps` of a layout point whose `index` field is `index`.
pub open spec fn first_with_index(lps: Seq<LayoutPoint>, index: u32, k: int) -> bool {
    &&& 0 <= k < lps.len()
    &&& lps[k].index == index
    &&& forall|j: int| 0 <= j < k ==> lps[j].index != index
}

/// Some layout point of `lps` has the `index` field `index`.
pub open spec fn has_point_with_index(lps: Seq<LayoutPoint>, index: u32) -> bool {
    exists|k: int| 0 <= k < lps.len() && lps[k].index == index
}

/// The layout point a dot with `index` refers to: the one whose `index` field is `index`
/// (the first such, should several share it).
pub open spec fn point_with_index(lps: Seq<LayoutPoint>, index: u32) -> LayoutPoint {
    lps[choose|k: int| first_with_index(lps, index, k)]
}

/// The path point that plays dot `d` of a feedback starting at `start`: at the position of
/// the layout point whose `index` field is the dot's index.
pub open spec fn dot_path_point(d: EffectDotModePoint, start: u32, lps: Seq<LayoutPoint>) -> EffectPathModePoint {
    EffectPathModePoint {
        intensity: d.intensity,
        time: start,
        x: point_with_index(lps, d.index).x,
        y: point_with_index(lps, d.index).y,
    }
}

/// The path points of the dots of one feedback, in order.
pub open spec fn feedback_path_points(f: EffectDotModeFeedback, lps: Seq<LayoutPoint>) -> Seq<EffectPathModePoint> {
    f.point_list@.map_values(|d: EffectDotModePoint| dot_path_point(d, f.start_time, lps))
}

/// The path points of the dots of all feedbacks, feedback after feedback.
pub open spec fn all_path_points(fs: Seq<EffectDotModeFeedback>, lps: Seq<LayoutPoint>) -> Seq<EffectPathModePoint>
    decreases fs.len(),
{
    if fs.len() == 0 {
        seq![]
    } else {
        all_path_points(fs.drop_last(), lps) + feedback_path_points(fs.last(), lps)
    }
}

/// Every dot refers to a layout point: one whose `index` field is the dot's index.
pub open spec fn dots_in_layout(fs: Seq<EffectDotModeFeedback>, lps: Seq<LayoutPoint>) -> bool {
    forall|i: int, j: int|
        0 <= i < fs.len() && 0 <= j < fs[i].point_list@.len() ==> has_point_with_index(
            lps,
            (#[trigger] fs[i].point_list@[j]).index,
        )
}

/// The inputs on which the conversion is defined: the layout has points for the position,
/// every dot refers to one of them, and a connected pattern has a first feedback.
pub open spec fn convertible(dot_mode: EffectDotMode, position: DevicePosition, layout: Layout) -> bool {
    &&& spec_layout_points(layout, position) is Some
    &&& dots_in_layout(dot_mode.feedback@, spec_layout_points(layout, position)->Some_0)
    &&& dot_mode.dot_connected ==> dot_mode.feedback@.len() > 0
}

/// The layout points of `position`; `None` when the layout has none for it.
pub fn layout_points<'a>(layout: &'a Layout, position: &DevicePosition) -> (r: Option<&'a Vec<LayoutPoint>>)
    ensures
        match spec_layout_points(*layout, *position) {
            Some(lps) => r matches Some(v) && v@ == lps,
            None => r is None,
        },
{
    match &layout.layouts {
        None => None,
        Some(v) => {
            let mut i: usize = v.len();
            assert(v@.take(i as int) =~= v@);
            while i > 0
                invariant
                    i <= v@.len(),
                    layout.layouts == Some(*v),
                    entry_of(v@, *position) == entry_of(v@.take(i as int), *position),
                decreases i,
            {
                let ghost s = v@.take(i as int);
                if v[i - 1].0 == *position {
                    assert(s.last() == v@[i - 1]);
                    assert(entry_of(v@, *position) == Some(i - 1));
                    let found = &v[i - 1].1;
                    assert(spec_layout_points(*layout, *position) == Some(found@));
                    return Some(found);
                }
                assert(s.drop_last() =~= v@.take(i - 1));
                i = i - 1;
            }
            None
        },
    }
}

/// The layout point whose `index` field is `index` (the first such).
fn find_point_with_index(lps: &Vec<LayoutPoint>, index: u32) -> (r: LayoutPoint)
    requires
        has_point_with_index(lps@, index),
    ensures
        r == point_with_index(lps@, index),
{
    let mut i: usize = 0;
    while i < lps.len()
        invariant
            i <= lps@.len(),
            has_point_with_index(lps@, index),
            forall|j: int| 0 <= j < i ==> lps@[j].index != index,
        decreases lps@.len() - i,
    {
        if lps[i].index == index {
            assert(first_with_index(lps@, index, i as int));
            let ghost k = choose|k: int| first_with_index(lps@, index, k);
            assert(k == i) by {
                if k < i {
                    assert(lps@[k].index != index);
                } else if k > i {
                    assert(lps@[i as int].index != index);
                }
            }
            return lps[i];
        }
        i = i + 1;
    }
    let ghost w = choose|k: int| 0 <= k < lps@.len() && lps@[k].index == index;
    assert(lps@[w].index != index);
    lps[0]
}

fn push_feedback_path_points(
    out: &mut Vec<EffectPathModePoint>,
    feedback: &EffectDotModeFeedback,
    lps: &Vec<LayoutPoint>,
)
    requires
        forall|j: int|
            0 <= j < feedback.point_list@.len() ==> has_point_with_index(
                lps@,
                (#[trigger] feedback.point_list@[j]).index,
            ),
    ensures
        final(out)@ == old(out)@ + feedback_path_points(*feedback, lps@),
{
    let points = &feedback.point_list;
    let mut j: usize = 0;
    while j < points.len()
        invariant
            j <= points@.len(),
            points@ == feedback.point_list@,
            forall|k: int| 0 <= k < points@.len() ==> has_point_with_index(lps@, (#[trigger] points@[k]).index),
            out@ == old(out)@ + feedback_path_points(*feedback, lps@).take(j as int),
        decreases points@.len() - j,
    {
        let d = points[j];
        assert(has_point_with_index(lps@, d.index));
        let lp = find_point_with_index(lps, d.index);
        out.push(EffectPathModePoint { intensity: d.intensity, time: feedback.start_time, x: lp.x, y: lp.y });
        assert(feedback_path_points(*feedback, lps@).take(j + 1) =~= feedback_path_points(*feedback, lps@).take(
            j as int,
        ).push(dot_path_point(d, feedback.start_time, lps@)));
        j = j + 1;
    }
    assert(feedback_path_points(*feedback, lps@).take(j as int) =~= feedback_path_points(*feedback, lps@));
}

impl TactFileProject {
    /// The path-mode pattern that plays a dot-mode pattern on `device_position`: every dot
    /// becomes a point at the position of the layout point whose `index` field is the dot's
    /// index, at the start time of its feedback, with its intensity. A connected pattern
    /// becomes one feedback holding all points (with the playback type of the first
    /// feedback); otherwise each feedback becomes one. The new feedbacks move at constant
    /// speed and are visible.
    pub fn convert_dot_mode_to_path_mode(
        dot_mode: &EffectDotMode,
        device_position: DevicePosition,
        layout: &Layout,
    ) -> (r: EffectPathMode)
        requires
            convertible(*dot_mode, device_position, *layout),
        ensures
            ({
                let lps = spec_layout_points(*layout, device_position)->Some_0;
                let fs = dot_mode.feedback@;
                if dot_mode.dot_connected {
                    &&& r.feedback@.len() == 1
                    &&& r.feedback@[0].playback_type == fs[0].playback_type
                    &&& r.feedback@[0].moving_pattern == EffectPathModeMovingPattern::ConstSpeed
                    &&& r.feedback@[0].visible
                    &&& r.feedback@[0].point_list@ == all_path_points(fs, lps)
                } else {
                    &&& r.feedback@.len() == fs.len()
                    &&& forall|k: int|
                        0 <= k < fs.len() ==> {
                            &&& (#[trigger] r.feedback@[k]).playback_type == fs[k].playback_type
                            &&& r.feedback@[k].moving_pattern == EffectPathModeMovingPattern::ConstSpeed
                            &&& r.feedback@[k].visible
                            &&& r.feedback@[k].point_list@ == feedback_path_points(fs[k], lps)
                        }
                }
            }),
    {
        let lps = match layout_points(layout, &device_position) {
            Some(v) => v,
            None => {
                assert(false);
                return EffectPathMode { feedback: Vec::new() };
            },
        };
        let fs = &dot_mode.feedback;
        if dot_mode.dot_connected {
            let mut all_points: Vec<EffectPathModePoint> = Vec::new();
            let mut i: usize = 0;
            while i < fs.len()
                invariant
                    i <= fs@.len(),
                    fs@ == dot_mode.feedback@,
                    dots_in_layout(fs@, lps@),
                    all_points@ == all_path_points(fs@.take(i as int), lps@),
                decreases fs@.len() - i,
            {
                assert(fs@.take(i + 1).drop_last() =~= fs@.take(i as int));
                assert forall|j: int| 0 <= j < fs@[i as int].point_list@.len() implies has_point_with_index(
                    lps@,
                    (#[trigger] fs@[i as int].point_list@[j]).index,
                ) by {}
                push_feedback_path_points(&mut all_points, &fs[i], lps);
                i = i + 1;
            }
            assert(fs@.take(i as int) =~= fs@);
            let path_feedback = EffectPathModeFeedback {
                playback_type: fs[0].playback_type,
                moving_pattern: EffectPathModeMovingPattern::ConstSpeed,
                visible: true,
                point_list: all_points,
            };
            let mut feedback = Vec::new();
            feedback.push(path_feedback);
            EffectPathMode { feedback }
        } else {
            let mut path_feedbacks: Vec<EffectPathModeFeedback> = Vec::new();
            let mut i: usize = 0;
            while i < fs.len()
                invariant
                    i <= fs@.len(),
                    fs@ == dot_mode.feedback@,
                    dots_in_layout(fs@, lps@),
                    path_feedbacks@.len() == i,
                    forall|k: int|
                        0 <= k < i ==> {
                            &&& (#[trigger] path_feedbacks@[k]).playback_type == fs@[k].playback_type
                            &&& path_feedbacks@[k].moving_pattern == EffectPathModeMovingPattern::ConstSpeed
                            &&& path_feedbacks@[k].visible
                            &&& path_feedbacks@[k].point_list@ == feedback_path_points(fs@[k], lps@)
                        },
                decreases fs@.len() - i,
            {
                assert forall|j: int| 0 <= j < fs@[i as int].point_list@.len() implies has_point_with_index(
                    lps@,
                    (#[trigger] fs@[i as int].point_list@[j]).index,
                ) by {}
                let mut points: Vec<EffectPathModePoint> = Vec::new();
                push_feedback_path_points(&mut points, &fs[i], lps);
                assert(points@ =~= feedback_path_points(fs@[i as int], lps@));
                path_feedbacks.push(EffectPathModeFeedback {
                    playback_type: fs[i].playback_type,
                    moving_pattern: EffectPathModeMovingPattern::ConstSpeed,
                    visible: true,
                    point_list: points,
                });
                i = i + 1;
            }
            EffectPathMode { feedback: path_feedbacks }
        }
    }
}

/// A connected pattern keeps every dot: its single feedback has as many points as the
/// dot-mode pattern has dots.
pub proof fn lemma_connected_keeps_all_dots(fs: Seq<EffectDotModeFeedback>, lps: Seq<LayoutPoint>)
    ensures
        all_path_points(fs, lps).len() == dots_total(fs),
    decreases fs.len(),
{
    if fs.len() > 0 {
        lemma_connected_keeps_all_dots(fs.drop_last(), lps);
    }
}

/// The number of dots of all feedbacks.
pub open spec fn dots_total(fs: Seq<EffectDotModeFeedback>) -> int
    decreases fs.len(),
{
    if fs.len() == 0 {
        0
    } else {
        dots_total(fs.drop_last()) + fs.last().point_list@.len()
    }
}

} // verus!
