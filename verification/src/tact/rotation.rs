//! Rotating effects around the body: which points a pattern moves, how the moved points
//! are grouped by the device they land on, and how the groups become the patterns of the
//! rotated effect.
//!
//! Moving each point (the angle arithmetic) is floating-point work done by the caller;
//! this module takes its results as they are.
use vstd::prelude::*;
use crate::device::DevicePosition;
use crate::path_point_mapper::{entry_of, lemma_entry_of_finds};
use crate::tact::{
    distinct_positions, spec_is_rotation_applicable, EffectDotModeFeedback, EffectFeedbackPlaybackType,
    EffectMode, EffectPathMode, EffectPathModeFeedback, EffectPathModeMovingPattern, EffectPathModePoint,
    HapticEffect, Layout, LayoutPoint, TactFileProject,
};
use crate::tact::dot_to_path::{all_path_points, convertible, feedback_path_points, spec_layout_points};

verus! {

/// Adds point `p` to the group of device `d`, opening a group for `d` when it has none.
pub open spec fn add_to_groups(
    groups: Seq<(DevicePosition, Seq<EffectPathModePoint>)>,
    d: DevicePosition,
    p: EffectPathModePoint,
) -> Seq<(DevicePosition, Seq<EffectPathModePoint>)> {
    match entry_of(groups, d) {
        Some(k) => groups.update(k, (d, groups[k].1.push(p))),
        None => groups.push((d, seq![p])),
    }
}

/// The moved points grouped by the device they land on, groups in the order of their
/// first point and points in their order; points that left every device are dropped.
pub open spec fn group_points(moved: Seq<Option<(DevicePosition, EffectPathModePoint)>>) -> Seq<
    (DevicePosition, Seq<EffectPathModePoint>),
>
    decreases moved.len(),
{
    if moved.len() == 0 {
        seq![]
    } else {
        let groups = group_points(moved.drop_last());
        match moved.last() {
            Some((d, p)) => add_to_groups(groups, d, p),
            None => groups,
        }
    }
}

/// The groups of a list of moved points: no device has two, and every group has points.
pub proof fn lemma_groups_distinct(moved: Seq<Option<(DevicePosition, EffectPathModePoint)>>)
    ensures
        distinct_positions(group_points(moved)),
        forall|k: int|
            0 <= k < group_points(moved).len() ==> #[trigger] group_points(moved)[k].1.len() > 0,
    decreases moved.len(),
{
    if moved.len() > 0 {
        let groups = group_points(moved.drop_last());
        lemma_groups_distinct(moved.drop_last());
        if let Some((d, p)) = moved.last() {
            lemma_entry_of_finds(groups, d);
        }
    }
}

/// The view of groups held in vectors.
pub open spec fn groups_view(groups: Seq<(DevicePosition, Vec<EffectPathModePoint>)>) -> Seq<
    (DevicePosition, Seq<EffectPathModePoint>),
> {
    groups.map_values(|g: (DevicePosition, Vec<EffectPathModePoint>)| (g.0, g.1@))
}

/// The place of the group of `d` among `groups`; `None` when `d` has no group.
fn find_group(groups: &Vec<(DevicePosition, Vec<EffectPathModePoint>)>, d: DevicePosition) -> (r: Option<usize>)
    ensures
        match entry_of(groups_view(groups@), d) {
            Some(k) => r == Some(k as usize),
            None => r is None,
        },
{
    let mut i: usize = groups.len();
    assert(groups_view(groups@).take(i as int) =~= groups_view(groups@));
    while i > 0
        invariant
            i <= groups@.len(),
            entry_of(groups_view(groups@), d) == entry_of(groups_view(groups@).take(i as int), d),
        decreases i,
    {
        let ghost s = groups_view(groups@).take(i as int);
        if groups[i - 1].0 == d {
            return Some(i - 1);
        }
        assert(s.drop_last() =~= groups_view(groups@).take(i - 1));
        i = i - 1;
    }
    None
}

/// Groups the moved points by the device they land on (see [`group_points`]).
pub fn group_by_device(moved: &Vec<Option<(DevicePosition, EffectPathModePoint)>>) -> (r: Vec<
    (DevicePosition, Vec<EffectPathModePoint>),
>)
    ensures
        groups_view(r@) == group_points(moved@),
{
    let mut groups: Vec<(DevicePosition, Vec<EffectPathModePoint>)> = Vec::new();
    let mut i: usize = 0;
    while i < moved.len()
        invariant
            i <= moved@.len(),
            groups_view(groups@) == group_points(moved@.take(i as int)),
        decreases moved@.len() - i,
    {
        assert(moved@.take(i + 1).drop_last() =~= moved@.take(i as int));
        let ghost before = groups_view(groups@);
        match moved[i] {
            Some((d, p)) => {
                proof {
                    lemma_entry_of_finds(before, d);
                }
                match find_group(&groups, d) {
                    Some(k) => {
                        let ghost old_groups = groups@;
                        assert(before[k as int] == (old_groups[k as int].0, old_groups[k as int].1@));
                        let count: usize = groups.len();
                        assert(entry_of(before, d) == Some(k as int)) by {
                            assert(before.len() == count);
                        }
                        let (key, mut points) = groups.remove(k);
                        assert(key == d && points@ == before[k as int].1);
                        points.push(p);
                        groups.insert(k, (key, points));
                        assert(groups@ =~= old_groups.update(k as int, groups@[k as int]));
                        assert(groups_view(groups@) =~= add_to_groups(before, d, p));
                    },
                    None => {
                        let mut points: Vec<EffectPathModePoint> = Vec::new();
                        points.push(p);
                        groups.push((d, points));
                        assert(groups_view(groups@) =~= add_to_groups(before, d, p));
                    },
                }
            },
            None => {},
        }
        i = i + 1;
    }
    assert(moved@.take(i as int) =~= moved@);
    groups
}

/// The points of a path pattern, feedback after feedback.
pub open spec fn flatten_points(fs: Seq<EffectPathModeFeedback>) -> Seq<EffectPathModePoint>
    decreases fs.len(),
{
    if fs.len() == 0 {
        seq![]
    } else {
        flatten_points(fs.drop_last()) + fs.last().point_list@
    }
}

/// The points that rotation moves for the pattern `mode` on `position`: those of a path
/// pattern, or those of the path pattern that a dot pattern becomes with the layout.
pub open spec fn rotation_source_points(mode: EffectMode, position: DevicePosition, layout: Layout) -> Seq<
    EffectPathModePoint,
> {
    match mode {
        EffectMode::PathMode { path_mode } => flatten_points(path_mode.feedback@),
        EffectMode::DotMode { dot_mode } => all_path_points(
            dot_mode.feedback@,
            spec_layout_points(layout, position)->Some_0,
        ),
    }
}

fn flatten(fs: &Vec<EffectPathModeFeedback>) -> (r: Vec<EffectPathModePoint>)
    ensures
        r@ == flatten_points(fs@),
{
    let mut out: Vec<EffectPathModePoint> = Vec::new();
    let mut i: usize = 0;
    while i < fs.len()
        invariant
            i <= fs@.len(),
            out@ == flatten_points(fs@.take(i as int)),
        decreases fs@.len() - i,
    {
        assert(fs@.take(i + 1).drop_last() =~= fs@.take(i as int));
        let points = &fs[i].point_list;
        let ghost before = out@;
        let mut j: usize = 0;
        while j < points.len()
            invariant
                j <= points@.len(),
                i < fs@.len(),
                points@ == fs@[i as int].point_list@,
                out@ == before + points@.take(j as int),
            decreases points@.len() - j,
        {
            out.push(points[j]);
            assert(points@.take(j + 1) =~= points@.take(j as int).push(points@[j as int]));
            assert(out@ =~= before + points@.take(j + 1));
            j = j + 1;
        }
        assert(points@.take(j as int) =~= points@);
        i = i + 1;
    }
    assert(fs@.take(i as int) =~= fs@);
    out
}

/// Path feedbacks made one for one from dot feedbacks hold, together, the points of all
/// the dots.
proof fn lemma_flatten_converted(a: Seq<EffectPathModeFeedback>, fs: Seq<EffectDotModeFeedback>, lps: Seq<LayoutPoint>)
    requires
        a.len() == fs.len(),
        forall|k: int| 0 <= k < a.len() ==> (#[trigger] a[k]).point_list@ == feedback_path_points(fs[k], lps),
    ensures
        flatten_points(a) == all_path_points(fs, lps),
    decreases a.len(),
{
    if a.len() > 0 {
        assert forall|k: int| 0 <= k < a.drop_last().len() implies (#[trigger] a.drop_last()[k]).point_list@
            == feedback_path_points(fs.drop_last()[k], lps) by {
            assert(a.drop_last()[k] == a[k]);
            assert(fs.drop_last()[k] == fs[k]);
        }
        lemma_flatten_converted(a.drop_last(), fs.drop_last(), lps);
        assert(a.last() == a[a.len() - 1]);
    }
}

/// The points that rotation moves for the pattern `mode` on `position` (see
/// [`rotation_source_points`]); a dot pattern is first turned into a path pattern.
pub fn rotation_points(mode: &EffectMode, position: DevicePosition, layout: &Layout) -> (r: Vec<EffectPathModePoint>)
    requires
        *mode matches EffectMode::DotMode { dot_mode } ==> convertible(dot_mode, position, *layout),
    ensures
        r@ == rotation_source_points(*mode, position, *layout),
{
    match mode {
        EffectMode::PathMode { path_mode } => flatten(&path_mode.feedback),
        EffectMode::DotMode { dot_mode } => {
            let path_mode = TactFileProject::convert_dot_mode_to_path_mode(dot_mode, position, layout);
            let ghost lps = spec_layout_points(*layout, position)->Some_0;
            proof {
                if dot_mode.dot_connected {
                    let fb = path_mode.feedback@;
                    assert(fb.drop_last() =~= Seq::<EffectPathModeFeedback>::empty());
                    assert(flatten_points(fb.drop_last()) == Seq::<EffectPathModePoint>::empty());
                    assert(fb.last() == fb[0]);
                    assert(flatten_points(fb) =~= all_path_points(dot_mode.feedback@, lps));
                } else {
                    lemma_flatten_converted(path_mode.feedback@, dot_mode.feedback@, lps);
                }
            }
            flatten(&path_mode.feedback)
        },
    }
}

/// The entry found for a key that occurs once is the place where it occurs.
proof fn lemma_entry_of_distinct<M>(entries: Seq<(DevicePosition, M)>, k: int)
    requires
        distinct_positions(entries),
        0 <= k < entries.len(),
    ensures
        entry_of(entries, entries[k].0) == Some(k),
{
    lemma_entry_of_finds(entries, entries[k].0);
}

/// The moved point lands on device `d`.
pub open spec fn lands_on(moved: Option<(DevicePosition, EffectPathModePoint)>, d: DevicePosition) -> bool {
    moved matches Some(x) && x.0 == d
}

/// Every group is of a device that some moved point lands on.
proof fn lemma_group_devices(moved: Seq<Option<(DevicePosition, EffectPathModePoint)>>, d: DevicePosition)
    requires
        entry_of(group_points(moved), d) is Some,
    ensures
        exists|j: int| 0 <= j < moved.len() && lands_on(#[trigger] moved[j], d),
    decreases moved.len(),
{
    let rest = moved.drop_last();
    let groups = group_points(rest);
    lemma_entry_of_finds(group_points(moved), d);
    match moved.last() {
        Some((e, p)) => {
            lemma_entry_of_finds(groups, e);
            if e == d {
                assert(moved[moved.len() - 1] == moved.last());
            } else {
                lemma_entry_of_finds(groups, d);
                if entry_of(groups, d) is None {
                    let k = entry_of(group_points(moved), d)->Some_0;
                    assert(group_points(moved)[k].0 == d);
                    assert(false);
                }
                lemma_group_devices(rest, d);
                let j = choose|j: int| 0 <= j < rest.len() && lands_on(#[trigger] rest[j], d);
                assert(moved[j] == rest[j]);
            }
        },
        None => {
            lemma_group_devices(rest, d);
            let j = choose|j: int| 0 <= j < rest.len() && lands_on(#[trigger] rest[j], d);
            assert(moved[j] == rest[j]);
        },
    }
}

/// The points that pattern `i` sends to device `d`.
pub open spec fn group_of(moved: Seq<Option<(DevicePosition, EffectPathModePoint)>>, d: DevicePosition) -> Seq<
    EffectPathModePoint,
> {
    group_points(moved)[entry_of(group_points(moved), d)->Some_0].1
}

/// Pattern `i` is rotated and some of its moved points land on device `d`.
pub open spec fn receives(
    modes: Seq<(DevicePosition, EffectMode)>,
    moved: Seq<Seq<Option<(DevicePosition, EffectPathModePoint)>>>,
    i: int,
    d: DevicePosition,
) -> bool {
    &&& spec_is_rotation_applicable(modes[i].0)
    &&& entry_of(group_points(moved[i]), d) is Some
}

/// The last of the first `n` patterns whose moved points land on device `d`: its points
/// make the rotated pattern of `d`.
pub open spec fn last_source(
    modes: Seq<(DevicePosition, EffectMode)>,
    moved: Seq<Seq<Option<(DevicePosition, EffectPathModePoint)>>>,
    d: DevicePosition,
    n: int,
) -> Option<int>
    decreases n,
{
    if n <= 0 {
        None
    } else if receives(modes, moved, n - 1, d) {
        Some(n - 1)
    } else {
        last_source(modes, moved, d, n - 1)
    }
}

/// The pattern has a first feedback.
pub open spec fn has_feedback(mode: EffectMode) -> bool {
    match mode {
        EffectMode::PathMode { path_mode } => path_mode.feedback@.len() > 0,
        EffectMode::DotMode { dot_mode } => dot_mode.feedback@.len() > 0,
    }
}

/// The playback type of the pattern's first feedback.
pub open spec fn first_playback(mode: EffectMode) -> EffectFeedbackPlaybackType {
    match mode {
        EffectMode::PathMode { path_mode } => path_mode.feedback@[0].playback_type,
        EffectMode::DotMode { dot_mode } => dot_mode.feedback@[0].playback_type,
    }
}

/// `m` is the rotated pattern made of `points`: one visible feedback moving at constant
/// speed, with the given playback type.
pub open spec fn is_rotated_pattern(m: EffectMode, playback: EffectFeedbackPlaybackType, points: Seq<EffectPathModePoint>) -> bool {
    &&& m matches EffectMode::PathMode { path_mode } && path_mode.feedback@.len() == 1
    &&& m->path_mode.feedback@[0].playback_type == playback
    &&& m->path_mode.feedback@[0].moving_pattern == EffectPathModeMovingPattern::ConstSpeed
    &&& m->path_mode.feedback@[0].visible
    &&& m->path_mode.feedback@[0].point_list@ == points
}

fn first_feedback_playback(mode: &EffectMode) -> (r: EffectFeedbackPlaybackType)
    requires
        has_feedback(*mode),
    ensures
        r == first_playback(*mode),
{
    match mode {
        EffectMode::PathMode { path_mode } => path_mode.feedback[0].playback_type,
        EffectMode::DotMode { dot_mode } => dot_mode.feedback[0].playback_type,
    }
}

/// The rotated patterns collected so far, by device.
pub open spec fn collected_view(
    v: Seq<(DevicePosition, (EffectFeedbackPlaybackType, Vec<EffectPathModePoint>))>,
) -> Seq<(DevicePosition, (EffectFeedbackPlaybackType, Seq<EffectPathModePoint>))> {
    v.map_values(
        |e: (DevicePosition, (EffectFeedbackPlaybackType, Vec<EffectPathModePoint>))| (e.0, (e.1.0, e.1.1@)),
    )
}

/// Sets the entry of `d` to `value`, adding it when `d` has none.
pub open spec fn upsert<V>(entries: Seq<(DevicePosition, V)>, d: DevicePosition, value: V) -> Seq<(DevicePosition, V)> {
    match entry_of(entries, d) {
        Some(k) => entries.update(k, (d, value)),
        None => entries.push((d, value)),
    }
}

fn upsert_collected(
    collected: &mut Vec<(DevicePosition, (EffectFeedbackPlaybackType, Vec<EffectPathModePoint>))>,
    d: DevicePosition,
    playback: EffectFeedbackPlaybackType,
    points: Vec<EffectPathModePoint>,
)
    ensures
        collected_view(final(collected)@) == upsert(collected_view(old(collected)@), d, (playback, points@)),
{
    let ghost before = collected_view(collected@);
    proof {
        lemma_entry_of_finds(before, d);
    }
    let mut i: usize = collected.len();
    assert(before.take(i as int) =~= before);
    while i > 0
        invariant
            i <= collected@.len(),
            collected_view(collected@) == before,
            before == collected_view(old(collected)@),
            entry_of(before, d) == entry_of(before.take(i as int), d),
        decreases i,
    {
        let ghost s = before.take(i as int);
        if collected[i - 1].0 == d {
            assert(before[i - 1] == (collected@[i - 1].0, (collected@[i - 1].1.0, collected@[i - 1].1.1@)));
            assert(s.last() == before[i - 1]);
            assert(entry_of(before, d) == Some((i - 1) as int));
            collected.set(i - 1, (d, (playback, points)));
            assert(collected_view(collected@) =~= upsert(before, d, (playback, points@)));
            return;
        }
        assert(s.drop_last() =~= before.take(i - 1));
        i = i - 1;
    }
    collected.push((d, (playback, points)));
    assert(collected_view(collected@) =~= upsert(before, d, (playback, points@)));
}

/// `out` holds the patterns of an effect after rotation: the patterns on positions that
/// rotation does not apply to, unchanged; and, for each device that moved points land on,
/// the rotated pattern made of the points sent there by the last pattern that sends any.
pub open spec fn rotated_modes(
    modes: Seq<(DevicePosition, EffectMode)>,
    moved: Seq<Seq<Option<(DevicePosition, EffectPathModePoint)>>>,
    out: Seq<(DevicePosition, EffectMode)>,
) -> bool {
    &&& distinct_positions(out)
    &&& forall|k: int|
        0 <= k < out.len() && !spec_is_rotation_applicable(#[trigger] out[k].0) ==> exists|i: int|
            0 <= i < modes.len() && modes[i] == out[k]
    &&& forall|k: int|
        0 <= k < out.len() && spec_is_rotation_applicable(#[trigger] out[k].0) ==> {
            &&& last_source(modes, moved, out[k].0, modes.len() as int) is Some
            &&& is_rotated_pattern(
                out[k].1,
                first_playback(modes[last_source(modes, moved, out[k].0, modes.len() as int)->Some_0].1),
                group_of(moved[last_source(modes, moved, out[k].0, modes.len() as int)->Some_0], out[k].0),
            )
        }
    &&& forall|i: int|
        0 <= i < modes.len() && !spec_is_rotation_applicable(#[trigger] modes[i].0) ==> exists|k: int|
            0 <= k < out.len() && out[k] == modes[i]
    &&& forall|d: DevicePosition|
        #[trigger] last_source(modes, moved, d, modes.len() as int) is Some ==> exists|k: int|
            0 <= k < out.len() && out[k].0 == d
}

/// The views of the moved points of each pattern.
pub open spec fn moved_view(moved: Seq<Vec<Option<(DevicePosition, EffectPathModePoint)>>>) -> Seq<
    Seq<Option<(DevicePosition, EffectPathModePoint)>>,
> {
    moved.map_values(|v: Vec<Option<(DevicePosition, EffectPathModePoint)>>| v@)
}

/// A collected rotated pattern for device `e.0` agrees with the first `n` patterns: its
/// points are those that the last of them sending points to the device sends there.
pub open spec fn collected_entry_ok(
    modes: Seq<(DevicePosition, EffectMode)>,
    moved: Seq<Seq<Option<(DevicePosition, EffectPathModePoint)>>>,
    e: (DevicePosition, (EffectFeedbackPlaybackType, Seq<EffectPathModePoint>)),
    n: int,
) -> bool {
    &&& spec_is_rotation_applicable(e.0)
    &&& last_source(modes, moved, e.0, n) is Some
    &&& e.1.0 == first_playback(modes[last_source(modes, moved, e.0, n)->Some_0].1)
    &&& e.1.1 == group_of(moved[last_source(modes, moved, e.0, n)->Some_0], e.0)
}

/// A pattern that sends no points leaves the last sources as they were.
proof fn lemma_no_receiver(
    modes: Seq<(DevicePosition, EffectMode)>,
    moved: Seq<Seq<Option<(DevicePosition, EffectPathModePoint)>>>,
    i: int,
)
    requires
        0 <= i,
        !spec_is_rotation_applicable(modes[i].0) || group_points(moved[i]).len() == 0,
    ensures
        forall|d: DevicePosition| #[trigger] last_source(modes, moved, d, i + 1) == last_source(modes, moved, d, i),
{
    assert forall|d: DevicePosition| #[trigger] last_source(modes, moved, d, i + 1) == last_source(modes, moved, d, i) by {
        if spec_is_rotation_applicable(modes[i].0) {
            assert(entry_of(group_points(moved[i]), d) is None);
        }
    }
}

/// Setting the entry of one key keeps the keys distinct and the other entries as they were.
proof fn lemma_upsert<V>(entries: Seq<(DevicePosition, V)>, d: DevicePosition, v: V)
    requires
        distinct_positions(entries),
    ensures
        distinct_positions(upsert(entries, d, v)),
        exists|k: int| 0 <= k < upsert(entries, d, v).len() && upsert(entries, d, v)[k] == (d, v),
        forall|k: int|
            0 <= k < upsert(entries, d, v).len() && (#[trigger] upsert(entries, d, v)[k]).0 != d ==> k
                < entries.len() && upsert(entries, d, v)[k] == entries[k],
        forall|k: int|
            0 <= k < entries.len() && (#[trigger] entries[k]).0 != d ==> k < upsert(entries, d, v).len()
                && upsert(entries, d, v)[k] == entries[k],
        forall|k: int|
            0 <= k < upsert(entries, d, v).len() && (#[trigger] upsert(entries, d, v)[k]).0 == d ==> upsert(
                entries,
                d,
                v,
            )[k] == (d, v),
{
    lemma_entry_of_finds(entries, d);
    let u = upsert(entries, d, v);
    match entry_of(entries, d) {
        Some(x) => {
            assert(u[x] == (d, v));
        },
        None => {
            assert(u[entries.len() as int] == (d, v));
        },
    }
}

/// Where the points of device `d` come from after the first `g` groups of pattern `i` are
/// collected: pattern `i` for those groups' devices, the earlier patterns otherwise.
pub open spec fn source_during(
    modes: Seq<(DevicePosition, EffectMode)>,
    moved: Seq<Seq<Option<(DevicePosition, EffectPathModePoint)>>>,
    i: int,
    g: int,
    d: DevicePosition,
) -> Option<int> {
    match entry_of(group_points(moved[i]), d) {
        Some(x) => if x < g { Some(i) } else { last_source(modes, moved, d, i) },
        None => last_source(modes, moved, d, i),
    }
}

pub open spec fn entry_during(
    modes: Seq<(DevicePosition, EffectMode)>,
    moved: Seq<Seq<Option<(DevicePosition, EffectPathModePoint)>>>,
    i: int,
    g: int,
    e: (DevicePosition, (EffectFeedbackPlaybackType, Seq<EffectPathModePoint>)),
) -> bool {
    &&& spec_is_rotation_applicable(e.0)
    &&& source_during(modes, moved, i, g, e.0) is Some
    &&& e.1.0 == first_playback(modes[source_during(modes, moved, i, g, e.0)->Some_0].1)
    &&& e.1.1 == group_of(moved[source_during(modes, moved, i, g, e.0)->Some_0], e.0)
}

/// Collects the groups of pattern `i` as the rotated patterns of their devices, replacing
/// what earlier patterns sent there.
fn collect_groups(
    collected: &mut Vec<(DevicePosition, (EffectFeedbackPlaybackType, Vec<EffectPathModePoint>))>,
    groups: Vec<(DevicePosition, Vec<EffectPathModePoint>)>,
    playback: EffectFeedbackPlaybackType,
    Ghost(modes): Ghost<Seq<(DevicePosition, EffectMode)>>,
    Ghost(moved): Ghost<Seq<Seq<Option<(DevicePosition, EffectPathModePoint)>>>>,
    Ghost(i): Ghost<int>,
)
    requires
        0 <= i < modes.len(),
        moved.len() == modes.len(),
        spec_is_rotation_applicable(modes[i].0),
        groups_view(groups@) == group_points(moved[i]),
        playback == first_playback(modes[i].1),
        forall|b: int|
            0 <= b < moved[i].len() ==> (#[trigger] moved[i][b] matches Some(x) ==> spec_is_rotation_applicable(x.0)),
        distinct_positions(collected_view(old(collected)@)),
        forall|k: int|
            0 <= k < old(collected)@.len() ==> collected_entry_ok(
                modes,
                moved,
                #[trigger] collected_view(old(collected)@)[k],
                i,
            ),
        forall|d: DevicePosition|
            #[trigger] last_source(modes, moved, d, i) is Some ==> exists|k: int|
                0 <= k < old(collected)@.len() && collected_view(old(collected)@)[k].0 == d,
    ensures
        distinct_positions(collected_view(final(collected)@)),
        forall|k: int|
            0 <= k < final(collected)@.len() ==> collected_entry_ok(
                modes,
                moved,
                #[trigger] collected_view(final(collected)@)[k],
                i + 1,
            ),
        forall|d: DevicePosition|
            #[trigger] last_source(modes, moved, d, i + 1) is Some ==> exists|k: int|
                0 <= k < final(collected)@.len() && collected_view(final(collected)@)[k].0 == d,
{
    let ghost gv = group_points(moved[i]);
    proof {
        lemma_groups_distinct(moved[i]);
        assert forall|d: DevicePosition| #[trigger] source_during(modes, moved, i, 0, d) == last_source(modes, moved, d, i) by {
            lemma_entry_of_finds(gv, d);
        }
        assert forall|k: int|
            0 <= k < old(collected)@.len() implies entry_during(
                modes,
                moved,
                i,
                0,
                #[trigger] collected_view(old(collected)@)[k],
            ) by {
            assert(collected_entry_ok(modes, moved, collected_view(old(collected)@)[k], i));
            assert(source_during(modes, moved, i, 0, collected_view(old(collected)@)[k].0) == last_source(modes, moved, collected_view(old(collected)@)[k].0, i));
        }
    }
    let mut groups = groups;
    let glen: usize = groups.len();
    let mut g: usize = 0;
    while g < glen
        invariant
            0 <= i < modes.len(),
            moved.len() == modes.len(),
            spec_is_rotation_applicable(modes[i].0),
            playback == first_playback(modes[i].1),
            forall|b: int|
                0 <= b < moved[i].len() ==> (#[trigger] moved[i][b] matches Some(x) ==> spec_is_rotation_applicable(x.0)),
            gv == group_points(moved[i]),
            distinct_positions(gv),
            forall|k: int| 0 <= k < gv.len() ==> #[trigger] gv[k].1.len() > 0,
            glen == gv.len(),
            g <= glen,
            groups_view(groups@) == gv.subrange(g as int, glen as int),
            distinct_positions(collected_view(collected@)),
            forall|k: int|
                0 <= k < collected@.len() ==> entry_during(
                    modes,
                    moved,
                    i,
                    g as int,
                    #[trigger] collected_view(collected@)[k],
                ),
            forall|d: DevicePosition|
                #[trigger] source_during(modes, moved, i, g as int, d) is Some ==> exists|k: int|
                    0 <= k < collected@.len() && collected_view(collected@)[k].0 == d,
        decreases glen - g,
    {
        let ghost cv = collected_view(collected@);
        let ghost gview = groups_view(groups@);
        assert(gview.len() == groups@.len());
        assert(gview[0] == gv[g as int]);
        assert(gview[0] == (groups@[0].0, groups@[0].1@));
        let ghost old_groups = groups@;
        let (d, points) = groups.remove(0);
        assert(gv[g as int] == (d, points@));
        assert forall|k: int| 0 <= k < groups@.len() implies groups_view(groups@)[k] == gv[g + 1 + k] by {
            assert(groups@[k] == old_groups[k + 1]);
            assert(gview[k + 1] == (old_groups[k + 1].0, old_groups[k + 1].1@));
        }
        assert(groups_view(groups@) =~= gv.subrange(g + 1, glen as int));
        proof {
            lemma_entry_of_distinct(gv, g as int);
            lemma_group_devices(moved[i], d);
            let b = choose|b: int| 0 <= b < moved[i].len() && lands_on(#[trigger] moved[i][b], d);
            assert(moved[i][b] matches Some(x) ==> spec_is_rotation_applicable(x.0));
            lemma_upsert(cv, d, (playback, points@));
        }
        if points.len() > 0 {
            upsert_collected(collected, d, playback, points);
        }
        proof {
            assert(gv[g as int].1.len() > 0);
            let nv = collected_view(collected@);
            assert forall|x: DevicePosition|
                x != d implies #[trigger] source_during(modes, moved, i, g + 1, x) == source_during(
                    modes,
                    moved,
                    i,
                    g as int,
                    x,
                ) by {
                lemma_entry_of_finds(gv, x);
            }
            assert forall|k: int|
                0 <= k < collected@.len() implies entry_during(
                    modes,
                    moved,
                    i,
                    g + 1,
                    #[trigger] collected_view(collected@)[k],
                ) by {
                if nv[k].0 != d {
                    assert(entry_during(modes, moved, i, g as int, cv[k]));
                }
            }
            assert forall|x: DevicePosition|
                #[trigger] source_during(modes, moved, i, g + 1, x) is Some implies exists|k: int|
                    0 <= k < collected@.len() && collected_view(collected@)[k].0 == x by {
                if x != d {
                    assert(source_during(modes, moved, i, g as int, x) is Some);
                    let k = choose|k: int| 0 <= k < cv.len() && cv[k].0 == x;
                    assert(nv[k] == cv[k]);
                }
            }
        }
        g = g + 1;
    }
    proof {
        assert forall|x: DevicePosition| #[trigger] last_source(modes, moved, x, i + 1) == source_during(
            modes,
            moved,
            i,
            glen as int,
            x,
        ) by {
            lemma_entry_of_finds(gv, x);
        }
        assert forall|k: int|
            0 <= k < collected@.len() implies collected_entry_ok(
                modes,
                moved,
                #[trigger] collected_view(collected@)[k],
                i + 1,
            ) by {
            assert(entry_during(modes, moved, i, glen as int, collected_view(collected@)[k]));
        }
    }
}

/// Collected patterns stay right past a pattern that sends no points.
proof fn lemma_collected_carry(
    modes: Seq<(DevicePosition, EffectMode)>,
    moved: Seq<Seq<Option<(DevicePosition, EffectPathModePoint)>>>,
    cv: Seq<(DevicePosition, (EffectFeedbackPlaybackType, Seq<EffectPathModePoint>))>,
    i: int,
)
    requires
        0 <= i,
        !spec_is_rotation_applicable(modes[i].0) || group_points(moved[i]).len() == 0,
        forall|k: int| 0 <= k < cv.len() ==> collected_entry_ok(modes, moved, #[trigger] cv[k], i),
        forall|d: DevicePosition|
            #[trigger] last_source(modes, moved, d, i) is Some ==> exists|k: int| 0 <= k < cv.len() && cv[k].0 == d,
    ensures
        forall|k: int| 0 <= k < cv.len() ==> collected_entry_ok(modes, moved, #[trigger] cv[k], i + 1),
        forall|d: DevicePosition|
            #[trigger] last_source(modes, moved, d, i + 1) is Some ==> exists|k: int| 0 <= k < cv.len() && cv[k].0 == d,
{
    lemma_no_receiver(modes, moved, i);
    assert forall|k: int| 0 <= k < cv.len() implies collected_entry_ok(modes, moved, #[trigger] cv[k], i + 1) by {
        assert(collected_entry_ok(modes, moved, cv[k], i));
        assert(last_source(modes, moved, cv[k].0, i + 1) == last_source(modes, moved, cv[k].0, i));
    }
    assert forall|d: DevicePosition| #[trigger] last_source(modes, moved, d, i + 1) is Some implies exists|k: int|
        0 <= k < cv.len() && cv[k].0 == d by {
        assert(last_source(modes, moved, d, i + 1) == last_source(modes, moved, d, i));
    }
}

/// Keeps pattern `i`, which rotation does not apply to.
fn keep_pattern(
    kept: &mut Vec<(DevicePosition, EffectMode)>,
    position: DevicePosition,
    mode: EffectMode,
    Ghost(modes): Ghost<Seq<(DevicePosition, EffectMode)>>,
    Ghost(i): Ghost<int>,
)
    requires
        0 <= i < modes.len(),
        modes[i] == (position, mode),
        !spec_is_rotation_applicable(position),
        distinct_positions(modes),
        distinct_positions(old(kept)@),
        forall|k: int|
            0 <= k < old(kept)@.len() ==> !spec_is_rotation_applicable(#[trigger] old(kept)@[k].0) && exists|j: int|
                0 <= j < i && modes[j] == old(kept)@[k],
        forall|j: int|
            0 <= j < i && !spec_is_rotation_applicable(#[trigger] modes[j].0) ==> exists|k: int|
                0 <= k < old(kept)@.len() && old(kept)@[k] == modes[j],
    ensures
        distinct_positions(final(kept)@),
        forall|k: int|
            0 <= k < final(kept)@.len() ==> !spec_is_rotation_applicable(#[trigger] final(kept)@[k].0) && exists|j: int|
                0 <= j < i + 1 && modes[j] == final(kept)@[k],
        forall|j: int|
            0 <= j < i + 1 && !spec_is_rotation_applicable(#[trigger] modes[j].0) ==> exists|k: int|
                0 <= k < final(kept)@.len() && final(kept)@[k] == modes[j],
{
    let ghost old_kept = kept@;
    kept.push((position, mode));
    assert forall|a: int, b: int| 0 <= a < b < kept@.len() implies kept@[a].0 != kept@[b].0 by {
        if b == kept@.len() - 1 {
            assert(kept@[a] == old_kept[a]);
            assert(!spec_is_rotation_applicable(old_kept[a].0));
            let j = choose|j: int| 0 <= j < i && modes[j] == old_kept[a];
            assert(modes[j].0 != modes[i].0);
        } else {
            assert(kept@[a] == old_kept[a] && kept@[b] == old_kept[b]);
        }
    }
    assert forall|k: int|
        0 <= k < kept@.len() implies !spec_is_rotation_applicable(#[trigger] kept@[k].0) && exists|j: int|
            0 <= j < i + 1 && modes[j] == kept@[k] by {
        if k == kept@.len() - 1 {
            assert(modes[i] == kept@[k]);
        } else {
            assert(kept@[k] == old_kept[k]);
        }
    }
    assert forall|j: int|
        0 <= j < i + 1 && !spec_is_rotation_applicable(#[trigger] modes[j].0) implies exists|k: int|
            0 <= k < kept@.len() && kept@[k] == modes[j] by {
        if j == i {
            assert(kept@[kept@.len() - 1] == modes[j]);
        } else {
            let k = choose|k: int| 0 <= k < old_kept.len() && old_kept[k] == modes[j];
            assert(kept@[k] == old_kept[k]);
        }
    }
}

/// The effect after rotation (see [`rotated_modes`]); `None` when it keeps no pattern.
///
/// `moved[i]` holds where rotation moved each point of pattern `i` (see
/// [`rotation_points`]); it is not read for patterns on positions that rotation does not
/// apply to. Moved points land only on positions that rotation applies to.
pub fn rotate_effect(effect: HapticEffect, moved: Vec<Vec<Option<(DevicePosition, EffectPathModePoint)>>>) -> (r: Option<HapticEffect>)
    requires
        effect.wf(),
        moved@.len() == effect.modes@.len(),
        forall|i: int, j: int|
            0 <= i < moved@.len() && 0 <= j < moved@[i]@.len() ==> (#[trigger] moved@[i]@[j] matches Some(x)
                ==> spec_is_rotation_applicable(x.0)),
        forall|i: int|
            0 <= i < effect.modes@.len() && spec_is_rotation_applicable(#[trigger] effect.modes@[i].0)
                && group_points(moved@[i]@).len() > 0 ==> has_feedback(effect.modes@[i].1),
    ensures
        match r {
            Some(e) => {
                &&& e.name == effect.name
                &&& e.offset_time == effect.offset_time
                &&& e.start_time == effect.start_time
                &&& e.modes@.len() > 0
                &&& e.wf()
                &&& rotated_modes(effect.modes@, moved_view(moved@), e.modes@)
            },
            None => {
                &&& forall|i: int|
                    0 <= i < effect.modes@.len() ==> spec_is_rotation_applicable(#[trigger] effect.modes@[i].0)
                &&& forall|d: DevicePosition|
                    #[trigger] last_source(effect.modes@, moved_view(moved@), d, effect.modes@.len() as int)
                        is None
            },
        },
{
    let ghost modes0 = effect.modes@;
    let ghost moved0 = moved_view(moved@);
    let HapticEffect { name, offset_time, start_time, modes } = effect;
    let mut modes = modes;
    let mut moved = moved;
    let n: usize = modes.len();
    let mut kept: Vec<(DevicePosition, EffectMode)> = Vec::new();
    let mut collected: Vec<(DevicePosition, (EffectFeedbackPlaybackType, Vec<EffectPathModePoint>))> = Vec::new();
    proof {
        assert forall|a: int, b: int|
            0 <= a < moved0.len() && 0 <= b < moved0[a].len() implies (#[trigger] moved0[a][b] matches Some(x)
                ==> spec_is_rotation_applicable(x.0)) by {
            assert(moved0[a] == moved@[a]@);
            assert(moved@[a]@[b] matches Some(x) ==> spec_is_rotation_applicable(x.0));
        }
        assert forall|a: int|
            0 <= a < modes0.len() && spec_is_rotation_applicable(#[trigger] modes0[a].0) && group_points(
                moved0[a],
            ).len() > 0 implies has_feedback(modes0[a].1) by {
            assert(moved0[a] == moved@[a]@);
        }
        assert(modes@ =~= modes0.subrange(0, n as int));
        assert(moved_view(moved@) =~= moved0.subrange(0, n as int));
    }
    let mut i: usize = 0;
    while i < n
        invariant
            n == modes0.len(),
            moved0.len() == n,
            i <= n,
            distinct_positions(modes0),
            forall|a: int, b: int|
                0 <= a < moved0.len() && 0 <= b < moved0[a].len() ==> (#[trigger] moved0[a][b] matches Some(x)
                    ==> spec_is_rotation_applicable(x.0)),
            forall|a: int|
                0 <= a < modes0.len() && spec_is_rotation_applicable(#[trigger] modes0[a].0) && group_points(
                    moved0[a],
                ).len() > 0 ==> has_feedback(modes0[a].1),
            modes@ == modes0.subrange(i as int, n as int),
            moved_view(moved@) == moved0.subrange(i as int, n as int),
            distinct_positions(kept@),
            forall|k: int|
                0 <= k < kept@.len() ==> !spec_is_rotation_applicable(#[trigger] kept@[k].0) && exists|j: int|
                    0 <= j < i && modes0[j] == kept@[k],
            forall|j: int|
                0 <= j < i && !spec_is_rotation_applicable(#[trigger] modes0[j].0) ==> exists|k: int|
                    0 <= k < kept@.len() && kept@[k] == modes0[j],
            distinct_positions(collected_view(collected@)),
            forall|k: int|
                0 <= k < collected@.len() ==> collected_entry_ok(
                    modes0,
                    moved0,
                    #[trigger] collected_view(collected@)[k],
                    i as int,
                ),
            forall|d: DevicePosition|
                #[trigger] last_source(modes0, moved0, d, i as int) is Some ==> exists|k: int|
                    0 <= k < collected@.len() && collected_view(collected@)[k].0 == d,
        decreases n - i,
    {
        let ghost old_modes = modes@;
        let ghost old_moved = moved@;
        assert(moved_view(old_moved).len() == old_moved.len());
        let (position, mode) = modes.remove(0);
        let moved_points = moved.remove(0);
        proof {
            assert(old_modes[0] == modes0[i as int]);
            assert(moved_view(old_moved)[0] == old_moved[0]@);
            assert(moved_view(old_moved)[0] == moved0[i as int]);
            assert(modes@ =~= modes0.subrange(i + 1, n as int));
            assert forall|k: int| 0 <= k < moved@.len() implies moved_view(moved@)[k] == moved0[i + 1 + k] by {
                assert(moved@[k] == old_moved[k + 1]);
                assert(moved_view(old_moved)[k + 1] == old_moved[k + 1]@);
            }
            assert(moved_view(moved@) =~= moved0.subrange(i + 1, n as int));
        }
        if !TactFileProject::is_rotation_applicable(&position) {
            proof {
                lemma_collected_carry(modes0, moved0, collected_view(collected@), i as int);
            }
            keep_pattern(&mut kept, position, mode, Ghost(modes0), Ghost(i as int));
        } else {
            let groups = group_by_device(&moved_points);
            if groups.len() > 0 {
                let playback = first_feedback_playback(&mode);
                collect_groups(&mut collected, groups, playback, Ghost(modes0), Ghost(moved0), Ghost(i as int));
            } else {
                proof {
                    lemma_collected_carry(modes0, moved0, collected_view(collected@), i as int);
                }
            }
        }
        i = i + 1;
    }
    assemble_rotated(name, offset_time, start_time, kept, collected, Ghost(modes0), Ghost(moved0))
}

/// The kept patterns followed by the collected rotated patterns are the rotated effect's
/// patterns.
#[verifier::spinoff_prover]
#[verifier::rlimit(40)]
proof fn lemma_assembled(
    modes: Seq<(DevicePosition, EffectMode)>,
    moved: Seq<Seq<Option<(DevicePosition, EffectPathModePoint)>>>,
    kept0: Seq<(DevicePosition, EffectMode)>,
    cv0: Seq<(DevicePosition, (EffectFeedbackPlaybackType, Seq<EffectPathModePoint>))>,
    out: Seq<(DevicePosition, EffectMode)>,
)
    requires
        distinct_positions(kept0),
        forall|k: int|
            0 <= k < kept0.len() ==> !spec_is_rotation_applicable(#[trigger] kept0[k].0) && exists|j: int|
                0 <= j < modes.len() && modes[j] == kept0[k],
        forall|j: int|
            0 <= j < modes.len() && !spec_is_rotation_applicable(#[trigger] modes[j].0) ==> exists|k: int|
                0 <= k < kept0.len() && kept0[k] == modes[j],
        distinct_positions(cv0),
        forall|k: int| 0 <= k < cv0.len() ==> collected_entry_ok(modes, moved, #[trigger] cv0[k], modes.len() as int),
        forall|d: DevicePosition|
            #[trigger] last_source(modes, moved, d, modes.len() as int) is Some ==> exists|k: int|
                0 <= k < cv0.len() && cv0[k].0 == d,
        out.len() == kept0.len() + cv0.len(),
        forall|k: int| 0 <= k < kept0.len() ==> #[trigger] out[k] == kept0[k],
        forall|t: int|
            0 <= t < cv0.len() ==> (#[trigger] out[kept0.len() + t]).0 == cv0[t].0 && is_rotated_pattern(
                out[kept0.len() + t].1,
                cv0[t].1.0,
                cv0[t].1.1,
            ),
    ensures
        rotated_modes(modes, moved, out),
{
    let base = kept0.len();
    assert forall|k: int|
        0 <= k < out.len() && !spec_is_rotation_applicable(#[trigger] out[k].0) implies k < base by {
        if k >= base {
            assert(collected_entry_ok(modes, moved, cv0[k - base], modes.len() as int));
            assert(out[base + (k - base)].0 == cv0[k - base].0);
        }
    }
    assert forall|a: int, b: int| 0 <= a < b < out.len() implies out[a].0 != out[b].0 by {
        if b < base {
            assert(out[a] == kept0[a] && out[b] == kept0[b]);
        } else if a >= base {
            assert(out[base + (a - base)].0 == cv0[a - base].0);
            assert(out[base + (b - base)].0 == cv0[b - base].0);
        } else {
            assert(out[a] == kept0[a]);
            assert(collected_entry_ok(modes, moved, cv0[b - base], modes.len() as int));
            assert(out[base + (b - base)].0 == cv0[b - base].0);
        }
    }
    assert forall|k: int|
        0 <= k < out.len() && !spec_is_rotation_applicable(#[trigger] out[k].0) implies exists|i: int|
            0 <= i < modes.len() && modes[i] == out[k] by {
        assert(out[k] == kept0[k]);
    }
    assert forall|k: int|
        0 <= k < out.len() && spec_is_rotation_applicable(#[trigger] out[k].0) implies {
            &&& last_source(modes, moved, out[k].0, modes.len() as int) is Some
            &&& is_rotated_pattern(
                out[k].1,
                first_playback(modes[last_source(modes, moved, out[k].0, modes.len() as int)->Some_0].1),
                group_of(moved[last_source(modes, moved, out[k].0, modes.len() as int)->Some_0], out[k].0),
            )
        } by {
        if k < base {
            assert(out[k] == kept0[k]);
        } else {
            let t = k - base;
            assert(out[base + t].0 == cv0[t].0);
            assert(collected_entry_ok(modes, moved, cv0[t], modes.len() as int));
        }
    }
    assert forall|i: int|
        0 <= i < modes.len() && !spec_is_rotation_applicable(#[trigger] modes[i].0) implies exists|k: int|
            0 <= k < out.len() && out[k] == modes[i] by {
        let k = choose|k: int| 0 <= k < kept0.len() && kept0[k] == modes[i];
        assert(out[k] == kept0[k]);
    }
    assert forall|d: DevicePosition|
        #[trigger] last_source(modes, moved, d, modes.len() as int) is Some implies exists|k: int|
            0 <= k < out.len() && out[k].0 == d by {
        let t = choose|t: int| 0 <= t < cv0.len() && cv0[t].0 == d;
        assert(out[base + t].0 == cv0[t].0);
    }
}

/// Puts the kept patterns and the collected rotated patterns together into the rotated
/// effect; `None` when there are none.
fn assemble_rotated(
    name: Option<String>,
    offset_time: u32,
    start_time: u32,
    kept: Vec<(DevicePosition, EffectMode)>,
    collected: Vec<(DevicePosition, (EffectFeedbackPlaybackType, Vec<EffectPathModePoint>))>,
    Ghost(modes): Ghost<Seq<(DevicePosition, EffectMode)>>,
    Ghost(moved): Ghost<Seq<Seq<Option<(DevicePosition, EffectPathModePoint)>>>>,
) -> (r: Option<HapticEffect>)
    requires
        distinct_positions(kept@),
        forall|k: int|
            0 <= k < kept@.len() ==> !spec_is_rotation_applicable(#[trigger] kept@[k].0) && exists|j: int|
                0 <= j < modes.len() && modes[j] == kept@[k],
        forall|j: int|
            0 <= j < modes.len() && !spec_is_rotation_applicable(#[trigger] modes[j].0) ==> exists|k: int|
                0 <= k < kept@.len() && kept@[k] == modes[j],
        distinct_positions(collected_view(collected@)),
        forall|k: int|
            0 <= k < collected@.len() ==> collected_entry_ok(
                modes,
                moved,
                #[trigger] collected_view(collected@)[k],
                modes.len() as int,
            ),
        forall|d: DevicePosition|
            #[trigger] last_source(modes, moved, d, modes.len() as int) is Some ==> exists|k: int|
                0 <= k < collected@.len() && collected_view(collected@)[k].0 == d,
    ensures
        match r {
            Some(e) => {
                &&& e.name == name
                &&& e.offset_time == offset_time
                &&& e.start_time == start_time
                &&& e.modes@.len() > 0
                &&& rotated_modes(modes, moved, e.modes@)
            },
            None => {
                &&& forall|i: int| 0 <= i < modes.len() ==> spec_is_rotation_applicable(#[trigger] modes[i].0)
                &&& forall|d: DevicePosition| #[trigger] last_source(modes, moved, d, modes.len() as int) is None
            },
        },
{
    let ghost kept0 = kept@;
    let ghost cv0 = collected_view(collected@);
    let ghost base = kept0.len();
    let mut out = kept;
    let mut collected = collected;
    let m: usize = collected.len();
    let mut c: usize = 0;
    assert(collected_view(collected@) =~= cv0.subrange(0, m as int));
    while c < m
        invariant
            m == cv0.len(),
            c <= m,
            out@.len() == base + c,
            forall|k: int| 0 <= k < base ==> #[trigger] out@[k] == kept0[k],
            forall|t: int|
                0 <= t < c ==> (#[trigger] out@[base + t]).0 == cv0[t].0 && is_rotated_pattern(
                    out@[base + t].1,
                    cv0[t].1.0,
                    cv0[t].1.1,
                ),
            collected_view(collected@) == cv0.subrange(c as int, m as int),
        decreases m - c,
    {
        let ghost before = collected@;
        let ghost cview = collected_view(collected@);
        assert(cview.len() == before.len());
        assert(cview[0] == (before[0].0, (before[0].1.0, before[0].1.1@)));
        let (d, (playback, points)) = collected.remove(0);
        assert(cv0[c as int] == (d, (playback, points@)));
        assert forall|k: int| 0 <= k < collected@.len() implies collected_view(collected@)[k] == cv0[c + 1 + k] by {
            assert(collected@[k] == before[k + 1]);
            assert(cview[k + 1] == (before[k + 1].0, (before[k + 1].1.0, before[k + 1].1.1@)));
        }
        assert(collected_view(collected@) =~= cv0.subrange(c + 1, m as int));
        let mut feedback: Vec<EffectPathModeFeedback> = Vec::new();
        feedback.push(
            EffectPathModeFeedback {
                playback_type: playback,
                moving_pattern: EffectPathModeMovingPattern::ConstSpeed,
                visible: true,
                point_list: points,
            },
        );
        out.push((d, EffectMode::PathMode { path_mode: EffectPathMode { feedback } }));
        c = c + 1;
    }
    proof {
        lemma_assembled(modes, moved, kept0, cv0, out@);
    }
    if out.len() == 0 {
        proof {
            assert forall|i: int| 0 <= i < modes.len() implies spec_is_rotation_applicable(#[trigger] modes[i].0) by {
                if !spec_is_rotation_applicable(modes[i].0) {
                    let k = choose|k: int| 0 <= k < kept0.len() && kept0[k] == modes[i];
                }
            }
            assert forall|d: DevicePosition| #[trigger] last_source(modes, moved, d, modes.len() as int) is None by {
                if last_source(modes, moved, d, modes.len() as int) is Some {
                    let t = choose|t: int| 0 <= t < cv0.len() && cv0[t].0 == d;
                }
            }
        }
        None
    } else {
        Some(HapticEffect { name, offset_time, start_time, modes: out })
    }
}

/// The points among `moved` that land on device `d`, in order.
pub open spec fn points_on(moved: Seq<Option<(DevicePosition, EffectPathModePoint)>>, d: DevicePosition) -> Seq<
    EffectPathModePoint,
>
    decreases moved.len(),
{
    if moved.len() == 0 {
        seq![]
    } else {
        match moved.last() {
            Some((e, p)) => if e == d {
                points_on(moved.drop_last(), d).push(p)
            } else {
                points_on(moved.drop_last(), d)
            },
            None => points_on(moved.drop_last(), d),
        }
    }
}

/// Where an entry is found depends on the keys alone.
proof fn lemma_entry_of_same_keys<M>(a: Seq<(DevicePosition, M)>, b: Seq<(DevicePosition, M)>, d: DevicePosition)
    requires
        a.len() == b.len(),
        forall|i: int| 0 <= i < a.len() ==> #[trigger] a[i].0 == b[i].0,
    ensures
        entry_of(a, d) == entry_of(b, d),
    decreases a.len(),
{
    if a.len() > 0 {
        assert forall|i: int| 0 <= i < a.drop_last().len() implies #[trigger] a.drop_last()[i].0 == b.drop_last()[i].0 by {
            assert(a.drop_last()[i] == a[i] && b.drop_last()[i] == b[i]);
        }
        lemma_entry_of_same_keys(a.drop_last(), b.drop_last(), d);
        assert(a.last().0 == b.last().0) by {
            assert(a[a.len() - 1].0 == b[b.len() - 1].0);
        }
    }
}

/// Grouping loses and repeats no point: device `d` has a group exactly when some point
/// lands on it, and the group holds the points that land on `d`, in order.
pub proof fn lemma_groups_are_points_on(moved: Seq<Option<(DevicePosition, EffectPathModePoint)>>, d: DevicePosition)
    ensures
        entry_of(group_points(moved), d) is Some <==> points_on(moved, d).len() > 0,
        entry_of(group_points(moved), d) is Some ==> group_of(moved, d) == points_on(moved, d),
    decreases moved.len(),
{
    if moved.len() > 0 {
        let rest = moved.drop_last();
        let groups = group_points(rest);
        lemma_groups_are_points_on(rest, d);
        lemma_groups_distinct(rest);
        lemma_entry_of_finds(groups, d);
        match moved.last() {
            Some((e, p)) => {
                lemma_entry_of_finds(groups, e);
                match entry_of(groups, e) {
                    Some(k) => {
                        let updated = groups.update(k, (e, groups[k].1.push(p)));
                        lemma_entry_of_same_keys(groups, updated, d);
                        if e == d {
                            assert(entry_of(groups, d) == Some(k));
                        }
                    },
                    None => {
                        let pushed = groups.push((e, seq![p]));
                        if e != d {
                            assert(pushed.drop_last() =~= groups);
                        } else {
                            assert(pushed.drop_last() =~= groups);
                            assert(entry_of(pushed, d) == Some(groups.len() as int));
                        }
                    },
                }
            },
            None => {},
        }
    }
}

} // verus!
