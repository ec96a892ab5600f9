//! Which mapper turns path points into dots on each device position, and how the dots
//! of several path points are merged.
use vstd::prelude::*;
use crate::device::DevicePosition;
use crate::tact::distinct_positions;
use crate::tact::frame::{DotPoint, DOT_MAX_INTENSITY};

verus! {

/// The mapper registered for each device position.
///
/// A mapper is whatever spreads a path point over motors; no device position has two.
pub struct PositionMapper<M> {
    device_position_mappers: Vec<(DevicePosition, M)>,
}

/// The place of the entry for `device` among `entries`, if any.
pub open spec fn entry_of<M>(entries: Seq<(DevicePosition, M)>, device: DevicePosition) -> Option<int>
    decreases entries.len(),
{
    if entries.len() == 0 {
        None
    } else if entries.last().0 == device {
        Some(entries.len() - 1)
    } else {
        entry_of(entries.drop_last(), device)
    }
}

impl<M> PositionMapper<M> {
    /// The registered mappers, by device position.
    pub closed spec fn entries(&self) -> Seq<(DevicePosition, M)> {
        self.device_position_mappers@
    }

    /// No device position has two mappers.
    pub closed spec fn wf(&self) -> bool {
        distinct_positions(self.device_position_mappers@)
    }

    /// A position mapper with the given mapper per device position.
    pub fn new(device_position_mapper: Vec<(DevicePosition, M)>) -> (r: Self)
        requires
            distinct_positions(device_position_mapper@),
        ensures
            r.entries() == device_position_mapper@,
            r.wf(),
    {
        PositionMapper { device_position_mappers: device_position_mapper }
    }

    /// The mapper for `device`; `None` when no mapper is registered for it.
    pub fn get(&self, device: &DevicePosition) -> (r: Option<&M>)
        ensures
            match entry_of(self.entries(), *device) {
                Some(k) => r == Some(&self.entries()[k].1),
                None => r is None,
            },
    {
        let mut i: usize = self.device_position_mappers.len();
        assert(self.device_position_mappers@.take(i as int) =~= self.device_position_mappers@);
        while i > 0
            invariant
                i <= self.device_position_mappers@.len(),
                entry_of(self.device_position_mappers@, *device) == entry_of(
                    self.device_position_mappers@.take(i as int),
                    *device,
                ),
            decreases i,
        {
            let ghost s = self.device_position_mappers@.take(i as int);
            if self.device_position_mappers[i - 1].0 == *device {
                return Some(&self.device_position_mappers[i - 1].1);
            }
            assert(s.drop_last() =~= self.device_position_mappers@.take(i - 1));
            i = i - 1;
        }
        None
    }
}

/// The entry found for a device is the one registered for it.
pub proof fn lemma_entry_of_finds<M>(entries: Seq<(DevicePosition, M)>, device: DevicePosition)
    ensures
        entry_of(entries, device) matches Some(k) ==> 0 <= k < entries.len() && entries[k].0
            == device,
        entry_of(entries, device) is None ==> forall|k: int|
            0 <= k < entries.len() ==> #[trigger] entries[k].0 != device,
    decreases entries.len(),
{
    if entries.len() > 0 {
        lemma_entry_of_finds(entries.drop_last(), device);
        if entries.last().0 != device {
            assert forall|k: int| 0 <= k < entries.len() - 1 implies #[trigger] entries[k].0
                == entries.drop_last()[k].0 by {}
        }
    }
}

/// The first dot among `points` with the given motor index, if any.
pub open spec fn first_dot_with_index(points: Seq<DotPoint>, index: usize) -> Option<int> {
    if exists|k: int| 0 <= k < points.len() && points[k].index == index {
        Some(
            choose|k: int|
                0 <= k < points.len() && points[k].index == index && forall|j: int|
                    0 <= j < k ==> points[j].index != index,
        )
    } else {
        None
    }
}

/// Every dot is in range and no motor index occurs twice.
pub open spec fn dots_wf(points: Seq<DotPoint>) -> bool {
    &&& forall|k: int| 0 <= k < points.len() ==> (#[trigger] points[k]).wf()
    &&& forall|i: int, j: int|
        0 <= i < j < points.len() ==> (#[trigger] points[i]).index != (#[trigger] points[j]).index
}

/// Merges one mapped motor into the dots of several path points: a motor that has no dot
/// yet gets a new one with intensity `fresh_intensity` (capped at 100); a motor that has
/// one gets `added_intensity` added to the first such dot, capped at 100.
pub fn accumulate_dot_point(
    points: &mut Vec<DotPoint>,
    index: usize,
    fresh_intensity: u32,
    added_intensity: u32,
)
    requires
        first_dot_with_index(old(points)@, index) matches Some(k) ==> old(points)@[k].intensity
            + added_intensity <= u32::MAX,
    ensures
        match first_dot_with_index(old(points)@, index) {
            None => final(points)@ == old(points)@.push(
                DotPoint {
                    index,
                    intensity: if fresh_intensity <= DOT_MAX_INTENSITY {
                        fresh_intensity
                    } else {
                        DOT_MAX_INTENSITY
                    },
                },
            ),
            Some(k) => final(points)@ == old(points)@.update(
                k,
                DotPoint {
                    index,
                    intensity: if old(points)@[k].intensity + added_intensity
                        <= DOT_MAX_INTENSITY {
                        (old(points)@[k].intensity + added_intensity) as u32
                    } else {
                        DOT_MAX_INTENSITY
                    },
                },
            ),
        },
        dots_wf(old(points)@) ==> dots_wf(final(points)@),
{
    let mut i: usize = 0;
    while i < points.len()
        invariant
            i <= points@.len(),
            points@ == old(points)@,
            forall|j: int| 0 <= j < i ==> points@[j].index != index,
            first_dot_with_index(old(points)@, index) matches Some(k) ==> old(points)@[k].intensity
                + added_intensity <= u32::MAX,
        decreases points@.len() - i,
    {
        if points[i].index == index {
            assert(first_dot_with_index(old(points)@, index) == Some(i as int)) by {
                let k = choose|k: int|
                    0 <= k < points@.len() && points@[k].index == index && forall|j: int|
                        0 <= j < k ==> points@[j].index != index;
                assert(points@[i as int].index == index);
                if k < i {
                } else if k > i {
                }
            }
            assert(old(points)@[i as int].intensity + added_intensity <= u32::MAX);
            let sum: u32 = points[i].intensity + added_intensity;
            let capped: u32 = if sum <= DOT_MAX_INTENSITY { sum } else { DOT_MAX_INTENSITY };
            points.set(i, DotPoint { index, intensity: capped });
            return;
        }
        i = i + 1;
    }
    assert(first_dot_with_index(old(points)@, index) is None);
    points.push(DotPoint::new(index, fresh_intensity));
}

} // verus!
