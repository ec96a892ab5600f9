use vstd::prelude::*;

verus! {

/// A position on the body where a haptic device can be worn.
///
/// Each position has a fixed numeric representation (see [`DevicePosition::repr`]).
#[derive(Clone, Copy, Debug, PartialEq, Eq, Structural, Hash)]
pub enum DevicePosition {
    Vest,
    ForearmL,
    ForearmR,
    Head,
    HandL,
    HandR,
    FootL,
    FootR,
    GloveL,
    GloveR,
    Tactal,
    VestFront,
    VestBack,
}

/// The numeric representation of a device position.
pub open spec fn position_repr(p: DevicePosition) -> u8 {
    match p {
        DevicePosition::Vest => 0,
        DevicePosition::ForearmL => 1,
        DevicePosition::ForearmR => 2,
        DevicePosition::Head => 3,
        DevicePosition::HandL => 4,
        DevicePosition::HandR => 5,
        DevicePosition::FootL => 6,
        DevicePosition::FootR => 7,
        DevicePosition::GloveL => 8,
        DevicePosition::GloveR => 9,
        DevicePosition::Tactal => 200,
        DevicePosition::VestFront => 201,
        DevicePosition::VestBack => 202,
    }
}

/// The device position whose representation is `v`, if any.
pub open spec fn position_from_repr(v: u8) -> Option<DevicePosition> {
    if v == 0 { Some(DevicePosition::Vest) }
    else if v == 1 { Some(DevicePosition::ForearmL) }
    else if v == 2 { Some(DevicePosition::ForearmR) }
    else if v == 3 { Some(DevicePosition::Head) }
    else if v == 4 { Some(DevicePosition::HandL) }
    else if v == 5 { Some(DevicePosition::HandR) }
    else if v == 6 { Some(DevicePosition::FootL) }
    else if v == 7 { Some(DevicePosition::FootR) }
    else if v == 8 { Some(DevicePosition::GloveL) }
    else if v == 9 { Some(DevicePosition::GloveR) }
    else if v == 200 { Some(DevicePosition::Tactal) }
    else if v == 201 { Some(DevicePosition::VestFront) }
    else if v == 202 { Some(DevicePosition::VestBack) }
    else { None }
}

pub open spec fn spec_is_right(p: DevicePosition) -> bool {
    p == DevicePosition::GloveR || p == DevicePosition::HandR || p == DevicePosition::ForearmR
        || p == DevicePosition::FootR
}

pub open spec fn spec_is_left(p: DevicePosition) -> bool {
    p == DevicePosition::GloveL || p == DevicePosition::HandL || p == DevicePosition::ForearmL
        || p == DevicePosition::FootL
}

impl DevicePosition {
    /// The numeric representation of this position.
    pub fn repr(&self) -> (r: u8)
        ensures
            r == position_repr(*self),
    {
        match self {
            DevicePosition::Vest => 0,
            DevicePosition::ForearmL => 1,
            DevicePosition::ForearmR => 2,
            DevicePosition::Head => 3,
            DevicePosition::HandL => 4,
            DevicePosition::HandR => 5,
            DevicePosition::FootL => 6,
            DevicePosition::FootR => 7,
            DevicePosition::GloveL => 8,
            DevicePosition::GloveR => 9,
            DevicePosition::Tactal => 200,
            DevicePosition::VestFront => 201,
            DevicePosition::VestBack => 202,
        }
    }

    /// The position with the numeric representation `v`; `None` when no position has it.
    pub fn from_repr(v: u8) -> (r: Option<DevicePosition>)
        ensures
            r == position_from_repr(v),
    {
        match v {
            0 => Some(DevicePosition::Vest),
            1 => Some(DevicePosition::ForearmL),
            2 => Some(DevicePosition::ForearmR),
            3 => Some(DevicePosition::Head),
            4 => Some(DevicePosition::HandL),
            5 => Some(DevicePosition::HandR),
            6 => Some(DevicePosition::FootL),
            7 => Some(DevicePosition::FootR),
            8 => Some(DevicePosition::GloveL),
            9 => Some(DevicePosition::GloveR),
            200 => Some(DevicePosition::Tactal),
            201 => Some(DevicePosition::VestFront),
            202 => Some(DevicePosition::VestBack),
            _ => None,
        }
    }

    /// Whether the position is on the right side of the body.
    pub fn is_right(&self) -> (r: bool)
        ensures
            r == spec_is_right(*self),
    {
        match self {
            DevicePosition::GloveR | DevicePosition::HandR | DevicePosition::ForearmR
            | DevicePosition::FootR => true,
            _ => false,
        }
    }

    /// Whether the position is on the left side of the body.
    pub fn is_left(&self) -> (r: bool)
        ensures
            r == spec_is_left(*self),
    {
        match self {
            DevicePosition::GloveL | DevicePosition::HandL | DevicePosition::ForearmL
            | DevicePosition::FootL => true,
            _ => false,
        }
    }
}

/// Reading a position back from its representation gives the position.
pub proof fn lemma_position_repr_roundtrip(p: DevicePosition)
    ensures
        position_from_repr(position_repr(p)) == Some(p),
{
}

/// A representation that names a position is that position's representation.
pub proof fn lemma_position_from_repr_inverse(v: u8)
    ensures
        position_from_repr(v) matches Some(p) ==> position_repr(p) == v,
{
}

/// No position is on both the left and the right side.
pub proof fn lemma_left_right_exclusive(p: DevicePosition)
    ensures
        !(spec_is_left(p) && spec_is_right(p)),
{
}

/// Models of haptic devices.
#[derive(Clone, Copy, Debug, PartialEq, Eq, Structural, Hash)]
pub enum DeviceModel {
    Tactosy,
    Tactosy2,
    /// Tactosy for Hands
    TactosyH,
    /// Tactosy for Feet
    TactosyF,
    /// Developer Kit of Haptic Vests with 40 motors
    Tactot,
    /// Developer Kit of Haptic Vests with 40 motors
    Tactot2,
    /// Developer Kit of Haptic Vests with 40 motors
    Tactot3,
    /// 1st generation of the Vest with 16 motors
    TactSuitX16,
    /// 1st generation of the Vest with 40 motors
    TactSuitX40,
    /// 2nd generation of the Vest with 16 motors
    TactSuitAir,
    /// 2nd generation of the Vest with 32 motors
    TactSuitPro,
    /// 1st generation of Facial Interface with 5 motors
    Tactal,
    /// 2nd generation of Facial Interface with 4 motors
    TactVisor,
}

/// The positions where a device of the given model can be worn.
pub open spec fn spec_possible_positions(m: DeviceModel) -> Seq<DevicePosition> {
    match m {
        DeviceModel::Tactosy | DeviceModel::Tactosy2 => seq![
            DevicePosition::ForearmL,
            DevicePosition::ForearmR,
        ],
        DeviceModel::TactosyH => seq![DevicePosition::HandL, DevicePosition::HandR],
        DeviceModel::TactosyF => seq![DevicePosition::FootL, DevicePosition::FootR],
        DeviceModel::Tactot | DeviceModel::Tactot2 | DeviceModel::Tactot3
        | DeviceModel::TactSuitX16 | DeviceModel::TactSuitX40 | DeviceModel::TactSuitAir
        | DeviceModel::TactSuitPro => seq![DevicePosition::Vest],
        DeviceModel::Tactal | DeviceModel::TactVisor => seq![DevicePosition::Head],
    }
}

impl DeviceModel {
    /// The positions where a device of this model can be worn.
    pub fn possible_positions(&self) -> (r: Vec<DevicePosition>)
        ensures
            r@ == spec_possible_positions(*self),
    {
        match self {
            DeviceModel::Tactosy | DeviceModel::Tactosy2 => {
                vec![DevicePosition::ForearmL, DevicePosition::ForearmR]
            },
            DeviceModel::TactosyH => vec![DevicePosition::HandL, DevicePosition::HandR],
            DeviceModel::TactosyF => vec![DevicePosition::FootL, DevicePosition::FootR],
            DeviceModel::Tactot | DeviceModel::Tactot2 | DeviceModel::Tactot3
            | DeviceModel::TactSuitX16 | DeviceModel::TactSuitX40 | DeviceModel::TactSuitAir
            | DeviceModel::TactSuitPro => vec![DevicePosition::Vest],
            DeviceModel::Tactal | DeviceModel::TactVisor => vec![DevicePosition::Head],
        }
    }
}

/// A paired model is worn on one left and one right position, the left one first; every
/// other model has exactly one position.
pub proof fn lemma_possible_positions_sides(m: DeviceModel)
    ensures
        spec_possible_positions(m).len() == 2 ==> spec_is_left(spec_possible_positions(m)[0])
            && spec_is_right(spec_possible_positions(m)[1]),
        spec_possible_positions(m).len() == 1 || spec_possible_positions(m).len() == 2,
{
}

} // verus!
