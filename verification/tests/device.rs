use senseshift::device::{DeviceModel, DevicePosition};

#[test]
fn sides() {
    assert!(DevicePosition::ForearmL.is_left());
    assert!(!DevicePosition::ForearmL.is_right());
    assert!(DevicePosition::GloveR.is_right());
    assert!(!DevicePosition::Vest.is_left());
    assert!(!DevicePosition::Vest.is_right());
    assert!(!DevicePosition::Head.is_left());
}

#[test]
fn repr_round_trip() {
    let all = [
        DevicePosition::Vest,
        DevicePosition::ForearmL,
        DevicePosition::ForearmR,
        DevicePosition::Head,
        DevicePosition::HandL,
        DevicePosition::HandR,
        DevicePosition::FootL,
        DevicePosition::FootR,
        DevicePosition::GloveL,
        DevicePosition::GloveR,
        DevicePosition::Tactal,
        DevicePosition::VestFront,
        DevicePosition::VestBack,
    ];
    for p in all {
        assert_eq!(DevicePosition::from_repr(p.repr()), Some(p));
        assert!(!(p.is_left() && p.is_right()));
    }
    assert_eq!(DevicePosition::Vest.repr(), 0);
    assert_eq!(DevicePosition::from_repr(250), None);
}

#[test]
fn possible_positions() {
    assert_eq!(
        DeviceModel::Tactosy2.possible_positions(),
        vec![DevicePosition::ForearmL, DevicePosition::ForearmR]
    );
    assert_eq!(
        DeviceModel::TactosyH.possible_positions(),
        vec![DevicePosition::HandL, DevicePosition::HandR]
    );
    assert_eq!(
        DeviceModel::TactosyF.possible_positions(),
        vec![DevicePosition::FootL, DevicePosition::FootR]
    );
    assert_eq!(DeviceModel::TactSuitPro.possible_positions(), vec![DevicePosition::Vest]);
    assert_eq!(DeviceModel::TactVisor.possible_positions(), vec![DevicePosition::Head]);
}
