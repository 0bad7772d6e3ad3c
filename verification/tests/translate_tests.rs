//! Wire round trips and ordinal range checks for every domain enumeration.

use isis_eps_service::error::TranslationError;
use isis_eps_service::translate::{BusChannel, BusChannelState, BusGroup, ModeSwitch, PbuHkSel,
    PcuHkSel, PduHkSel, PiuHkSel, StId, SysConfig1, SysConfig2};

#[test]
fn round_trip_st_id() {
    let all = vec![
        StId::PduStid,
        StId::PbuStid,
        StId::PcuStid,
        StId::PiuStid,
        StId::OverrideStid,
    ];
    for x in all {
        assert_eq!(StId::from_wire(x.to_wire()), Ok(x));
    }
}

#[test]
fn round_trip_hk_selectors() {
    for x in [PduHkSel::PduEngHk, PduHkSel::PduAvgHk] {
        assert_eq!(PduHkSel::from_wire(x.to_wire()), Ok(x));
    }
    for x in [PbuHkSel::PbuEngHk, PbuHkSel::PbuAvgHk] {
        assert_eq!(PbuHkSel::from_wire(x.to_wire()), Ok(x));
    }
    for x in [PcuHkSel::PcuEngHk, PcuHkSel::PcuAvgHk] {
        assert_eq!(PcuHkSel::from_wire(x.to_wire()), Ok(x));
    }
    for x in [PiuHkSel::PiuEngHk, PiuHkSel::PiuAvgHk] {
        assert_eq!(PiuHkSel::from_wire(x.to_wire()), Ok(x));
    }
}

#[test]
fn round_trip_bus_enums() {
    for x in [BusGroup::BusGroupOn, BusGroup::BusGroupOff, BusGroup::BusGroupState] {
        assert_eq!(BusGroup::from_wire(x.to_wire()), Ok(x));
    }
    for x in [BusChannel::ChannelOn, BusChannel::ChannelOff] {
        assert_eq!(BusChannel::from_wire(x.to_wire()), Ok(x));
    }
    for x in [BusChannelState::On, BusChannelState::Off] {
        assert_eq!(BusChannelState::from_wire(x.to_wire()), Ok(x));
    }
}

#[test]
fn round_trip_mode_and_config() {
    for x in [ModeSwitch::Nominal, ModeSwitch::Safety] {
        assert_eq!(ModeSwitch::from_wire(x.to_wire()), Ok(x));
    }
    for x in [
        SysConfig1::GetConfigParam,
        SysConfig1::SetConfigParam,
        SysConfig1::ResetConfigParam,
    ] {
        assert_eq!(SysConfig1::from_wire(x.to_wire()), Ok(x));
    }
    for x in [SysConfig2::ResetAll, SysConfig2::LoadConfig, SysConfig2::SaveConfig] {
        assert_eq!(SysConfig2::from_wire(x.to_wire()), Ok(x));
    }
}

#[test]
fn ordinals_share_count_and_order() {
    assert_eq!(StId::PduStid.to_wire(), 0);
    assert_eq!(StId::PbuStid.to_wire(), 1);
    assert_eq!(StId::PcuStid.to_wire(), 2);
    assert_eq!(StId::PiuStid.to_wire(), 3);
    assert_eq!(StId::OverrideStid.to_wire(), 4);
    assert_eq!(ModeSwitch::Nominal.to_wire(), 0);
    assert_eq!(ModeSwitch::Safety.to_wire(), 1);
    assert_eq!(BusGroup::BusGroupState.to_wire(), 2);
}

#[test]
fn out_of_range_ordinal_fails_decode() {
    assert_eq!(StId::from_wire(99), Err(TranslationError::InvalidEnum));
    assert_eq!(StId::from_wire(5), Err(TranslationError::InvalidEnum));
    assert_eq!(StId::from_wire(-1), Err(TranslationError::InvalidEnum));
    assert_eq!(PduHkSel::from_wire(2), Err(TranslationError::InvalidEnum));
    assert_eq!(PbuHkSel::from_wire(99), Err(TranslationError::InvalidEnum));
    assert_eq!(PcuHkSel::from_wire(-7), Err(TranslationError::InvalidEnum));
    assert_eq!(PiuHkSel::from_wire(2), Err(TranslationError::InvalidEnum));
    assert_eq!(BusGroup::from_wire(3), Err(TranslationError::InvalidEnum));
    assert_eq!(BusChannel::from_wire(2), Err(TranslationError::InvalidEnum));
    assert_eq!(BusChannelState::from_wire(2), Err(TranslationError::InvalidEnum));
    assert_eq!(ModeSwitch::from_wire(99), Err(TranslationError::InvalidEnum));
    assert_eq!(SysConfig1::from_wire(3), Err(TranslationError::InvalidEnum));
    assert_eq!(SysConfig2::from_wire(3), Err(TranslationError::InvalidEnum));
}
