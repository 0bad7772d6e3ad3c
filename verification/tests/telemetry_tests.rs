//! Flattening projections: one field per leaf quantity, declaration order,
//! lossless widening.

use isis_eps_service::telemetry::{abf_placed, bytes_to_wire, OverCurrentFaultState, PbuHk, PcuHk,
    PduHk, PiuHk, SystemStatus, VipData, ABF_PLACED_SENTINEL};
use isis_eps_service::wire::{WireField, WireValue};

fn field(name: &str, v: i32) -> WireField {
    WireField { name: name.to_string(), value: WireValue::Int(v) }
}

#[test]
fn flatten_vip_data() {
    let v = VipData { volt: -120, curr: 37, pow: -4 };
    let f = v.flatten("piuVipDistInput");
    assert_eq!(
        f,
        vec![
            field("piuVipDistInputVolt", -120),
            field("piuVipDistInputCurr", 37),
            field("piuVipDistInputPow", -4),
        ]
    );
}

#[test]
fn flatten_system_status() {
    let s = SystemStatus {
        mode: 1,
        conf: 2,
        reset_cause: 3,
        uptime: 40_000,
        error: 5,
        rc_cnt_pwron: 6,
        rc_cnt_wdg: 7,
        prev_reset_cause: 8,
    };
    let f = s.flatten();
    assert_eq!(
        f,
        vec![
            field("sysMode", 1),
            field("sysConf", 2),
            field("sysResetCause", 3),
            field("sysUptime", 40_000),
            field("sysError", 5),
            field("sysRcCntPwron", 6),
            field("sysRcCntWdg", 7),
            field("sysPrevResetCause", 8),
        ]
    );
}

#[test]
fn flatten_overcurrent_state() {
    let s = OverCurrentFaultState {
        stat_ch_on: 0xAAAA,
        stat_ch_ext_on: 1,
        stat_ch_ocf: 0x8000,
        stat_ch_ext_ocf: 0,
    };
    let f = s.flatten();
    assert_eq!(
        f,
        vec![
            field("ocfStatChOn", 0xAAAA),
            field("ocfStatChExtOn", 1),
            field("ocfStatChOcf", 0x8000),
            field("ocfStatChExtOcf", 0),
        ]
    );
}

#[test]
fn flatten_piu_hk_nested_in_declaration_order() {
    let h = PiuHk {
        volt_brdsup: 3300,
        temp: -15,
        vip_dist_input: VipData { volt: 8000, curr: 150, pow: 12 },
        vip_batt_input: VipData { volt: 7400, curr: -90, pow: -7 },
        stat_ch_on: 0b101,
        stat_ch_ocf: 0,
    };
    let f = h.flatten();
    // One field per leaf quantity: 2 scalars + two nested triples + 2 bitfields.
    assert_eq!(f.len(), 10);
    assert_eq!(
        f,
        vec![
            field("piuVoltBrdsup", 3300),
            field("piuTemp", -15),
            field("piuVipDistInputVolt", 8000),
            field("piuVipDistInputCurr", 150),
            field("piuVipDistInputPow", 12),
            field("piuVipBattInputVolt", 7400),
            field("piuVipBattInputCurr", -90),
            field("piuVipBattInputPow", -7),
            field("piuStatChOn", 5),
            field("piuStatChOcf", 0),
        ]
    );
}

#[test]
fn flatten_board_hk_records() {
    let pdu = PduHk {
        volt_brdsup: 1,
        temp: 2,
        vip_input: VipData { volt: 3, curr: 4, pow: 5 },
        stat_ch_on: 6,
        stat_ch_ocf: 7,
    };
    assert_eq!(
        pdu.flatten(),
        vec![
            field("pduVoltBrdsup", 1),
            field("pduTemp", 2),
            field("pduVipInputVolt", 3),
            field("pduVipInputCurr", 4),
            field("pduVipInputPow", 5),
            field("pduStatChOn", 6),
            field("pduStatChOcf", 7),
        ]
    );
    let pbu = PbuHk {
        volt_brdsup: -1,
        temp: -2,
        vip_input: VipData { volt: -3, curr: -4, pow: -5 },
        stat_bu: 9,
    };
    assert_eq!(
        pbu.flatten(),
        vec![
            field("pbuVoltBrdsup", -1),
            field("pbuTemp", -2),
            field("pbuVipInputVolt", -3),
            field("pbuVipInputCurr", -4),
            field("pbuVipInputPow", -5),
            field("pbuStatBu", 9),
        ]
    );
    let pcu = PcuHk {
        volt_brdsup: 10,
        temp: 20,
        vip_output: VipData { volt: 30, curr: 40, pow: 50 },
    };
    assert_eq!(
        pcu.flatten(),
        vec![
            field("pcuVoltBrdsup", 10),
            field("pcuTemp", 20),
            field("pcuVipOutputVolt", 30),
            field("pcuVipOutputCurr", 40),
            field("pcuVipOutputPow", 50),
        ]
    );
}

#[test]
fn flatten_preserves_extreme_values() {
    // The 32-bit integer primitive carries every 16-bit quantity exactly.
    let v = VipData { volt: i16::MIN, curr: i16::MAX, pow: 0 };
    let f = v.flatten("p");
    assert_eq!(f[0].value, WireValue::Int(-32768));
    assert_eq!(f[1].value, WireValue::Int(32767));
    let s = OverCurrentFaultState {
        stat_ch_on: u16::MAX,
        stat_ch_ext_on: 0,
        stat_ch_ocf: 0,
        stat_ch_ext_ocf: 0,
    };
    assert_eq!(s.flatten()[0].value, WireValue::Int(65535));
}

#[test]
fn abf_flag_compares_against_sentinel() {
    assert!(abf_placed(ABF_PLACED_SENTINEL));
    assert!(abf_placed(0xAB));
    assert!(!abf_placed(0x00));
    assert!(!abf_placed(0xBA));
}

#[test]
fn raw_bytes_pass_through_one_integer_per_byte() {
    let data = vec![0u8, 1, 127, 255];
    assert_eq!(bytes_to_wire(&data), vec![0, 1, 127, 255]);
    assert_eq!(bytes_to_wire(&Vec::new()), Vec::<i32>::new());
}
