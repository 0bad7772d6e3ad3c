//! The subsystem against an instrumented device handle: serialization,
//! diagnostics, and propagation of every kind of device answer.

use isis_eps_service::device::{DeviceOutcome, DeviceReply, ScriptedPort};
use isis_eps_service::error::DomainError;
use isis_eps_service::subsystem::Subsystem;
use isis_eps_service::telemetry::{OverCurrentFaultState, Output, PbuHk, PcuHk, PduHk, PiuHk,
    SystemStatus, VipData};
use isis_eps_service::translate::{BusChannel, BusChannelState, BusGroup, ModeSwitch, PbuHkSel,
    PcuHkSel, PduHkSel, PiuHkSel, StId};

fn sub_with(script: Vec<DeviceOutcome>) -> Subsystem<ScriptedPort> {
    Subsystem::new(ScriptedPort::new(script), StId::PiuStid)
}

#[test]
fn new_subsystem_has_clear_diagnostics() {
    let sub = sub_with(Vec::new());
    assert!(sub.last_cmd().is_empty());
    assert_eq!(sub.last_err(), DomainError::NoError);
    assert_eq!(sub.port().calls_made(), 0);
    assert_eq!(sub.stid(), StId::PiuStid);
}

#[test]
fn ping_issues_its_frame_and_clears_the_error() {
    let mut sub = sub_with(vec![Ok(DeviceReply::Ack)]);
    assert_eq!(sub.eps_ping(), Ok(()));
    assert_eq!(sub.last_cmd(), &vec![0x1A, 0x01]);
    assert_eq!(sub.last_err(), DomainError::NoError);
    assert_eq!(sub.port().calls_made(), 1);
}

#[test]
fn successful_mutation_records_exact_frame_and_none_sentinel() {
    let mut sub = sub_with(vec![Ok(DeviceReply::Ack)]);
    assert_eq!(sub.set_single_output(BusChannel::ChannelOn, 3), Ok(()));
    // stid byte, command code, channel-command ordinal, channel index
    assert_eq!(sub.last_cmd(), &vec![0x1A, 0x12, 0x00, 0x03]);
    assert_eq!(sub.last_err(), DomainError::NoError);
}

#[test]
fn sys_reset_supplies_the_fixed_confirmation_key() {
    let mut sub = sub_with(vec![Ok(DeviceReply::Ack)]);
    assert_eq!(sub.sys_reset(0x12), Ok(()));
    assert_eq!(sub.last_cmd(), &vec![0x1A, 0x02, 0xA6]);
}

#[test]
fn group_outputs_issue_the_bitmask() {
    let mut sub = sub_with(vec![Ok(DeviceReply::Ack)]);
    assert_eq!(sub.set_group_outputs(BusGroup::BusGroupOn, vec![0, 3]), Ok(()));
    assert_eq!(sub.last_cmd(), &vec![0x1A, 0x10, 0x00, 0x09, 0x00]);
}

#[test]
fn mode_switch_carries_the_mode_ordinal() {
    let mut sub = sub_with(vec![Ok(DeviceReply::Ack)]);
    assert_eq!(sub.mode_switch(ModeSwitch::Safety), Ok(()));
    assert_eq!(sub.last_cmd(), &vec![0x1A, 0x30, 0x01]);
}

#[test]
fn correct_time_encodes_the_correction_little_endian() {
    let mut sub = sub_with(vec![Ok(DeviceReply::Ack)]);
    assert_eq!(sub.correct_time(-1), Ok(()));
    assert_eq!(sub.last_cmd(), &vec![0x1A, 0x60, 0xFF, 0xFF, 0xFF, 0xFF]);
}

#[test]
fn config_write_encodes_parameter_and_value() {
    let out = Output { param_id: 0x0204, data: vec![0xFE, 0xFF] };
    let mut sub = sub_with(vec![Ok(DeviceReply::Param(out.clone()))]);
    assert_eq!(sub.set_config_para_i16(0x0204, -2), Ok(out));
    assert_eq!(sub.last_cmd(), &vec![0x1A, 0x86, 0x04, 0x02, 0xFE, 0xFF]);
}

#[test]
fn device_failure_is_surfaced_verbatim_and_recorded() {
    let mut sub = sub_with(vec![Err(DomainError::Nack)]);
    assert_eq!(sub.watchdog_reset(), Err(DomainError::Nack));
    assert_eq!(sub.last_err(), DomainError::Nack);
    // The frame was still recorded before the call completed.
    assert_eq!(sub.last_cmd(), &vec![0x1A, 0x04]);
}

#[test]
fn timeout_leaves_the_subsystem_usable() {
    let mut sub = sub_with(vec![Err(DomainError::Timeout), Ok(DeviceReply::Ack)]);
    assert_eq!(sub.eps_ping(), Err(DomainError::Timeout));
    assert_eq!(sub.last_err(), DomainError::Timeout);
    assert_eq!(sub.eps_ping(), Ok(()));
    assert_eq!(sub.last_err(), DomainError::NoError);
    assert_eq!(sub.port().calls_made(), 2);
}

#[test]
fn mismatched_reply_shape_is_a_malformed_response() {
    let mut sub = sub_with(vec![Ok(DeviceReply::Ack)]);
    assert_eq!(sub.system_status(), Err(DomainError::MalformedResponse));
    assert_eq!(sub.last_err(), DomainError::MalformedResponse);
}

#[test]
fn typed_queries_return_their_records() {
    let status = SystemStatus {
        mode: 0,
        conf: 1,
        reset_cause: 2,
        uptime: 3,
        error: 4,
        rc_cnt_pwron: 5,
        rc_cnt_wdg: 6,
        prev_reset_cause: 7,
    };
    let hk = PiuHk {
        volt_brdsup: 3300,
        temp: 21,
        vip_dist_input: VipData { volt: 1, curr: 2, pow: 3 },
        vip_batt_input: VipData { volt: 4, curr: 5, pow: 6 },
        stat_ch_on: 7,
        stat_ch_ocf: 8,
    };
    let mut sub = sub_with(vec![
        Ok(DeviceReply::Status(status)),
        Ok(DeviceReply::PiuTelemetry(hk)),
    ]);
    assert_eq!(sub.system_status(), Ok(status));
    assert_eq!(sub.piu_hk(PiuHkSel::PiuEngHk), Ok(hk));
    assert_eq!(sub.last_cmd(), &vec![0x1A, 0x56, 0x00]);
}

#[test]
fn operations_serialize_one_invocation_each() {
    let mut sub = sub_with(vec![
        Ok(DeviceReply::Ack),
        Err(DomainError::Fault),
        Ok(DeviceReply::Ack),
        Ok(DeviceReply::Ack),
        Ok(DeviceReply::Ack),
    ]);
    let _ = sub.eps_ping();
    let _ = sub.shutdown_all();
    let _ = sub.reset_all_counters();
    let _ = sub.load_config();
    let _ = sub.save_config();
    // Exactly one device invocation per operation, in order.
    assert_eq!(sub.port().calls_made(), 5);
}

#[test]
fn last_err_reflects_the_most_recently_completed_call() {
    let mut sub = sub_with(vec![Err(DomainError::Fault), Ok(DeviceReply::Ack)]);
    assert_eq!(sub.force_save_config(), Err(DomainError::Fault));
    assert_eq!(sub.last_err(), DomainError::Fault);
    assert_eq!(sub.reset_all_conf(), Ok(()));
    // The earlier fault is superseded by the outcome of the later call.
    assert_eq!(sub.last_err(), DomainError::NoError);
}

#[test]
fn exhausted_script_reports_timeouts() {
    let mut sub = sub_with(Vec::new());
    assert_eq!(sub.eps_ping(), Err(DomainError::Timeout));
    assert_eq!(sub.eps_ping(), Err(DomainError::Timeout));
    assert_eq!(sub.port().calls_made(), 2);
}

#[test]
fn remaining_operations_issue_their_frames() {
    let pdu = PduHk {
        volt_brdsup: 1,
        temp: 2,
        vip_input: VipData { volt: 3, curr: 4, pow: 5 },
        stat_ch_on: 6,
        stat_ch_ocf: 7,
    };
    let pbu = PbuHk {
        volt_brdsup: 1,
        temp: 2,
        vip_input: VipData { volt: 3, curr: 4, pow: 5 },
        stat_bu: 8,
    };
    let pcu = PcuHk { volt_brdsup: 1, temp: 2, vip_output: VipData { volt: 3, curr: 4, pow: 5 } };
    let ocf = OverCurrentFaultState {
        stat_ch_on: 1,
        stat_ch_ext_on: 2,
        stat_ch_ocf: 3,
        stat_ch_ext_ocf: 4,
    };
    let out = Output { param_id: 2, data: vec![1] };
    let mut sub = sub_with(vec![
        Ok(DeviceReply::Ack),
        Ok(DeviceReply::PduTelemetry(pdu)),
        Ok(DeviceReply::PbuTelemetry(pbu)),
        Ok(DeviceReply::PcuTelemetry(pcu)),
        Ok(DeviceReply::Overcurrent(ocf)),
        Ok(DeviceReply::Param(out.clone())),
        Ok(DeviceReply::Param(out.clone())),
        Ok(DeviceReply::Param(out.clone())),
        Ok(DeviceReply::Param(out.clone())),
        Ok(DeviceReply::Param(out.clone())),
        Ok(DeviceReply::Param(out.clone())),
    ]);

    assert_eq!(sub.set_group_state(BusGroup::BusGroupOff, BusChannelState::On), Ok(()));
    assert_eq!(sub.last_cmd(), &vec![0x1A, 0x11, 0x01, 0x00]);

    assert_eq!(sub.pdu_hk(PduHkSel::PduEngHk), Ok(pdu));
    assert_eq!(sub.last_cmd(), &vec![0x1A, 0x50, 0x00]);
    assert_eq!(sub.pbu_hk(PbuHkSel::PbuAvgHk), Ok(pbu));
    assert_eq!(sub.last_cmd(), &vec![0x1A, 0x52, 0x01]);
    assert_eq!(sub.pcu_hk(PcuHkSel::PcuEngHk), Ok(pcu));
    assert_eq!(sub.last_cmd(), &vec![0x1A, 0x54, 0x00]);
    assert_eq!(sub.overcurrent_state(), Ok(ocf));
    assert_eq!(sub.last_cmd(), &vec![0x1A, 0x42]);

    assert_eq!(sub.get_config_para_write(1), Ok(out.clone()));
    assert_eq!(sub.last_cmd(), &vec![0x1A, 0x81, 0x01, 0x00]);
    assert_eq!(sub.get_config_para_read(1), Ok(out.clone()));
    assert_eq!(sub.last_cmd(), &vec![0x1A, 0x82, 0x01, 0x00]);
    assert_eq!(sub.set_config_para_u32(2, 0x0102_0304), Ok(out.clone()));
    assert_eq!(sub.last_cmd(), &vec![0x1A, 0x84, 0x02, 0x00, 0x04, 0x03, 0x02, 0x01]);
    assert_eq!(sub.set_config_para_u16(2, 0xABCD), Ok(out.clone()));
    assert_eq!(sub.last_cmd(), &vec![0x1A, 0x85, 0x02, 0x00, 0xCD, 0xAB]);
    assert_eq!(sub.set_config_para_u8(2, 7), Ok(out.clone()));
    assert_eq!(sub.last_cmd(), &vec![0x1A, 0x87, 0x02, 0x00, 0x07]);
    assert_eq!(sub.set_config_para_i8(2, -1), Ok(out.clone()));
    assert_eq!(sub.last_cmd(), &vec![0x1A, 0x88, 0x02, 0x00, 0xFF]);

    assert_eq!(sub.port().calls_made(), 11);
    assert_eq!(sub.last_err(), DomainError::NoError);
}

#[test]
fn reset_param_issues_its_frame() {
    let out = Output { param_id: 5, data: Vec::new() };
    let mut sub = sub_with(vec![Ok(DeviceReply::Param(out.clone()))]);
    assert_eq!(sub.reset_param(5), Ok(out));
    assert_eq!(sub.last_cmd(), &vec![0x1A, 0x8A, 0x05, 0x00]);
}
