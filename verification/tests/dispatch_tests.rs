//! The dispatcher end to end: catalog lookup, argument decoding, device
//! outcomes, and wire encodings of the results.

use isis_eps_service::catalog::{Catalog, CommandId, CommandKind};
use isis_eps_service::device::{DeviceOutcome, DeviceReply, ScriptedPort};
use isis_eps_service::dispatch::invoke;
use isis_eps_service::error::{DispatchError, DomainError, TranslationError};
use isis_eps_service::subsystem::Subsystem;
use isis_eps_service::telemetry::{OverCurrentFaultState, Output, PiuHk, SystemStatus, VipData};
use isis_eps_service::translate::StId;
use isis_eps_service::wire::{WireField, WireOutput, WireValue};

fn sub_with(script: Vec<DeviceOutcome>) -> Subsystem<ScriptedPort> {
    Subsystem::new(ScriptedPort::new(script), StId::PiuStid)
}

fn name(s: &str) -> String {
    s.to_string()
}

#[test]
fn catalog_resolves_every_standard_name() {
    let cat = Catalog::standard();
    assert_eq!(cat.len(), 24);
    assert_eq!(cat.lookup(&name("EpsPing")), Some(CommandId::EpsPing));
    assert_eq!(cat.lookup(&name("Status")), Some(CommandId::Status));
    assert_eq!(cat.lookup(&name("SetSingleOutput")), Some(CommandId::SetSingleOutput));
    assert_eq!(cat.lookup(&name("ForceSaveConfig")), Some(CommandId::ForceSaveConfig));
}

#[test]
fn catalog_lookup_is_exact_and_case_sensitive() {
    let cat = Catalog::standard();
    assert_eq!(cat.lookup(&name("epsping")), None);
    assert_eq!(cat.lookup(&name("EpsPing ")), None);
    assert_eq!(cat.lookup(&name("")), None);
}

#[test]
fn catalog_entries_declare_kinds() {
    let cat = Catalog::standard();
    let mut queries = 0;
    let mut mutations = 0;
    for i in 0..cat.len() {
        let e = cat.entry_at(i);
        match e.kind {
            CommandKind::Query => queries += 1,
            CommandKind::Mutation => mutations += 1,
        }
        // Configuration writes and resets alter device state: mutations.
        match e.command {
            CommandId::SetConfigParamU32
            | CommandId::SetConfigParamU16
            | CommandId::SetConfigParamU8
            | CommandId::SetConfigParamI16
            | CommandId::SetConfigParamI8
            | CommandId::ResetConfigParam => assert_eq!(e.kind, CommandKind::Mutation),
            CommandId::GetConfigParamWrite | CommandId::GetConfigParamRead => {
                assert_eq!(e.kind, CommandKind::Query)
            },
            _ => {},
        }
    }
    assert_eq!(queries, 6);
    assert_eq!(mutations, 18);
}

#[test]
fn unregistered_name_is_not_found_without_device_call() {
    let cat = Catalog::standard();
    let mut sub = sub_with(vec![Ok(DeviceReply::Ack)]);
    let r = invoke(&mut sub, &cat, &name("Frobnicate"), &Vec::new());
    assert_eq!(r, Err(DispatchError::NotFound));
    assert_eq!(sub.port().calls_made(), 0);
    assert!(sub.last_cmd().is_empty());
    assert_eq!(sub.last_err(), DomainError::NoError);
}

#[test]
fn out_of_range_ordinal_fails_before_any_device_call() {
    let cat = Catalog::standard();
    let mut sub = sub_with(vec![Ok(DeviceReply::Ack)]);
    let r = invoke(&mut sub, &cat, &name("PiuHk"), &vec![WireValue::Int(99)]);
    assert_eq!(r, Err(DispatchError::Decode(TranslationError::InvalidEnum)));
    assert_eq!(sub.port().calls_made(), 0);
}

#[test]
fn wrong_arity_fails_decode() {
    let cat = Catalog::standard();
    let mut sub = sub_with(vec![Ok(DeviceReply::Ack)]);
    let r = invoke(&mut sub, &cat, &name("EpsPing"), &vec![WireValue::Int(1)]);
    assert_eq!(r, Err(DispatchError::Decode(TranslationError::WrongArity)));
    let r = invoke(&mut sub, &cat, &name("SetSingleOutput"), &vec![WireValue::Int(0)]);
    assert_eq!(r, Err(DispatchError::Decode(TranslationError::WrongArity)));
    assert_eq!(sub.port().calls_made(), 0);
}

#[test]
fn wrong_primitive_fails_decode() {
    let cat = Catalog::standard();
    let mut sub = sub_with(vec![Ok(DeviceReply::Ack)]);
    let r = invoke(&mut sub, &cat, &name("CorrectTime"), &vec![WireValue::Bool(true)]);
    assert_eq!(r, Err(DispatchError::Decode(TranslationError::WrongType)));
    assert_eq!(sub.port().calls_made(), 0);
}

#[test]
fn out_of_width_integer_fails_decode() {
    let cat = Catalog::standard();
    let mut sub = sub_with(vec![Ok(DeviceReply::Ack)]);
    let args = vec![WireValue::Int(5), WireValue::Int(256)];
    let r = invoke(&mut sub, &cat, &name("SetConfigParamU8"), &args);
    assert_eq!(r, Err(DispatchError::Decode(TranslationError::OutOfRange)));
    let args = vec![WireValue::Int(70000), WireValue::Int(1)];
    let r = invoke(&mut sub, &cat, &name("SetConfigParamU8"), &args);
    assert_eq!(r, Err(DispatchError::Decode(TranslationError::OutOfRange)));
    assert_eq!(sub.port().calls_made(), 0);
}

#[test]
fn successful_mutation_updates_diagnostics() {
    let cat = Catalog::standard();
    let mut sub = sub_with(vec![Ok(DeviceReply::Ack)]);
    let args = vec![WireValue::Int(0), WireValue::Int(3)];
    let r = invoke(&mut sub, &cat, &name("SetSingleOutput"), &args);
    assert_eq!(r, Ok(WireOutput::Unit));
    assert_eq!(sub.last_cmd(), &vec![0x1A, 0x12, 0x00, 0x03]);
    assert_eq!(sub.last_err(), DomainError::NoError);
    assert_eq!(sub.port().calls_made(), 1);
}

#[test]
fn group_outputs_collect_trailing_channels() {
    let cat = Catalog::standard();
    let mut sub = sub_with(vec![Ok(DeviceReply::Ack)]);
    let args = vec![WireValue::Int(0), WireValue::Int(0), WireValue::Int(3)];
    let r = invoke(&mut sub, &cat, &name("SetGroupOutputs"), &args);
    assert_eq!(r, Ok(WireOutput::Unit));
    assert_eq!(sub.last_cmd(), &vec![0x1A, 0x10, 0x00, 0x09, 0x00]);

    let bad = vec![WireValue::Int(0), WireValue::Int(16)];
    let r = invoke(&mut sub, &cat, &name("SetGroupOutputs"), &bad);
    assert_eq!(r, Err(DispatchError::Decode(TranslationError::OutOfRange)));
    assert_eq!(sub.port().calls_made(), 1);
}

#[test]
fn status_query_returns_the_flattened_record() {
    let cat = Catalog::standard();
    let status = SystemStatus {
        mode: 1,
        conf: 0,
        reset_cause: 4,
        uptime: 99,
        error: 0,
        rc_cnt_pwron: 2,
        rc_cnt_wdg: 1,
        prev_reset_cause: 0,
    };
    let mut sub = sub_with(vec![Ok(DeviceReply::Status(status))]);
    let r = invoke(&mut sub, &cat, &name("Status"), &Vec::new());
    let fields = match r {
        Ok(WireOutput::Fields(f)) => f,
        other => panic!("unexpected result: {:?}", other),
    };
    assert_eq!(fields.len(), 8);
    assert_eq!(
        fields[0],
        WireField { name: "sysMode".to_string(), value: WireValue::Int(1) }
    );
    assert_eq!(
        fields[3],
        WireField { name: "sysUptime".to_string(), value: WireValue::Int(99) }
    );
}

#[test]
fn config_read_returns_identifier_and_bytes_as_integers() {
    let cat = Catalog::standard();
    let out = Output { param_id: 0x0204, data: vec![1, 2, 3, 4] };
    let mut sub = sub_with(vec![Ok(DeviceReply::Param(out))]);
    let args = vec![WireValue::Int(0x0204)];
    let r = invoke(&mut sub, &cat, &name("GetConfigParamRead"), &args);
    assert_eq!(r, Ok(WireOutput::Ints(vec![0x0204, 1, 2, 3, 4])));
    assert_eq!(sub.last_cmd(), &vec![0x1A, 0x82, 0x04, 0x02]);
}

#[test]
fn device_timeout_surfaces_a_domain_error_and_leaves_service_available() {
    let cat = Catalog::standard();
    let mut sub = sub_with(vec![Err(DomainError::Timeout), Ok(DeviceReply::Ack)]);
    let r = invoke(&mut sub, &cat, &name("Status"), &Vec::new());
    assert_eq!(r, Err(DispatchError::Domain(DomainError::Timeout)));
    assert_eq!(sub.last_err(), DomainError::Timeout);
    let r = invoke(&mut sub, &cat, &name("EpsPing"), &Vec::new());
    assert_eq!(r, Ok(WireOutput::Unit));
    assert_eq!(sub.last_err(), DomainError::NoError);
}

#[test]
fn a_burst_of_requests_makes_one_device_call_each() {
    let cat = Catalog::standard();
    let mut sub = sub_with(vec![
        Ok(DeviceReply::Ack),
        Ok(DeviceReply::Ack),
        Ok(DeviceReply::Ack),
    ]);
    assert_eq!(invoke(&mut sub, &cat, &name("EpsPing"), &Vec::new()), Ok(WireOutput::Unit));
    // A bad name and a bad argument never reach the device.
    let _ = invoke(&mut sub, &cat, &name("Frobnicate"), &Vec::new());
    let _ = invoke(&mut sub, &cat, &name("PiuHk"), &vec![WireValue::Int(99)]);
    assert_eq!(invoke(&mut sub, &cat, &name("WatchdogReset"), &Vec::new()), Ok(WireOutput::Unit));
    assert_eq!(invoke(&mut sub, &cat, &name("ShutDownAll"), &Vec::new()), Ok(WireOutput::Unit));
    assert_eq!(sub.port().calls_made(), 3);
}

#[test]
fn sys_reset_ignores_the_wire_key_but_validates_it() {
    let cat = Catalog::standard();
    let mut sub = sub_with(vec![Ok(DeviceReply::Ack)]);
    let r = invoke(&mut sub, &cat, &name("SysReset"), &vec![WireValue::Int(7)]);
    assert_eq!(r, Ok(WireOutput::Unit));
    // The frame carries the fixed confirmation key, not the wire argument.
    assert_eq!(sub.last_cmd(), &vec![0x1A, 0x02, 0xA6]);
    let r = invoke(&mut sub, &cat, &name("SysReset"), &vec![WireValue::Int(300)]);
    assert_eq!(r, Err(DispatchError::Decode(TranslationError::OutOfRange)));
}

#[test]
fn every_standard_command_dispatches() {
    let cat = Catalog::standard();
    let status = SystemStatus {
        mode: 0,
        conf: 0,
        reset_cause: 0,
        uptime: 1,
        error: 0,
        rc_cnt_pwron: 0,
        rc_cnt_wdg: 0,
        prev_reset_cause: 0,
    };
    let hk = PiuHk {
        volt_brdsup: 1,
        temp: 2,
        vip_dist_input: VipData { volt: 3, curr: 4, pow: 5 },
        vip_batt_input: VipData { volt: 6, curr: 7, pow: 8 },
        stat_ch_on: 9,
        stat_ch_ocf: 10,
    };
    let ocf = OverCurrentFaultState {
        stat_ch_on: 1,
        stat_ch_ext_on: 2,
        stat_ch_ocf: 3,
        stat_ch_ext_ocf: 4,
    };
    let out = Output { param_id: 1, data: vec![9] };
    // One reply per catalog entry, in registry order.
    let script: Vec<DeviceOutcome> = vec![
        Ok(DeviceReply::Ack),
        Ok(DeviceReply::Status(status)),
        Ok(DeviceReply::Overcurrent(ocf)),
        Ok(DeviceReply::PiuTelemetry(hk)),
        Ok(DeviceReply::Param(out.clone())),
        Ok(DeviceReply::Param(out.clone())),
        Ok(DeviceReply::Param(out.clone())),
        Ok(DeviceReply::Param(out.clone())),
        Ok(DeviceReply::Param(out.clone())),
        Ok(DeviceReply::Param(out.clone())),
        Ok(DeviceReply::Param(out.clone())),
        Ok(DeviceReply::Param(out.clone())),
        Ok(DeviceReply::Ack),
        Ok(DeviceReply::Ack),
        Ok(DeviceReply::Ack),
        Ok(DeviceReply::Ack),
        Ok(DeviceReply::Ack),
        Ok(DeviceReply::Ack),
        Ok(DeviceReply::Ack),
        Ok(DeviceReply::Ack),
        Ok(DeviceReply::Ack),
        Ok(DeviceReply::Ack),
        Ok(DeviceReply::Ack),
        Ok(DeviceReply::Ack),
    ];
    let requests: Vec<(&str, Vec<WireValue>)> = vec![
        ("EpsPing", vec![]),
        ("Status", vec![]),
        ("OvercurrentState", vec![]),
        ("PiuHk", vec![WireValue::Int(0)]),
        ("GetConfigParamWrite", vec![WireValue::Int(1)]),
        ("GetConfigParamRead", vec![WireValue::Int(1)]),
        ("SetConfigParamU32", vec![WireValue::Int(1), WireValue::Int(2)]),
        ("SetConfigParamU16", vec![WireValue::Int(1), WireValue::Int(2)]),
        ("SetConfigParamU8", vec![WireValue::Int(1), WireValue::Int(2)]),
        ("SetConfigParamI16", vec![WireValue::Int(1), WireValue::Int(-2)]),
        ("SetConfigParamI8", vec![WireValue::Int(1), WireValue::Int(-2)]),
        ("ResetConfigParam", vec![WireValue::Int(1)]),
        ("SysReset", vec![WireValue::Int(0)]),
        ("ShutDownAll", vec![]),
        ("WatchdogReset", vec![]),
        ("SetGroupOutputs", vec![WireValue::Int(0), WireValue::Int(1)]),
        ("SetSingleOutput", vec![WireValue::Int(0), WireValue::Int(1)]),
        ("ModeSwitchFn", vec![WireValue::Int(1)]),
        ("CorrectTime", vec![WireValue::Int(-5)]),
        ("ResetAllCounters", vec![]),
        ("ResetAllConf", vec![]),
        ("LoadConfig", vec![]),
        ("SaveConfig", vec![]),
        ("ForceSaveConfig", vec![]),
    ];
    let mut sub = sub_with(script);
    for (n, args) in requests {
        let r = invoke(&mut sub, &cat, &name(n), &args);
        assert!(r.is_ok(), "command {} failed: {:?}", n, r);
        assert_eq!(sub.last_err(), DomainError::NoError);
    }
    // Exactly one sequential device invocation per dispatched request.
    assert_eq!(sub.port().calls_made(), 24);
}
