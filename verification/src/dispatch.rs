//! The dispatcher: from a wire request to a wire response.
//!
//! [`invoke`] is the call contract the transport consumes: it resolves the
//! operation name in the catalog, decodes the wire arguments through the
//! translator, invokes the bound subsystem operation, and encodes the result
//! back into wire primitives. A name that does not resolve returns
//! [`DispatchError::NotFound`] and an argument list that does not decode
//! returns [`DispatchError::Decode`], both without touching the device.
//!
//! The whole behaviour is pinned by one mathematical transition function,
//! [`spec_step`], over the subsystem's diagnostic model: every call of
//! `invoke` follows one `spec_step`, consuming the device outcome at the
//! current invocation index. The lemmas at the bottom state the dispatch
//! laws over sequences of requests: strict serialization of device
//! invocations, the freshness of the recorded error, and that unresolved or
//! undecodable requests leave the subsystem untouched.

use vstd::prelude::*;

use crate::catalog::{spec_find, spec_params_of, spec_result_of, Catalog, CommandId, ParamKind,
    ResultKind};
use crate::command::{spec_frame, spec_group_mask, spec_le16, spec_le32, spec_u16_of_i16,
    spec_u32_of_i32, spec_u8_of_i8, CC_CORRECT_TIME, CC_FORCE_SAVE_CONFIG,
    CC_GET_CONFIG_PARAM_READ, CC_GET_CONFIG_PARAM_WRITE, CC_LOAD_CONFIG, CC_MODE_SWITCH,
    CC_OVERCURRENT_STATE, CC_PING, CC_PIU_HK, CC_RESET_ALL_CONF, CC_RESET_ALL_COUNTERS,
    CC_RESET_CONFIG_PARAM, CC_SAVE_CONFIG, CC_SET_GROUP_OUTPUTS, CC_SET_SINGLE_OUTPUT,
    CC_SET_CONFIG_PARAM_I16, CC_SET_CONFIG_PARAM_I8, CC_SET_CONFIG_PARAM_U16,
    CC_SET_CONFIG_PARAM_U32, CC_SET_CONFIG_PARAM_U8, CC_SHUTDOWN_ALL, CC_SYSTEM_STATUS,
    CC_SYS_RESET, CC_WATCHDOG_RESET, RESET_KEY};
use crate::device::{DeviceOutcome, DevicePort};
use crate::error::{DispatchError, DomainError, TranslationError};
use crate::subsystem::{spec_err_recorded, spec_overcurrent_result, spec_param_result,
    spec_piu_hk_result, spec_status_result, spec_unit_result, Subsystem};
use crate::telemetry::Output;
use crate::translate::{BusChannel, BusGroup, ModeSwitch, PiuHkSel};
use crate::wire::{fields_model, wire_value_as_int, WireFieldModel, WireOutput, WireValue};

verus! {

/// The spec-level image of one wire request.
pub struct RequestModel {
    /// The operation name.
    pub name: Seq<char>,
    /// The wire argument list.
    pub args: Seq<WireValue>,
}

/// The spec-level image of a wire output value.
pub enum WireOutputModel {
    /// No result payload.
    Unit,
    /// A single integer primitive.
    Int(i32),
    /// A single boolean primitive.
    Bool(bool),
    /// A flattened composite record.
    Fields(Seq<WireFieldModel>),
    /// A byte sequence as integers.
    Ints(Seq<i32>),
}

/// The spec-level image of an executable wire output.
pub open spec fn spec_output_model(w: WireOutput) -> WireOutputModel {
    match w {
        WireOutput::Unit => WireOutputModel::Unit,
        WireOutput::Int(i) => WireOutputModel::Int(i),
        WireOutput::Bool(b) => WireOutputModel::Bool(b),
        WireOutput::Fields(v) => WireOutputModel::Fields(fields_model(v@)),
        WireOutput::Ints(v) => WireOutputModel::Ints(v@),
    }
}

/// The spec-level image of an executable dispatch result.
pub open spec fn spec_result_model(r: Result<WireOutput, DispatchError>) -> Result<
    WireOutputModel,
    DispatchError,
> {
    match r {
        Ok(w) => Ok(spec_output_model(w)),
        Err(e) => Err(e),
    }
}

/// The diagnostic model of a subsystem: everything dispatch observes and
/// changes.
pub struct CoreModel {
    /// The bound device identifier.
    pub stid: crate::translate::StId,
    /// The byte frame of the command most recently issued.
    pub last_cmd: Seq<u8>,
    /// The outcome of the most recently completed call.
    pub last_err: DomainError,
    /// Completed device invocations.
    pub calls: nat,
}

/// The diagnostic model of a subsystem value.
pub open spec fn spec_core_model<P: DevicePort>(s: Subsystem<P>) -> CoreModel {
    CoreModel {
        stid: s.spec_stid(),
        last_cmd: s.spec_last_cmd(),
        last_err: s.spec_last_err(),
        calls: s.calls(),
    }
}

/// The first decode failure of one wire argument against one declared
/// parameter kind, if any. `Bytes` never occurs here: it is the trailing
/// byte-sequence form handled by [`spec_bytes_err`].
pub open spec fn spec_arg_err(k: ParamKind, w: WireValue) -> Option<TranslationError> {
    if !(w is Int) {
        Some(TranslationError::WrongType)
    } else {
        let v = wire_value_as_int(w);
        match k {
            ParamKind::PiuSel => if PiuHkSel::spec_from_wire(v) is None {
                Some(TranslationError::InvalidEnum)
            } else {
                None
            },
            ParamKind::Group => if BusGroup::spec_from_wire(v) is None {
                Some(TranslationError::InvalidEnum)
            } else {
                None
            },
            ParamKind::Channel => if BusChannel::spec_from_wire(v) is None {
                Some(TranslationError::InvalidEnum)
            } else {
                None
            },
            ParamKind::Mode => if ModeSwitch::spec_from_wire(v) is None {
                Some(TranslationError::InvalidEnum)
            } else {
                None
            },
            ParamKind::U8 => if !(0 <= v < 256) {
                Some(TranslationError::OutOfRange)
            } else {
                None
            },
            ParamKind::U16 => if !(0 <= v < 65536) {
                Some(TranslationError::OutOfRange)
            } else {
                None
            },
            ParamKind::U32 => if !(0 <= v) {
                Some(TranslationError::OutOfRange)
            } else {
                None
            },
            ParamKind::I8 => if !(-128 <= v < 128) {
                Some(TranslationError::OutOfRange)
            } else {
                None
            },
            ParamKind::I16 => if !(-32768 <= v < 32768) {
                Some(TranslationError::OutOfRange)
            } else {
                None
            },
            ParamKind::I32 => None,
            ParamKind::Bytes => None,
        }
    }
}

/// The first decode failure of a trailing byte sequence, scanning from
/// position `i`: every element must be an integer primitive in
/// `0 .. bound`.
pub open spec fn spec_bytes_err(rest: Seq<WireValue>, bound: int, i: int) -> Option<
    TranslationError,
>
    decreases rest.len() - i,
{
    if i < 0 || i >= rest.len() {
        None
    } else if !(rest[i] is Int) {
        Some(TranslationError::WrongType)
    } else if !(0 <= wire_value_as_int(rest[i]) < bound) {
        Some(TranslationError::OutOfRange)
    } else {
        spec_bytes_err(rest, bound, i + 1)
    }
}

/// The byte sequence carried by a trailing argument list.
pub open spec fn spec_bytes_of(rest: Seq<WireValue>) -> Seq<u8> {
    rest.map_values(|w: WireValue| wire_value_as_int(w) as u8)
}

/// The first decode failure of a whole argument list against a command's
/// declared parameters, if any. A request that decodes cleanly is exactly
/// one this function maps to `None`.
pub open spec fn spec_decode_err(c: CommandId, args: Seq<WireValue>) -> Option<TranslationError> {
    match c {
        CommandId::EpsPing => if args.len() != 0 {
            Some(TranslationError::WrongArity)
        } else {
            None
        },
        CommandId::Status => if args.len() != 0 {
            Some(TranslationError::WrongArity)
        } else {
            None
        },
        CommandId::OvercurrentState => if args.len() != 0 {
            Some(TranslationError::WrongArity)
        } else {
            None
        },
        CommandId::PiuHk => if args.len() != 1 {
            Some(TranslationError::WrongArity)
        } else {
            spec_arg_err(ParamKind::PiuSel, args[0])
        },
        CommandId::GetConfigParamWrite => if args.len() != 1 {
            Some(TranslationError::WrongArity)
        } else {
            spec_arg_err(ParamKind::U16, args[0])
        },
        CommandId::GetConfigParamRead => if args.len() != 1 {
            Some(TranslationError::WrongArity)
        } else {
            spec_arg_err(ParamKind::U16, args[0])
        },
        CommandId::SetConfigParamU32 => if args.len() != 2 {
            Some(TranslationError::WrongArity)
        } else if spec_arg_err(ParamKind::U16, args[0]) is Some {
            spec_arg_err(ParamKind::U16, args[0])
        } else {
            spec_arg_err(ParamKind::U32, args[1])
        },
        CommandId::SetConfigParamU16 => if args.len() != 2 {
            Some(TranslationError::WrongArity)
        } else if spec_arg_err(ParamKind::U16, args[0]) is Some {
            spec_arg_err(ParamKind::U16, args[0])
        } else {
            spec_arg_err(ParamKind::U16, args[1])
        },
        CommandId::SetConfigParamU8 => if args.len() != 2 {
            Some(TranslationError::WrongArity)
        } else if spec_arg_err(ParamKind::U16, args[0]) is Some {
            spec_arg_err(ParamKind::U16, args[0])
        } else {
            spec_arg_err(ParamKind::U8, args[1])
        },
        CommandId::SetConfigParamI16 => if args.len() != 2 {
            Some(TranslationError::WrongArity)
        } else if spec_arg_err(ParamKind::U16, args[0]) is Some {
            spec_arg_err(ParamKind::U16, args[0])
        } else {
            spec_arg_err(ParamKind::I16, args[1])
        },
        CommandId::SetConfigParamI8 => if args.len() != 2 {
            Some(TranslationError::WrongArity)
        } else if spec_arg_err(ParamKind::U16, args[0]) is Some {
            spec_arg_err(ParamKind::U16, args[0])
        } else {
            spec_arg_err(ParamKind::I8, args[1])
        },
        CommandId::ResetConfigParam => if args.len() != 1 {
            Some(TranslationError::WrongArity)
        } else {
            spec_arg_err(ParamKind::U16, args[0])
        },
        CommandId::SysReset => if args.len() != 1 {
            Some(TranslationError::WrongArity)
        } else {
            spec_arg_err(ParamKind::U8, args[0])
        },
        CommandId::ShutDownAll => if args.len() != 0 {
            Some(TranslationError::WrongArity)
        } else {
            None
        },
        CommandId::WatchdogReset => if args.len() != 0 {
            Some(TranslationError::WrongArity)
        } else {
            None
        },
        CommandId::SetGroupOutputs => if args.len() < 1 {
            Some(TranslationError::WrongArity)
        } else if spec_arg_err(ParamKind::Group, args[0]) is Some {
            spec_arg_err(ParamKind::Group, args[0])
        } else {
            spec_bytes_err(args.skip(1), 16, 0)
        },
        CommandId::SetSingleOutput => if args.len() != 2 {
            Some(TranslationError::WrongArity)
        } else if spec_arg_err(ParamKind::Channel, args[0]) is Some {
            spec_arg_err(ParamKind::Channel, args[0])
        } else {
            spec_arg_err(ParamKind::U8, args[1])
        },
        CommandId::ModeSwitchFn => if args.len() != 1 {
            Some(TranslationError::WrongArity)
        } else {
            spec_arg_err(ParamKind::Mode, args[0])
        },
        CommandId::CorrectTime => if args.len() != 1 {
            Some(TranslationError::WrongArity)
        } else {
            spec_arg_err(ParamKind::I32, args[0])
        },
        CommandId::ResetAllCounters => if args.len() != 0 {
            Some(TranslationError::WrongArity)
        } else {
            None
        },
        CommandId::ResetAllConf => if args.len() != 0 {
            Some(TranslationError::WrongArity)
        } else {
            None
        },
        CommandId::LoadConfig => if args.len() != 0 {
            Some(TranslationError::WrongArity)
        } else {
            None
        },
        CommandId::SaveConfig => if args.len() != 0 {
            Some(TranslationError::WrongArity)
        } else {
            None
        },
        CommandId::ForceSaveConfig => if args.len() != 0 {
            Some(TranslationError::WrongArity)
        } else {
            None
        },
    }
}

/// The byte frame a decoded request issues to the device (meaningful when
/// the request decodes cleanly).
pub open spec fn spec_cmd_frame(
    c: CommandId,
    stid: crate::translate::StId,
    args: Seq<WireValue>,
) -> Seq<u8> {
    match c {
        CommandId::EpsPing => spec_frame(stid, CC_PING, seq![]),
        CommandId::Status => spec_frame(stid, CC_SYSTEM_STATUS, seq![]),
        CommandId::OvercurrentState => spec_frame(stid, CC_OVERCURRENT_STATE, seq![]),
        CommandId::PiuHk => spec_frame(
            stid,
            CC_PIU_HK,
            seq![wire_value_as_int(args[0]) as u8],
        ),
        CommandId::GetConfigParamWrite => spec_frame(
            stid,
            CC_GET_CONFIG_PARAM_WRITE,
            spec_le16(wire_value_as_int(args[0]) as u16),
        ),
        CommandId::GetConfigParamRead => spec_frame(
            stid,
            CC_GET_CONFIG_PARAM_READ,
            spec_le16(wire_value_as_int(args[0]) as u16),
        ),
        CommandId::SetConfigParamU32 => spec_frame(
            stid,
            CC_SET_CONFIG_PARAM_U32,
            spec_le16(wire_value_as_int(args[0]) as u16) + spec_le32(
                wire_value_as_int(args[1]) as u32,
            ),
        ),
        CommandId::SetConfigParamU16 => spec_frame(
            stid,
            CC_SET_CONFIG_PARAM_U16,
            spec_le16(wire_value_as_int(args[0]) as u16) + spec_le16(
                wire_value_as_int(args[1]) as u16,
            ),
        ),
        CommandId::SetConfigParamU8 => spec_frame(
            stid,
            CC_SET_CONFIG_PARAM_U8,
            spec_le16(wire_value_as_int(args[0]) as u16) + seq![
                wire_value_as_int(args[1]) as u8,
            ],
        ),
        CommandId::SetConfigParamI16 => spec_frame(
            stid,
            CC_SET_CONFIG_PARAM_I16,
            spec_le16(wire_value_as_int(args[0]) as u16) + spec_le16(
                spec_u16_of_i16(wire_value_as_int(args[1]) as i16),
            ),
        ),
        CommandId::SetConfigParamI8 => spec_frame(
            stid,
            CC_SET_CONFIG_PARAM_I8,
            spec_le16(wire_value_as_int(args[0]) as u16) + seq![
                spec_u8_of_i8(wire_value_as_int(args[1]) as i8),
            ],
        ),
        CommandId::ResetConfigParam => spec_frame(
            stid,
            CC_RESET_CONFIG_PARAM,
            spec_le16(wire_value_as_int(args[0]) as u16),
        ),
        CommandId::SysReset => spec_frame(stid, CC_SYS_RESET, seq![RESET_KEY]),
        CommandId::ShutDownAll => spec_frame(stid, CC_SHUTDOWN_ALL, seq![]),
        CommandId::WatchdogReset => spec_frame(stid, CC_WATCHDOG_RESET, seq![]),
        CommandId::SetGroupOutputs => spec_frame(
            stid,
            CC_SET_GROUP_OUTPUTS,
            seq![wire_value_as_int(args[0]) as u8] + spec_le16(
                spec_group_mask(spec_bytes_of(args.skip(1))),
            ),
        ),
        CommandId::SetSingleOutput => spec_frame(
            stid,
            CC_SET_SINGLE_OUTPUT,
            seq![wire_value_as_int(args[0]) as u8, wire_value_as_int(args[1]) as u8],
        ),
        CommandId::ModeSwitchFn => spec_frame(
            stid,
            CC_MODE_SWITCH,
            seq![wire_value_as_int(args[0]) as u8],
        ),
        CommandId::CorrectTime => spec_frame(
            stid,
            CC_CORRECT_TIME,
            spec_le32(spec_u32_of_i32(wire_value_as_int(args[0]) as i32)),
        ),
        CommandId::ResetAllCounters => spec_frame(stid, CC_RESET_ALL_COUNTERS, seq![]),
        CommandId::ResetAllConf => spec_frame(stid, CC_RESET_ALL_CONF, seq![]),
        CommandId::LoadConfig => spec_frame(stid, CC_LOAD_CONFIG, seq![]),
        CommandId::SaveConfig => spec_frame(stid, CC_SAVE_CONFIG, seq![]),
        CommandId::ForceSaveConfig => spec_frame(stid, CC_FORCE_SAVE_CONFIG, seq![]),
    }
}

/// The wire result a command yields for a given device outcome.
pub open spec fn spec_cmd_result(c: CommandId, out: DeviceOutcome) -> Result<
    WireOutputModel,
    DomainError,
> {
    match spec_result_of(c) {
        ResultKind::Unit => match spec_unit_result(out) {
            Ok(_) => Ok(WireOutputModel::Unit),
            Err(e) => Err(e),
        },
        ResultKind::Status => match spec_status_result(out) {
            Ok(s) => Ok(WireOutputModel::Fields(s.spec_flatten())),
            Err(e) => Err(e),
        },
        ResultKind::Overcurrent => match spec_overcurrent_result(out) {
            Ok(s) => Ok(WireOutputModel::Fields(s.spec_flatten())),
            Err(e) => Err(e),
        },
        ResultKind::PiuTelemetry => match spec_piu_hk_result(out) {
            Ok(h) => Ok(WireOutputModel::Fields(h.spec_flatten())),
            Err(e) => Err(e),
        },
        ResultKind::ParamBytes => match spec_param_result(out) {
            Ok(o) => Ok(
                WireOutputModel::Ints(
                    seq![o.param_id as i32] + o.data@.map_values(|b: u8| b as i32),
                ),
            ),
            Err(e) => Err(e),
        },
    }
}

/// One dispatch transition: from the subsystem model and the predetermined
/// outcome of the next device invocation to the new model and the response.
/// A request that does not resolve or does not decode leaves the model — in
/// particular the invocation count — untouched.
pub open spec fn spec_step(
    cmds: Seq<CommandId>,
    m: CoreModel,
    next: DeviceOutcome,
    req: RequestModel,
) -> (CoreModel, Result<WireOutputModel, DispatchError>) {
    match spec_find(cmds, req.name, 0) {
        Option::None => (m, Err(DispatchError::NotFound)),
        Option::Some(c) => match spec_decode_err(c, req.args) {
            Option::Some(e) => (m, Err(DispatchError::Decode(e))),
            Option::None => {
                let res = spec_cmd_result(c, next);
                (
                    CoreModel {
                        stid: m.stid,
                        last_cmd: spec_cmd_frame(c, m.stid, req.args),
                        last_err: spec_err_recorded(res),
                        calls: m.calls + 1,
                    },
                    match res {
                        Ok(w) => Ok(w),
                        Err(e) => Err(DispatchError::Domain(e)),
                    },
                )
            },
        },
    }
}

/// Decode an 8-bit unsigned wire argument.
fn decode_u8(w: &WireValue) -> (r: Result<u8, TranslationError>)
    ensures
        match r {
            Ok(v) => spec_arg_err(ParamKind::U8, *w) is None && v as int == wire_value_as_int(*w),
            Err(e) => spec_arg_err(ParamKind::U8, *w) == Some(e),
        },
{
    match w {
        WireValue::Int(v) => if *v < 0 || *v > 255 {
            Err(TranslationError::OutOfRange)
        } else {
            Ok(*v as u8)
        },
        _ => Err(TranslationError::WrongType),
    }
}

/// Decode a 16-bit unsigned wire argument.
fn decode_u16(w: &WireValue) -> (r: Result<u16, TranslationError>)
    ensures
        match r {
            Ok(v) => spec_arg_err(ParamKind::U16, *w) is None && v as int == wire_value_as_int(*w),
            Err(e) => spec_arg_err(ParamKind::U16, *w) == Some(e),
        },
{
    match w {
        WireValue::Int(v) => if *v < 0 || *v > 65535 {
            Err(TranslationError::OutOfRange)
        } else {
            Ok(*v as u16)
        },
        _ => Err(TranslationError::WrongType),
    }
}

/// Decode a 32-bit unsigned wire argument.
fn decode_u32(w: &WireValue) -> (r: Result<u32, TranslationError>)
    ensures
        match r {
            Ok(v) => spec_arg_err(ParamKind::U32, *w) is None && v as int == wire_value_as_int(*w),
            Err(e) => spec_arg_err(ParamKind::U32, *w) == Some(e),
        },
{
    match w {
        WireValue::Int(v) => if *v < 0 {
            Err(TranslationError::OutOfRange)
        } else {
            Ok(*v as u32)
        },
        _ => Err(TranslationError::WrongType),
    }
}

/// Decode an 8-bit signed wire argument.
fn decode_i8(w: &WireValue) -> (r: Result<i8, TranslationError>)
    ensures
        match r {
            Ok(v) => spec_arg_err(ParamKind::I8, *w) is None && v as int == wire_value_as_int(*w),
            Err(e) => spec_arg_err(ParamKind::I8, *w) == Some(e),
        },
{
    match w {
        WireValue::Int(v) => if *v < -128 || *v > 127 {
            Err(TranslationError::OutOfRange)
        } else {
            Ok(*v as i8)
        },
        _ => Err(TranslationError::WrongType),
    }
}

/// Decode a 16-bit signed wire argument.
fn decode_i16(w: &WireValue) -> (r: Result<i16, TranslationError>)
    ensures
        match r {
            Ok(v) => spec_arg_err(ParamKind::I16, *w) is None && v as int == wire_value_as_int(*w),
            Err(e) => spec_arg_err(ParamKind::I16, *w) == Some(e),
        },
{
    match w {
        WireValue::Int(v) => if *v < -32768 || *v > 32767 {
            Err(TranslationError::OutOfRange)
        } else {
            Ok(*v as i16)
        },
        _ => Err(TranslationError::WrongType),
    }
}

/// Decode a 32-bit signed wire argument.
fn decode_i32(w: &WireValue) -> (r: Result<i32, TranslationError>)
    ensures
        match r {
            Ok(v) => spec_arg_err(ParamKind::I32, *w) is None && v as int == wire_value_as_int(*w),
            Err(e) => spec_arg_err(ParamKind::I32, *w) == Some(e),
        },
{
    match w {
        WireValue::Int(v) => Ok(*v),
        _ => Err(TranslationError::WrongType),
    }
}

/// Decode an integration-unit housekeeping selector ordinal.
fn decode_piu_sel(w: &WireValue) -> (r: Result<PiuHkSel, TranslationError>)
    ensures
        match r {
            Ok(m) => spec_arg_err(ParamKind::PiuSel, *w) is None && m.spec_ordinal()
                == wire_value_as_int(*w),
            Err(e) => spec_arg_err(ParamKind::PiuSel, *w) == Some(e),
        },
{
    match w {
        WireValue::Int(v) => PiuHkSel::from_wire(*v),
        _ => Err(TranslationError::WrongType),
    }
}

/// Decode a bus group selector ordinal.
fn decode_group(w: &WireValue) -> (r: Result<BusGroup, TranslationError>)
    ensures
        match r {
            Ok(m) => spec_arg_err(ParamKind::Group, *w) is None && m.spec_ordinal()
                == wire_value_as_int(*w),
            Err(e) => spec_arg_err(ParamKind::Group, *w) == Some(e),
        },
{
    match w {
        WireValue::Int(v) => BusGroup::from_wire(*v),
        _ => Err(TranslationError::WrongType),
    }
}

/// Decode a bus channel command ordinal.
fn decode_channel(w: &WireValue) -> (r: Result<BusChannel, TranslationError>)
    ensures
        match r {
            Ok(m) => spec_arg_err(ParamKind::Channel, *w) is None && m.spec_ordinal()
                == wire_value_as_int(*w),
            Err(e) => spec_arg_err(ParamKind::Channel, *w) == Some(e),
        },
{
    match w {
        WireValue::Int(v) => BusChannel::from_wire(*v),
        _ => Err(TranslationError::WrongType),
    }
}

/// Decode an operating mode ordinal.
fn decode_mode(w: &WireValue) -> (r: Result<ModeSwitch, TranslationError>)
    ensures
        match r {
            Ok(m) => spec_arg_err(ParamKind::Mode, *w) is None && m.spec_ordinal()
                == wire_value_as_int(*w),
            Err(e) => spec_arg_err(ParamKind::Mode, *w) == Some(e),
        },
{
    match w {
        WireValue::Int(v) => ModeSwitch::from_wire(*v),
        _ => Err(TranslationError::WrongType),
    }
}

/// Project a configuration-parameter result onto the wire: the parameter
/// identifier, then one integer per value byte.
fn output_ints(o: &Output) -> (r: Vec<i32>)
    ensures
        r@ == seq![o.param_id as i32] + o.data@.map_values(|b: u8| b as i32),
{
    let mut r: Vec<i32> = Vec::new();
    r.push(o.param_id as i32);
    let mut k: usize = 0;
    while k < o.data.len()
        invariant
            k <= o.data@.len(),
            r@.len() == 1 + k,
            r@[0] == o.param_id as i32,
            forall|i: int| 0 <= i < k ==> r@[1 + i] == o.data@[i] as i32,
        decreases o.data@.len() - k,
    {
        r.push(o.data[k] as i32);
        k = k + 1;
    }
    proof {
        assert(r@ =~= seq![o.param_id as i32] + o.data@.map_values(|b: u8| b as i32));
    }
    r
}

/// What dispatching a resolved command does: either the arguments fail to
/// decode and nothing changes, or the command runs one device operation,
/// records its frame and outcome, and returns the encoded result.
pub open spec fn spec_dispatch_resolved(
    c: CommandId,
    m: CoreModel,
    next: DeviceOutcome,
    args: Seq<WireValue>,
    m2: CoreModel,
    r2: Result<WireOutputModel, DispatchError>,
) -> bool {
    match spec_decode_err(c, args) {
        Option::Some(e) => m2 == m && r2 == Err::<WireOutputModel, DispatchError>(
            DispatchError::Decode(e),
        ),
        Option::None => {
            let res = spec_cmd_result(c, next);
            &&& m2 == (CoreModel {
                stid: m.stid,
                last_cmd: spec_cmd_frame(c, m.stid, args),
                last_err: spec_err_recorded(res),
                calls: m.calls + 1,
            })
            &&& r2 == (match res {
                Ok(w) => Ok::<WireOutputModel, DispatchError>(w),
                Err(e) => Err(DispatchError::Domain(e)),
            })
        },
    }
}

/// Decode and run one resolved command.
fn run_eps_ping<P: DevicePort>(sub: &mut Subsystem<P>, args: &Vec<WireValue>) -> (r: Result<
    WireOutput,
    DispatchError,
>)
    requires
        old(sub).wf(),
    ensures
        final(sub).wf(),
        Subsystem::<P>::outcomes_stable(*old(sub), *final(sub)),
        spec_dispatch_resolved(
            CommandId::EpsPing,
            spec_core_model(*old(sub)),
            old(sub).next_outcome(),
            args@,
            spec_core_model(*final(sub)),
            spec_result_model(r),
        ),
{
    if args.len() != 0 {
        return Err(DispatchError::Decode(TranslationError::WrongArity));
    }
    match sub.eps_ping() {
        Ok(_) => Ok(WireOutput::Unit),
        Err(e) => Err(DispatchError::Domain(e)),
    }
}

/// Decode and run one resolved command.
fn run_status<P: DevicePort>(sub: &mut Subsystem<P>, args: &Vec<WireValue>) -> (r: Result<
    WireOutput,
    DispatchError,
>)
    requires
        old(sub).wf(),
    ensures
        final(sub).wf(),
        Subsystem::<P>::outcomes_stable(*old(sub), *final(sub)),
        spec_dispatch_resolved(
            CommandId::Status,
            spec_core_model(*old(sub)),
            old(sub).next_outcome(),
            args@,
            spec_core_model(*final(sub)),
            spec_result_model(r),
        ),
{
    if args.len() != 0 {
        return Err(DispatchError::Decode(TranslationError::WrongArity));
    }
    match sub.system_status() {
        Ok(s) => Ok(WireOutput::Fields(s.flatten())),
        Err(e) => Err(DispatchError::Domain(e)),
    }
}

/// Decode and run one resolved command.
fn run_overcurrent_state<P: DevicePort>(sub: &mut Subsystem<P>, args: &Vec<WireValue>) -> (r: Result<
    WireOutput,
    DispatchError,
>)
    requires
        old(sub).wf(),
    ensures
        final(sub).wf(),
        Subsystem::<P>::outcomes_stable(*old(sub), *final(sub)),
        spec_dispatch_resolved(
            CommandId::OvercurrentState,
            spec_core_model(*old(sub)),
            old(sub).next_outcome(),
            args@,
            spec_core_model(*final(sub)),
            spec_result_model(r),
        ),
{
    if args.len() != 0 {
        return Err(DispatchError::Decode(TranslationError::WrongArity));
    }
    match sub.overcurrent_state() {
        Ok(s) => Ok(WireOutput::Fields(s.flatten())),
        Err(e) => Err(DispatchError::Domain(e)),
    }
}

/// Decode and run one resolved command.
fn run_piu_hk<P: DevicePort>(sub: &mut Subsystem<P>, args: &Vec<WireValue>) -> (r: Result<
    WireOutput,
    DispatchError,
>)
    requires
        old(sub).wf(),
    ensures
        final(sub).wf(),
        Subsystem::<P>::outcomes_stable(*old(sub), *final(sub)),
        spec_dispatch_resolved(
            CommandId::PiuHk,
            spec_core_model(*old(sub)),
            old(sub).next_outcome(),
            args@,
            spec_core_model(*final(sub)),
            spec_result_model(r),
        ),
{
    if args.len() != 1 {
        return Err(DispatchError::Decode(TranslationError::WrongArity));
    }
    let sel = match decode_piu_sel(&args[0]) {
        Ok(v) => v,
        Err(e) => {
            return Err(DispatchError::Decode(e));
        },
    };
    match sub.piu_hk(sel) {
        Ok(h) => Ok(WireOutput::Fields(h.flatten())),
        Err(e) => Err(DispatchError::Domain(e)),
    }
}

/// Decode and run one resolved command.
fn run_get_config_param_write<P: DevicePort>(sub: &mut Subsystem<P>, args: &Vec<WireValue>) -> (r: Result<
    WireOutput,
    DispatchError,
>)
    requires
        old(sub).wf(),
    ensures
        final(sub).wf(),
        Subsystem::<P>::outcomes_stable(*old(sub), *final(sub)),
        spec_dispatch_resolved(
            CommandId::GetConfigParamWrite,
            spec_core_model(*old(sub)),
            old(sub).next_outcome(),
            args@,
            spec_core_model(*final(sub)),
            spec_result_model(r),
        ),
{
    if args.len() != 1 {
        return Err(DispatchError::Decode(TranslationError::WrongArity));
    }
    let p = match decode_u16(&args[0]) {
        Ok(v) => v,
        Err(e) => {
            return Err(DispatchError::Decode(e));
        },
    };
    match sub.get_config_para_write(p) {
        Ok(o) => Ok(WireOutput::Ints(output_ints(&o))),
        Err(e) => Err(DispatchError::Domain(e)),
    }
}

/// Decode and run one resolved command.
fn run_get_config_param_read<P: DevicePort>(sub: &mut Subsystem<P>, args: &Vec<WireValue>) -> (r: Result<
    WireOutput,
    DispatchError,
>)
    requires
        old(sub).wf(),
    ensures
        final(sub).wf(),
        Subsystem::<P>::outcomes_stable(*old(sub), *final(sub)),
        spec_dispatch_resolved(
            CommandId::GetConfigParamRead,
            spec_core_model(*old(sub)),
            old(sub).next_outcome(),
            args@,
            spec_core_model(*final(sub)),
            spec_result_model(r),
        ),
{
    if args.len() != 1 {
        return Err(DispatchError::Decode(TranslationError::WrongArity));
    }
    let p = match decode_u16(&args[0]) {
        Ok(v) => v,
        Err(e) => {
            return Err(DispatchError::Decode(e));
        },
    };
    match sub.get_config_para_read(p) {
        Ok(o) => Ok(WireOutput::Ints(output_ints(&o))),
        Err(e) => Err(DispatchError::Domain(e)),
    }
}

/// Decode and run one resolved command.
fn run_set_config_param_u32<P: DevicePort>(sub: &mut Subsystem<P>, args: &Vec<WireValue>) -> (r: Result<
    WireOutput,
    DispatchError,
>)
    requires
        old(sub).wf(),
    ensures
        final(sub).wf(),
        Subsystem::<P>::outcomes_stable(*old(sub), *final(sub)),
        spec_dispatch_resolved(
            CommandId::SetConfigParamU32,
            spec_core_model(*old(sub)),
            old(sub).next_outcome(),
            args@,
            spec_core_model(*final(sub)),
            spec_result_model(r),
        ),
{
    if args.len() != 2 {
        return Err(DispatchError::Decode(TranslationError::WrongArity));
    }
    let p = match decode_u16(&args[0]) {
        Ok(v) => v,
        Err(e) => {
            return Err(DispatchError::Decode(e));
        },
    };
    let input = match decode_u32(&args[1]) {
        Ok(v) => v,
        Err(e) => {
            return Err(DispatchError::Decode(e));
        },
    };
    match sub.set_config_para_u32(p, input) {
        Ok(o) => Ok(WireOutput::Ints(output_ints(&o))),
        Err(e) => Err(DispatchError::Domain(e)),
    }
}

/// Decode and run one resolved command.
fn run_set_config_param_u16<P: DevicePort>(sub: &mut Subsystem<P>, args: &Vec<WireValue>) -> (r: Result<
    WireOutput,
    DispatchError,
>)
    requires
        old(sub).wf(),
    ensures
        final(sub).wf(),
        Subsystem::<P>::outcomes_stable(*old(sub), *final(sub)),
        spec_dispatch_resolved(
            CommandId::SetConfigParamU16,
            spec_core_model(*old(sub)),
            old(sub).next_outcome(),
            args@,
            spec_core_model(*final(sub)),
            spec_result_model(r),
        ),
{
    if args.len() != 2 {
        return Err(DispatchError::Decode(TranslationError::WrongArity));
    }
    let p = match decode_u16(&args[0]) {
        Ok(v) => v,
        Err(e) => {
            return Err(DispatchError::Decode(e));
        },
    };
    let input = match decode_u16(&args[1]) {
        Ok(v) => v,
        Err(e) => {
            return Err(DispatchError::Decode(e));
        },
    };
    match sub.set_config_para_u16(p, input) {
        Ok(o) => Ok(WireOutput::Ints(output_ints(&o))),
        Err(e) => Err(DispatchError::Domain(e)),
    }
}

/// Decode and run one resolved command.
fn run_set_config_param_u8<P: DevicePort>(sub: &mut Subsystem<P>, args: &Vec<WireValue>) -> (r: Result<
    WireOutput,
    DispatchError,
>)
    requires
        old(sub).wf(),
    ensures
        final(sub).wf(),
        Subsystem::<P>::outcomes_stable(*old(sub), *final(sub)),
        spec_dispatch_resolved(
            CommandId::SetConfigParamU8,
            spec_core_model(*old(sub)),
            old(sub).next_outcome(),
            args@,
            spec_core_model(*final(sub)),
            spec_result_model(r),
        ),
{
    if args.len() != 2 {
        return Err(DispatchError::Decode(TranslationError::WrongArity));
    }
    let p = match decode_u16(&args[0]) {
        Ok(v) => v,
        Err(e) => {
            return Err(DispatchError::Decode(e));
        },
    };
    let input = match decode_u8(&args[1]) {
        Ok(v) => v,
        Err(e) => {
            return Err(DispatchError::Decode(e));
        },
    };
    match sub.set_config_para_u8(p, input) {
        Ok(o) => Ok(WireOutput::Ints(output_ints(&o))),
        Err(e) => Err(DispatchError::Domain(e)),
    }
}

/// Decode and run one resolved command.
fn run_set_config_param_i16<P: DevicePort>(sub: &mut Subsystem<P>, args: &Vec<WireValue>) -> (r: Result<
    WireOutput,
    DispatchError,
>)
    requires
        old(sub).wf(),
    ensures
        final(sub).wf(),
        Subsystem::<P>::outcomes_stable(*old(sub), *final(sub)),
        spec_dispatch_resolved(
            CommandId::SetConfigParamI16,
            spec_core_model(*old(sub)),
            old(sub).next_outcome(),
            args@,
            spec_core_model(*final(sub)),
            spec_result_model(r),
        ),
{
    if args.len() != 2 {
        return Err(DispatchError::Decode(TranslationError::WrongArity));
    }
    let p = match decode_u16(&args[0]) {
        Ok(v) => v,
        Err(e) => {
            return Err(DispatchError::Decode(e));
        },
    };
    let input = match decode_i16(&args[1]) {
        Ok(v) => v,
        Err(e) => {
            return Err(DispatchError::Decode(e));
        },
    };
    match sub.set_config_para_i16(p, input) {
        Ok(o) => Ok(WireOutput::Ints(output_ints(&o))),
        Err(e) => Err(DispatchError::Domain(e)),
    }
}

/// Decode and run one resolved command.
fn run_set_config_param_i8<P: DevicePort>(sub: &mut Subsystem<P>, args: &Vec<WireValue>) -> (r: Result<
    WireOutput,
    DispatchError,
>)
    requires
        old(sub).wf(),
    ensures
        final(sub).wf(),
        Subsystem::<P>::outcomes_stable(*old(sub), *final(sub)),
        spec_dispatch_resolved(
            CommandId::SetConfigParamI8,
            spec_core_model(*old(sub)),
            old(sub).next_outcome(),
            args@,
            spec_core_model(*final(sub)),
            spec_result_model(r),
        ),
{
    if args.len() != 2 {
        return Err(DispatchError::Decode(TranslationError::WrongArity));
    }
    let p = match decode_u16(&args[0]) {
        Ok(v) => v,
        Err(e) => {
            return Err(DispatchError::Decode(e));
        },
    };
    let input = match decode_i8(&args[1]) {
        Ok(v) => v,
        Err(e) => {
            return Err(DispatchError::Decode(e));
        },
    };
    match sub.set_config_para_i8(p, input) {
        Ok(o) => Ok(WireOutput::Ints(output_ints(&o))),
        Err(e) => Err(DispatchError::Domain(e)),
    }
}

/// Decode and run one resolved command.
fn run_reset_config_param<P: DevicePort>(sub: &mut Subsystem<P>, args: &Vec<WireValue>) -> (r: Result<
    WireOutput,
    DispatchError,
>)
    requires
        old(sub).wf(),
    ensures
        final(sub).wf(),
        Subsystem::<P>::outcomes_stable(*old(sub), *final(sub)),
        spec_dispatch_resolved(
            CommandId::ResetConfigParam,
            spec_core_model(*old(sub)),
            old(sub).next_outcome(),
            args@,
            spec_core_model(*final(sub)),
            spec_result_model(r),
        ),
{
    if args.len() != 1 {
        return Err(DispatchError::Decode(TranslationError::WrongArity));
    }
    let p = match decode_u16(&args[0]) {
        Ok(v) => v,
        Err(e) => {
            return Err(DispatchError::Decode(e));
        },
    };
    match sub.reset_param(p) {
        Ok(o) => Ok(WireOutput::Ints(output_ints(&o))),
        Err(e) => Err(DispatchError::Domain(e)),
    }
}

/// Decode and run one resolved command.
fn run_sys_reset<P: DevicePort>(sub: &mut Subsystem<P>, args: &Vec<WireValue>) -> (r: Result<
    WireOutput,
    DispatchError,
>)
    requires
        old(sub).wf(),
    ensures
        final(sub).wf(),
        Subsystem::<P>::outcomes_stable(*old(sub), *final(sub)),
        spec_dispatch_resolved(
            CommandId::SysReset,
            spec_core_model(*old(sub)),
            old(sub).next_outcome(),
            args@,
            spec_core_model(*final(sub)),
            spec_result_model(r),
        ),
{
    if args.len() != 1 {
        return Err(DispatchError::Decode(TranslationError::WrongArity));
    }
    let key = match decode_u8(&args[0]) {
        Ok(v) => v,
        Err(e) => {
            return Err(DispatchError::Decode(e));
        },
    };
    match sub.sys_reset(key) {
        Ok(_) => Ok(WireOutput::Unit),
        Err(e) => Err(DispatchError::Domain(e)),
    }
}

/// Decode and run one resolved command.
fn run_shutdown_all<P: DevicePort>(sub: &mut Subsystem<P>, args: &Vec<WireValue>) -> (r: Result<
    WireOutput,
    DispatchError,
>)
    requires
        old(sub).wf(),
    ensures
        final(sub).wf(),
        Subsystem::<P>::outcomes_stable(*old(sub), *final(sub)),
        spec_dispatch_resolved(
            CommandId::ShutDownAll,
            spec_core_model(*old(sub)),
            old(sub).next_outcome(),
            args@,
            spec_core_model(*final(sub)),
            spec_result_model(r),
        ),
{
    if args.len() != 0 {
        return Err(DispatchError::Decode(TranslationError::WrongArity));
    }
    match sub.shutdown_all() {
        Ok(_) => Ok(WireOutput::Unit),
        Err(e) => Err(DispatchError::Domain(e)),
    }
}

/// Decode and run one resolved command.
fn run_watchdog_reset<P: DevicePort>(sub: &mut Subsystem<P>, args: &Vec<WireValue>) -> (r: Result<
    WireOutput,
    DispatchError,
>)
    requires
        old(sub).wf(),
    ensures
        final(sub).wf(),
        Subsystem::<P>::outcomes_stable(*old(sub), *final(sub)),
        spec_dispatch_resolved(
            CommandId::WatchdogReset,
            spec_core_model(*old(sub)),
            old(sub).next_outcome(),
            args@,
            spec_core_model(*final(sub)),
            spec_result_model(r),
        ),
{
    if args.len() != 0 {
        return Err(DispatchError::Decode(TranslationError::WrongArity));
    }
    match sub.watchdog_reset() {
        Ok(_) => Ok(WireOutput::Unit),
        Err(e) => Err(DispatchError::Domain(e)),
    }
}

/// Decode and run one resolved command.
#[verifier::loop_isolation(false)]
fn run_set_group_outputs<P: DevicePort>(sub: &mut Subsystem<P>, args: &Vec<WireValue>) -> (r: Result<
    WireOutput,
    DispatchError,
>)
    requires
        old(sub).wf(),
    ensures
        final(sub).wf(),
        Subsystem::<P>::outcomes_stable(*old(sub), *final(sub)),
        spec_dispatch_resolved(
            CommandId::SetGroupOutputs,
            spec_core_model(*old(sub)),
            old(sub).next_outcome(),
            args@,
            spec_core_model(*final(sub)),
            spec_result_model(r),
        ),
{
    if args.len() < 1 {
        return Err(DispatchError::Decode(TranslationError::WrongArity));
    }
    let group = match decode_group(&args[0]) {
        Ok(v) => v,
        Err(e) => {
            return Err(DispatchError::Decode(e));
        },
    };
    let ghost rest = args@.skip(1);
    let n = args.len();
    let mut channels: Vec<u8> = Vec::new();
    let mut k: usize = 1;
    proof {
        assert(channels@ =~= spec_bytes_of(rest.take(0)));
    }
    while k < n
        invariant
            1 <= k <= n,
            channels@ == spec_bytes_of(rest.take(k - 1)),
            spec_bytes_err(rest, 16, 0) == spec_bytes_err(rest, 16, k - 1),
            forall|i: int| 0 <= i < channels@.len() ==> channels@[i] < 16,
        decreases n - k,
    {
        proof {
            assert(rest[k - 1] == args@[k as int]);
        }
        match &args[k] {
            WireValue::Int(v) => {
                if *v < 0 || *v >= 16 {
                    return Err(DispatchError::Decode(TranslationError::OutOfRange));
                }
                channels.push(*v as u8);
            },
            _ => {
                return Err(DispatchError::Decode(TranslationError::WrongType));
            },
        }
        proof {
            assert(channels@ =~= spec_bytes_of(rest.take(k as int)));
        }
        k = k + 1;
    }
    proof {
        assert(rest.take(n - 1) =~= rest);
        assert(channels@ == spec_bytes_of(rest));
    }
    match sub.set_group_outputs(group, channels) {
        Ok(_) => Ok(WireOutput::Unit),
        Err(e) => Err(DispatchError::Domain(e)),
    }
}

/// Decode and run one resolved command.
fn run_set_single_output<P: DevicePort>(sub: &mut Subsystem<P>, args: &Vec<WireValue>) -> (r: Result<
    WireOutput,
    DispatchError,
>)
    requires
        old(sub).wf(),
    ensures
        final(sub).wf(),
        Subsystem::<P>::outcomes_stable(*old(sub), *final(sub)),
        spec_dispatch_resolved(
            CommandId::SetSingleOutput,
            spec_core_model(*old(sub)),
            old(sub).next_outcome(),
            args@,
            spec_core_model(*final(sub)),
            spec_result_model(r),
        ),
{
    if args.len() != 2 {
        return Err(DispatchError::Decode(TranslationError::WrongArity));
    }
    let chan = match decode_channel(&args[0]) {
        Ok(v) => v,
        Err(e) => {
            return Err(DispatchError::Decode(e));
        },
    };
    let idx = match decode_u8(&args[1]) {
        Ok(v) => v,
        Err(e) => {
            return Err(DispatchError::Decode(e));
        },
    };
    match sub.set_single_output(chan, idx) {
        Ok(_) => Ok(WireOutput::Unit),
        Err(e) => Err(DispatchError::Domain(e)),
    }
}

/// Decode and run one resolved command.
fn run_mode_switch<P: DevicePort>(sub: &mut Subsystem<P>, args: &Vec<WireValue>) -> (r: Result<
    WireOutput,
    DispatchError,
>)
    requires
        old(sub).wf(),
    ensures
        final(sub).wf(),
        Subsystem::<P>::outcomes_stable(*old(sub), *final(sub)),
        spec_dispatch_resolved(
            CommandId::ModeSwitchFn,
            spec_core_model(*old(sub)),
            old(sub).next_outcome(),
            args@,
            spec_core_model(*final(sub)),
            spec_result_model(r),
        ),
{
    if args.len() != 1 {
        return Err(DispatchError::Decode(TranslationError::WrongArity));
    }
    let mode = match decode_mode(&args[0]) {
        Ok(v) => v,
        Err(e) => {
            return Err(DispatchError::Decode(e));
        },
    };
    match sub.mode_switch(mode) {
        Ok(_) => Ok(WireOutput::Unit),
        Err(e) => Err(DispatchError::Domain(e)),
    }
}

/// Decode and run one resolved command.
fn run_correct_time<P: DevicePort>(sub: &mut Subsystem<P>, args: &Vec<WireValue>) -> (r: Result<
    WireOutput,
    DispatchError,
>)
    requires
        old(sub).wf(),
    ensures
        final(sub).wf(),
        Subsystem::<P>::outcomes_stable(*old(sub), *final(sub)),
        spec_dispatch_resolved(
            CommandId::CorrectTime,
            spec_core_model(*old(sub)),
            old(sub).next_outcome(),
            args@,
            spec_core_model(*final(sub)),
            spec_result_model(r),
        ),
{
    if args.len() != 1 {
        return Err(DispatchError::Decode(TranslationError::WrongArity));
    }
    let t = match decode_i32(&args[0]) {
        Ok(v) => v,
        Err(e) => {
            return Err(DispatchError::Decode(e));
        },
    };
    match sub.correct_time(t) {
        Ok(_) => Ok(WireOutput::Unit),
        Err(e) => Err(DispatchError::Domain(e)),
    }
}

/// Decode and run one resolved command.
fn run_reset_all_counters<P: DevicePort>(sub: &mut Subsystem<P>, args: &Vec<WireValue>) -> (r: Result<
    WireOutput,
    DispatchError,
>)
    requires
        old(sub).wf(),
    ensures
        final(sub).wf(),
        Subsystem::<P>::outcomes_stable(*old(sub), *final(sub)),
        spec_dispatch_resolved(
            CommandId::ResetAllCounters,
            spec_core_model(*old(sub)),
            old(sub).next_outcome(),
            args@,
            spec_core_model(*final(sub)),
            spec_result_model(r),
        ),
{
    if args.len() != 0 {
        return Err(DispatchError::Decode(TranslationError::WrongArity));
    }
    match sub.reset_all_counters() {
        Ok(_) => Ok(WireOutput::Unit),
        Err(e) => Err(DispatchError::Domain(e)),
    }
}

/// Decode and run one resolved command.
fn run_reset_all_conf<P: DevicePort>(sub: &mut Subsystem<P>, args: &Vec<WireValue>) -> (r: Result<
    WireOutput,
    DispatchError,
>)
    requires
        old(sub).wf(),
    ensures
        final(sub).wf(),
        Subsystem::<P>::outcomes_stable(*old(sub), *final(sub)),
        spec_dispatch_resolved(
            CommandId::ResetAllConf,
            spec_core_model(*old(sub)),
            old(sub).next_outcome(),
            args@,
            spec_core_model(*final(sub)),
            spec_result_model(r),
        ),
{
    if args.len() != 0 {
        return Err(DispatchError::Decode(TranslationError::WrongArity));
    }
    match sub.reset_all_conf() {
        Ok(_) => Ok(WireOutput::Unit),
        Err(e) => Err(DispatchError::Domain(e)),
    }
}

/// Decode and run one resolved command.
fn run_load_config<P: DevicePort>(sub: &mut Subsystem<P>, args: &Vec<WireValue>) -> (r: Result<
    WireOutput,
    DispatchError,
>)
    requires
        old(sub).wf(),
    ensures
        final(sub).wf(),
        Subsystem::<P>::outcomes_stable(*old(sub), *final(sub)),
        spec_dispatch_resolved(
            CommandId::LoadConfig,
            spec_core_model(*old(sub)),
            old(sub).next_outcome(),
            args@,
            spec_core_model(*final(sub)),
            spec_result_model(r),
        ),
{
    if args.len() != 0 {
        return Err(DispatchError::Decode(TranslationError::WrongArity));
    }
    match sub.load_config() {
        Ok(_) => Ok(WireOutput::Unit),
        Err(e) => Err(DispatchError::Domain(e)),
    }
}

/// Decode and run one resolved command.
fn run_save_config<P: DevicePort>(sub: &mut Subsystem<P>, args: &Vec<WireValue>) -> (r: Result<
    WireOutput,
    DispatchError,
>)
    requires
        old(sub).wf(),
    ensures
        final(sub).wf(),
        Subsystem::<P>::outcomes_stable(*old(sub), *final(sub)),
        spec_dispatch_resolved(
            CommandId::SaveConfig,
            spec_core_model(*old(sub)),
            old(sub).next_outcome(),
            args@,
            spec_core_model(*final(sub)),
            spec_result_model(r),
        ),
{
    if args.len() != 0 {
        return Err(DispatchError::Decode(TranslationError::WrongArity));
    }
    match sub.save_config() {
        Ok(_) => Ok(WireOutput::Unit),
        Err(e) => Err(DispatchError::Domain(e)),
    }
}

/// Decode and run one resolved command.
fn run_force_save_config<P: DevicePort>(sub: &mut Subsystem<P>, args: &Vec<WireValue>) -> (r: Result<
    WireOutput,
    DispatchError,
>)
    requires
        old(sub).wf(),
    ensures
        final(sub).wf(),
        Subsystem::<P>::outcomes_stable(*old(sub), *final(sub)),
        spec_dispatch_resolved(
            CommandId::ForceSaveConfig,
            spec_core_model(*old(sub)),
            old(sub).next_outcome(),
            args@,
            spec_core_model(*final(sub)),
            spec_result_model(r),
        ),
{
    if args.len() != 0 {
        return Err(DispatchError::Decode(TranslationError::WrongArity));
    }
    match sub.force_save_config() {
        Ok(_) => Ok(WireOutput::Unit),
        Err(e) => Err(DispatchError::Domain(e)),
    }
}

/// Dispatch one wire request against the catalog and the subsystem.
///
/// This is the call contract the transport layer consumes: resolve the
/// name, decode the arguments, perform exactly one device operation, encode
/// the result. A name absent from the catalog or an argument list that does
/// not decode never reaches the device. The whole behaviour equals one
/// [`spec_step`] over the subsystem's diagnostic model.
pub fn invoke<P: DevicePort>(
    sub: &mut Subsystem<P>,
    cat: &Catalog,
    name: &String,
    args: &Vec<WireValue>,
) -> (r: Result<WireOutput, DispatchError>)
    requires
        old(sub).wf(),
        cat.wf(),
    ensures
        final(sub).wf(),
        Subsystem::<P>::outcomes_stable(*old(sub), *final(sub)),
        ({
            let step = spec_step(
                cat.spec_commands(),
                spec_core_model(*old(sub)),
                old(sub).next_outcome(),
                (RequestModel { name: name@, args: args@ }),
            );
            spec_core_model(*final(sub)) == step.0 && spec_result_model(r) == step.1
        }),
{
    let c = match cat.lookup(name) {
        Some(c) => c,
        None => {
            return Err(DispatchError::NotFound);
        },
    };
    match c {
        CommandId::EpsPing => run_eps_ping(sub, args),
        CommandId::Status => run_status(sub, args),
        CommandId::OvercurrentState => run_overcurrent_state(sub, args),
        CommandId::PiuHk => run_piu_hk(sub, args),
        CommandId::GetConfigParamWrite => run_get_config_param_write(sub, args),
        CommandId::GetConfigParamRead => run_get_config_param_read(sub, args),
        CommandId::SetConfigParamU32 => run_set_config_param_u32(sub, args),
        CommandId::SetConfigParamU16 => run_set_config_param_u16(sub, args),
        CommandId::SetConfigParamU8 => run_set_config_param_u8(sub, args),
        CommandId::SetConfigParamI16 => run_set_config_param_i16(sub, args),
        CommandId::SetConfigParamI8 => run_set_config_param_i8(sub, args),
        CommandId::ResetConfigParam => run_reset_config_param(sub, args),
        CommandId::SysReset => run_sys_reset(sub, args),
        CommandId::ShutDownAll => run_shutdown_all(sub, args),
        CommandId::WatchdogReset => run_watchdog_reset(sub, args),
        CommandId::SetGroupOutputs => run_set_group_outputs(sub, args),
        CommandId::SetSingleOutput => run_set_single_output(sub, args),
        CommandId::ModeSwitchFn => run_mode_switch(sub, args),
        CommandId::CorrectTime => run_correct_time(sub, args),
        CommandId::ResetAllCounters => run_reset_all_counters(sub, args),
        CommandId::ResetAllConf => run_reset_all_conf(sub, args),
        CommandId::LoadConfig => run_load_config(sub, args),
        CommandId::SaveConfig => run_save_config(sub, args),
        CommandId::ForceSaveConfig => run_force_save_config(sub, args),
    }
}

/// Whether a request resolves in the catalog and decodes cleanly, and so
/// reaches the device.
pub open spec fn spec_reaches_device(cmds: Seq<CommandId>, req: RequestModel) -> bool {
    match spec_find(cmds, req.name, 0) {
        Option::Some(c) => spec_decode_err(c, req.args) is None,
        Option::None => false,
    }
}

/// Number of requests in a sequence that reach the device.
pub open spec fn spec_count_reaching(cmds: Seq<CommandId>, reqs: Seq<RequestModel>) -> nat
    decreases reqs.len(),
{
    if reqs.len() == 0 {
        0
    } else {
        (if spec_reaches_device(cmds, reqs[0]) {
            1nat
        } else {
            0nat
        }) + spec_count_reaching(cmds, reqs.drop_first())
    }
}

/// The subsystem model after dispatching a sequence of requests in order,
/// each consuming the device outcome at the invocation index current when
/// it runs.
pub open spec fn spec_run(
    cmds: Seq<CommandId>,
    m: CoreModel,
    outs: spec_fn(nat) -> DeviceOutcome,
    reqs: Seq<RequestModel>,
) -> CoreModel
    decreases reqs.len(),
{
    if reqs.len() == 0 {
        m
    } else {
        spec_run(cmds, spec_step(cmds, m, outs(m.calls), reqs[0]).0, outs, reqs.drop_first())
    }
}

/// Serialization of device access: dispatching a sequence of requests
/// performs exactly one device invocation per request that resolves and
/// decodes, and none for the others. Together with the exclusive `&mut`
/// ownership of the port, this is the total order on device operations: the
/// `k`-th reaching request consumes outcome index `calls + k`, so no two
/// device calls ever overlap.
pub proof fn lemma_run_serializes(
    cmds: Seq<CommandId>,
    m: CoreModel,
    outs: spec_fn(nat) -> DeviceOutcome,
    reqs: Seq<RequestModel>,
)
    ensures
        spec_run(cmds, m, outs, reqs).calls == m.calls + spec_count_reaching(cmds, reqs),
    decreases reqs.len(),
{
    if reqs.len() > 0 {
        lemma_run_serializes(
            cmds,
            spec_step(cmds, m, outs(m.calls), reqs[0]).0,
            outs,
            reqs.drop_first(),
        );
    }
}

/// The recorded error reflects the most recently *completed* call: after
/// any history followed by one request that reaches the device, `last_err`
/// is determined by that request's own outcome — the one at the invocation
/// index reached after the whole history — never by an earlier or later
/// one.
pub proof fn lemma_last_err_reflects_last_completed(
    cmds: Seq<CommandId>,
    m: CoreModel,
    outs: spec_fn(nat) -> DeviceOutcome,
    reqs: Seq<RequestModel>,
    last: RequestModel,
)
    requires
        spec_reaches_device(cmds, last),
    ensures
        ({
            let c = spec_find(cmds, last.name, 0)->Some_0;
            spec_run(cmds, m, outs, reqs.push(last)).last_err == spec_err_recorded(
                spec_cmd_result(c, outs((m.calls + spec_count_reaching(cmds, reqs)) as nat)),
            )
        }),
    decreases reqs.len(),
{
    reveal_with_fuel(spec_run, 3);
    reveal_with_fuel(spec_count_reaching, 3);
    if reqs.len() == 0 {
        assert(reqs.push(last)[0] == last);
        assert(reqs.push(last).drop_first() =~= Seq::<RequestModel>::empty());
    } else {
        let m1 = spec_step(cmds, m, outs(m.calls), reqs[0]).0;
        assert(reqs.push(last)[0] == reqs[0]);
        assert(reqs.push(last).drop_first() =~= reqs.drop_first().push(last));
        lemma_last_err_reflects_last_completed(cmds, m1, outs, reqs.drop_first(), last);
    }
}

/// An unregistered name is surfaced as `NotFound` immediately: the
/// subsystem model — invocation count, recorded command, recorded error —
/// is left untouched.
pub proof fn lemma_not_found_untouched(
    cmds: Seq<CommandId>,
    m: CoreModel,
    next: DeviceOutcome,
    req: RequestModel,
)
    requires
        spec_find(cmds, req.name, 0) is None,
    ensures
        spec_step(cmds, m, next, req).0 == m,
        spec_step(cmds, m, next, req).1 == Err::<WireOutputModel, DispatchError>(
            DispatchError::NotFound,
        ),
{
}

/// A decode failure is surfaced before any device call is attempted: the
/// subsystem model is left untouched and the translation error is reported
/// as a client-input fault.
pub proof fn lemma_decode_failure_before_device(
    cmds: Seq<CommandId>,
    m: CoreModel,
    next: DeviceOutcome,
    req: RequestModel,
    e: TranslationError,
)
    requires
        spec_find(cmds, req.name, 0) matches Some(c) && spec_decode_err(c, req.args) == Some(e),
    ensures
        spec_step(cmds, m, next, req).0 == m,
        spec_step(cmds, m, next, req).1 == Err::<WireOutputModel, DispatchError>(
            DispatchError::Decode(e),
        ),
{
}

/// Whether an argument list conforms to a declared parameter list from
/// position `i` on: one cleanly decoding argument per declared parameter,
/// with a trailing `Bytes` parameter absorbing the remaining arguments.
pub open spec fn spec_args_conform(ps: Seq<ParamKind>, args: Seq<WireValue>, i: int) -> bool
    decreases ps.len() - i,
{
    if i < 0 || i > ps.len() {
        false
    } else if i == ps.len() {
        args.len() == i
    } else if ps[i] is Bytes {
        i == ps.len() - 1 && args.len() >= i && spec_bytes_err(args.skip(i), 16, 0) is None
    } else {
        i < args.len() && spec_arg_err(ps[i], args[i]) is None && spec_args_conform(
            ps,
            args,
            i + 1,
        )
    }
}

/// Registration-time coherence of the catalog: whenever an argument list
/// decodes cleanly for a command, it conforms, arity and types, to the
/// parameter list the command's catalog entry declares. A mismatch between
/// an entry's declaration and what the translator accepts is therefore
/// impossible, never a runtime surprise.
pub proof fn lemma_decode_conforms_to_declared_params(c: CommandId, args: Seq<WireValue>)
    requires
        spec_decode_err(c, args) is None,
    ensures
        spec_args_conform(spec_params_of(c), args, 0),
{
    reveal_with_fuel(spec_args_conform, 4);
}

} // verus!
