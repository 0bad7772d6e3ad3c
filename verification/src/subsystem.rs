//! The subsystem: sole authorized caller of the device handle.
//!
//! A `Subsystem` owns its device port exclusively — Rust's ownership makes
//! every operation take `&mut self`, so no two device calls can ever
//! overlap — and records the outcome of the most recent call: `last_cmd`
//! holds the exact byte frame of the command most recently issued (written
//! before the device call completes, even on failure), and `last_err` holds
//! the outcome of the most recently completed call, with
//! [`DomainError::NoError`] as the success sentinel.
//!
//! Every public operation issues exactly one device invocation and
//! propagates the device's answer without retrying: its contract fixes the
//! issued frame, the invocation count, the recorded diagnostics, and the
//! returned result as a total function of whatever the device answered.
//!
//! The device identifier is bound at construction: this is the single-board
//! deployment strategy, where the catalog entries omit the identifier and
//! the fixed value is supplied internally to every frame.

use vstd::prelude::*;

use crate::command::{
    frame, push_le16, push_le32, spec_channels_valid, spec_frame, spec_group_mask, spec_le16,
    spec_le32, spec_u16_of_i16, spec_u32_of_i32, spec_u8_of_i8, group_mask, u16_of_i16, u32_of_i32,
    u8_of_i8, CC_CORRECT_TIME, CC_FORCE_SAVE_CONFIG, CC_GET_CONFIG_PARAM_READ,
    CC_GET_CONFIG_PARAM_WRITE, CC_LOAD_CONFIG, CC_MODE_SWITCH, CC_OVERCURRENT_STATE, CC_PBU_HK,
    CC_PCU_HK, CC_PDU_HK, CC_PING, CC_PIU_HK, CC_RESET_ALL_CONF, CC_RESET_ALL_COUNTERS,
    CC_RESET_CONFIG_PARAM, CC_SAVE_CONFIG, CC_SET_GROUP_OUTPUTS, CC_SET_GROUP_STATE,
    CC_SET_SINGLE_OUTPUT, CC_SET_CONFIG_PARAM_I16, CC_SET_CONFIG_PARAM_I8, CC_SET_CONFIG_PARAM_U16,
    CC_SET_CONFIG_PARAM_U32, CC_SET_CONFIG_PARAM_U8, CC_SHUTDOWN_ALL, CC_SYSTEM_STATUS,
    CC_SYS_RESET, CC_WATCHDOG_RESET, RESET_KEY,
};
use crate::device::{DeviceOutcome, DevicePort, DeviceReply};
use crate::error::DomainError;
use crate::telemetry::{OverCurrentFaultState, Output, PbuHk, PcuHk, PduHk, PiuHk, SystemStatus};
use crate::translate::{BusChannel, BusChannelState, BusGroup, ModeSwitch, PbuHkSel, PcuHkSel,
    PduHkSel, PiuHkSel, StId};

verus! {

/// The error recorded into `last_err` for a finished call: the sentinel on
/// success, the error itself on failure.
pub open spec fn spec_err_recorded<T>(r: Result<T, DomainError>) -> DomainError {
    match r {
        Ok(_) => DomainError::NoError,
        Err(e) => e,
    }
}

/// The result of a unit command for a given device outcome: success exactly
/// on a plain acknowledgement, the device's error verbatim otherwise.
pub open spec fn spec_unit_result(out: DeviceOutcome) -> Result<(), DomainError> {
    match out {
        Ok(DeviceReply::Ack) => Ok(()),
        Ok(_) => Err(DomainError::MalformedResponse),
        Err(e) => Err(e),
    }
}

/// The result of the system status query for a given device outcome.
pub open spec fn spec_status_result(out: DeviceOutcome) -> Result<SystemStatus, DomainError> {
    match out {
        Ok(DeviceReply::Status(s)) => Ok(s),
        Ok(_) => Err(DomainError::MalformedResponse),
        Err(e) => Err(e),
    }
}

/// The result of the overcurrent query for a given device outcome.
pub open spec fn spec_overcurrent_result(out: DeviceOutcome) -> Result<
    OverCurrentFaultState,
    DomainError,
> {
    match out {
        Ok(DeviceReply::Overcurrent(s)) => Ok(s),
        Ok(_) => Err(DomainError::MalformedResponse),
        Err(e) => Err(e),
    }
}

/// The result of the distribution-unit housekeeping query for a given
/// device outcome.
pub open spec fn spec_pdu_hk_result(out: DeviceOutcome) -> Result<PduHk, DomainError> {
    match out {
        Ok(DeviceReply::PduTelemetry(h)) => Ok(h),
        Ok(_) => Err(DomainError::MalformedResponse),
        Err(e) => Err(e),
    }
}

/// The result of the battery-unit housekeeping query for a given device
/// outcome.
pub open spec fn spec_pbu_hk_result(out: DeviceOutcome) -> Result<PbuHk, DomainError> {
    match out {
        Ok(DeviceReply::PbuTelemetry(h)) => Ok(h),
        Ok(_) => Err(DomainError::MalformedResponse),
        Err(e) => Err(e),
    }
}

/// The result of the conditioning-unit housekeeping query for a given
/// device outcome.
pub open spec fn spec_pcu_hk_result(out: DeviceOutcome) -> Result<PcuHk, DomainError> {
    match out {
        Ok(DeviceReply::PcuTelemetry(h)) => Ok(h),
        Ok(_) => Err(DomainError::MalformedResponse),
        Err(e) => Err(e),
    }
}

/// The result of the integration-unit housekeeping query for a given device
/// outcome.
pub open spec fn spec_piu_hk_result(out: DeviceOutcome) -> Result<PiuHk, DomainError> {
    match out {
        Ok(DeviceReply::PiuTelemetry(h)) => Ok(h),
        Ok(_) => Err(DomainError::MalformedResponse),
        Err(e) => Err(e),
    }
}

/// The result of a configuration-parameter operation for a given device
/// outcome.
pub open spec fn spec_param_result(out: DeviceOutcome) -> Result<Output, DomainError> {
    match out {
        Ok(DeviceReply::Param(o)) => Ok(o),
        Ok(_) => Err(DomainError::MalformedResponse),
        Err(e) => Err(e),
    }
}

/// The subsystem: exclusive owner of the device port, with the diagnostic
/// record of the most recent call.
pub struct Subsystem<P: DevicePort> {
    port: P,
    stid: StId,
    last_cmd: Vec<u8>,
    last_err: DomainError,
}

impl<P: DevicePort> Subsystem<P> {
    /// The owned device port.
    pub closed spec fn spec_port(&self) -> P {
        self.port
    }

    /// The device identifier bound at construction.
    pub closed spec fn spec_stid(&self) -> StId {
        self.stid
    }

    /// The byte frame of the command most recently issued.
    pub closed spec fn spec_last_cmd(&self) -> Seq<u8> {
        self.last_cmd@
    }

    /// The outcome of the most recently completed call.
    pub closed spec fn spec_last_err(&self) -> DomainError {
        self.last_err
    }

    /// Well-formedness: the owned port is well formed.
    pub open spec fn wf(&self) -> bool {
        self.spec_port().wf()
    }

    /// Number of device invocations completed so far.
    pub open spec fn calls(&self) -> nat {
        self.spec_port().calls()
    }

    /// The outcome the `k`-th device invocation comes back with.
    pub open spec fn outcome_at(&self, k: nat) -> DeviceOutcome {
        self.spec_port().outcome(k)
    }

    /// The outcome the next device invocation would come back with.
    pub open spec fn next_outcome(&self) -> DeviceOutcome {
        self.outcome_at(self.calls())
    }

    /// Everything the port predetermines is unchanged between two states.
    pub open spec fn outcomes_stable(pre: Self, post: Self) -> bool {
        forall|k: nat| post.outcome_at(k) == pre.outcome_at(k)
    }

    /// Create a subsystem owning `port`, bound to the sub-board `stid`,
    /// with an empty command record and the error sentinel cleared.
    pub fn new(port: P, stid: StId) -> (s: Self)
        requires
            port.wf(),
        ensures
            s.wf(),
            s.spec_port() == port,
            s.spec_stid() == stid,
            s.spec_last_cmd() == Seq::<u8>::empty(),
            s.spec_last_err() == DomainError::NoError,
    {
        Subsystem { port, stid, last_cmd: Vec::new(), last_err: DomainError::NoError }
    }

    /// Read the byte frame of the command most recently issued.
    pub fn last_cmd(&self) -> (r: &Vec<u8>)
        ensures
            r@ == self.spec_last_cmd(),
    {
        &self.last_cmd
    }

    /// Read the outcome of the most recently completed call.
    pub fn last_err(&self) -> (r: DomainError)
        ensures
            r == self.spec_last_err(),
    {
        self.last_err
    }

    /// The device identifier this subsystem was constructed with.
    pub fn stid(&self) -> (r: StId)
        ensures
            r == self.spec_stid(),
    {
        self.stid
    }

    /// Borrow the owned device port (for its instrumentation).
    pub fn port(&self) -> (r: &P)
        ensures
            *r == self.spec_port(),
    {
        &self.port
    }

    /// Record the command frame, issue it, and return the device's answer.
    /// The frame is recorded before the device call completes.
    fn issue(&mut self, cmd: Vec<u8>) -> (out: DeviceOutcome)
        requires
            old(self).wf(),
        ensures
            final(self).wf(),
            final(self).spec_stid() == old(self).spec_stid(),
            final(self).spec_last_err() == old(self).spec_last_err(),
            final(self).calls() == old(self).calls() + 1,
            Self::outcomes_stable(*old(self), *final(self)),
            final(self).spec_last_cmd() == cmd@,
            out == old(self).next_outcome(),
    {
        self.last_cmd = cmd;
        self.port.submit(&self.last_cmd)
    }

    /// Record the outcome of a finished call into `last_err`.
    fn record<T>(&mut self, r: &Result<T, DomainError>)
        ensures
            final(self).spec_port() == old(self).spec_port(),
            final(self).spec_stid() == old(self).spec_stid(),
            final(self).spec_last_cmd() == old(self).spec_last_cmd(),
            final(self).spec_last_err() == spec_err_recorded(*r),
    {
        self.last_err = match r {
            Ok(_) => DomainError::NoError,
            Err(e) => *e,
        };
    }

    /// Ping the device.
    pub fn eps_ping(&mut self) -> (r: Result<(), DomainError>)
        requires
            old(self).wf(),
        ensures
            final(self).wf(),
            final(self).spec_stid() == old(self).spec_stid(),
            final(self).calls() == old(self).calls() + 1,
            Self::outcomes_stable(*old(self), *final(self)),
            final(self).spec_last_cmd() == spec_frame(old(self).spec_stid(), CC_PING, seq![]),
            r == spec_unit_result(old(self).next_outcome()),
            final(self).spec_last_err() == spec_err_recorded(r),
    {
        let cmd = frame(self.stid, CC_PING, Vec::new());
        let out = self.issue(cmd);
        let r = match out {
            Ok(DeviceReply::Ack) => Ok(()),
            Ok(_) => Err(DomainError::MalformedResponse),
            Err(e) => Err(e),
        };
        self.record(&r);
        r
    }

    /// Reset the whole system. The device demands a fixed confirmation key,
    /// which the subsystem supplies itself; the caller's key argument is
    /// accepted for interface compatibility and ignored.
    pub fn sys_reset(&mut self, _ret_key: u8) -> (r: Result<(), DomainError>)
        requires
            old(self).wf(),
        ensures
            final(self).wf(),
            final(self).spec_stid() == old(self).spec_stid(),
            final(self).calls() == old(self).calls() + 1,
            Self::outcomes_stable(*old(self), *final(self)),
            final(self).spec_last_cmd() == spec_frame(
                old(self).spec_stid(),
                CC_SYS_RESET,
                seq![RESET_KEY],
            ),
            r == spec_unit_result(old(self).next_outcome()),
            final(self).spec_last_err() == spec_err_recorded(r),
    {
        let mut args: Vec<u8> = Vec::new();
        args.push(RESET_KEY);
        proof {
            assert(args@ =~= seq![RESET_KEY]);
        }
        let cmd = frame(self.stid, CC_SYS_RESET, args);
        let out = self.issue(cmd);
        let r = match out {
            Ok(DeviceReply::Ack) => Ok(()),
            Ok(_) => Err(DomainError::MalformedResponse),
            Err(e) => Err(e),
        };
        self.record(&r);
        r
    }

    /// Shut down all switched outputs.
    pub fn shutdown_all(&mut self) -> (r: Result<(), DomainError>)
        requires
            old(self).wf(),
        ensures
            final(self).wf(),
            final(self).spec_stid() == old(self).spec_stid(),
            final(self).calls() == old(self).calls() + 1,
            Self::outcomes_stable(*old(self), *final(self)),
            final(self).spec_last_cmd() == spec_frame(
                old(self).spec_stid(),
                CC_SHUTDOWN_ALL,
                seq![],
            ),
            r == spec_unit_result(old(self).next_outcome()),
            final(self).spec_last_err() == spec_err_recorded(r),
    {
        let cmd = frame(self.stid, CC_SHUTDOWN_ALL, Vec::new());
        let out = self.issue(cmd);
        let r = match out {
            Ok(DeviceReply::Ack) => Ok(()),
            Ok(_) => Err(DomainError::MalformedResponse),
            Err(e) => Err(e),
        };
        self.record(&r);
        r
    }

    /// Reset the device's watchdog timer.
    pub fn watchdog_reset(&mut self) -> (r: Result<(), DomainError>)
        requires
            old(self).wf(),
        ensures
            final(self).wf(),
            final(self).spec_stid() == old(self).spec_stid(),
            final(self).calls() == old(self).calls() + 1,
            Self::outcomes_stable(*old(self), *final(self)),
            final(self).spec_last_cmd() == spec_frame(
                old(self).spec_stid(),
                CC_WATCHDOG_RESET,
                seq![],
            ),
            r == spec_unit_result(old(self).next_outcome()),
            final(self).spec_last_err() == spec_err_recorded(r),
    {
        let cmd = frame(self.stid, CC_WATCHDOG_RESET, Vec::new());
        let out = self.issue(cmd);
        let r = match out {
            Ok(DeviceReply::Ack) => Ok(()),
            Ok(_) => Err(DomainError::MalformedResponse),
            Err(e) => Err(e),
        };
        self.record(&r);
        r
    }

    /// Switch a group of output channels by bitmask, one bit per listed
    /// channel index.
    pub fn set_group_outputs(&mut self, typ_group: BusGroup, channels: Vec<u8>) -> (r: Result<
        (),
        DomainError,
    >)
        requires
            old(self).wf(),
            spec_channels_valid(channels@),
        ensures
            final(self).wf(),
            final(self).spec_stid() == old(self).spec_stid(),
            final(self).calls() == old(self).calls() + 1,
            Self::outcomes_stable(*old(self), *final(self)),
            final(self).spec_last_cmd() == spec_frame(
                old(self).spec_stid(),
                CC_SET_GROUP_OUTPUTS,
                seq![(typ_group.spec_ordinal()) as u8] + spec_le16(spec_group_mask(channels@)),
            ),
            r == spec_unit_result(old(self).next_outcome()),
            final(self).spec_last_err() == spec_err_recorded(r),
    {
        let mask = group_mask(&channels);
        let mut args: Vec<u8> = Vec::new();
        args.push(typ_group.to_wire() as u8);
        push_le16(&mut args, mask);
        proof {
            assert(args@ =~= seq![(typ_group.spec_ordinal()) as u8] + spec_le16(
                spec_group_mask(channels@),
            ));
        }
        let cmd = frame(self.stid, CC_SET_GROUP_OUTPUTS, args);
        let out = self.issue(cmd);
        let r = match out {
            Ok(DeviceReply::Ack) => Ok(()),
            Ok(_) => Err(DomainError::MalformedResponse),
            Err(e) => Err(e),
        };
        self.record(&r);
        r
    }

    /// Set a whole group of output channels to one state.
    pub fn set_group_state(&mut self, typ_group: BusGroup, state: BusChannelState) -> (r: Result<
        (),
        DomainError,
    >)
        requires
            old(self).wf(),
        ensures
            final(self).wf(),
            final(self).spec_stid() == old(self).spec_stid(),
            final(self).calls() == old(self).calls() + 1,
            Self::outcomes_stable(*old(self), *final(self)),
            final(self).spec_last_cmd() == spec_frame(
                old(self).spec_stid(),
                CC_SET_GROUP_STATE,
                seq![(typ_group.spec_ordinal()) as u8, (state.spec_ordinal()) as u8],
            ),
            r == spec_unit_result(old(self).next_outcome()),
            final(self).spec_last_err() == spec_err_recorded(r),
    {
        let mut args: Vec<u8> = Vec::new();
        args.push(typ_group.to_wire() as u8);
        args.push(state.to_wire() as u8);
        proof {
            assert(args@ =~= seq![
                (typ_group.spec_ordinal()) as u8,
                (state.spec_ordinal()) as u8,
            ]);
        }
        let cmd = frame(self.stid, CC_SET_GROUP_STATE, args);
        let out = self.issue(cmd);
        let r = match out {
            Ok(DeviceReply::Ack) => Ok(()),
            Ok(_) => Err(DomainError::MalformedResponse),
            Err(e) => Err(e),
        };
        self.record(&r);
        r
    }

    /// Switch one output channel on or off.
    pub fn set_single_output(&mut self, typ_channel: BusChannel, eps_ch_idx: u8) -> (r: Result<
        (),
        DomainError,
    >)
        requires
            old(self).wf(),
        ensures
            final(self).wf(),
            final(self).spec_stid() == old(self).spec_stid(),
            final(self).calls() == old(self).calls() + 1,
            Self::outcomes_stable(*old(self), *final(self)),
            final(self).spec_last_cmd() == spec_frame(
                old(self).spec_stid(),
                CC_SET_SINGLE_OUTPUT,
                seq![(typ_channel.spec_ordinal()) as u8, eps_ch_idx],
            ),
            r == spec_unit_result(old(self).next_outcome()),
            final(self).spec_last_err() == spec_err_recorded(r),
    {
        let mut args: Vec<u8> = Vec::new();
        args.push(typ_channel.to_wire() as u8);
        args.push(eps_ch_idx);
        proof {
            assert(args@ =~= seq![(typ_channel.spec_ordinal()) as u8, eps_ch_idx]);
        }
        let cmd = frame(self.stid, CC_SET_SINGLE_OUTPUT, args);
        let out = self.issue(cmd);
        let r = match out {
            Ok(DeviceReply::Ack) => Ok(()),
            Ok(_) => Err(DomainError::MalformedResponse),
            Err(e) => Err(e),
        };
        self.record(&r);
        r
    }

    /// Switch the device's operating mode.
    pub fn mode_switch(&mut self, mode: ModeSwitch) -> (r: Result<(), DomainError>)
        requires
            old(self).wf(),
        ensures
            final(self).wf(),
            final(self).spec_stid() == old(self).spec_stid(),
            final(self).calls() == old(self).calls() + 1,
            Self::outcomes_stable(*old(self), *final(self)),
            final(self).spec_last_cmd() == spec_frame(
                old(self).spec_stid(),
                CC_MODE_SWITCH,
                seq![(mode.spec_ordinal()) as u8],
            ),
            r == spec_unit_result(old(self).next_outcome()),
            final(self).spec_last_err() == spec_err_recorded(r),
    {
        let mut args: Vec<u8> = Vec::new();
        args.push(mode.to_wire() as u8);
        proof {
            assert(args@ =~= seq![(mode.spec_ordinal()) as u8]);
        }
        let cmd = frame(self.stid, CC_MODE_SWITCH, args);
        let out = self.issue(cmd);
        let r = match out {
            Ok(DeviceReply::Ack) => Ok(()),
            Ok(_) => Err(DomainError::MalformedResponse),
            Err(e) => Err(e),
        };
        self.record(&r);
        r
    }

    /// Read the device's system status record.
    pub fn system_status(&mut self) -> (r: Result<SystemStatus, DomainError>)
        requires
            old(self).wf(),
        ensures
            final(self).wf(),
            final(self).spec_stid() == old(self).spec_stid(),
            final(self).calls() == old(self).calls() + 1,
            Self::outcomes_stable(*old(self), *final(self)),
            final(self).spec_last_cmd() == spec_frame(
                old(self).spec_stid(),
                CC_SYSTEM_STATUS,
                seq![],
            ),
            r == spec_status_result(old(self).next_outcome()),
            final(self).spec_last_err() == spec_err_recorded(r),
    {
        let cmd = frame(self.stid, CC_SYSTEM_STATUS, Vec::new());
        let out = self.issue(cmd);
        let r = match out {
            Ok(DeviceReply::Status(s)) => Ok(s),
            Ok(_) => Err(DomainError::MalformedResponse),
            Err(e) => Err(e),
        };
        self.record(&r);
        r
    }

    /// Read the overcurrent fault state of the switched outputs.
    pub fn overcurrent_state(&mut self) -> (r: Result<OverCurrentFaultState, DomainError>)
        requires
            old(self).wf(),
        ensures
            final(self).wf(),
            final(self).spec_stid() == old(self).spec_stid(),
            final(self).calls() == old(self).calls() + 1,
            Self::outcomes_stable(*old(self), *final(self)),
            final(self).spec_last_cmd() == spec_frame(
                old(self).spec_stid(),
                CC_OVERCURRENT_STATE,
                seq![],
            ),
            r == spec_overcurrent_result(old(self).next_outcome()),
            final(self).spec_last_err() == spec_err_recorded(r),
    {
        let cmd = frame(self.stid, CC_OVERCURRENT_STATE, Vec::new());
        let out = self.issue(cmd);
        let r = match out {
            Ok(DeviceReply::Overcurrent(s)) => Ok(s),
            Ok(_) => Err(DomainError::MalformedResponse),
            Err(e) => Err(e),
        };
        self.record(&r);
        r
    }

    /// Read housekeeping telemetry of the power distribution unit.
    pub fn pdu_hk(&mut self, mode: PduHkSel) -> (r: Result<PduHk, DomainError>)
        requires
            old(self).wf(),
        ensures
            final(self).wf(),
            final(self).spec_stid() == old(self).spec_stid(),
            final(self).calls() == old(self).calls() + 1,
            Self::outcomes_stable(*old(self), *final(self)),
            final(self).spec_last_cmd() == spec_frame(
                old(self).spec_stid(),
                CC_PDU_HK,
                seq![(mode.spec_ordinal()) as u8],
            ),
            r == spec_pdu_hk_result(old(self).next_outcome()),
            final(self).spec_last_err() == spec_err_recorded(r),
    {
        let mut args: Vec<u8> = Vec::new();
        args.push(mode.to_wire() as u8);
        proof {
            assert(args@ =~= seq![(mode.spec_ordinal()) as u8]);
        }
        let cmd = frame(self.stid, CC_PDU_HK, args);
        let out = self.issue(cmd);
        let r = match out {
            Ok(DeviceReply::PduTelemetry(h)) => Ok(h),
            Ok(_) => Err(DomainError::MalformedResponse),
            Err(e) => Err(e),
        };
        self.record(&r);
        r
    }

    /// Read housekeeping telemetry of the power battery unit.
    pub fn pbu_hk(&mut self, mode: PbuHkSel) -> (r: Result<PbuHk, DomainError>)
        requires
            old(self).wf(),
        ensures
            final(self).wf(),
            final(self).spec_stid() == old(self).spec_stid(),
            final(self).calls() == old(self).calls() + 1,
            Self::outcomes_stable(*old(self), *final(self)),
            final(self).spec_last_cmd() == spec_frame(
                old(self).spec_stid(),
                CC_PBU_HK,
                seq![(mode.spec_ordinal()) as u8],
            ),
            r == spec_pbu_hk_result(old(self).next_outcome()),
            final(self).spec_last_err() == spec_err_recorded(r),
    {
        let mut args: Vec<u8> = Vec::new();
        args.push(mode.to_wire() as u8);
        proof {
            assert(args@ =~= seq![(mode.spec_ordinal()) as u8]);
        }
        let cmd = frame(self.stid, CC_PBU_HK, args);
        let out = self.issue(cmd);
        let r = match out {
            Ok(DeviceReply::PbuTelemetry(h)) => Ok(h),
            Ok(_) => Err(DomainError::MalformedResponse),
            Err(e) => Err(e),
        };
        self.record(&r);
        r
    }

    /// Read housekeeping telemetry of the power conditioning unit.
    pub fn pcu_hk(&mut self, mode: PcuHkSel) -> (r: Result<PcuHk, DomainError>)
        requires
            old(self).wf(),
        ensures
            final(self).wf(),
            final(self).spec_stid() == old(self).spec_stid(),
            final(self).calls() == old(self).calls() + 1,
            Self::outcomes_stable(*old(self), *final(self)),
            final(self).spec_last_cmd() == spec_frame(
                old(self).spec_stid(),
                CC_PCU_HK,
                seq![(mode.spec_ordinal()) as u8],
            ),
            r == spec_pcu_hk_result(old(self).next_outcome()),
            final(self).spec_last_err() == spec_err_recorded(r),
    {
        let mut args: Vec<u8> = Vec::new();
        args.push(mode.to_wire() as u8);
        proof {
            assert(args@ =~= seq![(mode.spec_ordinal()) as u8]);
        }
        let cmd = frame(self.stid, CC_PCU_HK, args);
        let out = self.issue(cmd);
        let r = match out {
            Ok(DeviceReply::PcuTelemetry(h)) => Ok(h),
            Ok(_) => Err(DomainError::MalformedResponse),
            Err(e) => Err(e),
        };
        self.record(&r);
        r
    }

    /// Read housekeeping telemetry of the power integration unit.
    pub fn piu_hk(&mut self, mode: PiuHkSel) -> (r: Result<PiuHk, DomainError>)
        requires
            old(self).wf(),
        ensures
            final(self).wf(),
            final(self).spec_stid() == old(self).spec_stid(),
            final(self).calls() == old(self).calls() + 1,
            Self::outcomes_stable(*old(self), *final(self)),
            final(self).spec_last_cmd() == spec_frame(
                old(self).spec_stid(),
                CC_PIU_HK,
                seq![(mode.spec_ordinal()) as u8],
            ),
            r == spec_piu_hk_result(old(self).next_outcome()),
            final(self).spec_last_err() == spec_err_recorded(r),
    {
        let mut args: Vec<u8> = Vec::new();
        args.push(mode.to_wire() as u8);
        proof {
            assert(args@ =~= seq![(mode.spec_ordinal()) as u8]);
        }
        let cmd = frame(self.stid, CC_PIU_HK, args);
        let out = self.issue(cmd);
        let r = match out {
            Ok(DeviceReply::PiuTelemetry(h)) => Ok(h),
            Ok(_) => Err(DomainError::MalformedResponse),
            Err(e) => Err(e),
        };
        self.record(&r);
        r
    }

    /// Apply a signed correction to the device's clock.
    pub fn correct_time(&mut self, time_correction: i32) -> (r: Result<(), DomainError>)
        requires
            old(self).wf(),
        ensures
            final(self).wf(),
            final(self).spec_stid() == old(self).spec_stid(),
            final(self).calls() == old(self).calls() + 1,
            Self::outcomes_stable(*old(self), *final(self)),
            final(self).spec_last_cmd() == spec_frame(
                old(self).spec_stid(),
                CC_CORRECT_TIME,
                spec_le32(spec_u32_of_i32(time_correction)),
            ),
            r == spec_unit_result(old(self).next_outcome()),
            final(self).spec_last_err() == spec_err_recorded(r),
    {
        let mut args: Vec<u8> = Vec::new();
        push_le32(&mut args, u32_of_i32(time_correction));
        proof {
            assert(args@ =~= spec_le32(spec_u32_of_i32(time_correction)));
        }
        let cmd = frame(self.stid, CC_CORRECT_TIME, args);
        let out = self.issue(cmd);
        let r = match out {
            Ok(DeviceReply::Ack) => Ok(()),
            Ok(_) => Err(DomainError::MalformedResponse),
            Err(e) => Err(e),
        };
        self.record(&r);
        r
    }

    /// Reset all of the device's counters.
    pub fn reset_all_counters(&mut self) -> (r: Result<(), DomainError>)
        requires
            old(self).wf(),
        ensures
            final(self).wf(),
            final(self).spec_stid() == old(self).spec_stid(),
            final(self).calls() == old(self).calls() + 1,
            Self::outcomes_stable(*old(self), *final(self)),
            final(self).spec_last_cmd() == spec_frame(
                old(self).spec_stid(),
                CC_RESET_ALL_COUNTERS,
                seq![],
            ),
            r == spec_unit_result(old(self).next_outcome()),
            final(self).spec_last_err() == spec_err_recorded(r),
    {
        let cmd = frame(self.stid, CC_RESET_ALL_COUNTERS, Vec::new());
        let out = self.issue(cmd);
        let r = match out {
            Ok(DeviceReply::Ack) => Ok(()),
            Ok(_) => Err(DomainError::MalformedResponse),
            Err(e) => Err(e),
        };
        self.record(&r);
        r
    }

    /// Read a writable configuration parameter.
    pub fn get_config_para_write(&mut self, param: u16) -> (r: Result<Output, DomainError>)
        requires
            old(self).wf(),
        ensures
            final(self).wf(),
            final(self).spec_stid() == old(self).spec_stid(),
            final(self).calls() == old(self).calls() + 1,
            Self::outcomes_stable(*old(self), *final(self)),
            final(self).spec_last_cmd() == spec_frame(
                old(self).spec_stid(),
                CC_GET_CONFIG_PARAM_WRITE,
                spec_le16(param),
            ),
            r == spec_param_result(old(self).next_outcome()),
            final(self).spec_last_err() == spec_err_recorded(r),
    {
        let mut args: Vec<u8> = Vec::new();
        push_le16(&mut args, param);
        proof {
            assert(args@ =~= spec_le16(param));
        }
        let cmd = frame(self.stid, CC_GET_CONFIG_PARAM_WRITE, args);
        let out = self.issue(cmd);
        let r = match out {
            Ok(DeviceReply::Param(o)) => Ok(o),
            Ok(_) => Err(DomainError::MalformedResponse),
            Err(e) => Err(e),
        };
        self.record(&r);
        r
    }

    /// Read a read-only configuration parameter.
    pub fn get_config_para_read(&mut self, param: u16) -> (r: Result<Output, DomainError>)
        requires
            old(self).wf(),
        ensures
            final(self).wf(),
            final(self).spec_stid() == old(self).spec_stid(),
            final(self).calls() == old(self).calls() + 1,
            Self::outcomes_stable(*old(self), *final(self)),
            final(self).spec_last_cmd() == spec_frame(
                old(self).spec_stid(),
                CC_GET_CONFIG_PARAM_READ,
                spec_le16(param),
            ),
            r == spec_param_result(old(self).next_outcome()),
            final(self).spec_last_err() == spec_err_recorded(r),
    {
        let mut args: Vec<u8> = Vec::new();
        push_le16(&mut args, param);
        proof {
            assert(args@ =~= spec_le16(param));
        }
        let cmd = frame(self.stid, CC_GET_CONFIG_PARAM_READ, args);
        let out = self.issue(cmd);
        let r = match out {
            Ok(DeviceReply::Param(o)) => Ok(o),
            Ok(_) => Err(DomainError::MalformedResponse),
            Err(e) => Err(e),
        };
        self.record(&r);
        r
    }

    /// Write a 32-bit unsigned configuration parameter.
    pub fn set_config_para_u32(&mut self, param: u16, input: u32) -> (r: Result<
        Output,
        DomainError,
    >)
        requires
            old(self).wf(),
        ensures
            final(self).wf(),
            final(self).spec_stid() == old(self).spec_stid(),
            final(self).calls() == old(self).calls() + 1,
            Self::outcomes_stable(*old(self), *final(self)),
            final(self).spec_last_cmd() == spec_frame(
                old(self).spec_stid(),
                CC_SET_CONFIG_PARAM_U32,
                spec_le16(param) + spec_le32(input),
            ),
            r == spec_param_result(old(self).next_outcome()),
            final(self).spec_last_err() == spec_err_recorded(r),
    {
        let mut args: Vec<u8> = Vec::new();
        push_le16(&mut args, param);
        push_le32(&mut args, input);
        proof {
            assert(args@ =~= spec_le16(param) + spec_le32(input));
        }
        let cmd = frame(self.stid, CC_SET_CONFIG_PARAM_U32, args);
        let out = self.issue(cmd);
        let r = match out {
            Ok(DeviceReply::Param(o)) => Ok(o),
            Ok(_) => Err(DomainError::MalformedResponse),
            Err(e) => Err(e),
        };
        self.record(&r);
        r
    }

    /// Write a 16-bit unsigned configuration parameter.
    pub fn set_config_para_u16(&mut self, param: u16, input: u16) -> (r: Result<
        Output,
        DomainError,
    >)
        requires
            old(self).wf(),
        ensures
            final(self).wf(),
            final(self).spec_stid() == old(self).spec_stid(),
            final(self).calls() == old(self).calls() + 1,
            Self::outcomes_stable(*old(self), *final(self)),
            final(self).spec_last_cmd() == spec_frame(
                old(self).spec_stid(),
                CC_SET_CONFIG_PARAM_U16,
                spec_le16(param) + spec_le16(input),
            ),
            r == spec_param_result(old(self).next_outcome()),
            final(self).spec_last_err() == spec_err_recorded(r),
    {
        let mut args: Vec<u8> = Vec::new();
        push_le16(&mut args, param);
        push_le16(&mut args, input);
        proof {
            assert(args@ =~= spec_le16(param) + spec_le16(input));
        }
        let cmd = frame(self.stid, CC_SET_CONFIG_PARAM_U16, args);
        let out = self.issue(cmd);
        let r = match out {
            Ok(DeviceReply::Param(o)) => Ok(o),
            Ok(_) => Err(DomainError::MalformedResponse),
            Err(e) => Err(e),
        };
        self.record(&r);
        r
    }

    /// Write a 16-bit signed configuration parameter.
    pub fn set_config_para_i16(&mut self, param: u16, input: i16) -> (r: Result<
        Output,
        DomainError,
    >)
        requires
            old(self).wf(),
        ensures
            final(self).wf(),
            final(self).spec_stid() == old(self).spec_stid(),
            final(self).calls() == old(self).calls() + 1,
            Self::outcomes_stable(*old(self), *final(self)),
            final(self).spec_last_cmd() == spec_frame(
                old(self).spec_stid(),
                CC_SET_CONFIG_PARAM_I16,
                spec_le16(param) + spec_le16(spec_u16_of_i16(input)),
            ),
            r == spec_param_result(old(self).next_outcome()),
            final(self).spec_last_err() == spec_err_recorded(r),
    {
        let mut args: Vec<u8> = Vec::new();
        push_le16(&mut args, param);
        push_le16(&mut args, u16_of_i16(input));
        proof {
            assert(args@ =~= spec_le16(param) + spec_le16(spec_u16_of_i16(input)));
        }
        let cmd = frame(self.stid, CC_SET_CONFIG_PARAM_I16, args);
        let out = self.issue(cmd);
        let r = match out {
            Ok(DeviceReply::Param(o)) => Ok(o),
            Ok(_) => Err(DomainError::MalformedResponse),
            Err(e) => Err(e),
        };
        self.record(&r);
        r
    }

    /// Write an 8-bit unsigned configuration parameter.
    pub fn set_config_para_u8(&mut self, param: u16, input: u8) -> (r: Result<
        Output,
        DomainError,
    >)
        requires
            old(self).wf(),
        ensures
            final(self).wf(),
            final(self).spec_stid() == old(self).spec_stid(),
            final(self).calls() == old(self).calls() + 1,
            Self::outcomes_stable(*old(self), *final(self)),
            final(self).spec_last_cmd() == spec_frame(
                old(self).spec_stid(),
                CC_SET_CONFIG_PARAM_U8,
                spec_le16(param) + seq![input],
            ),
            r == spec_param_result(old(self).next_outcome()),
            final(self).spec_last_err() == spec_err_recorded(r),
    {
        let mut args: Vec<u8> = Vec::new();
        push_le16(&mut args, param);
        args.push(input);
        proof {
            assert(args@ =~= spec_le16(param) + seq![input]);
        }
        let cmd = frame(self.stid, CC_SET_CONFIG_PARAM_U8, args);
        let out = self.issue(cmd);
        let r = match out {
            Ok(DeviceReply::Param(o)) => Ok(o),
            Ok(_) => Err(DomainError::MalformedResponse),
            Err(e) => Err(e),
        };
        self.record(&r);
        r
    }

    /// Write an 8-bit signed configuration parameter.
    pub fn set_config_para_i8(&mut self, param: u16, input: i8) -> (r: Result<
        Output,
        DomainError,
    >)
        requires
            old(self).wf(),
        ensures
            final(self).wf(),
            final(self).spec_stid() == old(self).spec_stid(),
            final(self).calls() == old(self).calls() + 1,
            Self::outcomes_stable(*old(self), *final(self)),
            final(self).spec_last_cmd() == spec_frame(
                old(self).spec_stid(),
                CC_SET_CONFIG_PARAM_I8,
                spec_le16(param) + seq![spec_u8_of_i8(input)],
            ),
            r == spec_param_result(old(self).next_outcome()),
            final(self).spec_last_err() == spec_err_recorded(r),
    {
        let mut args: Vec<u8> = Vec::new();
        push_le16(&mut args, param);
        args.push(u8_of_i8(input));
        proof {
            assert(args@ =~= spec_le16(param) + seq![spec_u8_of_i8(input)]);
        }
        let cmd = frame(self.stid, CC_SET_CONFIG_PARAM_I8, args);
        let out = self.issue(cmd);
        let r = match out {
            Ok(DeviceReply::Param(o)) => Ok(o),
            Ok(_) => Err(DomainError::MalformedResponse),
            Err(e) => Err(e),
        };
        self.record(&r);
        r
    }

    /// Reset one configuration parameter to its default.
    pub fn reset_param(&mut self, param: u16) -> (r: Result<Output, DomainError>)
        requires
            old(self).wf(),
        ensures
            final(self).wf(),
            final(self).spec_stid() == old(self).spec_stid(),
            final(self).calls() == old(self).calls() + 1,
            Self::outcomes_stable(*old(self), *final(self)),
            final(self).spec_last_cmd() == spec_frame(
                old(self).spec_stid(),
                CC_RESET_CONFIG_PARAM,
                spec_le16(param),
            ),
            r == spec_param_result(old(self).next_outcome()),
            final(self).spec_last_err() == spec_err_recorded(r),
    {
        let mut args: Vec<u8> = Vec::new();
        push_le16(&mut args, param);
        proof {
            assert(args@ =~= spec_le16(param));
        }
        let cmd = frame(self.stid, CC_RESET_CONFIG_PARAM, args);
        let out = self.issue(cmd);
        let r = match out {
            Ok(DeviceReply::Param(o)) => Ok(o),
            Ok(_) => Err(DomainError::MalformedResponse),
            Err(e) => Err(e),
        };
        self.record(&r);
        r
    }

    /// Reset the whole configuration to defaults.
    pub fn reset_all_conf(&mut self) -> (r: Result<(), DomainError>)
        requires
            old(self).wf(),
        ensures
            final(self).wf(),
            final(self).spec_stid() == old(self).spec_stid(),
            final(self).calls() == old(self).calls() + 1,
            Self::outcomes_stable(*old(self), *final(self)),
            final(self).spec_last_cmd() == spec_frame(
                old(self).spec_stid(),
                CC_RESET_ALL_CONF,
                seq![],
            ),
            r == spec_unit_result(old(self).next_outcome()),
            final(self).spec_last_err() == spec_err_recorded(r),
    {
        let cmd = frame(self.stid, CC_RESET_ALL_CONF, Vec::new());
        let out = self.issue(cmd);
        let r = match out {
            Ok(DeviceReply::Ack) => Ok(()),
            Ok(_) => Err(DomainError::MalformedResponse),
            Err(e) => Err(e),
        };
        self.record(&r);
        r
    }

    /// Load the configuration from persistent storage.
    pub fn load_config(&mut self) -> (r: Result<(), DomainError>)
        requires
            old(self).wf(),
        ensures
            final(self).wf(),
            final(self).spec_stid() == old(self).spec_stid(),
            final(self).calls() == old(self).calls() + 1,
            Self::outcomes_stable(*old(self), *final(self)),
            final(self).spec_last_cmd() == spec_frame(
                old(self).spec_stid(),
                CC_LOAD_CONFIG,
                seq![],
            ),
            r == spec_unit_result(old(self).next_outcome()),
            final(self).spec_last_err() == spec_err_recorded(r),
    {
        let cmd = frame(self.stid, CC_LOAD_CONFIG, Vec::new());
        let out = self.issue(cmd);
        let r = match out {
            Ok(DeviceReply::Ack) => Ok(()),
            Ok(_) => Err(DomainError::MalformedResponse),
            Err(e) => Err(e),
        };
        self.record(&r);
        r
    }

    /// Save the configuration to persistent storage, overriding the write
    /// guard.
    pub fn force_save_config(&mut self) -> (r: Result<(), DomainError>)
        requires
            old(self).wf(),
        ensures
            final(self).wf(),
            final(self).spec_stid() == old(self).spec_stid(),
            final(self).calls() == old(self).calls() + 1,
            Self::outcomes_stable(*old(self), *final(self)),
            final(self).spec_last_cmd() == spec_frame(
                old(self).spec_stid(),
                CC_FORCE_SAVE_CONFIG,
                seq![],
            ),
            r == spec_unit_result(old(self).next_outcome()),
            final(self).spec_last_err() == spec_err_recorded(r),
    {
        let cmd = frame(self.stid, CC_FORCE_SAVE_CONFIG, Vec::new());
        let out = self.issue(cmd);
        let r = match out {
            Ok(DeviceReply::Ack) => Ok(()),
            Ok(_) => Err(DomainError::MalformedResponse),
            Err(e) => Err(e),
        };
        self.record(&r);
        r
    }

    /// Save the configuration to persistent storage.
    pub fn save_config(&mut self) -> (r: Result<(), DomainError>)
        requires
            old(self).wf(),
        ensures
            final(self).wf(),
            final(self).spec_stid() == old(self).spec_stid(),
            final(self).calls() == old(self).calls() + 1,
            Self::outcomes_stable(*old(self), *final(self)),
            final(self).spec_last_cmd() == spec_frame(
                old(self).spec_stid(),
                CC_SAVE_CONFIG,
                seq![],
            ),
            r == spec_unit_result(old(self).next_outcome()),
            final(self).spec_last_err() == spec_err_recorded(r),
    {
        let cmd = frame(self.stid, CC_SAVE_CONFIG, Vec::new());
        let out = self.issue(cmd);
        let r = match out {
            Ok(DeviceReply::Ack) => Ok(()),
            Ok(_) => Err(DomainError::MalformedResponse),
            Err(e) => Err(e),
        };
        self.record(&r);
        r
    }
}

} // verus!
