//! Byte encoding of device commands.
//!
//! Every command issued to the device is framed as
//! `[system-type byte, command code, argument bytes...]`; multi-byte numeric
//! arguments travel least significant byte first. The subsystem records this
//! exact frame in its `last_cmd` diagnostic field before the device call
//! completes, so the encoding is part of the core's contract surface: each
//! `spec_*` function here is the mathematical image of the frame an
//! operation issues.

use vstd::prelude::*;

use crate::translate::StId;

verus! {

/// Command code: ping.
pub const CC_PING: u8 = 0x01;

/// Command code: system reset.
pub const CC_SYS_RESET: u8 = 0x02;

/// Command code: shut down all outputs.
pub const CC_SHUTDOWN_ALL: u8 = 0x03;

/// Command code: watchdog reset.
pub const CC_WATCHDOG_RESET: u8 = 0x04;

/// Command code: switch a group of outputs by bitmask.
pub const CC_SET_GROUP_OUTPUTS: u8 = 0x10;

/// Command code: set a group of outputs to one state.
pub const CC_SET_GROUP_STATE: u8 = 0x11;

/// Command code: switch a single output channel.
pub const CC_SET_SINGLE_OUTPUT: u8 = 0x12;

/// Command code: switch operating mode.
pub const CC_MODE_SWITCH: u8 = 0x30;

/// Command code: read system status.
pub const CC_SYSTEM_STATUS: u8 = 0x40;

/// Command code: read overcurrent fault state.
pub const CC_OVERCURRENT_STATE: u8 = 0x42;

/// Command code: read distribution-unit housekeeping.
pub const CC_PDU_HK: u8 = 0x50;

/// Command code: read battery-unit housekeeping.
pub const CC_PBU_HK: u8 = 0x52;

/// Command code: read conditioning-unit housekeeping.
pub const CC_PCU_HK: u8 = 0x54;

/// Command code: read integration-unit housekeeping.
pub const CC_PIU_HK: u8 = 0x56;

/// Command code: apply a time correction.
pub const CC_CORRECT_TIME: u8 = 0x60;

/// Command code: reset all counters.
pub const CC_RESET_ALL_COUNTERS: u8 = 0x62;

/// Command code: read a writable configuration parameter.
pub const CC_GET_CONFIG_PARAM_WRITE: u8 = 0x81;

/// Command code: read a read-only configuration parameter.
pub const CC_GET_CONFIG_PARAM_READ: u8 = 0x82;

/// Command code: write a 32-bit unsigned configuration parameter.
pub const CC_SET_CONFIG_PARAM_U32: u8 = 0x84;

/// Command code: write a 16-bit unsigned configuration parameter.
pub const CC_SET_CONFIG_PARAM_U16: u8 = 0x85;

/// Command code: write a 16-bit signed configuration parameter.
pub const CC_SET_CONFIG_PARAM_I16: u8 = 0x86;

/// Command code: write an 8-bit unsigned configuration parameter.
pub const CC_SET_CONFIG_PARAM_U8: u8 = 0x87;

/// Command code: write an 8-bit signed configuration parameter.
pub const CC_SET_CONFIG_PARAM_I8: u8 = 0x88;

/// Command code: reset one configuration parameter to its default.
pub const CC_RESET_CONFIG_PARAM: u8 = 0x8A;

/// Command code: reset the whole configuration to defaults.
pub const CC_RESET_ALL_CONF: u8 = 0x90;

/// Command code: load the configuration from persistent storage.
pub const CC_LOAD_CONFIG: u8 = 0x92;

/// Command code: save the configuration to persistent storage.
pub const CC_SAVE_CONFIG: u8 = 0x94;

/// Command code: save the configuration, overriding the write guard.
pub const CC_FORCE_SAVE_CONFIG: u8 = 0x95;

/// Fixed confirmation key the system-reset command carries.
pub const RESET_KEY: u8 = 0xA6;

/// Frame byte identifying a sub-board.
pub open spec fn spec_stid_byte(stid: StId) -> u8 {
    match stid {
        StId::PduStid => 0x11,
        StId::PbuStid => 0x12,
        StId::PcuStid => 0x13,
        StId::PiuStid => 0x1A,
        StId::OverrideStid => 0x00,
    }
}

/// Frame byte identifying a sub-board.
pub fn stid_byte(stid: StId) -> (b: u8)
    ensures
        b == spec_stid_byte(stid),
{
    match stid {
        StId::PduStid => 0x11,
        StId::PbuStid => 0x12,
        StId::PcuStid => 0x13,
        StId::PiuStid => 0x1A,
        StId::OverrideStid => 0x00,
    }
}

/// A complete command frame: system-type byte, command code, arguments.
pub open spec fn spec_frame(stid: StId, cc: u8, args: Seq<u8>) -> Seq<u8> {
    seq![spec_stid_byte(stid), cc] + args
}

/// Little-endian bytes of a 16-bit unsigned value.
pub open spec fn spec_le16(x: u16) -> Seq<u8> {
    seq![(x % 256) as u8, (x / 256) as u8]
}

/// Little-endian bytes of a 32-bit unsigned value.
pub open spec fn spec_le32(x: u32) -> Seq<u8> {
    seq![(x % 256) as u8, ((x / 256) % 256) as u8, ((x / 0x10000) % 256) as u8, ((x
        / 0x1000000) % 256) as u8]
}

/// The unsigned 16-bit image (two's complement) of a signed 16-bit value.
pub open spec fn spec_u16_of_i16(x: i16) -> u16 {
    if x >= 0 {
        x as u16
    } else {
        (x + 0x10000) as u16
    }
}

/// The unsigned 32-bit image (two's complement) of a signed 32-bit value.
pub open spec fn spec_u32_of_i32(x: i32) -> u32 {
    if x >= 0 {
        x as u32
    } else {
        (x + 0x1_0000_0000) as u32
    }
}

/// The unsigned 8-bit image (two's complement) of a signed 8-bit value.
pub open spec fn spec_u8_of_i8(x: i8) -> u8 {
    if x >= 0 {
        x as u8
    } else {
        (x + 0x100) as u8
    }
}

/// Compute the unsigned image of a signed 16-bit value.
pub fn u16_of_i16(x: i16) -> (r: u16)
    ensures
        r == spec_u16_of_i16(x),
{
    if x >= 0 {
        x as u16
    } else {
        ((x as i32) + 0x10000) as u16
    }
}

/// Compute the unsigned image of a signed 32-bit value.
pub fn u32_of_i32(x: i32) -> (r: u32)
    ensures
        r == spec_u32_of_i32(x),
{
    if x >= 0 {
        x as u32
    } else {
        ((x as i64) + 0x1_0000_0000) as u32
    }
}

/// Compute the unsigned image of a signed 8-bit value.
pub fn u8_of_i8(x: i8) -> (r: u8)
    ensures
        r == spec_u8_of_i8(x),
{
    if x >= 0 {
        x as u8
    } else {
        ((x as i16) + 0x100) as u8
    }
}

/// Append the little-endian bytes of a 16-bit value to an argument buffer.
pub fn push_le16(v: &mut Vec<u8>, x: u16)
    ensures
        final(v)@ == old(v)@ + spec_le16(x),
{
    v.push((x % 256) as u8);
    v.push((x / 256) as u8);
    proof {
        assert(final(v)@ =~= old(v)@ + spec_le16(x));
    }
}

/// Append the little-endian bytes of a 32-bit value to an argument buffer.
pub fn push_le32(v: &mut Vec<u8>, x: u32)
    ensures
        final(v)@ == old(v)@ + spec_le32(x),
{
    v.push((x % 256) as u8);
    v.push(((x / 256) % 256) as u8);
    v.push(((x / 0x10000) % 256) as u8);
    v.push(((x / 0x1000000) % 256) as u8);
    proof {
        assert(final(v)@ =~= old(v)@ + spec_le32(x));
    }
}

/// Build the complete frame for a command with the given argument bytes.
pub fn frame(stid: StId, cc: u8, args: Vec<u8>) -> (v: Vec<u8>)
    ensures
        v@ == spec_frame(stid, cc, args@),
{
    let ghost orig = args@;
    let mut rest = args;
    let mut v: Vec<u8> = Vec::new();
    v.push(stid_byte(stid));
    v.push(cc);
    v.append(&mut rest);
    proof {
        assert(v@ =~= spec_frame(stid, cc, orig));
    }
    v
}

/// True when every listed channel index addresses one of the sixteen
/// switched output channels a group bitmask can carry.
pub open spec fn spec_channels_valid(chs: Seq<u8>) -> bool {
    forall|i: int| 0 <= i < chs.len() ==> chs[i] < 16
}

/// The group bitmask with one bit set per listed channel index.
pub open spec fn spec_group_mask(chs: Seq<u8>) -> u16
    decreases chs.len(),
{
    if chs.len() == 0 {
        0u16
    } else {
        spec_group_mask(chs.drop_last()) | (1u16 << (chs.last() as u16))
    }
}

/// Check that every listed channel index fits the group bitmask.
pub fn channels_valid(chs: &Vec<u8>) -> (b: bool)
    ensures
        b == spec_channels_valid(chs@),
{
    let mut k: usize = 0;
    while k < chs.len()
        invariant
            k <= chs@.len(),
            forall|i: int| 0 <= i < k ==> chs@[i] < 16,
        decreases chs@.len() - k,
    {
        if chs[k] >= 16 {
            return false;
        }
        k = k + 1;
    }
    true
}

/// Compute the group bitmask of a channel list.
pub fn group_mask(chs: &Vec<u8>) -> (m: u16)
    requires
        spec_channels_valid(chs@),
    ensures
        m == spec_group_mask(chs@),
{
    let mut m: u16 = 0;
    let mut k: usize = 0;
    while k < chs.len()
        invariant
            k <= chs@.len(),
            spec_channels_valid(chs@),
            m == spec_group_mask(chs@.take(k as int)),
        decreases chs@.len() - k,
    {
        assert(chs@[k as int] < 16);
        m = m | (1u16 << (chs[k] as u16));
        proof {
            assert(chs@.take(k as int + 1).drop_last() =~= chs@.take(k as int));
            assert(chs@.take(k as int + 1).last() == chs@[k as int]);
        }
        k = k + 1;
    }
    proof {
        assert(chs@.take(chs@.len() as int) =~= chs@);
    }
    m
}

} // verus!
