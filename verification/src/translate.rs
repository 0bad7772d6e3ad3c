//! Domain enumerations and their wire translation.
//!
//! Every enumeration the command set uses maps to a wire-safe ordinal: a
//! 32-bit integer sharing the ordinal count and order of the domain
//! enumeration. Decoding an ordinal outside the defined range fails with
//! [`TranslationError::InvalidEnum`] before any device interaction.
//!
//! For each enumeration, `spec_ordinal` and `spec_from_wire` are the
//! mathematical translation, `to_wire` and `from_wire` the executable one,
//! and `lemma_wire_round_trip_*` proves that decoding the encoding of any
//! value yields the value itself.

use vstd::prelude::*;

use crate::error::TranslationError;

verus! {

/// System type identifier: which physical sub-board a command targets.
#[derive(Clone, Copy, Debug, PartialEq, Eq, Structural)]
pub enum StId {
    /// Power distribution unit.
    PduStid,
    /// Power battery unit.
    PbuStid,
    /// Power conditioning unit.
    PcuStid,
    /// Power integration unit.
    PiuStid,
    /// Override identifier accepted by every board.
    OverrideStid,
}

impl StId {
    /// Wire ordinal of this identifier.
    pub open spec fn spec_ordinal(self) -> int {
        match self {
            StId::PduStid => 0,
            StId::PbuStid => 1,
            StId::PcuStid => 2,
            StId::PiuStid => 3,
            StId::OverrideStid => 4,
        }
    }

    /// The identifier a wire ordinal decodes to, if any.
    pub open spec fn spec_from_wire(w: int) -> Option<StId> {
        if w == 0 {
            Some(StId::PduStid)
        } else if w == 1 {
            Some(StId::PbuStid)
        } else if w == 2 {
            Some(StId::PcuStid)
        } else if w == 3 {
            Some(StId::PiuStid)
        } else if w == 4 {
            Some(StId::OverrideStid)
        } else {
            None
        }
    }

    /// Encode this identifier as its wire ordinal.
    pub fn to_wire(self) -> (w: i32)
        ensures
            w == self.spec_ordinal(),
    {
        match self {
            StId::PduStid => 0,
            StId::PbuStid => 1,
            StId::PcuStid => 2,
            StId::PiuStid => 3,
            StId::OverrideStid => 4,
        }
    }

    /// Decode a wire ordinal; ordinals outside the defined range fail.
    pub fn from_wire(w: i32) -> (r: Result<StId, TranslationError>)
        ensures
            match r {
                Ok(v) => Self::spec_from_wire(w as int) == Some(v),
                Err(e) => Self::spec_from_wire(w as int) is None && e
                    == TranslationError::InvalidEnum,
            },
    {
        if w == 0 {
            Ok(StId::PduStid)
        } else if w == 1 {
            Ok(StId::PbuStid)
        } else if w == 2 {
            Ok(StId::PcuStid)
        } else if w == 3 {
            Ok(StId::PiuStid)
        } else if w == 4 {
            Ok(StId::OverrideStid)
        } else {
            Err(TranslationError::InvalidEnum)
        }
    }
}

/// Round trip: decoding the wire ordinal of any device identifier yields the
/// identifier itself.
pub proof fn lemma_wire_round_trip_st_id(x: StId)
    ensures
        StId::spec_from_wire(x.spec_ordinal()) == Some(x),
{
}

/// Housekeeping telemetry selector for the power distribution unit.
#[derive(Clone, Copy, Debug, PartialEq, Eq, Structural)]
pub enum PduHkSel {
    /// Engineering-unit housekeeping.
    PduEngHk,
    /// Running-average housekeeping.
    PduAvgHk,
}

impl PduHkSel {
    /// Wire ordinal of this selector.
    pub open spec fn spec_ordinal(self) -> int {
        match self {
            PduHkSel::PduEngHk => 0,
            PduHkSel::PduAvgHk => 1,
        }
    }

    /// The selector a wire ordinal decodes to, if any.
    pub open spec fn spec_from_wire(w: int) -> Option<PduHkSel> {
        if w == 0 {
            Some(PduHkSel::PduEngHk)
        } else if w == 1 {
            Some(PduHkSel::PduAvgHk)
        } else {
            None
        }
    }

    /// Encode this selector as its wire ordinal.
    pub fn to_wire(self) -> (w: i32)
        ensures
            w == self.spec_ordinal(),
    {
        match self {
            PduHkSel::PduEngHk => 0,
            PduHkSel::PduAvgHk => 1,
        }
    }

    /// Decode a wire ordinal; ordinals outside the defined range fail.
    pub fn from_wire(w: i32) -> (r: Result<PduHkSel, TranslationError>)
        ensures
            match r {
                Ok(v) => Self::spec_from_wire(w as int) == Some(v),
                Err(e) => Self::spec_from_wire(w as int) is None && e
                    == TranslationError::InvalidEnum,
            },
    {
        if w == 0 {
            Ok(PduHkSel::PduEngHk)
        } else if w == 1 {
            Ok(PduHkSel::PduAvgHk)
        } else {
            Err(TranslationError::InvalidEnum)
        }
    }
}

/// Round trip: decoding the wire ordinal of any selector yields the selector
/// itself.
pub proof fn lemma_wire_round_trip_pdu_hk_sel(x: PduHkSel)
    ensures
        PduHkSel::spec_from_wire(x.spec_ordinal()) == Some(x),
{
}

/// Housekeeping telemetry selector for the power battery unit.
#[derive(Clone, Copy, Debug, PartialEq, Eq, Structural)]
pub enum PbuHkSel {
    /// Engineering-unit housekeeping.
    PbuEngHk,
    /// Running-average housekeeping.
    PbuAvgHk,
}

impl PbuHkSel {
    /// Wire ordinal of this selector.
    pub open spec fn spec_ordinal(self) -> int {
        match self {
            PbuHkSel::PbuEngHk => 0,
            PbuHkSel::PbuAvgHk => 1,
        }
    }

    /// The selector a wire ordinal decodes to, if any.
    pub open spec fn spec_from_wire(w: int) -> Option<PbuHkSel> {
        if w == 0 {
            Some(PbuHkSel::PbuEngHk)
        } else if w == 1 {
            Some(PbuHkSel::PbuAvgHk)
        } else {
            None
        }
    }

    /// Encode this selector as its wire ordinal.
    pub fn to_wire(self) -> (w: i32)
        ensures
            w == self.spec_ordinal(),
    {
        match self {
            PbuHkSel::PbuEngHk => 0,
            PbuHkSel::PbuAvgHk => 1,
        }
    }

    /// Decode a wire ordinal; ordinals outside the defined range fail.
    pub fn from_wire(w: i32) -> (r: Result<PbuHkSel, TranslationError>)
        ensures
            match r {
                Ok(v) => Self::spec_from_wire(w as int) == Some(v),
                Err(e) => Self::spec_from_wire(w as int) is None && e
                    == TranslationError::InvalidEnum,
            },
    {
        if w == 0 {
            Ok(PbuHkSel::PbuEngHk)
        } else if w == 1 {
            Ok(PbuHkSel::PbuAvgHk)
        } else {
            Err(TranslationError::InvalidEnum)
        }
    }
}

/// Round trip: decoding the wire ordinal of any selector yields the selector
/// itself.
pub proof fn lemma_wire_round_trip_pbu_hk_sel(x: PbuHkSel)
    ensures
        PbuHkSel::spec_from_wire(x.spec_ordinal()) == Some(x),
{
}

/// Housekeeping telemetry selector for the power conditioning unit.
#[derive(Clone, Copy, Debug, PartialEq, Eq, Structural)]
pub enum PcuHkSel {
    /// Engineering-unit housekeeping.
    PcuEngHk,
    /// Running-average housekeeping.
    PcuAvgHk,
}

impl PcuHkSel {
    /// Wire ordinal of this selector.
    pub open spec fn spec_ordinal(self) -> int {
        match self {
            PcuHkSel::PcuEngHk => 0,
            PcuHkSel::PcuAvgHk => 1,
        }
    }

    /// The selector a wire ordinal decodes to, if any.
    pub open spec fn spec_from_wire(w: int) -> Option<PcuHkSel> {
        if w == 0 {
            Some(PcuHkSel::PcuEngHk)
        } else if w == 1 {
            Some(PcuHkSel::PcuAvgHk)
        } else {
            None
        }
    }

    /// Encode this selector as its wire ordinal.
    pub fn to_wire(self) -> (w: i32)
        ensures
            w == self.spec_ordinal(),
    {
        match self {
            PcuHkSel::PcuEngHk => 0,
            PcuHkSel::PcuAvgHk => 1,
        }
    }

    /// Decode a wire ordinal; ordinals outside the defined range fail.
    pub fn from_wire(w: i32) -> (r: Result<PcuHkSel, TranslationError>)
        ensures
            match r {
                Ok(v) => Self::spec_from_wire(w as int) == Some(v),
                Err(e) => Self::spec_from_wire(w as int) is None && e
                    == TranslationError::InvalidEnum,
            },
    {
        if w == 0 {
            Ok(PcuHkSel::PcuEngHk)
        } else if w == 1 {
            Ok(PcuHkSel::PcuAvgHk)
        } else {
            Err(TranslationError::InvalidEnum)
        }
    }
}

/// Round trip: decoding the wire ordinal of any selector yields the selector
/// itself.
pub proof fn lemma_wire_round_trip_pcu_hk_sel(x: PcuHkSel)
    ensures
        PcuHkSel::spec_from_wire(x.spec_ordinal()) == Some(x),
{
}

/// Housekeeping telemetry selector for the power integration unit.
#[derive(Clone, Copy, Debug, PartialEq, Eq, Structural)]
pub enum PiuHkSel {
    /// Engineering-unit housekeeping.
    PiuEngHk,
    /// Running-average housekeeping.
    PiuAvgHk,
}

impl PiuHkSel {
    /// Wire ordinal of this selector.
    pub open spec fn spec_ordinal(self) -> int {
        match self {
            PiuHkSel::PiuEngHk => 0,
            PiuHkSel::PiuAvgHk => 1,
        }
    }

    /// The selector a wire ordinal decodes to, if any.
    pub open spec fn spec_from_wire(w: int) -> Option<PiuHkSel> {
        if w == 0 {
            Some(PiuHkSel::PiuEngHk)
        } else if w == 1 {
            Some(PiuHkSel::PiuAvgHk)
        } else {
            None
        }
    }

    /// Encode this selector as its wire ordinal.
    pub fn to_wire(self) -> (w: i32)
        ensures
            w == self.spec_ordinal(),
    {
        match self {
            PiuHkSel::PiuEngHk => 0,
            PiuHkSel::PiuAvgHk => 1,
        }
    }

    /// Decode a wire ordinal; ordinals outside the defined range fail.
    pub fn from_wire(w: i32) -> (r: Result<PiuHkSel, TranslationError>)
        ensures
            match r {
                Ok(v) => Self::spec_from_wire(w as int) == Some(v),
                Err(e) => Self::spec_from_wire(w as int) is None && e
                    == TranslationError::InvalidEnum,
            },
    {
        if w == 0 {
            Ok(PiuHkSel::PiuEngHk)
        } else if w == 1 {
            Ok(PiuHkSel::PiuAvgHk)
        } else {
            Err(TranslationError::InvalidEnum)
        }
    }
}

/// Round trip: decoding the wire ordinal of any selector yields the selector
/// itself.
pub proof fn lemma_wire_round_trip_piu_hk_sel(x: PiuHkSel)
    ensures
        PiuHkSel::spec_from_wire(x.spec_ordinal()) == Some(x),
{
}

/// Selector for an operation on a whole bus group of switched outputs.
#[derive(Clone, Copy, Debug, PartialEq, Eq, Structural)]
pub enum BusGroup {
    /// Switch the group's outputs on.
    BusGroupOn,
    /// Switch the group's outputs off.
    BusGroupOff,
    /// Set the group's outputs to an explicit state.
    BusGroupState,
}

impl BusGroup {
    /// Wire ordinal of this group selector.
    pub open spec fn spec_ordinal(self) -> int {
        match self {
            BusGroup::BusGroupOn => 0,
            BusGroup::BusGroupOff => 1,
            BusGroup::BusGroupState => 2,
        }
    }

    /// The group selector a wire ordinal decodes to, if any.
    pub open spec fn spec_from_wire(w: int) -> Option<BusGroup> {
        if w == 0 {
            Some(BusGroup::BusGroupOn)
        } else if w == 1 {
            Some(BusGroup::BusGroupOff)
        } else if w == 2 {
            Some(BusGroup::BusGroupState)
        } else {
            None
        }
    }

    /// Encode this group selector as its wire ordinal.
    pub fn to_wire(self) -> (w: i32)
        ensures
            w == self.spec_ordinal(),
    {
        match self {
            BusGroup::BusGroupOn => 0,
            BusGroup::BusGroupOff => 1,
            BusGroup::BusGroupState => 2,
        }
    }

    /// Decode a wire ordinal; ordinals outside the defined range fail.
    pub fn from_wire(w: i32) -> (r: Result<BusGroup, TranslationError>)
        ensures
            match r {
                Ok(v) => Self::spec_from_wire(w as int) == Some(v),
                Err(e) => Self::spec_from_wire(w as int) is None && e
                    == TranslationError::InvalidEnum,
            },
    {
        if w == 0 {
            Ok(BusGroup::BusGroupOn)
        } else if w == 1 {
            Ok(BusGroup::BusGroupOff)
        } else if w == 2 {
            Ok(BusGroup::BusGroupState)
        } else {
            Err(TranslationError::InvalidEnum)
        }
    }
}

/// Round trip: decoding the wire ordinal of any group selector yields the
/// selector itself.
pub proof fn lemma_wire_round_trip_bus_group(x: BusGroup)
    ensures
        BusGroup::spec_from_wire(x.spec_ordinal()) == Some(x),
{
}

/// Commanded state for one switched output channel.
#[derive(Clone, Copy, Debug, PartialEq, Eq, Structural)]
pub enum BusChannel {
    /// Switch the channel on.
    ChannelOn,
    /// Switch the channel off.
    ChannelOff,
}

impl BusChannel {
    /// Wire ordinal of this channel command.
    pub open spec fn spec_ordinal(self) -> int {
        match self {
            BusChannel::ChannelOn => 0,
            BusChannel::ChannelOff => 1,
        }
    }

    /// The channel command a wire ordinal decodes to, if any.
    pub open spec fn spec_from_wire(w: int) -> Option<BusChannel> {
        if w == 0 {
            Some(BusChannel::ChannelOn)
        } else if w == 1 {
            Some(BusChannel::ChannelOff)
        } else {
            None
        }
    }

    /// Encode this channel command as its wire ordinal.
    pub fn to_wire(self) -> (w: i32)
        ensures
            w == self.spec_ordinal(),
    {
        match self {
            BusChannel::ChannelOn => 0,
            BusChannel::ChannelOff => 1,
        }
    }

    /// Decode a wire ordinal; ordinals outside the defined range fail.
    pub fn from_wire(w: i32) -> (r: Result<BusChannel, TranslationError>)
        ensures
            match r {
                Ok(v) => Self::spec_from_wire(w as int) == Some(v),
                Err(e) => Self::spec_from_wire(w as int) is None && e
                    == TranslationError::InvalidEnum,
            },
    {
        if w == 0 {
            Ok(BusChannel::ChannelOn)
        } else if w == 1 {
            Ok(BusChannel::ChannelOff)
        } else {
            Err(TranslationError::InvalidEnum)
        }
    }
}

/// Round trip: decoding the wire ordinal of any channel command yields the
/// command itself.
pub proof fn lemma_wire_round_trip_bus_channel(x: BusChannel)
    ensures
        BusChannel::spec_from_wire(x.spec_ordinal()) == Some(x),
{
}

/// Observed or requested state of a bus group's channels.
#[derive(Clone, Copy, Debug, PartialEq, Eq, Structural)]
pub enum BusChannelState {
    /// Channels on.
    On,
    /// Channels off.
    Off,
}

impl BusChannelState {
    /// Wire ordinal of this state.
    pub open spec fn spec_ordinal(self) -> int {
        match self {
            BusChannelState::On => 0,
            BusChannelState::Off => 1,
        }
    }

    /// The state a wire ordinal decodes to, if any.
    pub open spec fn spec_from_wire(w: int) -> Option<BusChannelState> {
        if w == 0 {
            Some(BusChannelState::On)
        } else if w == 1 {
            Some(BusChannelState::Off)
        } else {
            None
        }
    }

    /// Encode this state as its wire ordinal.
    pub fn to_wire(self) -> (w: i32)
        ensures
            w == self.spec_ordinal(),
    {
        match self {
            BusChannelState::On => 0,
            BusChannelState::Off => 1,
        }
    }

    /// Decode a wire ordinal; ordinals outside the defined range fail.
    pub fn from_wire(w: i32) -> (r: Result<BusChannelState, TranslationError>)
        ensures
            match r {
                Ok(v) => Self::spec_from_wire(w as int) == Some(v),
                Err(e) => Self::spec_from_wire(w as int) is None && e
                    == TranslationError::InvalidEnum,
            },
    {
        if w == 0 {
            Ok(BusChannelState::On)
        } else if w == 1 {
            Ok(BusChannelState::Off)
        } else {
            Err(TranslationError::InvalidEnum)
        }
    }
}

/// Round trip: decoding the wire ordinal of any channel state yields the
/// state itself.
pub proof fn lemma_wire_round_trip_bus_channel_state(x: BusChannelState)
    ensures
        BusChannelState::spec_from_wire(x.spec_ordinal()) == Some(x),
{
}

/// Operating-mode selector for the mode-switch command.
#[derive(Clone, Copy, Debug, PartialEq, Eq, Structural)]
pub enum ModeSwitch {
    /// Nominal operating mode.
    Nominal,
    /// Safety operating mode.
    Safety,
}

impl ModeSwitch {
    /// Wire ordinal of this mode.
    pub open spec fn spec_ordinal(self) -> int {
        match self {
            ModeSwitch::Nominal => 0,
            ModeSwitch::Safety => 1,
        }
    }

    /// The mode a wire ordinal decodes to, if any.
    pub open spec fn spec_from_wire(w: int) -> Option<ModeSwitch> {
        if w == 0 {
            Some(ModeSwitch::Nominal)
        } else if w == 1 {
            Some(ModeSwitch::Safety)
        } else {
            None
        }
    }

    /// Encode this mode as its wire ordinal.
    pub fn to_wire(self) -> (w: i32)
        ensures
            w == self.spec_ordinal(),
    {
        match self {
            ModeSwitch::Nominal => 0,
            ModeSwitch::Safety => 1,
        }
    }

    /// Decode a wire ordinal; ordinals outside the defined range fail.
    pub fn from_wire(w: i32) -> (r: Result<ModeSwitch, TranslationError>)
        ensures
            match r {
                Ok(v) => Self::spec_from_wire(w as int) == Some(v),
                Err(e) => Self::spec_from_wire(w as int) is None && e
                    == TranslationError::InvalidEnum,
            },
    {
        if w == 0 {
            Ok(ModeSwitch::Nominal)
        } else if w == 1 {
            Ok(ModeSwitch::Safety)
        } else {
            Err(TranslationError::InvalidEnum)
        }
    }
}

/// Round trip: decoding the wire ordinal of any mode yields the mode itself.
pub proof fn lemma_wire_round_trip_mode_switch(x: ModeSwitch)
    ensures
        ModeSwitch::spec_from_wire(x.spec_ordinal()) == Some(x),
{
}

/// Single-parameter configuration operation selector.
#[derive(Clone, Copy, Debug, PartialEq, Eq, Structural)]
pub enum SysConfig1 {
    /// Read a configuration parameter.
    GetConfigParam,
    /// Write a configuration parameter.
    SetConfigParam,
    /// Reset a configuration parameter to its default.
    ResetConfigParam,
}

impl SysConfig1 {
    /// Wire ordinal of this operation selector.
    pub open spec fn spec_ordinal(self) -> int {
        match self {
            SysConfig1::GetConfigParam => 0,
            SysConfig1::SetConfigParam => 1,
            SysConfig1::ResetConfigParam => 2,
        }
    }

    /// The operation selector a wire ordinal decodes to, if any.
    pub open spec fn spec_from_wire(w: int) -> Option<SysConfig1> {
        if w == 0 {
            Some(SysConfig1::GetConfigParam)
        } else if w == 1 {
            Some(SysConfig1::SetConfigParam)
        } else if w == 2 {
            Some(SysConfig1::ResetConfigParam)
        } else {
            None
        }
    }

    /// Encode this operation selector as its wire ordinal.
    pub fn to_wire(self) -> (w: i32)
        ensures
            w == self.spec_ordinal(),
    {
        match self {
            SysConfig1::GetConfigParam => 0,
            SysConfig1::SetConfigParam => 1,
            SysConfig1::ResetConfigParam => 2,
        }
    }

    /// Decode a wire ordinal; ordinals outside the defined range fail.
    pub fn from_wire(w: i32) -> (r: Result<SysConfig1, TranslationError>)
        ensures
            match r {
                Ok(v) => Self::spec_from_wire(w as int) == Some(v),
                Err(e) => Self::spec_from_wire(w as int) is None && e
                    == TranslationError::InvalidEnum,
            },
    {
        if w == 0 {
            Ok(SysConfig1::GetConfigParam)
        } else if w == 1 {
            Ok(SysConfig1::SetConfigParam)
        } else if w == 2 {
            Ok(SysConfig1::ResetConfigParam)
        } else {
            Err(TranslationError::InvalidEnum)
        }
    }
}

/// Round trip: decoding the wire ordinal of any operation selector yields the
/// selector itself.
pub proof fn lemma_wire_round_trip_sys_config1(x: SysConfig1)
    ensures
        SysConfig1::spec_from_wire(x.spec_ordinal()) == Some(x),
{
}

/// Whole-configuration operation selector.
#[derive(Clone, Copy, Debug, PartialEq, Eq, Structural)]
pub enum SysConfig2 {
    /// Reset the whole configuration to defaults.
    ResetAll,
    /// Load the configuration from persistent storage.
    LoadConfig,
    /// Save the configuration to persistent storage.
    SaveConfig,
}

impl SysConfig2 {
    /// Wire ordinal of this operation selector.
    pub open spec fn spec_ordinal(self) -> int {
        match self {
            SysConfig2::ResetAll => 0,
            SysConfig2::LoadConfig => 1,
            SysConfig2::SaveConfig => 2,
        }
    }

    /// The operation selector a wire ordinal decodes to, if any.
    pub open spec fn spec_from_wire(w: int) -> Option<SysConfig2> {
        if w == 0 {
            Some(SysConfig2::ResetAll)
        } else if w == 1 {
            Some(SysConfig2::LoadConfig)
        } else if w == 2 {
            Some(SysConfig2::SaveConfig)
        } else {
            None
        }
    }

    /// Encode this operation selector as its wire ordinal.
    pub fn to_wire(self) -> (w: i32)
        ensures
            w == self.spec_ordinal(),
    {
        match self {
            SysConfig2::ResetAll => 0,
            SysConfig2::LoadConfig => 1,
            SysConfig2::SaveConfig => 2,
        }
    }

    /// Decode a wire ordinal; ordinals outside the defined range fail.
    pub fn from_wire(w: i32) -> (r: Result<SysConfig2, TranslationError>)
        ensures
            match r {
                Ok(v) => Self::spec_from_wire(w as int) == Some(v),
                Err(e) => Self::spec_from_wire(w as int) is None && e
                    == TranslationError::InvalidEnum,
            },
    {
        if w == 0 {
            Ok(SysConfig2::ResetAll)
        } else if w == 1 {
            Ok(SysConfig2::LoadConfig)
        } else if w == 2 {
            Ok(SysConfig2::SaveConfig)
        } else {
            Err(TranslationError::InvalidEnum)
        }
    }
}

/// Round trip: decoding the wire ordinal of any operation selector yields the
/// selector itself.
pub proof fn lemma_wire_round_trip_sys_config2(x: SysConfig2)
    ensures
        SysConfig2::spec_from_wire(x.spec_ordinal()) == Some(x),
{
}

} // verus!
