//! The command catalog: a declarative registry of wire-visible operations.
//!
//! Each entry binds a unique, case-sensitive operation name to a command
//! identifier, declares whether the operation is a read-only query or a
//! state-changing mutation, and lists the wire parameter types the
//! translator decodes for it together with its declared result shape. The
//! registry is built once by [`Catalog::standard`] and never mutated;
//! lookup is exact-match and fails without touching the device.
//!
//! The entry rows are canonical: every entry's name, kind, parameters and
//! result are fixed functions of its command identifier, so a well-formed
//! catalog can never disagree with what the dispatcher decodes — a
//! registration-time property, proved once, never a runtime surprise.

use vstd::prelude::*;

verus! {

/// Whether an operation reads state or may change it.
#[derive(Clone, Copy, Debug, PartialEq, Eq, Structural)]
pub enum CommandKind {
    /// Read-only operation, safe to expose for polling.
    Query,
    /// Operation that may alter device state.
    Mutation,
}

/// Identifier of one dispatched operation.
#[derive(Clone, Copy, Debug, PartialEq, Eq, Structural)]
pub enum CommandId {
    /// Ping the device.
    EpsPing,
    /// Read the system status record.
    Status,
    /// Read the overcurrent fault state.
    OvercurrentState,
    /// Read integration-unit housekeeping.
    PiuHk,
    /// Read a writable configuration parameter.
    GetConfigParamWrite,
    /// Read a read-only configuration parameter.
    GetConfigParamRead,
    /// Write a 32-bit unsigned configuration parameter.
    SetConfigParamU32,
    /// Write a 16-bit unsigned configuration parameter.
    SetConfigParamU16,
    /// Write an 8-bit unsigned configuration parameter.
    SetConfigParamU8,
    /// Write a 16-bit signed configuration parameter.
    SetConfigParamI16,
    /// Write an 8-bit signed configuration parameter.
    SetConfigParamI8,
    /// Reset one configuration parameter to its default.
    ResetConfigParam,
    /// Reset the whole system.
    SysReset,
    /// Shut down all switched outputs.
    ShutDownAll,
    /// Reset the watchdog timer.
    WatchdogReset,
    /// Switch a group of outputs by bitmask.
    SetGroupOutputs,
    /// Switch a single output channel.
    SetSingleOutput,
    /// Switch the operating mode.
    ModeSwitchFn,
    /// Apply a time correction.
    CorrectTime,
    /// Reset all counters.
    ResetAllCounters,
    /// Reset the whole configuration to defaults.
    ResetAllConf,
    /// Load the configuration from persistent storage.
    LoadConfig,
    /// Save the configuration to persistent storage.
    SaveConfig,
    /// Save the configuration, overriding the write guard.
    ForceSaveConfig,
}

/// One wire parameter type an entry declares.
#[derive(Clone, Copy, Debug, PartialEq, Eq, Structural)]
pub enum ParamKind {
    /// Integration-unit housekeeping selector ordinal.
    PiuSel,
    /// Bus group selector ordinal.
    Group,
    /// Bus channel command ordinal.
    Channel,
    /// Operating mode ordinal.
    Mode,
    /// 8-bit unsigned integer.
    U8,
    /// 16-bit unsigned integer.
    U16,
    /// 32-bit unsigned integer.
    U32,
    /// 8-bit signed integer.
    I8,
    /// 16-bit signed integer.
    I16,
    /// 32-bit signed integer.
    I32,
    /// Trailing byte sequence, one integer per byte.
    Bytes,
}

/// The declared result shape of an entry.
#[derive(Clone, Copy, Debug, PartialEq, Eq, Structural)]
pub enum ResultKind {
    /// No result payload.
    Unit,
    /// Flattened system status record.
    Status,
    /// Flattened overcurrent fault state record.
    Overcurrent,
    /// Flattened integration-unit housekeeping record.
    PiuTelemetry,
    /// Parameter identifier and value bytes as integers.
    ParamBytes,
}

/// The wire-visible name of a command.
pub open spec fn spec_name_of(c: CommandId) -> Seq<char> {
    match c {
        CommandId::EpsPing => "EpsPing"@,
        CommandId::Status => "Status"@,
        CommandId::OvercurrentState => "OvercurrentState"@,
        CommandId::PiuHk => "PiuHk"@,
        CommandId::GetConfigParamWrite => "GetConfigParamWrite"@,
        CommandId::GetConfigParamRead => "GetConfigParamRead"@,
        CommandId::SetConfigParamU32 => "SetConfigParamU32"@,
        CommandId::SetConfigParamU16 => "SetConfigParamU16"@,
        CommandId::SetConfigParamU8 => "SetConfigParamU8"@,
        CommandId::SetConfigParamI16 => "SetConfigParamI16"@,
        CommandId::SetConfigParamI8 => "SetConfigParamI8"@,
        CommandId::ResetConfigParam => "ResetConfigParam"@,
        CommandId::SysReset => "SysReset"@,
        CommandId::ShutDownAll => "ShutDownAll"@,
        CommandId::WatchdogReset => "WatchdogReset"@,
        CommandId::SetGroupOutputs => "SetGroupOutputs"@,
        CommandId::SetSingleOutput => "SetSingleOutput"@,
        CommandId::ModeSwitchFn => "ModeSwitchFn"@,
        CommandId::CorrectTime => "CorrectTime"@,
        CommandId::ResetAllCounters => "ResetAllCounters"@,
        CommandId::ResetAllConf => "ResetAllConf"@,
        CommandId::LoadConfig => "LoadConfig"@,
        CommandId::SaveConfig => "SaveConfig"@,
        CommandId::ForceSaveConfig => "ForceSaveConfig"@,
    }
}

/// Whether a command is a query or a mutation. Only the operations that
/// read state are queries; writing or resetting a configuration parameter
/// alters device state and is therefore a mutation, like the resets and
/// the output switching.
pub open spec fn spec_kind_of(c: CommandId) -> CommandKind {
    match c {
        CommandId::EpsPing => CommandKind::Query,
        CommandId::Status => CommandKind::Query,
        CommandId::OvercurrentState => CommandKind::Query,
        CommandId::PiuHk => CommandKind::Query,
        CommandId::GetConfigParamWrite => CommandKind::Query,
        CommandId::GetConfigParamRead => CommandKind::Query,
        CommandId::SetConfigParamU32 => CommandKind::Mutation,
        CommandId::SetConfigParamU16 => CommandKind::Mutation,
        CommandId::SetConfigParamU8 => CommandKind::Mutation,
        CommandId::SetConfigParamI16 => CommandKind::Mutation,
        CommandId::SetConfigParamI8 => CommandKind::Mutation,
        CommandId::ResetConfigParam => CommandKind::Mutation,
        CommandId::SysReset => CommandKind::Mutation,
        CommandId::ShutDownAll => CommandKind::Mutation,
        CommandId::WatchdogReset => CommandKind::Mutation,
        CommandId::SetGroupOutputs => CommandKind::Mutation,
        CommandId::SetSingleOutput => CommandKind::Mutation,
        CommandId::ModeSwitchFn => CommandKind::Mutation,
        CommandId::CorrectTime => CommandKind::Mutation,
        CommandId::ResetAllCounters => CommandKind::Mutation,
        CommandId::ResetAllConf => CommandKind::Mutation,
        CommandId::LoadConfig => CommandKind::Mutation,
        CommandId::SaveConfig => CommandKind::Mutation,
        CommandId::ForceSaveConfig => CommandKind::Mutation,
    }
}

/// The ordered wire parameter list a command declares.
pub open spec fn spec_params_of(c: CommandId) -> Seq<ParamKind> {
    match c {
        CommandId::EpsPing => seq![],
        CommandId::Status => seq![],
        CommandId::OvercurrentState => seq![],
        CommandId::PiuHk => seq![ParamKind::PiuSel],
        CommandId::GetConfigParamWrite => seq![ParamKind::U16],
        CommandId::GetConfigParamRead => seq![ParamKind::U16],
        CommandId::SetConfigParamU32 => seq![ParamKind::U16, ParamKind::U32],
        CommandId::SetConfigParamU16 => seq![ParamKind::U16, ParamKind::U16],
        CommandId::SetConfigParamU8 => seq![ParamKind::U16, ParamKind::U8],
        CommandId::SetConfigParamI16 => seq![ParamKind::U16, ParamKind::I16],
        CommandId::SetConfigParamI8 => seq![ParamKind::U16, ParamKind::I8],
        CommandId::ResetConfigParam => seq![ParamKind::U16],
        CommandId::SysReset => seq![ParamKind::U8],
        CommandId::ShutDownAll => seq![],
        CommandId::WatchdogReset => seq![],
        CommandId::SetGroupOutputs => seq![ParamKind::Group, ParamKind::Bytes],
        CommandId::SetSingleOutput => seq![ParamKind::Channel, ParamKind::U8],
        CommandId::ModeSwitchFn => seq![ParamKind::Mode],
        CommandId::CorrectTime => seq![ParamKind::I32],
        CommandId::ResetAllCounters => seq![],
        CommandId::ResetAllConf => seq![],
        CommandId::LoadConfig => seq![],
        CommandId::SaveConfig => seq![],
        CommandId::ForceSaveConfig => seq![],
    }
}

/// The declared result shape of a command.
pub open spec fn spec_result_of(c: CommandId) -> ResultKind {
    match c {
        CommandId::EpsPing => ResultKind::Unit,
        CommandId::Status => ResultKind::Status,
        CommandId::OvercurrentState => ResultKind::Overcurrent,
        CommandId::PiuHk => ResultKind::PiuTelemetry,
        CommandId::GetConfigParamWrite => ResultKind::ParamBytes,
        CommandId::GetConfigParamRead => ResultKind::ParamBytes,
        CommandId::SetConfigParamU32 => ResultKind::ParamBytes,
        CommandId::SetConfigParamU16 => ResultKind::ParamBytes,
        CommandId::SetConfigParamU8 => ResultKind::ParamBytes,
        CommandId::SetConfigParamI16 => ResultKind::ParamBytes,
        CommandId::SetConfigParamI8 => ResultKind::ParamBytes,
        CommandId::ResetConfigParam => ResultKind::ParamBytes,
        CommandId::SysReset => ResultKind::Unit,
        CommandId::ShutDownAll => ResultKind::Unit,
        CommandId::WatchdogReset => ResultKind::Unit,
        CommandId::SetGroupOutputs => ResultKind::Unit,
        CommandId::SetSingleOutput => ResultKind::Unit,
        CommandId::ModeSwitchFn => ResultKind::Unit,
        CommandId::CorrectTime => ResultKind::Unit,
        CommandId::ResetAllCounters => ResultKind::Unit,
        CommandId::ResetAllConf => ResultKind::Unit,
        CommandId::LoadConfig => ResultKind::Unit,
        CommandId::SaveConfig => ResultKind::Unit,
        CommandId::ForceSaveConfig => ResultKind::Unit,
    }
}

/// One registry row.
pub struct CatalogEntry {
    /// Unique, case-sensitive operation name.
    pub name: String,
    /// Query or mutation.
    pub kind: CommandKind,
    /// Ordered wire parameter list.
    pub params: Vec<ParamKind>,
    /// Declared result shape.
    pub result: ResultKind,
    /// The bound command.
    pub command: CommandId,
}

/// An entry is canonical: every declared column is the fixed function of
/// its command identifier.
pub open spec fn spec_entry_canonical(e: CatalogEntry) -> bool {
    &&& e.name@ == spec_name_of(e.command)
    &&& e.kind == spec_kind_of(e.command)
    &&& e.params@ == spec_params_of(e.command)
    &&& e.result == spec_result_of(e.command)
}

/// The fixed order of the standard registry's commands.
pub open spec fn spec_standard_commands() -> Seq<CommandId> {
    seq![
        CommandId::EpsPing,
        CommandId::Status,
        CommandId::OvercurrentState,
        CommandId::PiuHk,
        CommandId::GetConfigParamWrite,
        CommandId::GetConfigParamRead,
        CommandId::SetConfigParamU32,
        CommandId::SetConfigParamU16,
        CommandId::SetConfigParamU8,
        CommandId::SetConfigParamI16,
        CommandId::SetConfigParamI8,
        CommandId::ResetConfigParam,
        CommandId::SysReset,
        CommandId::ShutDownAll,
        CommandId::WatchdogReset,
        CommandId::SetGroupOutputs,
        CommandId::SetSingleOutput,
        CommandId::ModeSwitchFn,
        CommandId::CorrectTime,
        CommandId::ResetAllCounters,
        CommandId::ResetAllConf,
        CommandId::LoadConfig,
        CommandId::SaveConfig,
        CommandId::ForceSaveConfig,
    ]
}

/// First command from position `i` on whose name matches, if any.
pub open spec fn spec_find(cmds: Seq<CommandId>, name: Seq<char>, i: int) -> Option<CommandId>
    decreases cmds.len() - i,
{
    if i < 0 || i >= cmds.len() {
        None
    } else if spec_name_of(cmds[i]) == name {
        Some(cmds[i])
    } else {
        spec_find(cmds, name, i + 1)
    }
}

/// The static registry.
pub struct Catalog {
    entries: Vec<CatalogEntry>,
}

impl Catalog {
    /// The registered commands, in registry order.
    pub closed spec fn spec_commands(&self) -> Seq<CommandId> {
        self.entries@.map_values(|e: CatalogEntry| e.command)
    }

    /// Every row of the registry is canonical.
    pub closed spec fn wf(&self) -> bool {
        forall|i: int|
            0 <= i < self.entries@.len() ==> spec_entry_canonical(#[trigger] self.entries@[i])
    }

    /// Exact-match lookup result for a name.
    pub open spec fn spec_lookup(&self, name: Seq<char>) -> Option<CommandId> {
        spec_find(self.spec_commands(), name, 0)
    }

    /// Number of registered entries.
    pub fn len(&self) -> (n: usize)
        ensures
            n == self.spec_commands().len(),
    {
        self.entries.len()
    }

    /// Read one registry row.
    pub fn entry_at(&self, i: usize) -> (e: &CatalogEntry)
        requires
            i < self.spec_commands().len(),
        ensures
            e.command == self.spec_commands()[i as int],
            self.wf() ==> spec_entry_canonical(*e),
    {
        &self.entries[i]
    }

    /// Build one canonical registry row.
    fn entry(c: CommandId) -> (e: CatalogEntry)
        ensures
            spec_entry_canonical(e),
            e.command == c,
    {
        let name: String = match c {
            CommandId::EpsPing => "EpsPing".to_owned(),
            CommandId::Status => "Status".to_owned(),
            CommandId::OvercurrentState => "OvercurrentState".to_owned(),
            CommandId::PiuHk => "PiuHk".to_owned(),
            CommandId::GetConfigParamWrite => "GetConfigParamWrite".to_owned(),
            CommandId::GetConfigParamRead => "GetConfigParamRead".to_owned(),
            CommandId::SetConfigParamU32 => "SetConfigParamU32".to_owned(),
            CommandId::SetConfigParamU16 => "SetConfigParamU16".to_owned(),
            CommandId::SetConfigParamU8 => "SetConfigParamU8".to_owned(),
            CommandId::SetConfigParamI16 => "SetConfigParamI16".to_owned(),
            CommandId::SetConfigParamI8 => "SetConfigParamI8".to_owned(),
            CommandId::ResetConfigParam => "ResetConfigParam".to_owned(),
            CommandId::SysReset => "SysReset".to_owned(),
            CommandId::ShutDownAll => "ShutDownAll".to_owned(),
            CommandId::WatchdogReset => "WatchdogReset".to_owned(),
            CommandId::SetGroupOutputs => "SetGroupOutputs".to_owned(),
            CommandId::SetSingleOutput => "SetSingleOutput".to_owned(),
            CommandId::ModeSwitchFn => "ModeSwitchFn".to_owned(),
            CommandId::CorrectTime => "CorrectTime".to_owned(),
            CommandId::ResetAllCounters => "ResetAllCounters".to_owned(),
            CommandId::ResetAllConf => "ResetAllConf".to_owned(),
            CommandId::LoadConfig => "LoadConfig".to_owned(),
            CommandId::SaveConfig => "SaveConfig".to_owned(),
            CommandId::ForceSaveConfig => "ForceSaveConfig".to_owned(),
        };
        let kind: CommandKind = match c {
            CommandId::EpsPing => CommandKind::Query,
            CommandId::Status => CommandKind::Query,
            CommandId::OvercurrentState => CommandKind::Query,
            CommandId::PiuHk => CommandKind::Query,
            CommandId::GetConfigParamWrite => CommandKind::Query,
            CommandId::GetConfigParamRead => CommandKind::Query,
            _ => CommandKind::Mutation,
        };
        let result: ResultKind = match c {
            CommandId::EpsPing => ResultKind::Unit,
            CommandId::Status => ResultKind::Status,
            CommandId::OvercurrentState => ResultKind::Overcurrent,
            CommandId::PiuHk => ResultKind::PiuTelemetry,
            CommandId::GetConfigParamWrite => ResultKind::ParamBytes,
            CommandId::GetConfigParamRead => ResultKind::ParamBytes,
            CommandId::SetConfigParamU32 => ResultKind::ParamBytes,
            CommandId::SetConfigParamU16 => ResultKind::ParamBytes,
            CommandId::SetConfigParamU8 => ResultKind::ParamBytes,
            CommandId::SetConfigParamI16 => ResultKind::ParamBytes,
            CommandId::SetConfigParamI8 => ResultKind::ParamBytes,
            CommandId::ResetConfigParam => ResultKind::ParamBytes,
            _ => ResultKind::Unit,
        };
        let params: Vec<ParamKind> = match c {
            CommandId::PiuHk => Self::params1(ParamKind::PiuSel),
            CommandId::GetConfigParamWrite => Self::params1(ParamKind::U16),
            CommandId::GetConfigParamRead => Self::params1(ParamKind::U16),
            CommandId::SetConfigParamU32 => Self::params2(ParamKind::U16, ParamKind::U32),
            CommandId::SetConfigParamU16 => Self::params2(ParamKind::U16, ParamKind::U16),
            CommandId::SetConfigParamU8 => Self::params2(ParamKind::U16, ParamKind::U8),
            CommandId::SetConfigParamI16 => Self::params2(ParamKind::U16, ParamKind::I16),
            CommandId::SetConfigParamI8 => Self::params2(ParamKind::U16, ParamKind::I8),
            CommandId::ResetConfigParam => Self::params1(ParamKind::U16),
            CommandId::SysReset => Self::params1(ParamKind::U8),
            CommandId::SetGroupOutputs => Self::params2(ParamKind::Group, ParamKind::Bytes),
            CommandId::SetSingleOutput => Self::params2(ParamKind::Channel, ParamKind::U8),
            CommandId::ModeSwitchFn => Self::params1(ParamKind::Mode),
            CommandId::CorrectTime => Self::params1(ParamKind::I32),
            _ => Vec::new(),
        };
        let e = CatalogEntry { name, kind, params, result, command: c };
        proof {
            assert(e.params@ == spec_params_of(c));
        }
        e
    }

    /// Build a one-element parameter list.
    fn params1(a: ParamKind) -> (v: Vec<ParamKind>)
        ensures
            v@ == seq![a],
    {
        let mut v: Vec<ParamKind> = Vec::new();
        v.push(a);
        proof {
            assert(v@ =~= seq![a]);
        }
        v
    }

    /// Build a two-element parameter list.
    fn params2(a: ParamKind, b: ParamKind) -> (v: Vec<ParamKind>)
        ensures
            v@ == seq![a, b],
    {
        let mut v: Vec<ParamKind> = Vec::new();
        v.push(a);
        v.push(b);
        proof {
            assert(v@ =~= seq![a, b]);
        }
        v
    }

    /// Build the standard registry, one canonical row per supported
    /// operation, in the fixed order of [`spec_standard_commands`].
    pub fn standard() -> (cat: Catalog)
        ensures
            cat.wf(),
            cat.spec_commands() == spec_standard_commands(),
    {
        let mut entries: Vec<CatalogEntry> = Vec::new();
        entries.push(Self::entry(CommandId::EpsPing));
        entries.push(Self::entry(CommandId::Status));
        entries.push(Self::entry(CommandId::OvercurrentState));
        entries.push(Self::entry(CommandId::PiuHk));
        entries.push(Self::entry(CommandId::GetConfigParamWrite));
        entries.push(Self::entry(CommandId::GetConfigParamRead));
        entries.push(Self::entry(CommandId::SetConfigParamU32));
        entries.push(Self::entry(CommandId::SetConfigParamU16));
        entries.push(Self::entry(CommandId::SetConfigParamU8));
        entries.push(Self::entry(CommandId::SetConfigParamI16));
        entries.push(Self::entry(CommandId::SetConfigParamI8));
        entries.push(Self::entry(CommandId::ResetConfigParam));
        entries.push(Self::entry(CommandId::SysReset));
        entries.push(Self::entry(CommandId::ShutDownAll));
        entries.push(Self::entry(CommandId::WatchdogReset));
        entries.push(Self::entry(CommandId::SetGroupOutputs));
        entries.push(Self::entry(CommandId::SetSingleOutput));
        entries.push(Self::entry(CommandId::ModeSwitchFn));
        entries.push(Self::entry(CommandId::CorrectTime));
        entries.push(Self::entry(CommandId::ResetAllCounters));
        entries.push(Self::entry(CommandId::ResetAllConf));
        entries.push(Self::entry(CommandId::LoadConfig));
        entries.push(Self::entry(CommandId::SaveConfig));
        entries.push(Self::entry(CommandId::ForceSaveConfig));
        let cat = Catalog { entries };
        proof {
            assert(cat.spec_commands() =~= spec_standard_commands());
        }
        cat
    }

    /// Exact-match, case-sensitive lookup by operation name.
    pub fn lookup(&self, name: &String) -> (r: Option<CommandId>)
        requires
            self.wf(),
        ensures
            r == self.spec_lookup(name@),
    {
        let n = self.entries.len();
        let mut k: usize = 0;
        while k < n
            invariant
                self.wf(),
                n == self.entries@.len(),
                k <= n,
                self.spec_lookup(name@) == spec_find(self.spec_commands(), name@, k as int),
            decreases n - k,
        {
            if self.entries[k].name == *name {
                proof {
                    assert(spec_name_of(self.spec_commands()[k as int]) == name@);
                }
                return Some(self.entries[k].command);
            }
            proof {
                assert(spec_name_of(self.spec_commands()[k as int]) != name@);
            }
            k = k + 1;
        }
        None
    }
}

/// The names of the standard registry are unique: two distinct positions
/// never carry the same wire-visible name.
#[verifier::rlimit(100)]
pub proof fn lemma_standard_names_unique()
    ensures
        forall|i: int, j: int|
            0 <= i < spec_standard_commands().len() && 0 <= j < spec_standard_commands().len() && i
                != j ==> spec_name_of(#[trigger] spec_standard_commands()[i]) != spec_name_of(
                #[trigger] spec_standard_commands()[j],
            ),
{
    reveal_strlit("EpsPing");
    reveal_strlit("Status");
    reveal_strlit("OvercurrentState");
    reveal_strlit("PiuHk");
    reveal_strlit("GetConfigParamWrite");
    reveal_strlit("GetConfigParamRead");
    reveal_strlit("SetConfigParamU32");
    reveal_strlit("SetConfigParamU16");
    reveal_strlit("SetConfigParamU8");
    reveal_strlit("SetConfigParamI16");
    reveal_strlit("SetConfigParamI8");
    reveal_strlit("ResetConfigParam");
    reveal_strlit("SysReset");
    reveal_strlit("ShutDownAll");
    reveal_strlit("WatchdogReset");
    reveal_strlit("SetGroupOutputs");
    reveal_strlit("SetSingleOutput");
    reveal_strlit("ModeSwitchFn");
    reveal_strlit("CorrectTime");
    reveal_strlit("ResetAllCounters");
    reveal_strlit("ResetAllConf");
    reveal_strlit("LoadConfig");
    reveal_strlit("SaveConfig");
    reveal_strlit("ForceSaveConfig");
    assert("EpsPing"@.len() == 7 && "EpsPing"@[0] == 'E');
    assert("Status"@.len() == 6 && "Status"@[0] == 'S');
    assert("OvercurrentState"@.len() == 16 && "OvercurrentState"@[0] == 'O');
    assert("PiuHk"@.len() == 5 && "PiuHk"@[0] == 'P');
    assert("GetConfigParamWrite"@.len() == 19 && "GetConfigParamWrite"@[0] == 'G');
    assert("GetConfigParamRead"@.len() == 18 && "GetConfigParamRead"@[0] == 'G');
    assert("SetConfigParamU32"@.len() == 17 && "SetConfigParamU32"@[14] == 'U'
        && "SetConfigParamU32"@[15] == '3');
    assert("SetConfigParamU16"@.len() == 17 && "SetConfigParamU16"@[14] == 'U'
        && "SetConfigParamU16"@[15] == '1');
    assert("SetConfigParamI16"@.len() == 17 && "SetConfigParamI16"@[14] == 'I');
    assert("SetConfigParamU8"@.len() == 16 && "SetConfigParamU8"@[0] == 'S'
        && "SetConfigParamU8"@[14] == 'U');
    assert("SetConfigParamI8"@.len() == 16 && "SetConfigParamI8"@[0] == 'S'
        && "SetConfigParamI8"@[14] == 'I');
    assert("ResetConfigParam"@.len() == 16 && "ResetConfigParam"@[0] == 'R'
        && "ResetConfigParam"@[5] == 'C');
    assert("ResetAllCounters"@.len() == 16 && "ResetAllCounters"@[0] == 'R'
        && "ResetAllCounters"@[5] == 'A');
    assert("SysReset"@.len() == 8);
    assert("ShutDownAll"@.len() == 11 && "ShutDownAll"@[0] == 'S');
    assert("CorrectTime"@.len() == 11 && "CorrectTime"@[0] == 'C');
    assert("WatchdogReset"@.len() == 13);
    assert("SetGroupOutputs"@.len() == 15 && "SetGroupOutputs"@[0] == 'S'
        && "SetGroupOutputs"@[3] == 'G');
    assert("SetSingleOutput"@.len() == 15 && "SetSingleOutput"@[0] == 'S'
        && "SetSingleOutput"@[3] == 'S');
    assert("ForceSaveConfig"@.len() == 15 && "ForceSaveConfig"@[0] == 'F');
    assert("ModeSwitchFn"@.len() == 12 && "ModeSwitchFn"@[0] == 'M');
    assert("ResetAllConf"@.len() == 12 && "ResetAllConf"@[0] == 'R');
    assert("LoadConfig"@.len() == 10 && "LoadConfig"@[0] == 'L');
    assert("SaveConfig"@.len() == 10 && "SaveConfig"@[0] == 'S');
    assert forall|i: int, j: int|
        0 <= i < spec_standard_commands().len() && 0 <= j < spec_standard_commands().len() && i
            != j implies spec_name_of(#[trigger] spec_standard_commands()[i]) != spec_name_of(
        #[trigger] spec_standard_commands()[j],
    ) by {
        let c1 = spec_standard_commands()[i];
        let c2 = spec_standard_commands()[j];
        assert(c1 != c2);
        assert(spec_name_of(c1) != spec_name_of(c2));
    }
}

} // verus!

