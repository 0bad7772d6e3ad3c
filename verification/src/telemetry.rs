//! Domain composites and their flattened wire projections.
//!
//! Housekeeping telemetry and status records are structured values owned
//! transiently by the call that produced them. For the wire, each composite
//! is flattened: every leaf physical quantity becomes one primitive field,
//! named by concatenating a fixed record prefix with the domain field name,
//! nested composites one level at a time in declaration order. Every
//! quantity is 8 or 16 bits wide, so widening into the 32-bit integer wire
//! primitive loses nothing; the `lemma_flatten_*_lossless` proofs state
//! exactly that, together with the one-field-per-leaf count and order.

use vstd::prelude::*;

use crate::wire::{fields_model, wire_value_as_int, WireField, WireFieldModel, WireValue};

verus! {

/// Raw byte a board reports when its anti-removal fuse is placed.
pub const ABF_PLACED_SENTINEL: u8 = 0xAB;

/// A voltage / current / power triple, the nested composite shared by all
/// housekeeping records.
#[derive(Clone, Copy, Debug, PartialEq, Eq, Structural)]
pub struct VipData {
    /// Voltage, raw engineering units.
    pub volt: i16,
    /// Current, raw engineering units.
    pub curr: i16,
    /// Power, raw engineering units.
    pub pow: i16,
}

/// System status record reported by the status query.
#[derive(Clone, Copy, Debug, PartialEq, Eq, Structural)]
pub struct SystemStatus {
    /// Current operating mode code.
    pub mode: u8,
    /// Configuration status code.
    pub conf: u8,
    /// Cause of the most recent reset.
    pub reset_cause: u8,
    /// Minutes since boot.
    pub uptime: u16,
    /// Device error bitfield.
    pub error: u16,
    /// Count of power-on resets.
    pub rc_cnt_pwron: u16,
    /// Count of watchdog resets.
    pub rc_cnt_wdg: u16,
    /// Cause of the reset before the most recent one.
    pub prev_reset_cause: u8,
}

/// Overcurrent fault state of the switched output channels.
#[derive(Clone, Copy, Debug, PartialEq, Eq, Structural)]
pub struct OverCurrentFaultState {
    /// Bit per channel: channel on.
    pub stat_ch_on: u16,
    /// Bit per extended channel: channel on.
    pub stat_ch_ext_on: u16,
    /// Bit per channel: overcurrent fault latched.
    pub stat_ch_ocf: u16,
    /// Bit per extended channel: overcurrent fault latched.
    pub stat_ch_ext_ocf: u16,
}

/// Housekeeping telemetry of the power distribution unit.
#[derive(Clone, Copy, Debug, PartialEq, Eq, Structural)]
pub struct PduHk {
    /// Board supply voltage.
    pub volt_brdsup: i16,
    /// Board temperature.
    pub temp: i16,
    /// Input voltage / current / power.
    pub vip_input: VipData,
    /// Bit per channel: channel on.
    pub stat_ch_on: u16,
    /// Bit per channel: overcurrent fault latched.
    pub stat_ch_ocf: u16,
}

/// Housekeeping telemetry of the power battery unit.
#[derive(Clone, Copy, Debug, PartialEq, Eq, Structural)]
pub struct PbuHk {
    /// Board supply voltage.
    pub volt_brdsup: i16,
    /// Board temperature.
    pub temp: i16,
    /// Input voltage / current / power.
    pub vip_input: VipData,
    /// Battery unit status bitfield.
    pub stat_bu: u16,
}

/// Housekeeping telemetry of the power conditioning unit.
#[derive(Clone, Copy, Debug, PartialEq, Eq, Structural)]
pub struct PcuHk {
    /// Board supply voltage.
    pub volt_brdsup: i16,
    /// Board temperature.
    pub temp: i16,
    /// Output voltage / current / power.
    pub vip_output: VipData,
}

/// Housekeeping telemetry of the power integration unit.
#[derive(Clone, Copy, Debug, PartialEq, Eq, Structural)]
pub struct PiuHk {
    /// Board supply voltage.
    pub volt_brdsup: i16,
    /// Board temperature.
    pub temp: i16,
    /// Distribution input voltage / current / power.
    pub vip_dist_input: VipData,
    /// Battery input voltage / current / power.
    pub vip_batt_input: VipData,
    /// Bit per channel: channel on.
    pub stat_ch_on: u16,
    /// Bit per channel: overcurrent fault latched.
    pub stat_ch_ocf: u16,
}

/// Raw result of a configuration-parameter operation: the parameter
/// identifier echoed by the device and the parameter's bytes.
#[derive(Clone, Debug, PartialEq, Eq)]
pub struct Output {
    /// The parameter identifier the device echoed.
    pub param_id: u16,
    /// The parameter value bytes, least significant first.
    pub data: Vec<u8>,
}

/// Shorthand for one integer field of a flattened projection.
pub open spec fn int_field_model(name: Seq<char>, v: int) -> WireFieldModel {
    WireFieldModel { name, value: WireValue::Int(v as i32) }
}

/// Build one integer wire field.
fn int_field(name: &str, v: i32) -> (f: WireField)
    ensures
        f.model() == (WireFieldModel { name: name@, value: WireValue::Int(v) }),
{
    WireField { name: name.to_owned(), value: WireValue::Int(v) }
}

impl VipData {
    /// Leaf values in declaration order.
    pub open spec fn spec_leaves(self) -> Seq<int> {
        seq![self.volt as int, self.curr as int, self.pow as int]
    }

    /// Flattened projection under `prefix`, one level of nesting at a time.
    pub open spec fn spec_flatten(self, prefix: Seq<char>) -> Seq<WireFieldModel> {
        seq![
            int_field_model(prefix + "Volt"@, self.volt as int),
            int_field_model(prefix + "Curr"@, self.curr as int),
            int_field_model(prefix + "Pow"@, self.pow as int),
        ]
    }

    /// Flatten this triple under the given name prefix.
    pub fn flatten(&self, prefix: &str) -> (r: Vec<WireField>)
        ensures
            fields_model(r@) == self.spec_flatten(prefix@),
    {
        let mut r: Vec<WireField> = Vec::new();
        r.push(
            WireField {
                name: prefix.to_owned().concat("Volt"),
                value: WireValue::Int(self.volt as i32),
            },
        );
        r.push(
            WireField {
                name: prefix.to_owned().concat("Curr"),
                value: WireValue::Int(self.curr as i32),
            },
        );
        r.push(
            WireField {
                name: prefix.to_owned().concat("Pow"),
                value: WireValue::Int(self.pow as i32),
            },
        );
        proof {
            assert(fields_model(r@) =~~= self.spec_flatten(prefix@));
        }
        r
    }
}

/// The flattened projection of a voltage / current / power triple carries
/// exactly its three leaves, in declaration order, each as a lossless
/// integer widening.
pub proof fn lemma_flatten_vip_lossless(v: VipData, prefix: Seq<char>)
    ensures
        v.spec_flatten(prefix).len() == v.spec_leaves().len(),
        forall|i: int|
            0 <= i < v.spec_leaves().len() ==> v.spec_flatten(prefix)[i].value is Int
                && wire_value_as_int(#[trigger] v.spec_flatten(prefix)[i].value)
                == v.spec_leaves()[i],
{
}

impl SystemStatus {
    /// Leaf values in declaration order.
    pub open spec fn spec_leaves(self) -> Seq<int> {
        seq![
            self.mode as int,
            self.conf as int,
            self.reset_cause as int,
            self.uptime as int,
            self.error as int,
            self.rc_cnt_pwron as int,
            self.rc_cnt_wdg as int,
            self.prev_reset_cause as int,
        ]
    }

    /// Flattened wire projection, prefix `sys`.
    pub open spec fn spec_flatten(self) -> Seq<WireFieldModel> {
        seq![
            int_field_model("sysMode"@, self.mode as int),
            int_field_model("sysConf"@, self.conf as int),
            int_field_model("sysResetCause"@, self.reset_cause as int),
            int_field_model("sysUptime"@, self.uptime as int),
            int_field_model("sysError"@, self.error as int),
            int_field_model("sysRcCntPwron"@, self.rc_cnt_pwron as int),
            int_field_model("sysRcCntWdg"@, self.rc_cnt_wdg as int),
            int_field_model("sysPrevResetCause"@, self.prev_reset_cause as int),
        ]
    }

    /// Flatten this record for the wire.
    pub fn flatten(&self) -> (r: Vec<WireField>)
        ensures
            fields_model(r@) == self.spec_flatten(),
    {
        let mut r: Vec<WireField> = Vec::new();
        r.push(int_field("sysMode", self.mode as i32));
        r.push(int_field("sysConf", self.conf as i32));
        r.push(int_field("sysResetCause", self.reset_cause as i32));
        r.push(int_field("sysUptime", self.uptime as i32));
        r.push(int_field("sysError", self.error as i32));
        r.push(int_field("sysRcCntPwron", self.rc_cnt_pwron as i32));
        r.push(int_field("sysRcCntWdg", self.rc_cnt_wdg as i32));
        r.push(int_field("sysPrevResetCause", self.prev_reset_cause as i32));
        proof {
            assert(fields_model(r@) =~~= self.spec_flatten());
        }
        r
    }
}

/// The flattened system status carries exactly its eight leaves, in
/// declaration order, each as a lossless integer widening.
pub proof fn lemma_flatten_system_status_lossless(s: SystemStatus)
    ensures
        s.spec_flatten().len() == s.spec_leaves().len(),
        forall|i: int|
            0 <= i < s.spec_leaves().len() ==> s.spec_flatten()[i].value is Int
                && wire_value_as_int(#[trigger] s.spec_flatten()[i].value) == s.spec_leaves()[i],
{
}

impl OverCurrentFaultState {
    /// Leaf values in declaration order.
    pub open spec fn spec_leaves(self) -> Seq<int> {
        seq![
            self.stat_ch_on as int,
            self.stat_ch_ext_on as int,
            self.stat_ch_ocf as int,
            self.stat_ch_ext_ocf as int,
        ]
    }

    /// Flattened wire projection, prefix `ocf`.
    pub open spec fn spec_flatten(self) -> Seq<WireFieldModel> {
        seq![
            int_field_model("ocfStatChOn"@, self.stat_ch_on as int),
            int_field_model("ocfStatChExtOn"@, self.stat_ch_ext_on as int),
            int_field_model("ocfStatChOcf"@, self.stat_ch_ocf as int),
            int_field_model("ocfStatChExtOcf"@, self.stat_ch_ext_ocf as int),
        ]
    }

    /// Flatten this record for the wire.
    pub fn flatten(&self) -> (r: Vec<WireField>)
        ensures
            fields_model(r@) == self.spec_flatten(),
    {
        let mut r: Vec<WireField> = Vec::new();
        r.push(int_field("ocfStatChOn", self.stat_ch_on as i32));
        r.push(int_field("ocfStatChExtOn", self.stat_ch_ext_on as i32));
        r.push(int_field("ocfStatChOcf", self.stat_ch_ocf as i32));
        r.push(int_field("ocfStatChExtOcf", self.stat_ch_ext_ocf as i32));
        proof {
            assert(fields_model(r@) =~~= self.spec_flatten());
        }
        r
    }
}

/// The flattened overcurrent fault state carries exactly its four leaves, in
/// declaration order, each as a lossless integer widening.
pub proof fn lemma_flatten_over_current_lossless(s: OverCurrentFaultState)
    ensures
        s.spec_flatten().len() == s.spec_leaves().len(),
        forall|i: int|
            0 <= i < s.spec_leaves().len() ==> s.spec_flatten()[i].value is Int
                && wire_value_as_int(#[trigger] s.spec_flatten()[i].value) == s.spec_leaves()[i],
{
}

impl PduHk {
    /// Leaf values in declaration order, nested composites one level at a
    /// time.
    pub open spec fn spec_leaves(self) -> Seq<int> {
        seq![self.volt_brdsup as int, self.temp as int] + self.vip_input.spec_leaves() + seq![
            self.stat_ch_on as int,
            self.stat_ch_ocf as int,
        ]
    }

    /// Flattened wire projection, prefix `pdu`.
    pub open spec fn spec_flatten(self) -> Seq<WireFieldModel> {
        seq![
            int_field_model("pduVoltBrdsup"@, self.volt_brdsup as int),
            int_field_model("pduTemp"@, self.temp as int),
        ] + self.vip_input.spec_flatten("pduVipInput"@) + seq![
            int_field_model("pduStatChOn"@, self.stat_ch_on as int),
            int_field_model("pduStatChOcf"@, self.stat_ch_ocf as int),
        ]
    }

    /// Flatten this record for the wire.
    pub fn flatten(&self) -> (r: Vec<WireField>)
        ensures
            fields_model(r@) == self.spec_flatten(),
    {
        let mut r: Vec<WireField> = Vec::new();
        r.push(int_field("pduVoltBrdsup", self.volt_brdsup as i32));
        r.push(int_field("pduTemp", self.temp as i32));
        let mut vip = self.vip_input.flatten("pduVipInput");
        r.append(&mut vip);
        r.push(int_field("pduStatChOn", self.stat_ch_on as i32));
        r.push(int_field("pduStatChOcf", self.stat_ch_ocf as i32));
        proof {
            assert(fields_model(r@) =~~= self.spec_flatten());
        }
        r
    }
}

/// The flattened distribution-unit housekeeping carries exactly its seven
/// leaves, in declaration order, each as a lossless integer widening.
pub proof fn lemma_flatten_pdu_hk_lossless(h: PduHk)
    ensures
        h.spec_flatten().len() == h.spec_leaves().len(),
        forall|i: int|
            0 <= i < h.spec_leaves().len() ==> h.spec_flatten()[i].value is Int
                && wire_value_as_int(#[trigger] h.spec_flatten()[i].value) == h.spec_leaves()[i],
{
    assert(h.spec_flatten() =~~= seq![
        int_field_model("pduVoltBrdsup"@, h.volt_brdsup as int),
        int_field_model("pduTemp"@, h.temp as int),
        int_field_model("pduVipInput"@ + "Volt"@, h.vip_input.volt as int),
        int_field_model("pduVipInput"@ + "Curr"@, h.vip_input.curr as int),
        int_field_model("pduVipInput"@ + "Pow"@, h.vip_input.pow as int),
        int_field_model("pduStatChOn"@, h.stat_ch_on as int),
        int_field_model("pduStatChOcf"@, h.stat_ch_ocf as int),
    ]);
    assert(h.spec_leaves() =~~= seq![
        h.volt_brdsup as int,
        h.temp as int,
        h.vip_input.volt as int,
        h.vip_input.curr as int,
        h.vip_input.pow as int,
        h.stat_ch_on as int,
        h.stat_ch_ocf as int,
    ]);
}

impl PbuHk {
    /// Leaf values in declaration order, nested composites one level at a
    /// time.
    pub open spec fn spec_leaves(self) -> Seq<int> {
        seq![self.volt_brdsup as int, self.temp as int] + self.vip_input.spec_leaves() + seq![
            self.stat_bu as int,
        ]
    }

    /// Flattened wire projection, prefix `pbu`.
    pub open spec fn spec_flatten(self) -> Seq<WireFieldModel> {
        seq![
            int_field_model("pbuVoltBrdsup"@, self.volt_brdsup as int),
            int_field_model("pbuTemp"@, self.temp as int),
        ] + self.vip_input.spec_flatten("pbuVipInput"@) + seq![
            int_field_model("pbuStatBu"@, self.stat_bu as int),
        ]
    }

    /// Flatten this record for the wire.
    pub fn flatten(&self) -> (r: Vec<WireField>)
        ensures
            fields_model(r@) == self.spec_flatten(),
    {
        let mut r: Vec<WireField> = Vec::new();
        r.push(int_field("pbuVoltBrdsup", self.volt_brdsup as i32));
        r.push(int_field("pbuTemp", self.temp as i32));
        let mut vip = self.vip_input.flatten("pbuVipInput");
        r.append(&mut vip);
        r.push(int_field("pbuStatBu", self.stat_bu as i32));
        proof {
            assert(fields_model(r@) =~~= self.spec_flatten());
        }
        r
    }
}

/// The flattened battery-unit housekeeping carries exactly its six leaves,
/// in declaration order, each as a lossless integer widening.
pub proof fn lemma_flatten_pbu_hk_lossless(h: PbuHk)
    ensures
        h.spec_flatten().len() == h.spec_leaves().len(),
        forall|i: int|
            0 <= i < h.spec_leaves().len() ==> h.spec_flatten()[i].value is Int
                && wire_value_as_int(#[trigger] h.spec_flatten()[i].value) == h.spec_leaves()[i],
{
    assert(h.spec_flatten() =~~= seq![
        int_field_model("pbuVoltBrdsup"@, h.volt_brdsup as int),
        int_field_model("pbuTemp"@, h.temp as int),
        int_field_model("pbuVipInput"@ + "Volt"@, h.vip_input.volt as int),
        int_field_model("pbuVipInput"@ + "Curr"@, h.vip_input.curr as int),
        int_field_model("pbuVipInput"@ + "Pow"@, h.vip_input.pow as int),
        int_field_model("pbuStatBu"@, h.stat_bu as int),
    ]);
    assert(h.spec_leaves() =~~= seq![
        h.volt_brdsup as int,
        h.temp as int,
        h.vip_input.volt as int,
        h.vip_input.curr as int,
        h.vip_input.pow as int,
        h.stat_bu as int,
    ]);
}

impl PcuHk {
    /// Leaf values in declaration order, nested composites one level at a
    /// time.
    pub open spec fn spec_leaves(self) -> Seq<int> {
        seq![self.volt_brdsup as int, self.temp as int] + self.vip_output.spec_leaves()
    }

    /// Flattened wire projection, prefix `pcu`.
    pub open spec fn spec_flatten(self) -> Seq<WireFieldModel> {
        seq![
            int_field_model("pcuVoltBrdsup"@, self.volt_brdsup as int),
            int_field_model("pcuTemp"@, self.temp as int),
        ] + self.vip_output.spec_flatten("pcuVipOutput"@)
    }

    /// Flatten this record for the wire.
    pub fn flatten(&self) -> (r: Vec<WireField>)
        ensures
            fields_model(r@) == self.spec_flatten(),
    {
        let mut r: Vec<WireField> = Vec::new();
        r.push(int_field("pcuVoltBrdsup", self.volt_brdsup as i32));
        r.push(int_field("pcuTemp", self.temp as i32));
        let mut vip = self.vip_output.flatten("pcuVipOutput");
        r.append(&mut vip);
        proof {
            assert(fields_model(r@) =~~= self.spec_flatten());
        }
        r
    }
}

/// The flattened conditioning-unit housekeeping carries exactly its five
/// leaves, in declaration order, each as a lossless integer widening.
pub proof fn lemma_flatten_pcu_hk_lossless(h: PcuHk)
    ensures
        h.spec_flatten().len() == h.spec_leaves().len(),
        forall|i: int|
            0 <= i < h.spec_leaves().len() ==> h.spec_flatten()[i].value is Int
                && wire_value_as_int(#[trigger] h.spec_flatten()[i].value) == h.spec_leaves()[i],
{
    assert(h.spec_flatten() =~~= seq![
        int_field_model("pcuVoltBrdsup"@, h.volt_brdsup as int),
        int_field_model("pcuTemp"@, h.temp as int),
        int_field_model("pcuVipOutput"@ + "Volt"@, h.vip_output.volt as int),
        int_field_model("pcuVipOutput"@ + "Curr"@, h.vip_output.curr as int),
        int_field_model("pcuVipOutput"@ + "Pow"@, h.vip_output.pow as int),
    ]);
    assert(h.spec_leaves() =~~= seq![
        h.volt_brdsup as int,
        h.temp as int,
        h.vip_output.volt as int,
        h.vip_output.curr as int,
        h.vip_output.pow as int,
    ]);
}

impl PiuHk {
    /// Leaf values in declaration order, nested composites one level at a
    /// time.
    pub open spec fn spec_leaves(self) -> Seq<int> {
        seq![self.volt_brdsup as int, self.temp as int] + self.vip_dist_input.spec_leaves()
            + self.vip_batt_input.spec_leaves() + seq![
            self.stat_ch_on as int,
            self.stat_ch_ocf as int,
        ]
    }

    /// Flattened wire projection, prefix `piu`.
    pub open spec fn spec_flatten(self) -> Seq<WireFieldModel> {
        seq![
            int_field_model("piuVoltBrdsup"@, self.volt_brdsup as int),
            int_field_model("piuTemp"@, self.temp as int),
        ] + self.vip_dist_input.spec_flatten("piuVipDistInput"@)
            + self.vip_batt_input.spec_flatten("piuVipBattInput"@) + seq![
            int_field_model("piuStatChOn"@, self.stat_ch_on as int),
            int_field_model("piuStatChOcf"@, self.stat_ch_ocf as int),
        ]
    }

    /// Flatten this record for the wire.
    pub fn flatten(&self) -> (r: Vec<WireField>)
        ensures
            fields_model(r@) == self.spec_flatten(),
    {
        let mut r: Vec<WireField> = Vec::new();
        r.push(int_field("piuVoltBrdsup", self.volt_brdsup as i32));
        r.push(int_field("piuTemp", self.temp as i32));
        let mut dist = self.vip_dist_input.flatten("piuVipDistInput");
        r.append(&mut dist);
        let mut batt = self.vip_batt_input.flatten("piuVipBattInput");
        r.append(&mut batt);
        r.push(int_field("piuStatChOn", self.stat_ch_on as i32));
        r.push(int_field("piuStatChOcf", self.stat_ch_ocf as i32));
        proof {
            assert(fields_model(r@) =~~= self.spec_flatten());
        }
        r
    }
}

/// The flattened integration-unit housekeeping carries exactly its ten
/// leaves, in declaration order, each as a lossless integer widening.
pub proof fn lemma_flatten_piu_hk_lossless(h: PiuHk)
    ensures
        h.spec_flatten().len() == h.spec_leaves().len(),
        forall|i: int|
            0 <= i < h.spec_leaves().len() ==> h.spec_flatten()[i].value is Int
                && wire_value_as_int(#[trigger] h.spec_flatten()[i].value) == h.spec_leaves()[i],
{
    assert(h.spec_flatten() =~~= seq![
        int_field_model("piuVoltBrdsup"@, h.volt_brdsup as int),
        int_field_model("piuTemp"@, h.temp as int),
        int_field_model("piuVipDistInput"@ + "Volt"@, h.vip_dist_input.volt as int),
        int_field_model("piuVipDistInput"@ + "Curr"@, h.vip_dist_input.curr as int),
        int_field_model("piuVipDistInput"@ + "Pow"@, h.vip_dist_input.pow as int),
        int_field_model("piuVipBattInput"@ + "Volt"@, h.vip_batt_input.volt as int),
        int_field_model("piuVipBattInput"@ + "Curr"@, h.vip_batt_input.curr as int),
        int_field_model("piuVipBattInput"@ + "Pow"@, h.vip_batt_input.pow as int),
        int_field_model("piuStatChOn"@, h.stat_ch_on as int),
        int_field_model("piuStatChOcf"@, h.stat_ch_ocf as int),
    ]);
    assert(h.spec_leaves() =~~= seq![
        h.volt_brdsup as int,
        h.temp as int,
        h.vip_dist_input.volt as int,
        h.vip_dist_input.curr as int,
        h.vip_dist_input.pow as int,
        h.vip_batt_input.volt as int,
        h.vip_batt_input.curr as int,
        h.vip_batt_input.pow as int,
        h.stat_ch_on as int,
        h.stat_ch_ocf as int,
    ]);
}

/// True exactly when a raw anti-removal-fuse byte equals the placement
/// sentinel. This is the one boolean projection the translator declares: the
/// flag is derived from comparing the raw byte against a fixed sentinel
/// value rather than exposing the byte's bit pattern.
pub open spec fn spec_abf_placed(raw: u8) -> bool {
    raw == ABF_PLACED_SENTINEL
}

/// Boolean projection of the anti-removal-fuse placement byte.
pub fn abf_placed(raw: u8) -> (r: bool)
    ensures
        r == spec_abf_placed(raw),
{
    raw == ABF_PLACED_SENTINEL
}

/// Project a raw byte sequence onto the wire as one integer per byte, in
/// order. This is the pass-through projection for byte-sequence results with
/// no richer mapping.
pub fn bytes_to_wire(data: &Vec<u8>) -> (r: Vec<i32>)
    ensures
        r@.len() == data@.len(),
        forall|i: int| 0 <= i < data@.len() ==> r@[i] == data@[i] as i32,
{
    let mut r: Vec<i32> = Vec::new();
    let mut k: usize = 0;
    while k < data.len()
        invariant
            k <= data@.len(),
            r@.len() == k,
            forall|i: int| 0 <= i < k ==> r@[i] == data@[i] as i32,
        decreases data@.len() - k,
    {
        r.push(data[k] as i32);
        k = k + 1;
    }
    r
}

} // verus!
