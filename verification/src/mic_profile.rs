//! The microphone profile, and the values that the device takes from it.

use crate::bytes::{little_endian_u16, little_endian_u32, u16_bytes, u32_bytes};
use crate::command::{DisplayMode, DisplayModeComponents, GoXLRCommand, SingleBits};
use crate::device::follow::{
    eq_freq_key, eq_gain_key, get_eq_freq_key, get_eq_gain_key, get_mini_freq_key,
    get_mini_gain_key, mini_freq_key, mini_gain_key,
};
use crate::keys::{
    get_group_keys, group_keys, EffectGroup, EffectKey, EqFrequencies, MicrophoneParamKey,
    MiniEqFrequencies,
};
use crate::profile::ProfileAdapter;
use crate::single::{single_bits, single_of};
use crate::types::MicrophoneType;
use vstd::prelude::*;

verus! {

/// One value for every band of the ten band equaliser.
#[derive(Clone, Copy, Debug, PartialEq, Eq)]
pub struct EqMap<T> {
    pub hz_31: T,
    pub hz_63: T,
    pub hz_125: T,
    pub hz_250: T,
    pub hz_500: T,
    pub hz_1k: T,
    pub hz_2k: T,
    pub hz_4k: T,
    pub hz_8k: T,
    pub hz_16k: T,
}

impl<T> EqMap<T> {
    /// The value kept for a band.
    pub open spec fn at(self, band: EqFrequencies) -> T {
        match band {
            EqFrequencies::Equalizer31Hz => self.hz_31,
            EqFrequencies::Equalizer63Hz => self.hz_63,
            EqFrequencies::Equalizer125Hz => self.hz_125,
            EqFrequencies::Equalizer250Hz => self.hz_250,
            EqFrequencies::Equalizer500Hz => self.hz_500,
            EqFrequencies::Equalizer1KHz => self.hz_1k,
            EqFrequencies::Equalizer2KHz => self.hz_2k,
            EqFrequencies::Equalizer4KHz => self.hz_4k,
            EqFrequencies::Equalizer8KHz => self.hz_8k,
            EqFrequencies::Equalizer16KHz => self.hz_16k,
        }
    }

    /// This record with `value` kept for a band.
    pub open spec fn with(self, band: EqFrequencies, value: T) -> EqMap<T> {
        match band {
            EqFrequencies::Equalizer31Hz => EqMap { hz_31: value, ..self },
            EqFrequencies::Equalizer63Hz => EqMap { hz_63: value, ..self },
            EqFrequencies::Equalizer125Hz => EqMap { hz_125: value, ..self },
            EqFrequencies::Equalizer250Hz => EqMap { hz_250: value, ..self },
            EqFrequencies::Equalizer500Hz => EqMap { hz_500: value, ..self },
            EqFrequencies::Equalizer1KHz => EqMap { hz_1k: value, ..self },
            EqFrequencies::Equalizer2KHz => EqMap { hz_2k: value, ..self },
            EqFrequencies::Equalizer4KHz => EqMap { hz_4k: value, ..self },
            EqFrequencies::Equalizer8KHz => EqMap { hz_8k: value, ..self },
            EqFrequencies::Equalizer16KHz => EqMap { hz_16k: value, ..self },
        }
    }

    /// Borrows the value kept for a band.
    pub fn get(&self, band: EqFrequencies) -> (value: &T)
        ensures
            *value == self.at(band),
    {
        match band {
            EqFrequencies::Equalizer31Hz => &self.hz_31,
            EqFrequencies::Equalizer63Hz => &self.hz_63,
            EqFrequencies::Equalizer125Hz => &self.hz_125,
            EqFrequencies::Equalizer250Hz => &self.hz_250,
            EqFrequencies::Equalizer500Hz => &self.hz_500,
            EqFrequencies::Equalizer1KHz => &self.hz_1k,
            EqFrequencies::Equalizer2KHz => &self.hz_2k,
            EqFrequencies::Equalizer4KHz => &self.hz_4k,
            EqFrequencies::Equalizer8KHz => &self.hz_8k,
            EqFrequencies::Equalizer16KHz => &self.hz_16k,
        }
    }

    /// Replaces the value kept for a band.
    pub fn set(&mut self, band: EqFrequencies, value: T)
        ensures
            *final(self) == old(self).with(band, value),
    {
        match band {
            EqFrequencies::Equalizer31Hz => self.hz_31 = value,
            EqFrequencies::Equalizer63Hz => self.hz_63 = value,
            EqFrequencies::Equalizer125Hz => self.hz_125 = value,
            EqFrequencies::Equalizer250Hz => self.hz_250 = value,
            EqFrequencies::Equalizer500Hz => self.hz_500 = value,
            EqFrequencies::Equalizer1KHz => self.hz_1k = value,
            EqFrequencies::Equalizer2KHz => self.hz_2k = value,
            EqFrequencies::Equalizer4KHz => self.hz_4k = value,
            EqFrequencies::Equalizer8KHz => self.hz_8k = value,
            EqFrequencies::Equalizer16KHz => self.hz_16k = value,
        }
    }
}

/// One value for every band of the six band equaliser.
#[derive(Clone, Copy, Debug, PartialEq, Eq)]
pub struct MiniEqMap<T> {
    pub hz_90: T,
    pub hz_250: T,
    pub hz_500: T,
    pub hz_1k: T,
    pub hz_3k: T,
    pub hz_8k: T,
}

impl<T> MiniEqMap<T> {
    /// The value kept for a band.
    pub open spec fn at(self, band: MiniEqFrequencies) -> T {
        match band {
            MiniEqFrequencies::Equalizer90Hz => self.hz_90,
            MiniEqFrequencies::Equalizer250Hz => self.hz_250,
            MiniEqFrequencies::Equalizer500Hz => self.hz_500,
            MiniEqFrequencies::Equalizer1KHz => self.hz_1k,
            MiniEqFrequencies::Equalizer3KHz => self.hz_3k,
            MiniEqFrequencies::Equalizer8KHz => self.hz_8k,
        }
    }

    /// This record with `value` kept for a band.
    pub open spec fn with(self, band: MiniEqFrequencies, value: T) -> MiniEqMap<T> {
        match band {
            MiniEqFrequencies::Equalizer90Hz => MiniEqMap { hz_90: value, ..self },
            MiniEqFrequencies::Equalizer250Hz => MiniEqMap { hz_250: value, ..self },
            MiniEqFrequencies::Equalizer500Hz => MiniEqMap { hz_500: value, ..self },
            MiniEqFrequencies::Equalizer1KHz => MiniEqMap { hz_1k: value, ..self },
            MiniEqFrequencies::Equalizer3KHz => MiniEqMap { hz_3k: value, ..self },
            MiniEqFrequencies::Equalizer8KHz => MiniEqMap { hz_8k: value, ..self },
        }
    }

    /// Borrows the value kept for a band.
    pub fn get(&self, band: MiniEqFrequencies) -> (value: &T)
        ensures
            *value == self.at(band),
    {
        match band {
            MiniEqFrequencies::Equalizer90Hz => &self.hz_90,
            MiniEqFrequencies::Equalizer250Hz => &self.hz_250,
            MiniEqFrequencies::Equalizer500Hz => &self.hz_500,
            MiniEqFrequencies::Equalizer1KHz => &self.hz_1k,
            MiniEqFrequencies::Equalizer3KHz => &self.hz_3k,
            MiniEqFrequencies::Equalizer8KHz => &self.hz_8k,
        }
    }

    /// Replaces the value kept for a band.
    pub fn set(&mut self, band: MiniEqFrequencies, value: T)
        ensures
            *final(self) == old(self).with(band, value),
    {
        match band {
            MiniEqFrequencies::Equalizer90Hz => self.hz_90 = value,
            MiniEqFrequencies::Equalizer250Hz => self.hz_250 = value,
            MiniEqFrequencies::Equalizer500Hz => self.hz_500 = value,
            MiniEqFrequencies::Equalizer1KHz => self.hz_1k = value,
            MiniEqFrequencies::Equalizer3KHz => self.hz_3k = value,
            MiniEqFrequencies::Equalizer8KHz => self.hz_8k = value,
        }
    }
}

/// The noise gate. Times are places in the list of times that the device has.
#[derive(Clone, Copy, Debug, PartialEq, Eq)]
pub struct NoiseGate {
    pub threshold: i8,
    pub attack: u8,
    pub release: u8,
    pub enabled: bool,
    /// In percent.
    pub attenuation: u8,
    pub mode: u8,
}

/// The compressor. The ratio and the times are places in the lists that the device has.
#[derive(Clone, Copy, Debug, PartialEq, Eq)]
pub struct Compressor {
    pub threshold: i8,
    pub ratio: u8,
    pub attack: u8,
    pub release: u8,
    pub makeup: i8,
    pub select: u8,
}

/// The gain of each microphone input.
#[derive(Clone, Copy, Debug, PartialEq, Eq)]
pub struct MicGains {
    pub dynamic: u16,
    pub condenser: u16,
    pub jack: u16,
}

impl MicGains {
    /// The gains with that of an input replaced.
    pub open spec fn with(self, kind: MicrophoneType, gain: u16) -> MicGains {
        match kind {
            MicrophoneType::Dynamic => MicGains { dynamic: gain, ..self },
            MicrophoneType::Condenser => MicGains { condenser: gain, ..self },
            MicrophoneType::Jack => MicGains { jack: gain, ..self },
        }
    }
}

/// Whether the profile took what a command carries, or why it did not.
#[derive(Debug)]
pub struct StoreOutcome {
    /// What came of the value, or of the input where the command names one with its gain.
    pub set: Result<(), String>,
    /// What came of the gain that stands with an input.
    pub gain: Result<(), String>,
    /// The frequency that the command carries in the numbering of the device.
    pub step: i32,
}

/// The key under which a value is sent, where it was not refused.
pub open spec fn keyed<K>(outcome: Result<(), String>, key: K) -> Result<K, String> {
    match outcome {
        Ok(()) => Ok(key),
        Err(error) => Err(error),
    }
}

/// Which panels of the user interface are shown in full.
#[derive(Clone, Copy, Debug, PartialEq, Eq)]
pub struct DisplayFlags {
    pub gate_advanced: bool,
    pub comp_advanced: bool,
    pub eq_advanced: bool,
    pub eq_fine_tune: bool,
}

/// A microphone profile.
#[derive(Clone, Copy, Debug, PartialEq, Eq)]
pub struct MicProfileAdapter {
    pub mic_type_id: u8,
    pub gains: MicGains,
    pub gate: NoiseGate,
    pub compressor: Compressor,
    pub eq_gain: EqMap<i8>,
    pub eq_freq: EqMap<SingleBits>,
    /// The frequencies of the bands in the numbering of the device.
    pub eq_freq_steps: EqMap<i32>,
    pub mini_gain: MiniEqMap<i8>,
    pub mini_freq: MiniEqMap<SingleBits>,
    pub bleep: i8,
    pub deess: u8,
    pub displays: DisplayFlags,
}

/// The values of the reverb of the selected preset.
#[derive(Clone, Copy, Debug, PartialEq, Eq)]
pub struct ReverbValues {
    pub amount: i32,
    pub decay: i32,
    pub early_level: i32,
    pub predelay: i32,
    pub low_color: i32,
    pub high_color: i32,
    pub high_factor: i32,
    pub diffuse: i32,
    pub mod_speed: i32,
    pub mod_depth: i32,
    pub reverb_type: i32,
}

/// The values of the echo of the selected preset.
#[derive(Clone, Copy, Debug, PartialEq, Eq)]
pub struct EchoValues {
    pub amount: i32,
    pub feedback: i32,
    pub tempo: i32,
    pub delay_l: i32,
    pub delay_r: i32,
    pub feedback_l: i32,
    pub xfb_l_to_r: i32,
    pub feedback_r: i32,
    pub xfb_r_to_l: i32,
    pub source: i32,
    pub div_l: i32,
    pub div_r: i32,
    pub filter_style: i32,
}

/// The values of the pitch of the selected preset.
#[derive(Clone, Copy, Debug, PartialEq, Eq)]
pub struct PitchValues {
    pub amount: i32,
    pub threshold: i32,
    pub character: i32,
}

/// The values of the gender of the selected preset.
#[derive(Clone, Copy, Debug, PartialEq, Eq)]
pub struct GenderValues {
    pub amount: i32,
}

/// The values of the megaphone of the selected preset.
#[derive(Clone, Copy, Debug, PartialEq, Eq)]
pub struct MegaphoneValues {
    pub amount: i32,
    pub post_gain: i32,
    pub style: i32,
    pub hp: i32,
    pub lp: i32,
    pub pre_gain: i32,
    pub dist_type: i32,
    pub presence_gain: i32,
    pub presence_fc: i32,
    pub presence_bw: i32,
    pub beatbox_enable: i32,
    pub filter_control: i32,
    pub filter: i32,
    pub drive_pot_gain_comp_mid: i32,
    pub drive_pot_gain_comp_max: i32,
}

/// The values of the hard tune of the selected preset.
#[derive(Clone, Copy, Debug, PartialEq, Eq)]
pub struct HardTuneValues {
    pub amount: i32,
    pub scale: i32,
    pub pitch_amount: i32,
    pub rate: i32,
    pub window: i32,
}

/// The values of the robot of the selected preset.
#[derive(Clone, Copy, Debug, PartialEq, Eq)]
pub struct RobotValues {
    pub low_gain: i32,
    pub low_freq: i32,
    pub low_width: i32,
    pub mid_gain: i32,
    pub mid_freq: i32,
    pub mid_width: i32,
    pub hi_gain: i32,
    pub hi_freq: i32,
    pub hi_width: i32,
    pub waveform: i32,
    pub pulse_width: i32,
    pub threshold: i32,
    pub dry_mix: i32,
    pub style: i32,
}

/// The values of the voice effects of the selected preset.
#[derive(Clone, Copy, Debug, PartialEq, Eq)]
pub struct VoiceValues {
    pub reverb: ReverbValues,
    pub echo: EchoValues,
    pub pitch: PitchValues,
    pub gender: GenderValues,
    pub megaphone: MegaphoneValues,
    pub hard_tune: HardTuneValues,
    pub robot: RobotValues,
}

/// The times and ratios that the device has, in the order of their places.
#[derive(Debug)]
pub struct MicLists<T> {
    pub gate_times: Vec<T>,
    pub ratios: Vec<T>,
    pub attack_times: Vec<T>,
    pub release_times: Vec<T>,
}

impl<T> MicLists<T> {
    /// Whether the lists have every place that a profile names.
    pub open spec fn cover(self, profile: MicProfileAdapter) -> bool {
        &&& profile.gate.attack < self.gate_times@.len()
        &&& profile.gate.release < self.gate_times@.len()
        &&& profile.compressor.ratio < self.ratios@.len()
        &&& profile.compressor.attack < self.attack_times@.len()
        &&& profile.compressor.release < self.release_times@.len()
    }

    /// Finds whether the lists have every place that a profile names.
    pub fn covers(&self, profile: &MicProfileAdapter) -> (covers: bool)
        ensures
            covers == self.cover(*profile),
    {
        (profile.gate.attack as usize) < self.gate_times.len() && (profile.gate.release as usize)
            < self.gate_times.len() && (profile.compressor.ratio as usize) < self.ratios.len() && (
        profile.compressor.attack as usize) < self.attack_times.len() && (
        profile.compressor.release as usize) < self.release_times.len()
    }
}

/// What clients see of the noise gate.
#[derive(Clone, Copy, Debug, PartialEq, Eq)]
pub struct NoiseGateStatus<T> {
    pub threshold: i8,
    pub attack: T,
    pub release: T,
    pub enabled: bool,
    pub attenuation: u8,
}

/// What clients see of the compressor.
#[derive(Clone, Copy, Debug, PartialEq, Eq)]
pub struct CompressorStatus<T> {
    pub threshold: i8,
    pub ratio: T,
    pub attack: T,
    pub release: T,
    pub makeup_gain: i8,
}

/// What clients see of the ten band equaliser.
#[derive(Clone, Copy, Debug, PartialEq, Eq)]
pub struct EqualiserStatus {
    pub gain: EqMap<i8>,
    pub frequency: EqMap<SingleBits>,
}

/// What clients see of the six band equaliser.
#[derive(Clone, Copy, Debug, PartialEq, Eq)]
pub struct EqualiserMiniStatus {
    pub gain: MiniEqMap<i8>,
    pub frequency: MiniEqMap<SingleBits>,
}

/// The form in which a panel is shown.
pub open spec fn display_mode(advanced: bool) -> DisplayMode {
    if advanced {
        DisplayMode::Advanced
    } else {
        DisplayMode::Simple
    }
}

/// A flag as the device takes it.
pub open spec fn as_number(flag: bool) -> i32 {
    if flag {
        1
    } else {
        0
    }
}

/// Gives a flag as the device takes it.
fn flag(value: bool) -> (number: i32)
    ensures
        number == as_number(value),
{
    if value {
        1
    } else {
        0
    }
}

/// The attenuations that the noise gate can have, from the weakest to the strongest.
pub open spec fn attenuation_table() -> Seq<int> {
    seq![
        -6int, -7, -8, -9, -10, -11, -12, -13, -14, -15, -16, -17, -18, -19, -20, -21, -22, -23, -24,
        -25, -26, -27, -28, -30, -32, -61,
    ]
}

/// The attenuation for a percentage: the last of the table from a hundred on, and before that an
/// entry in proportion.
pub open spec fn attenuation(percent: u8) -> int {
    if percent > 99 {
        attenuation_table()[25]
    } else {
        attenuation_table()[percent * 24 / 100]
    }
}

/// Finds the attenuation for a percentage.
pub fn gate_attenuation_from_percent(percent: u8) -> (result: i8)
    ensures
        result == attenuation(percent),
{
    let table: [i8; 26] = [
        -6, -7, -8, -9, -10, -11, -12, -13, -14, -15, -16, -17, -18, -19, -20, -21, -22, -23, -24,
        -25, -26, -27, -28, -30, -32, -61,
    ];
    assert(forall|i: int| 0 <= i < 26 ==> #[trigger] table@[i] == attenuation_table()[i]);
    if percent > 99 {
        return table[25];
    }
    let index: usize = percent as usize * 24 / 100;
    table[index]
}

/// A stronger percentage never gives a weaker attenuation.
pub proof fn attenuation_monotonic(weaker: u8, stronger: u8)
    requires
        weaker <= stronger,
    ensures
        attenuation(stronger) <= attenuation(weaker),
{
    let (a, b) = (weaker * 24 / 100, stronger * 24 / 100);
    assert(attenuation_table().len() == 26);
    if stronger <= 99 {
        assert(a <= b <= 23);
        lemma_table_descends(a, b);
    } else if weaker <= 99 {
        lemma_table_descends(a, 25);
    }
}

/// The table only descends.
proof fn lemma_table_descends(i: int, j: int)
    requires
        0 <= i <= j < 26,
    ensures
        attenuation_table()[j] <= attenuation_table()[i],
    decreases j - i,
{
    if i < j {
        lemma_table_descends(i, j - 1);
        let table = attenuation_table();
        assert(table[j] <= table[j - 1]);
    }
}

impl MicProfileAdapter {
    /// The input that the microphone is plugged into. Numbers that stand for none mean the jack.
    pub open spec fn microphone(self) -> MicrophoneType {
        if self.mic_type_id == 0 {
            MicrophoneType::Dynamic
        } else if self.mic_type_id == 1 {
            MicrophoneType::Condenser
        } else {
            MicrophoneType::Jack
        }
    }

    /// Reads the input that the microphone is plugged into.
    pub fn mic_type(&self) -> (kind: MicrophoneType)
        ensures
            kind == self.microphone(),
    {
        match self.mic_type_id {
            0 => MicrophoneType::Dynamic,
            1 => MicrophoneType::Condenser,
            _ => MicrophoneType::Jack,
        }
    }

    /// Keeps the input that the microphone is plugged into. One that is refused is not kept.
    pub fn set_mic_type(&mut self, kind: MicrophoneType, outcome: Result<(), String>) -> (result: Result<
        (),
        String,
    >)
        ensures
            result == outcome,
            outcome is Ok ==> final(self).microphone() == kind,
            *final(self) == (if outcome is Ok {
                MicProfileAdapter { mic_type_id: type_id(kind), ..*old(self) }
            } else {
                *old(self)
            }),
    {
        if outcome.is_ok() {
            self.mic_type_id = match kind {
                MicrophoneType::Dynamic => 0,
                MicrophoneType::Condenser => 1,
                MicrophoneType::Jack => 2,
            };
        }
        outcome
    }

    /// Reads the gain of each input.
    pub fn mic_gains(&self) -> (gains: MicGains)
        ensures
            gains == self.gains,
    {
        self.gains
    }

    /// Finds what clients see of the noise gate. Each time is the one at its place in the list.
    pub fn noise_gate_ipc<T: Copy>(&self, lists: &MicLists<T>) -> (status: NoiseGateStatus<T>)
        requires
            lists.cover(*self),
        ensures
            status == (NoiseGateStatus {
                threshold: self.gate.threshold,
                attack: lists.gate_times@[self.gate.attack as int],
                release: lists.gate_times@[self.gate.release as int],
                enabled: self.gate.enabled,
                attenuation: self.gate.attenuation,
            }),
    {
        NoiseGateStatus {
            threshold: self.gate.threshold,
            attack: lists.gate_times[self.gate.attack as usize],
            release: lists.gate_times[self.gate.release as usize],
            enabled: self.gate.enabled,
            attenuation: self.gate.attenuation,
        }
    }

    /// Finds what clients see of the compressor. The ratio and each time are those at their places
    /// in the lists.
    pub fn compressor_ipc<T: Copy>(&self, lists: &MicLists<T>) -> (status: CompressorStatus<T>)
        requires
            lists.cover(*self),
        ensures
            status == (CompressorStatus {
                threshold: self.compressor.threshold,
                ratio: lists.ratios@[self.compressor.ratio as int],
                attack: lists.attack_times@[self.compressor.attack as int],
                release: lists.release_times@[self.compressor.release as int],
                makeup_gain: self.compressor.makeup,
            }),
    {
        CompressorStatus {
            threshold: self.compressor.threshold,
            ratio: lists.ratios[self.compressor.ratio as usize],
            attack: lists.attack_times[self.compressor.attack as usize],
            release: lists.release_times[self.compressor.release as usize],
            makeup_gain: self.compressor.makeup,
        }
    }

    /// Finds what clients see of the ten band equaliser.
    pub fn equalizer_ipc(&self) -> (status: EqualiserStatus)
        ensures
            status == (EqualiserStatus { gain: self.eq_gain, frequency: self.eq_freq }),
    {
        EqualiserStatus { gain: self.eq_gain, frequency: self.eq_freq }
    }

    /// Finds what clients see of the six band equaliser.
    pub fn equalizer_mini_ipc(&self) -> (status: EqualiserMiniStatus)
        ensures
            status == (EqualiserMiniStatus { gain: self.mini_gain, frequency: self.mini_freq }),
    {
        EqualiserMiniStatus { gain: self.mini_gain, frequency: self.mini_freq }
    }

    /// The gain of an input.
    pub open spec fn gain_of(self, kind: MicrophoneType) -> u16 {
        match kind {
            MicrophoneType::Dynamic => self.gains.dynamic,
            MicrophoneType::Condenser => self.gains.condenser,
            MicrophoneType::Jack => self.gains.jack,
        }
    }

    /// Reads the gain of an input.
    pub fn get_mic_gain(&self, kind: MicrophoneType) -> (gain: u16)
        ensures
            gain == self.gain_of(kind),
    {
        match kind {
            MicrophoneType::Dynamic => self.gains.dynamic,
            MicrophoneType::Condenser => self.gains.condenser,
            MicrophoneType::Jack => self.gains.jack,
        }
    }

    /// Sets the gain of an input. One that is refused is not kept.
    pub fn set_mic_gain(&mut self, kind: MicrophoneType, gain: u16, outcome: Result<(), String>) -> (result:
        Result<(), String>)
        ensures
            result == outcome,
            outcome is Ok ==> final(self).gain_of(kind) == gain,
            forall|other: MicrophoneType|
                other != kind ==> #[trigger] final(self).gain_of(other) == old(self).gain_of(other),
            *final(self) == (if outcome is Ok {
                MicProfileAdapter { gains: old(self).gains.with(kind, gain), ..*old(self) }
            } else {
                *old(self)
            }),
    {
        if outcome.is_ok() {
            match kind {
                MicrophoneType::Dynamic => self.gains.dynamic = gain,
                MicrophoneType::Condenser => self.gains.condenser = gain,
                MicrophoneType::Jack => self.gains.jack = gain,
            }
        }
        outcome
    }

    /// Reads the form in which the noise gate is shown.
    pub fn get_gate_display_mode(&self) -> (mode: DisplayMode)
        ensures
            mode == display_mode(self.displays.gate_advanced),
    {
        if self.displays.gate_advanced {
            DisplayMode::Advanced
        } else {
            DisplayMode::Simple
        }
    }

    /// Keeps the form in which the noise gate is shown.
    pub fn set_gate_display_mode(&mut self, mode: DisplayMode)
        ensures
            *final(self) == (MicProfileAdapter {
                displays: (DisplayFlags {
                    gate_advanced: mode != DisplayMode::Simple,
                    ..old(self).displays
                }),
                ..*old(self)
            }),
    {
        self.displays.gate_advanced = mode != DisplayMode::Simple;
    }

    /// Reads the form in which the compressor is shown.
    pub fn get_compressor_display_mode(&self) -> (mode: DisplayMode)
        ensures
            mode == display_mode(self.displays.comp_advanced),
    {
        if self.displays.comp_advanced {
            DisplayMode::Advanced
        } else {
            DisplayMode::Simple
        }
    }

    /// Keeps the form in which the compressor is shown.
    pub fn set_compressor_display_mode(&mut self, mode: DisplayMode)
        ensures
            *final(self) == (MicProfileAdapter {
                displays: (DisplayFlags {
                    comp_advanced: mode != DisplayMode::Simple,
                    ..old(self).displays
                }),
                ..*old(self)
            }),
    {
        self.displays.comp_advanced = mode != DisplayMode::Simple;
    }

    /// Reads the form in which the equaliser is shown.
    pub fn get_eq_display_mode(&self) -> (mode: DisplayMode)
        ensures
            mode == display_mode(self.displays.eq_advanced),
    {
        if self.displays.eq_advanced {
            DisplayMode::Advanced
        } else {
            DisplayMode::Simple
        }
    }

    /// Keeps the form in which the equaliser is shown.
    pub fn set_eq_display_mode(&mut self, mode: DisplayMode)
        ensures
            *final(self) == (MicProfileAdapter {
                displays: (DisplayFlags {
                    eq_advanced: mode != DisplayMode::Simple,
                    ..old(self).displays
                }),
                ..*old(self)
            }),
    {
        self.displays.eq_advanced = mode != DisplayMode::Simple;
    }

    /// Reads the form in which the equaliser frequencies is shown.
    pub fn get_eq_fine_display_mode(&self) -> (mode: DisplayMode)
        ensures
            mode == display_mode(self.displays.eq_fine_tune),
    {
        if self.displays.eq_fine_tune {
            DisplayMode::Advanced
        } else {
            DisplayMode::Simple
        }
    }

    /// Keeps the form in which the equaliser frequencies is shown.
    pub fn set_eq_fine_display_mode(&mut self, mode: DisplayMode)
        ensures
            *final(self) == (MicProfileAdapter {
                displays: (DisplayFlags {
                    eq_fine_tune: mode != DisplayMode::Simple,
                    ..old(self).displays
                }),
                ..*old(self)
            }),
    {
        self.displays.eq_fine_tune = mode != DisplayMode::Simple;
    }

    /// Reads the gain of a band.
    pub fn get_eq_gain(&self, band: EqFrequencies) -> (value: i8)
        ensures
            value == self.eq_gain.at(band),
    {
        *self.eq_gain.get(band)
    }

    /// Sets the gain of a band, and gives the key under which it is sent. One that is refused is not
    /// kept.
    pub fn set_eq_gain(&mut self, band: EqFrequencies, value: i8, outcome: Result<(), String>) -> (result:
        Result<EffectKey, String>)
        ensures
            result == keyed(outcome, eq_gain_key(band)),
            *final(self) == (if outcome is Ok {
                MicProfileAdapter { eq_gain: old(self).eq_gain.with(band, value), ..*old(self) }
            } else {
                *old(self)
            }),
    {
        match outcome {
            Ok(()) => {
                self.eq_gain.set(band, value);
                Ok(get_eq_gain_key(band))
            },
            Err(error) => Err(error),
        }
    }

    /// Reads the frequency of a band.
    pub fn get_eq_freq(&self, band: EqFrequencies) -> (value: SingleBits)
        ensures
            value == self.eq_freq.at(band),
    {
        *self.eq_freq.get(band)
    }

    /// Sets the frequency of a band, and gives the key under which it is sent. `step` is the frequency
    /// in the numbering of the device. One that is refused is not kept.
    pub fn set_eq_freq(
        &mut self,
        band: EqFrequencies,
        value: SingleBits,
        step: i32,
        outcome: Result<(), String>,
    ) -> (result: Result<EffectKey, String>)
        ensures
            result == keyed(outcome, eq_freq_key(band)),
            *final(self) == (if outcome is Ok {
                MicProfileAdapter {
                    eq_freq: old(self).eq_freq.with(band, value),
                    eq_freq_steps: old(self).eq_freq_steps.with(band, step),
                    ..*old(self)
                }
            } else {
                *old(self)
            }),
    {
        match outcome {
            Ok(()) => {
                self.eq_freq.set(band, value);
                self.eq_freq_steps.set(band, step);
                Ok(get_eq_freq_key(band))
            },
            Err(error) => Err(error),
        }
    }

    /// Reads the gain of a band.
    pub fn get_mini_eq_gain(&self, band: MiniEqFrequencies) -> (value: i8)
        ensures
            value == self.mini_gain.at(band),
    {
        *self.mini_gain.get(band)
    }

    /// Sets the gain of a band, and gives the key under which it is sent. One that is refused is not
    /// kept.
    pub fn set_mini_eq_gain(
        &mut self,
        band: MiniEqFrequencies,
        value: i8,
        outcome: Result<(), String>,
    ) -> (result: Result<MicrophoneParamKey, String>)
        ensures
            result == keyed(outcome, mini_gain_key(band)),
            *final(self) == (if outcome is Ok {
                MicProfileAdapter { mini_gain: old(self).mini_gain.with(band, value), ..*old(self) }
            } else {
                *old(self)
            }),
    {
        match outcome {
            Ok(()) => {
                self.mini_gain.set(band, value);
                Ok(get_mini_gain_key(band))
            },
            Err(error) => Err(error),
        }
    }

    /// Reads the frequency of a band.
    pub fn get_mini_eq_freq(&self, band: MiniEqFrequencies) -> (value: SingleBits)
        ensures
            value == self.mini_freq.at(band),
    {
        *self.mini_freq.get(band)
    }

    /// Sets the frequency of a band, and gives the key under which it is sent. One that is refused is
    /// not kept.
    pub fn set_mini_eq_freq(
        &mut self,
        band: MiniEqFrequencies,
        value: SingleBits,
        outcome: Result<(), String>,
    ) -> (result: Result<MicrophoneParamKey, String>)
        ensures
            result == keyed(outcome, mini_freq_key(band)),
            *final(self) == (if outcome is Ok {
                MicProfileAdapter { mini_freq: old(self).mini_freq.with(band, value), ..*old(self) }
            } else {
                *old(self)
            }),
    {
        match outcome {
            Ok(()) => {
                self.mini_freq.set(band, value);
                Ok(get_mini_freq_key(band))
            },
            Err(error) => Err(error),
        }
    }

    /// Sets the noise gate threshold. One that is refused is not kept.
    pub fn set_gate_threshold(&mut self, value: i8, outcome: Result<(), String>) -> (result: Result<(), String>)
        ensures
            result == outcome,
            *final(self) == (if outcome is Ok {
                MicProfileAdapter {
                    gate: (NoiseGate { threshold: value, ..old(self).gate }),
                    ..*old(self)
                }
            } else {
                *old(self)
            }),
    {
        if outcome.is_ok() {
            self.gate.threshold = value;
        }
        outcome
    }

    /// Sets the noise gate attenuation. One that is refused is not kept.
    pub fn set_gate_attenuation(&mut self, value: u8, outcome: Result<(), String>) -> (result: Result<(), String>)
        ensures
            result == outcome,
            *final(self) == (if outcome is Ok {
                MicProfileAdapter {
                    gate: (NoiseGate { attenuation: value, ..old(self).gate }),
                    ..*old(self)
                }
            } else {
                *old(self)
            }),
    {
        if outcome.is_ok() {
            self.gate.attenuation = value;
        }
        outcome
    }

    /// Sets the noise gate attack. One that is refused is not kept.
    pub fn set_gate_attack(&mut self, value: u8, outcome: Result<(), String>) -> (result: Result<(), String>)
        ensures
            result == outcome,
            *final(self) == (if outcome is Ok {
                MicProfileAdapter {
                    gate: (NoiseGate { attack: value, ..old(self).gate }),
                    ..*old(self)
                }
            } else {
                *old(self)
            }),
    {
        if outcome.is_ok() {
            self.gate.attack = value;
        }
        outcome
    }

    /// Sets the noise gate release. One that is refused is not kept.
    pub fn set_gate_release(&mut self, value: u8, outcome: Result<(), String>) -> (result: Result<(), String>)
        ensures
            result == outcome,
            *final(self) == (if outcome is Ok {
                MicProfileAdapter {
                    gate: (NoiseGate { release: value, ..old(self).gate }),
                    ..*old(self)
                }
            } else {
                *old(self)
            }),
    {
        if outcome.is_ok() {
            self.gate.release = value;
        }
        outcome
    }

    /// Sets the noise gate active. One that is refused is not kept.
    pub fn set_gate_active(&mut self, value: bool, outcome: Result<(), String>) -> (result: Result<(), String>)
        ensures
            result == outcome,
            *final(self) == (if outcome is Ok {
                MicProfileAdapter {
                    gate: (NoiseGate { enabled: value, ..old(self).gate }),
                    ..*old(self)
                }
            } else {
                *old(self)
            }),
    {
        if outcome.is_ok() {
            self.gate.enabled = value;
        }
        outcome
    }

    /// Sets the compressor threshold. One that is refused is not kept.
    pub fn set_compressor_threshold(&mut self, value: i8, outcome: Result<(), String>) -> (result: Result<(), String>)
        ensures
            result == outcome,
            *final(self) == (if outcome is Ok {
                MicProfileAdapter {
                    compressor: (Compressor { threshold: value, ..old(self).compressor }),
                    ..*old(self)
                }
            } else {
                *old(self)
            }),
    {
        if outcome.is_ok() {
            self.compressor.threshold = value;
        }
        outcome
    }

    /// Sets the compressor ratio. One that is refused is not kept.
    pub fn set_compressor_ratio(&mut self, value: u8, outcome: Result<(), String>) -> (result: Result<(), String>)
        ensures
            result == outcome,
            *final(self) == (if outcome is Ok {
                MicProfileAdapter {
                    compressor: (Compressor { ratio: value, ..old(self).compressor }),
                    ..*old(self)
                }
            } else {
                *old(self)
            }),
    {
        if outcome.is_ok() {
            self.compressor.ratio = value;
        }
        outcome
    }

    /// Sets the compressor attack. One that is refused is not kept.
    pub fn set_compressor_attack(&mut self, value: u8, outcome: Result<(), String>) -> (result: Result<(), String>)
        ensures
            result == outcome,
            *final(self) == (if outcome is Ok {
                MicProfileAdapter {
                    compressor: (Compressor { attack: value, ..old(self).compressor }),
                    ..*old(self)
                }
            } else {
                *old(self)
            }),
    {
        if outcome.is_ok() {
            self.compressor.attack = value;
        }
        outcome
    }

    /// Sets the compressor release. One that is refused is not kept.
    pub fn set_compressor_release(&mut self, value: u8, outcome: Result<(), String>) -> (result: Result<(), String>)
        ensures
            result == outcome,
            *final(self) == (if outcome is Ok {
                MicProfileAdapter {
                    compressor: (Compressor { release: value, ..old(self).compressor }),
                    ..*old(self)
                }
            } else {
                *old(self)
            }),
    {
        if outcome.is_ok() {
            self.compressor.release = value;
        }
        outcome
    }

    /// Sets the compressor makeup. One that is refused is not kept.
    pub fn set_compressor_makeup(&mut self, value: i8, outcome: Result<(), String>) -> (result: Result<(), String>)
        ensures
            result == outcome,
            *final(self) == (if outcome is Ok {
                MicProfileAdapter {
                    compressor: (Compressor { makeup: value, ..old(self).compressor }),
                    ..*old(self)
                }
            } else {
                *old(self)
            }),
    {
        if outcome.is_ok() {
            self.compressor.makeup = value;
        }
        outcome
    }

    /// Sets the deesser. One that is refused is not kept.
    pub fn set_deesser(&mut self, value: u8, outcome: Result<(), String>) -> (result: Result<(), String>)
        ensures
            result == outcome,
            *final(self) == (if outcome is Ok {
                MicProfileAdapter { deess: value, ..*old(self) }
            } else {
                *old(self)
            }),
    {
        if outcome.is_ok() {
            self.deess = value;
        }
        outcome
    }

    /// Sets the bleep level. One that is refused is not kept.
    pub fn set_bleep_level(&mut self, value: i8, outcome: Result<(), String>) -> (result: Result<(), String>)
        ensures
            result == outcome,
            *final(self) == (if outcome is Ok {
                MicProfileAdapter { bleep: value, ..*old(self) }
            } else {
                *old(self)
            }),
    {
        if outcome.is_ok() {
            self.bleep = value;
        }
        outcome
    }

    /// Reads the level of the swear button.
    pub fn bleep_level(&self) -> (level: i8)
        ensures
            level == self.bleep,
    {
        self.bleep
    }

    /// Reads the strength of the de-esser.
    pub fn get_deesser(&self) -> (value: u8)
        ensures
            value == self.deess,
    {
        self.deess
    }

    /// The value that the effect processor takes under a key.
    pub open spec fn effect_value(
        self,
        key: EffectKey,
        profile: ProfileAdapter,
        voice: VoiceValues,
    ) -> i32 {
        match key {
            EffectKey::DisableMic => 0,
            EffectKey::BleepLevel => self.bleep as i32,
            EffectKey::GateMode => self.gate.mode as i32,
            EffectKey::GateEnabled => 1,
            EffectKey::GateThreshold => self.gate.threshold as i32,
            EffectKey::GateAttenuation => attenuation(self.gate.attenuation) as i32,
            EffectKey::GateAttack => self.gate.attack as i32,
            EffectKey::GateRelease => self.gate.release as i32,
            EffectKey::MicCompSelect => self.compressor.select as i32,
            EffectKey::Equalizer31HzFrequency => self.eq_freq_steps.hz_31,
            EffectKey::Equalizer63HzFrequency => self.eq_freq_steps.hz_63,
            EffectKey::Equalizer125HzFrequency => self.eq_freq_steps.hz_125,
            EffectKey::Equalizer250HzFrequency => self.eq_freq_steps.hz_250,
            EffectKey::Equalizer500HzFrequency => self.eq_freq_steps.hz_500,
            EffectKey::Equalizer1KHzFrequency => self.eq_freq_steps.hz_1k,
            EffectKey::Equalizer2KHzFrequency => self.eq_freq_steps.hz_2k,
            EffectKey::Equalizer4KHzFrequency => self.eq_freq_steps.hz_4k,
            EffectKey::Equalizer8KHzFrequency => self.eq_freq_steps.hz_8k,
            EffectKey::Equalizer16KHzFrequency => self.eq_freq_steps.hz_16k,
            EffectKey::Equalizer31HzGain => self.eq_gain.hz_31 as i32,
            EffectKey::Equalizer63HzGain => self.eq_gain.hz_63 as i32,
            EffectKey::Equalizer125HzGain => self.eq_gain.hz_125 as i32,
            EffectKey::Equalizer250HzGain => self.eq_gain.hz_250 as i32,
            EffectKey::Equalizer500HzGain => self.eq_gain.hz_500 as i32,
            EffectKey::Equalizer1KHzGain => self.eq_gain.hz_1k as i32,
            EffectKey::Equalizer2KHzGain => self.eq_gain.hz_2k as i32,
            EffectKey::Equalizer4KHzGain => self.eq_gain.hz_4k as i32,
            EffectKey::Equalizer8KHzGain => self.eq_gain.hz_8k as i32,
            EffectKey::Equalizer16KHzGain => self.eq_gain.hz_16k as i32,
            EffectKey::CompressorThreshold => self.compressor.threshold as i32,
            EffectKey::CompressorRatio => self.compressor.ratio as i32,
            EffectKey::CompressorAttack => self.compressor.attack as i32,
            EffectKey::CompressorRelease => self.compressor.release as i32,
            EffectKey::CompressorMakeUpGain => self.compressor.makeup as i32,
            EffectKey::DeEsser => self.deess as i32,
            EffectKey::ReverbAmount => voice.reverb.amount,
            EffectKey::ReverbDecay => voice.reverb.decay,
            EffectKey::ReverbEarlyLevel => voice.reverb.early_level,
            EffectKey::ReverbTailLevel => 0,
            EffectKey::ReverbPredelay => voice.reverb.predelay,
            EffectKey::ReverbLowColor => voice.reverb.low_color,
            EffectKey::ReverbHighColor => voice.reverb.high_color,
            EffectKey::ReverbHighFactor => voice.reverb.high_factor,
            EffectKey::ReverbDiffuse => voice.reverb.diffuse,
            EffectKey::ReverbModSpeed => voice.reverb.mod_speed,
            EffectKey::ReverbModDepth => voice.reverb.mod_depth,
            EffectKey::ReverbType => voice.reverb.reverb_type,
            EffectKey::EchoAmount => voice.echo.amount,
            EffectKey::EchoFeedback => voice.echo.feedback,
            EffectKey::EchoTempo => voice.echo.tempo,
            EffectKey::EchoDelayL => voice.echo.delay_l,
            EffectKey::EchoDelayR => voice.echo.delay_r,
            EffectKey::EchoFeedbackL => voice.echo.feedback_l,
            EffectKey::EchoXFBLtoR => voice.echo.xfb_l_to_r,
            EffectKey::EchoFeedbackR => voice.echo.feedback_r,
            EffectKey::EchoXFBRtoL => voice.echo.xfb_r_to_l,
            EffectKey::EchoSource => voice.echo.source,
            EffectKey::EchoDivL => voice.echo.div_l,
            EffectKey::EchoDivR => voice.echo.div_r,
            EffectKey::EchoFilterStyle => voice.echo.filter_style,
            EffectKey::PitchAmount => voice.pitch.amount,
            EffectKey::PitchThreshold => voice.pitch.threshold,
            EffectKey::PitchCharacter => voice.pitch.character,
            EffectKey::GenderAmount => voice.gender.amount,
            EffectKey::MegaphoneAmount => voice.megaphone.amount,
            EffectKey::MegaphonePostGain => voice.megaphone.post_gain,
            EffectKey::MegaphoneStyle => voice.megaphone.style,
            EffectKey::MegaphoneHP => voice.megaphone.hp,
            EffectKey::MegaphoneLP => voice.megaphone.lp,
            EffectKey::MegaphonePreGain => voice.megaphone.pre_gain,
            EffectKey::MegaphoneDistType => voice.megaphone.dist_type,
            EffectKey::MegaphonePresenceGain => voice.megaphone.presence_gain,
            EffectKey::MegaphonePresenceFC => voice.megaphone.presence_fc,
            EffectKey::MegaphonePresenceBW => voice.megaphone.presence_bw,
            EffectKey::MegaphoneBeatboxEnable => voice.megaphone.beatbox_enable,
            EffectKey::MegaphoneFilterControl => voice.megaphone.filter_control,
            EffectKey::MegaphoneFilter => voice.megaphone.filter,
            EffectKey::MegaphoneDrivePotGainCompMid => voice.megaphone.drive_pot_gain_comp_mid,
            EffectKey::MegaphoneDrivePotGainCompMax => voice.megaphone.drive_pot_gain_comp_max,
            EffectKey::HardTuneAmount => voice.hard_tune.amount,
            EffectKey::HardTuneKeySource => 0,
            EffectKey::HardTuneScale => voice.hard_tune.scale,
            EffectKey::HardTunePitchAmount => voice.hard_tune.pitch_amount,
            EffectKey::HardTuneRate => voice.hard_tune.rate,
            EffectKey::HardTuneWindow => voice.hard_tune.window,
            EffectKey::RobotLowGain => voice.robot.low_gain,
            EffectKey::RobotLowFreq => voice.robot.low_freq,
            EffectKey::RobotLowWidth => voice.robot.low_width,
            EffectKey::RobotMidGain => voice.robot.mid_gain,
            EffectKey::RobotMidFreq => voice.robot.mid_freq,
            EffectKey::RobotMidWidth => voice.robot.mid_width,
            EffectKey::RobotHiGain => voice.robot.hi_gain,
            EffectKey::RobotHiFreq => voice.robot.hi_freq,
            EffectKey::RobotHiWidth => voice.robot.hi_width,
            EffectKey::RobotWaveform => voice.robot.waveform,
            EffectKey::RobotPulseWidth => voice.robot.pulse_width,
            EffectKey::RobotThreshold => voice.robot.threshold,
            EffectKey::RobotDryMix => voice.robot.dry_mix,
            EffectKey::RobotStyle => voice.robot.style,
            EffectKey::RobotEnabled => as_number(profile.effects.fx_on && profile.effects.robot_on),
            EffectKey::MegaphoneEnabled => as_number(profile.effects.fx_on && profile.effects.megaphone_on),
            EffectKey::HardTuneEnabled => as_number(profile.effects.fx_on && profile.effects.hardtune_on),
            EffectKey::Encoder1Enabled => as_number(profile.effects.fx_on),
            EffectKey::Encoder2Enabled => as_number(profile.effects.fx_on),
            EffectKey::Encoder3Enabled => as_number(profile.effects.fx_on),
            EffectKey::Encoder4Enabled => as_number(profile.effects.fx_on),
        }
    }

    /// Finds the value that the effect processor takes under a key. Hard tune takes its source from
    /// the routes, and the tail of the reverb is never used, so both are sent as nothing.
    pub fn get_effect_value(
        &self,
        key: EffectKey,
        profile: &ProfileAdapter,
        voice: &VoiceValues,
    ) -> (value: i32)
        ensures
            value == self.effect_value(key, *profile, *voice),
    {
        match key {
            EffectKey::DisableMic => 0,
            EffectKey::BleepLevel => self.bleep as i32,
            EffectKey::GateMode => self.gate.mode as i32,
            EffectKey::GateEnabled => 1,
            EffectKey::GateThreshold => self.gate.threshold as i32,
            EffectKey::GateAttenuation => gate_attenuation_from_percent(self.gate.attenuation) as i32,
            EffectKey::GateAttack => self.gate.attack as i32,
            EffectKey::GateRelease => self.gate.release as i32,
            EffectKey::MicCompSelect => self.compressor.select as i32,
            EffectKey::Equalizer31HzFrequency => self.eq_freq_steps.hz_31,
            EffectKey::Equalizer63HzFrequency => self.eq_freq_steps.hz_63,
            EffectKey::Equalizer125HzFrequency => self.eq_freq_steps.hz_125,
            EffectKey::Equalizer250HzFrequency => self.eq_freq_steps.hz_250,
            EffectKey::Equalizer500HzFrequency => self.eq_freq_steps.hz_500,
            EffectKey::Equalizer1KHzFrequency => self.eq_freq_steps.hz_1k,
            EffectKey::Equalizer2KHzFrequency => self.eq_freq_steps.hz_2k,
            EffectKey::Equalizer4KHzFrequency => self.eq_freq_steps.hz_4k,
            EffectKey::Equalizer8KHzFrequency => self.eq_freq_steps.hz_8k,
            EffectKey::Equalizer16KHzFrequency => self.eq_freq_steps.hz_16k,
            EffectKey::Equalizer31HzGain => self.eq_gain.hz_31 as i32,
            EffectKey::Equalizer63HzGain => self.eq_gain.hz_63 as i32,
            EffectKey::Equalizer125HzGain => self.eq_gain.hz_125 as i32,
            EffectKey::Equalizer250HzGain => self.eq_gain.hz_250 as i32,
            EffectKey::Equalizer500HzGain => self.eq_gain.hz_500 as i32,
            EffectKey::Equalizer1KHzGain => self.eq_gain.hz_1k as i32,
            EffectKey::Equalizer2KHzGain => self.eq_gain.hz_2k as i32,
            EffectKey::Equalizer4KHzGain => self.eq_gain.hz_4k as i32,
            EffectKey::Equalizer8KHzGain => self.eq_gain.hz_8k as i32,
            EffectKey::Equalizer16KHzGain => self.eq_gain.hz_16k as i32,
            EffectKey::CompressorThreshold => self.compressor.threshold as i32,
            EffectKey::CompressorRatio => self.compressor.ratio as i32,
            EffectKey::CompressorAttack => self.compressor.attack as i32,
            EffectKey::CompressorRelease => self.compressor.release as i32,
            EffectKey::CompressorMakeUpGain => self.compressor.makeup as i32,
            EffectKey::DeEsser => self.deess as i32,
            EffectKey::ReverbAmount => voice.reverb.amount,
            EffectKey::ReverbDecay => voice.reverb.decay,
            EffectKey::ReverbEarlyLevel => voice.reverb.early_level,
            EffectKey::ReverbTailLevel => 0,
            EffectKey::ReverbPredelay => voice.reverb.predelay,
            EffectKey::ReverbLowColor => voice.reverb.low_color,
            EffectKey::ReverbHighColor => voice.reverb.high_color,
            EffectKey::ReverbHighFactor => voice.reverb.high_factor,
            EffectKey::ReverbDiffuse => voice.reverb.diffuse,
            EffectKey::ReverbModSpeed => voice.reverb.mod_speed,
            EffectKey::ReverbModDepth => voice.reverb.mod_depth,
            EffectKey::ReverbType => voice.reverb.reverb_type,
            EffectKey::EchoAmount => voice.echo.amount,
            EffectKey::EchoFeedback => voice.echo.feedback,
            EffectKey::EchoTempo => voice.echo.tempo,
            EffectKey::EchoDelayL => voice.echo.delay_l,
            EffectKey::EchoDelayR => voice.echo.delay_r,
            EffectKey::EchoFeedbackL => voice.echo.feedback_l,
            EffectKey::EchoXFBLtoR => voice.echo.xfb_l_to_r,
            EffectKey::EchoFeedbackR => voice.echo.feedback_r,
            EffectKey::EchoXFBRtoL => voice.echo.xfb_r_to_l,
            EffectKey::EchoSource => voice.echo.source,
            EffectKey::EchoDivL => voice.echo.div_l,
            EffectKey::EchoDivR => voice.echo.div_r,
            EffectKey::EchoFilterStyle => voice.echo.filter_style,
            EffectKey::PitchAmount => voice.pitch.amount,
            EffectKey::PitchThreshold => voice.pitch.threshold,
            EffectKey::PitchCharacter => voice.pitch.character,
            EffectKey::GenderAmount => voice.gender.amount,
            EffectKey::MegaphoneAmount => voice.megaphone.amount,
            EffectKey::MegaphonePostGain => voice.megaphone.post_gain,
            EffectKey::MegaphoneStyle => voice.megaphone.style,
            EffectKey::MegaphoneHP => voice.megaphone.hp,
            EffectKey::MegaphoneLP => voice.megaphone.lp,
            EffectKey::MegaphonePreGain => voice.megaphone.pre_gain,
            EffectKey::MegaphoneDistType => voice.megaphone.dist_type,
            EffectKey::MegaphonePresenceGain => voice.megaphone.presence_gain,
            EffectKey::MegaphonePresenceFC => voice.megaphone.presence_fc,
            EffectKey::MegaphonePresenceBW => voice.megaphone.presence_bw,
            EffectKey::MegaphoneBeatboxEnable => voice.megaphone.beatbox_enable,
            EffectKey::MegaphoneFilterControl => voice.megaphone.filter_control,
            EffectKey::MegaphoneFilter => voice.megaphone.filter,
            EffectKey::MegaphoneDrivePotGainCompMid => voice.megaphone.drive_pot_gain_comp_mid,
            EffectKey::MegaphoneDrivePotGainCompMax => voice.megaphone.drive_pot_gain_comp_max,
            EffectKey::HardTuneAmount => voice.hard_tune.amount,
            EffectKey::HardTuneKeySource => 0,
            EffectKey::HardTuneScale => voice.hard_tune.scale,
            EffectKey::HardTunePitchAmount => voice.hard_tune.pitch_amount,
            EffectKey::HardTuneRate => voice.hard_tune.rate,
            EffectKey::HardTuneWindow => voice.hard_tune.window,
            EffectKey::RobotLowGain => voice.robot.low_gain,
            EffectKey::RobotLowFreq => voice.robot.low_freq,
            EffectKey::RobotLowWidth => voice.robot.low_width,
            EffectKey::RobotMidGain => voice.robot.mid_gain,
            EffectKey::RobotMidFreq => voice.robot.mid_freq,
            EffectKey::RobotMidWidth => voice.robot.mid_width,
            EffectKey::RobotHiGain => voice.robot.hi_gain,
            EffectKey::RobotHiFreq => voice.robot.hi_freq,
            EffectKey::RobotHiWidth => voice.robot.hi_width,
            EffectKey::RobotWaveform => voice.robot.waveform,
            EffectKey::RobotPulseWidth => voice.robot.pulse_width,
            EffectKey::RobotThreshold => voice.robot.threshold,
            EffectKey::RobotDryMix => voice.robot.dry_mix,
            EffectKey::RobotStyle => voice.robot.style,
            EffectKey::RobotEnabled => flag(profile.is_robot_enabled(false)),
            EffectKey::MegaphoneEnabled => flag(profile.is_megaphone_enabled(false)),
            EffectKey::HardTuneEnabled => flag(profile.is_hardtune_enabled(false)),
            EffectKey::Encoder1Enabled => flag(profile.is_fx_enabled()),
            EffectKey::Encoder2Enabled => flag(profile.is_fx_enabled()),
            EffectKey::Encoder3Enabled => flag(profile.is_fx_enabled()),
            EffectKey::Encoder4Enabled => flag(profile.is_fx_enabled()),
        }
    }

    /// The values of a group of keys, in the order in which they are sent.
    pub fn get_effect_values(
        &self,
        group: EffectGroup,
        profile: &ProfileAdapter,
        voice: &VoiceValues,
    ) -> (values: Vec<(EffectKey, i32)>)
        ensures
            values@.len() == group_keys(group).len(),
            forall|i: int|
                #![trigger values@[i]]
                0 <= i < values@.len() ==> values@[i] == (
                    group_keys(group)[i],
                    self.effect_value(group_keys(group)[i], *profile, *voice),
                ),
    {
        let keys = get_group_keys(group);
        let mut values: Vec<(EffectKey, i32)> = Vec::new();
        let mut i: usize = 0;
        while i < keys.len()
            invariant
                i <= keys.len(),
                keys@ == group_keys(group),
                values@.len() == i,
                forall|j: int|
                    #![trigger values@[j]]
                    0 <= j < i ==> values@[j] == (
                        keys@[j],
                        self.effect_value(keys@[j], *profile, *voice),
                    ),
            decreases keys.len() - i,
        {
            let value: i32 = self.get_effect_value(keys[i], profile, voice);
            values.push((keys[i], value));
            i = i + 1;
        }
        values
    }

    /// The four bytes that the preamplifier takes under a key: numbers in single precision, gains in
    /// the upper two bytes, and for the kind of microphone whether it needs phantom power.
    pub open spec fn param_value(self, key: MicrophoneParamKey) -> Seq<u8> {
        match key {
            MicrophoneParamKey::MicType => if self.microphone() == MicrophoneType::Condenser {
                seq![1u8, 0, 0, 0]
            } else {
                seq![0u8, 0, 0, 0]
            },
            MicrophoneParamKey::DynamicGain => gain_bytes(self.gains.dynamic),
            MicrophoneParamKey::CondenserGain => gain_bytes(self.gains.condenser),
            MicrophoneParamKey::JackGain => gain_bytes(self.gains.jack),
            MicrophoneParamKey::GateThreshold => number_bytes(self.gate.threshold as int),
            MicrophoneParamKey::GateAttack => number_bytes(self.gate.attack as int),
            MicrophoneParamKey::GateRelease => number_bytes(self.gate.release as int),
            MicrophoneParamKey::GateAttenuation => number_bytes(
                attenuation(self.gate.attenuation),
            ),
            MicrophoneParamKey::CompressorThreshold => number_bytes(
                self.compressor.threshold as int,
            ),
            MicrophoneParamKey::CompressorRatio => number_bytes(self.compressor.ratio as int),
            MicrophoneParamKey::CompressorAttack => number_bytes(self.compressor.attack as int),
            MicrophoneParamKey::CompressorRelease => number_bytes(self.compressor.release as int),
            MicrophoneParamKey::CompressorMakeUpGain => number_bytes(
                self.compressor.makeup as int,
            ),
            MicrophoneParamKey::BleepLevel => number_bytes(self.bleep * 65536),
            MicrophoneParamKey::Equalizer90HzFrequency => u32_bytes(self.mini_freq.hz_90.bits),
            MicrophoneParamKey::Equalizer90HzGain => number_bytes(self.mini_gain.hz_90 as int),
            MicrophoneParamKey::Equalizer250HzFrequency => u32_bytes(self.mini_freq.hz_250.bits),
            MicrophoneParamKey::Equalizer250HzGain => number_bytes(self.mini_gain.hz_250 as int),
            MicrophoneParamKey::Equalizer500HzFrequency => u32_bytes(self.mini_freq.hz_500.bits),
            MicrophoneParamKey::Equalizer500HzGain => number_bytes(self.mini_gain.hz_500 as int),
            MicrophoneParamKey::Equalizer1KHzFrequency => u32_bytes(self.mini_freq.hz_1k.bits),
            MicrophoneParamKey::Equalizer1KHzGain => number_bytes(self.mini_gain.hz_1k as int),
            MicrophoneParamKey::Equalizer3KHzFrequency => u32_bytes(self.mini_freq.hz_3k.bits),
            MicrophoneParamKey::Equalizer3KHzGain => number_bytes(self.mini_gain.hz_3k as int),
            MicrophoneParamKey::Equalizer8KHzFrequency => u32_bytes(self.mini_freq.hz_8k.bits),
            MicrophoneParamKey::Equalizer8KHzGain => number_bytes(self.mini_gain.hz_8k as int),
        }
    }

    /// Finds the four bytes that the preamplifier takes under a key.
    pub fn get_param_value(&self, key: MicrophoneParamKey) -> (value: [u8; 4])
        ensures
            value@ == self.param_value(key),
    {
        match key {
            MicrophoneParamKey::MicType => {
                if self.mic_type() == MicrophoneType::Condenser {
                    let value: [u8; 4] = [1, 0, 0, 0];
                    assert(value@ =~= seq![1u8, 0, 0, 0]);
                    value
                } else {
                    let value: [u8; 4] = [0, 0, 0, 0];
                    assert(value@ =~= seq![0u8, 0, 0, 0]);
                    value
                }
            },
            MicrophoneParamKey::DynamicGain => gain_value(self.gains.dynamic),
            MicrophoneParamKey::CondenserGain => gain_value(self.gains.condenser),
            MicrophoneParamKey::JackGain => gain_value(self.gains.jack),
            MicrophoneParamKey::GateThreshold => number_value(self.gate.threshold as i32),
            MicrophoneParamKey::GateAttack => number_value(self.gate.attack as i32),
            MicrophoneParamKey::GateRelease => number_value(self.gate.release as i32),
            MicrophoneParamKey::GateAttenuation => number_value(
                gate_attenuation_from_percent(self.gate.attenuation) as i32,
            ),
            MicrophoneParamKey::CompressorThreshold => number_value(
                self.compressor.threshold as i32,
            ),
            MicrophoneParamKey::CompressorRatio => number_value(self.compressor.ratio as i32),
            MicrophoneParamKey::CompressorAttack => number_value(self.compressor.attack as i32),
            MicrophoneParamKey::CompressorRelease => number_value(self.compressor.release as i32),
            MicrophoneParamKey::CompressorMakeUpGain => number_value(self.compressor.makeup as i32),
            MicrophoneParamKey::BleepLevel => number_value(self.bleep as i32 * 65536),
            MicrophoneParamKey::Equalizer90HzFrequency => little_endian_u32(self.mini_freq.hz_90.bits),
            MicrophoneParamKey::Equalizer90HzGain => number_value(self.mini_gain.hz_90 as i32),
            MicrophoneParamKey::Equalizer250HzFrequency => little_endian_u32(self.mini_freq.hz_250.bits),
            MicrophoneParamKey::Equalizer250HzGain => number_value(self.mini_gain.hz_250 as i32),
            MicrophoneParamKey::Equalizer500HzFrequency => little_endian_u32(self.mini_freq.hz_500.bits),
            MicrophoneParamKey::Equalizer500HzGain => number_value(self.mini_gain.hz_500 as i32),
            MicrophoneParamKey::Equalizer1KHzFrequency => little_endian_u32(self.mini_freq.hz_1k.bits),
            MicrophoneParamKey::Equalizer1KHzGain => number_value(self.mini_gain.hz_1k as i32),
            MicrophoneParamKey::Equalizer3KHzFrequency => little_endian_u32(self.mini_freq.hz_3k.bits),
            MicrophoneParamKey::Equalizer3KHzGain => number_value(self.mini_gain.hz_3k as i32),
            MicrophoneParamKey::Equalizer8KHzFrequency => little_endian_u32(self.mini_freq.hz_8k.bits),
            MicrophoneParamKey::Equalizer8KHzGain => number_value(self.mini_gain.hz_8k as i32),
        }
    }

    /// Whether a parameter is sent when the profile is loaded: all are, but for the gains of the
    /// inputs that are not in use.
    pub open spec fn is_loaded(self, key: MicrophoneParamKey) -> bool {
        match key {
            MicrophoneParamKey::DynamicGain => self.microphone() == MicrophoneType::Dynamic,
            MicrophoneParamKey::CondenserGain => self.microphone() == MicrophoneType::Condenser,
            MicrophoneParamKey::JackGain => self.microphone() == MicrophoneType::Jack,
            _ => true,
        }
    }

    /// The parameters that are sent when the profile is loaded, in their order.
    pub open spec fn loaded_params(self) -> Seq<MicrophoneParamKey> {
        MicrophoneParamKey::order().filter(|key: MicrophoneParamKey| self.is_loaded(key))
    }

    /// Finds whether a parameter is sent when the profile is loaded.
    fn is_param_loaded(&self, key: MicrophoneParamKey) -> (loaded: bool)
        ensures
            loaded == self.is_loaded(key),
    {
        match key {
            MicrophoneParamKey::DynamicGain => self.mic_type() == MicrophoneType::Dynamic,
            MicrophoneParamKey::CondenserGain => self.mic_type() == MicrophoneType::Condenser,
            MicrophoneParamKey::JackGain => self.mic_type() == MicrophoneType::Jack,
            _ => true,
        }
    }

    /// Finds the parameters that are sent when the profile is loaded, with their values.
    pub fn get_param_values(&self) -> (values: Vec<(MicrophoneParamKey, [u8; 4])>)
        ensures
            values@.len() == self.loaded_params().len(),
            forall|i: int|
                0 <= i < values@.len() ==> (#[trigger] values@[i]).0 == self.loaded_params()[i]
                    && values@[i].1@ == self.param_value(values@[i].0),
    {
        let ghost loaded = |key: MicrophoneParamKey| self.is_loaded(key);
        let all: Vec<MicrophoneParamKey> = MicrophoneParamKey::all();
        let mut values: Vec<(MicrophoneParamKey, [u8; 4])> = Vec::new();
        let mut i: usize = 0;
        proof {
            reveal(Seq::filter);
            assert(all@.take(0).filter(loaded) =~= Seq::<MicrophoneParamKey>::empty());
        }
        while i < all.len()
            invariant
                i <= all.len(),
                all@ == MicrophoneParamKey::order(),
                loaded == (|key: MicrophoneParamKey| self.is_loaded(key)),
                values@.len() == all@.take(i as int).filter(loaded).len(),
                forall|j: int|
                    0 <= j < values@.len() ==> (#[trigger] values@[j]).0 == all@.take(
                        i as int,
                    ).filter(loaded)[j] && values@[j].1@ == self.param_value(values@[j].0),
            decreases all.len() - i,
        {
            proof {
                reveal(Seq::filter);
                assert(all@.take(i + 1).drop_last() =~= all@.take(i as int));
                assert(all@.take(i + 1).last() == all@[i as int]);
            }
            if self.is_param_loaded(all[i]) {
                values.push((all[i], self.get_param_value(all[i])));
            }
            i = i + 1;
        }
        assert(all@.take(i as int) =~= all@);
        values
    }
}

/// A whole number in single precision, low byte first.
pub open spec fn number_bytes(value: int) -> Seq<u8> {
    u32_bytes(single_of(value))
}

/// A gain: two bytes of nothing, then the gain, low byte first.
pub open spec fn gain_bytes(gain: u16) -> Seq<u8> {
    seq![0u8, 0u8, u16_bytes(gain)[0], u16_bytes(gain)[1]]
}

/// Writes a whole number in single precision, low byte first.
fn number_value(value: i32) -> (bytes: [u8; 4])
    requires
        -0x1000000 < value < 0x1000000,
    ensures
        bytes@ == number_bytes(value as int),
{
    little_endian_u32(single_bits(value))
}

/// Writes a gain.
fn gain_value(gain: u16) -> (bytes: [u8; 4])
    ensures
        bytes@ == gain_bytes(gain),
{
    let pair = little_endian_u16(gain);
    let bytes: [u8; 4] = [0, 0, pair[0], pair[1]];
    assert(bytes@ =~= gain_bytes(gain));
    bytes
}

/// The number that a profile keeps for an input.
pub open spec fn type_id(kind: MicrophoneType) -> u8 {
    match kind {
        MicrophoneType::Dynamic => 0,
        MicrophoneType::Condenser => 1,
        MicrophoneType::Jack => 2,
    }
}

/// Whether a command changes the microphone profile.
pub open spec fn is_mic_command(command: &GoXLRCommand) -> bool {
    match command {
        GoXLRCommand::SetGateThreshold(_) => true,
        GoXLRCommand::SetGateAttenuation(_) => true,
        GoXLRCommand::SetGateAttack(_) => true,
        GoXLRCommand::SetGateRelease(_) => true,
        GoXLRCommand::SetGateActive(_) => true,
        GoXLRCommand::SetCompressorThreshold(_) => true,
        GoXLRCommand::SetCompressorRatio(_) => true,
        GoXLRCommand::SetCompressorAttack(_) => true,
        GoXLRCommand::SetCompressorReleaseTime(_) => true,
        GoXLRCommand::SetCompressorMakeupGain(_) => true,
        GoXLRCommand::SetDeeser(_) => true,
        GoXLRCommand::SetSwearButtonVolume(_) => true,
        GoXLRCommand::SetEqGain(_, _) => true,
        GoXLRCommand::SetEqFreq(_, _) => true,
        GoXLRCommand::SetEqMiniGain(_, _) => true,
        GoXLRCommand::SetEqMiniFreq(_, _) => true,
        GoXLRCommand::SetMicrophoneType(_) => true,
        GoXLRCommand::SetMicrophoneGain(_, _) => true,
        GoXLRCommand::SetElementDisplayMode(_, _) => true,
        _ => false,
    }
}

/// Whether the profile may refuse what a command about it carries. Any panel may be shown in either
/// form.
pub open spec fn may_be_refused(command: &GoXLRCommand) -> bool {
    is_mic_command(command) && !(command is SetElementDisplayMode)
}

/// What comes of storing a command: whether it is about the microphone, or why it was refused.
pub open spec fn stored_outcome(command: &GoXLRCommand, outcome: StoreOutcome) -> Result<bool, String> {
    if !may_be_refused(command) {
        Ok(is_mic_command(command))
    } else if outcome.set is Err {
        keyed(outcome.set, true)
    } else if command is SetMicrophoneGain {
        keyed(outcome.gain, true)
    } else {
        Ok(true)
    }
}

/// The outcome of a value, as that of a command.
fn as_stored(outcome: Result<(), String>) -> (stored: Result<bool, String>)
    ensures
        stored == keyed(outcome, true),
{
    match outcome {
        Ok(()) => Ok(true),
        Err(error) => Err(error),
    }
}

/// The outcome of a value that is sent under a key, as that of a command.
fn as_stored_key<K>(outcome: Result<K, String>) -> (stored: Result<bool, String>)
    ensures
        stored == (match outcome {
            Ok(_) => Ok::<bool, String>(true),
            Err(error) => Err(error),
        }),
{
    match outcome {
        Ok(_) => Ok(true),
        Err(error) => Err(error),
    }
}

impl MicProfileAdapter {
    /// The profile once a command was stored, or refused. An input stays where only the gain that
    /// stands with it was refused.
    pub open spec fn after_command(self, command: &GoXLRCommand, outcome: StoreOutcome) -> MicProfileAdapter {
        if may_be_refused(command) && outcome.set is Err {
            self
        } else if command is SetMicrophoneGain && outcome.gain is Err {
            MicProfileAdapter { mic_type_id: type_id(command->SetMicrophoneGain_0), ..self }
        } else {
            self.after_taken(command, outcome.step)
        }
    }

    /// The profile once a command was taken. `step` is the frequency that it carries in the numbering
    /// of the device.
    pub open spec fn after_taken(self, command: &GoXLRCommand, step: i32) -> MicProfileAdapter {
        match command {
            GoXLRCommand::SetGateThreshold(value) => MicProfileAdapter { gate: NoiseGate { threshold: *value, ..self.gate }, ..self },
            GoXLRCommand::SetGateAttenuation(value) => MicProfileAdapter { gate: NoiseGate { attenuation: *value, ..self.gate }, ..self },
            GoXLRCommand::SetGateAttack(value) => MicProfileAdapter { gate: NoiseGate { attack: *value, ..self.gate }, ..self },
            GoXLRCommand::SetGateRelease(value) => MicProfileAdapter { gate: NoiseGate { release: *value, ..self.gate }, ..self },
            GoXLRCommand::SetGateActive(value) => MicProfileAdapter { gate: NoiseGate { enabled: *value, ..self.gate }, ..self },
            GoXLRCommand::SetCompressorThreshold(value) => MicProfileAdapter { compressor: Compressor { threshold: *value, ..self.compressor }, ..self },
            GoXLRCommand::SetCompressorRatio(value) => MicProfileAdapter { compressor: Compressor { ratio: *value, ..self.compressor }, ..self },
            GoXLRCommand::SetCompressorAttack(value) => MicProfileAdapter { compressor: Compressor { attack: *value, ..self.compressor }, ..self },
            GoXLRCommand::SetCompressorReleaseTime(value) => MicProfileAdapter { compressor: Compressor { release: *value, ..self.compressor }, ..self },
            GoXLRCommand::SetCompressorMakeupGain(value) => MicProfileAdapter { compressor: Compressor { makeup: *value, ..self.compressor }, ..self },
            GoXLRCommand::SetDeeser(value) => MicProfileAdapter { deess: *value, ..self },
            GoXLRCommand::SetSwearButtonVolume(value) => MicProfileAdapter { bleep: *value, ..self },
            GoXLRCommand::SetEqGain(band, value) => MicProfileAdapter { eq_gain: self.eq_gain.with(*band, *value), ..self },
            GoXLRCommand::SetEqFreq(band, value) => MicProfileAdapter {
                eq_freq: self.eq_freq.with(*band, *value),
                eq_freq_steps: self.eq_freq_steps.with(*band, step),
                ..self
            },
            GoXLRCommand::SetEqMiniGain(band, value) => MicProfileAdapter { mini_gain: self.mini_gain.with(*band, *value), ..self },
            GoXLRCommand::SetEqMiniFreq(band, value) => MicProfileAdapter { mini_freq: self.mini_freq.with(*band, *value), ..self },
            GoXLRCommand::SetMicrophoneType(kind) => MicProfileAdapter { mic_type_id: type_id(*kind), ..self },
            GoXLRCommand::SetMicrophoneGain(kind, gain) => MicProfileAdapter {
                mic_type_id: type_id(*kind),
                gains: self.gains.with(*kind, *gain),
                ..self
            },
            GoXLRCommand::SetElementDisplayMode(component, mode) => MicProfileAdapter {
                displays: {
                    let advanced = mode != DisplayMode::Simple;
                    match component {
                        DisplayModeComponents::NoiseGate => DisplayFlags {
                            gate_advanced: advanced,
                            ..self.displays
                        },
                        DisplayModeComponents::Equaliser => DisplayFlags {
                            eq_advanced: advanced,
                            ..self.displays
                        },
                        DisplayModeComponents::Compressor => DisplayFlags {
                            comp_advanced: advanced,
                            ..self.displays
                        },
                        DisplayModeComponents::EqFineTune => DisplayFlags {
                            eq_fine_tune: advanced,
                            ..self.displays
                        },
                    }
                },
                ..self
            },
            _ => self,
        }
    }

    /// Writes what a command carries into the profile, where that took it. Says whether the command is
    /// about the microphone at all, or why it was refused.
    pub fn store(&mut self, command: &GoXLRCommand, outcome: StoreOutcome) -> (stored: Result<bool, String>)
        ensures
            stored == stored_outcome(command, outcome),
            *final(self) == old(self).after_command(command, outcome),
    {
        let StoreOutcome { set, gain, step } = outcome;
        match command {
            GoXLRCommand::SetGateThreshold(value) => as_stored(self.set_gate_threshold(*value, set)),
            GoXLRCommand::SetGateAttenuation(value) => as_stored(self.set_gate_attenuation(*value, set)),
            GoXLRCommand::SetGateAttack(value) => as_stored(self.set_gate_attack(*value, set)),
            GoXLRCommand::SetGateRelease(value) => as_stored(self.set_gate_release(*value, set)),
            GoXLRCommand::SetGateActive(value) => as_stored(self.set_gate_active(*value, set)),
            GoXLRCommand::SetCompressorThreshold(value) => as_stored(self.set_compressor_threshold(*value, set)),
            GoXLRCommand::SetCompressorRatio(value) => as_stored(self.set_compressor_ratio(*value, set)),
            GoXLRCommand::SetCompressorAttack(value) => as_stored(self.set_compressor_attack(*value, set)),
            GoXLRCommand::SetCompressorReleaseTime(value) => as_stored(self.set_compressor_release(*value, set)),
            GoXLRCommand::SetCompressorMakeupGain(value) => as_stored(self.set_compressor_makeup(*value, set)),
            GoXLRCommand::SetDeeser(value) => as_stored(self.set_deesser(*value, set)),
            GoXLRCommand::SetSwearButtonVolume(value) => as_stored(self.set_bleep_level(*value, set)),
            GoXLRCommand::SetMicrophoneType(kind) => as_stored(self.set_mic_type(*kind, set)),
            GoXLRCommand::SetEqGain(band, value) => as_stored_key(self.set_eq_gain(*band, *value, set)),
            GoXLRCommand::SetEqMiniGain(band, value) => as_stored_key(self.set_mini_eq_gain(*band, *value, set)),
            GoXLRCommand::SetEqMiniFreq(band, value) => as_stored_key(self.set_mini_eq_freq(*band, *value, set)),
            GoXLRCommand::SetEqFreq(band, value) => as_stored_key(
                self.set_eq_freq(*band, *value, step, set),
            ),
            GoXLRCommand::SetMicrophoneGain(kind, level) => {
                if let Err(error) = self.set_mic_type(*kind, set) {
                    return Err(error);
                }
                as_stored(self.set_mic_gain(*kind, *level, gain))
            },
            GoXLRCommand::SetElementDisplayMode(component, mode) => {
                match component {
                    DisplayModeComponents::NoiseGate => self.set_gate_display_mode(*mode),
                    DisplayModeComponents::Equaliser => self.set_eq_display_mode(*mode),
                    DisplayModeComponents::Compressor => self.set_compressor_display_mode(*mode),
                    DisplayModeComponents::EqFineTune => self.set_eq_fine_display_mode(*mode),
                }
                Ok(true)
            },
            _ => Ok(false),
        }
    }
}

/// A frequency that was set is what the device is sent: under the key that setting it gives, the
/// profile holds the frequency in the numbering of the device.
pub proof fn set_frequency_is_sent(
    profile: MicProfileAdapter,
    band: EqFrequencies,
    value: SingleBits,
    step: i32,
    main: ProfileAdapter,
    voice: VoiceValues,
)
    ensures
        profile.after_taken(&GoXLRCommand::SetEqFreq(band, value), step).effect_value(
            eq_freq_key(band),
            main,
            voice,
        ) == step,
{
}

/// A refused command leaves the profile as it is, unless it names an input with a gain and only the
/// gain is refused.
pub proof fn refused_commands_change_nothing(
    profile: MicProfileAdapter,
    command: &GoXLRCommand,
    outcome: StoreOutcome,
)
    requires
        stored_outcome(command, outcome) is Err,
        !(command is SetMicrophoneGain) || outcome.set is Err,
    ensures
        profile.after_command(command, outcome) == profile,
{
}

} // verus!
