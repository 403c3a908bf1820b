//! The keys under which the device takes voice settings, and the groups in which they are sent.

use ritelinked::LinkedHashSet;
use std::collections::hash_map::RandomState;
use vstd::prelude::*;

verus! {

/// A voice setting of the effect processor.
#[derive(Clone, Copy, Debug, PartialEq, Eq, Hash, Structural)]
pub enum EffectKey {
    DisableMic,
    BleepLevel,
    GateMode,
    GateEnabled,
    GateThreshold,
    GateAttenuation,
    GateAttack,
    GateRelease,
    MicCompSelect,
    Equalizer31HzFrequency,
    Equalizer63HzFrequency,
    Equalizer125HzFrequency,
    Equalizer250HzFrequency,
    Equalizer500HzFrequency,
    Equalizer1KHzFrequency,
    Equalizer2KHzFrequency,
    Equalizer4KHzFrequency,
    Equalizer8KHzFrequency,
    Equalizer16KHzFrequency,
    Equalizer31HzGain,
    Equalizer63HzGain,
    Equalizer125HzGain,
    Equalizer250HzGain,
    Equalizer500HzGain,
    Equalizer1KHzGain,
    Equalizer2KHzGain,
    Equalizer4KHzGain,
    Equalizer8KHzGain,
    Equalizer16KHzGain,
    CompressorThreshold,
    CompressorRatio,
    CompressorAttack,
    CompressorRelease,
    CompressorMakeUpGain,
    DeEsser,
    ReverbAmount,
    ReverbDecay,
    ReverbEarlyLevel,
    ReverbTailLevel,
    ReverbPredelay,
    ReverbLowColor,
    ReverbHighColor,
    ReverbHighFactor,
    ReverbDiffuse,
    ReverbModSpeed,
    ReverbModDepth,
    ReverbType,
    EchoAmount,
    EchoFeedback,
    EchoTempo,
    EchoDelayL,
    EchoDelayR,
    EchoFeedbackL,
    EchoXFBLtoR,
    EchoFeedbackR,
    EchoXFBRtoL,
    EchoSource,
    EchoDivL,
    EchoDivR,
    EchoFilterStyle,
    PitchAmount,
    PitchThreshold,
    PitchCharacter,
    GenderAmount,
    MegaphoneAmount,
    MegaphonePostGain,
    MegaphoneStyle,
    MegaphoneHP,
    MegaphoneLP,
    MegaphonePreGain,
    MegaphoneDistType,
    MegaphonePresenceGain,
    MegaphonePresenceFC,
    MegaphonePresenceBW,
    MegaphoneBeatboxEnable,
    MegaphoneFilterControl,
    MegaphoneFilter,
    MegaphoneDrivePotGainCompMid,
    MegaphoneDrivePotGainCompMax,
    HardTuneAmount,
    HardTuneKeySource,
    HardTuneScale,
    HardTunePitchAmount,
    HardTuneRate,
    HardTuneWindow,
    RobotLowGain,
    RobotLowFreq,
    RobotLowWidth,
    RobotMidGain,
    RobotMidFreq,
    RobotMidWidth,
    RobotHiGain,
    RobotHiFreq,
    RobotHiWidth,
    RobotWaveform,
    RobotPulseWidth,
    RobotThreshold,
    RobotDryMix,
    RobotStyle,
    RobotEnabled,
    MegaphoneEnabled,
    HardTuneEnabled,
    Encoder1Enabled,
    Encoder2Enabled,
    Encoder3Enabled,
    Encoder4Enabled,
}

impl EffectKey {
    /// The place of this key in the order of declaration.
    pub open spec fn index(self) -> int {
        match self {
            EffectKey::DisableMic => 0,
            EffectKey::BleepLevel => 1,
            EffectKey::GateMode => 2,
            EffectKey::GateEnabled => 3,
            EffectKey::GateThreshold => 4,
            EffectKey::GateAttenuation => 5,
            EffectKey::GateAttack => 6,
            EffectKey::GateRelease => 7,
            EffectKey::MicCompSelect => 8,
            EffectKey::Equalizer31HzFrequency => 9,
            EffectKey::Equalizer63HzFrequency => 10,
            EffectKey::Equalizer125HzFrequency => 11,
            EffectKey::Equalizer250HzFrequency => 12,
            EffectKey::Equalizer500HzFrequency => 13,
            EffectKey::Equalizer1KHzFrequency => 14,
            EffectKey::Equalizer2KHzFrequency => 15,
            EffectKey::Equalizer4KHzFrequency => 16,
            EffectKey::Equalizer8KHzFrequency => 17,
            EffectKey::Equalizer16KHzFrequency => 18,
            EffectKey::Equalizer31HzGain => 19,
            EffectKey::Equalizer63HzGain => 20,
            EffectKey::Equalizer125HzGain => 21,
            EffectKey::Equalizer250HzGain => 22,
            EffectKey::Equalizer500HzGain => 23,
            EffectKey::Equalizer1KHzGain => 24,
            EffectKey::Equalizer2KHzGain => 25,
            EffectKey::Equalizer4KHzGain => 26,
            EffectKey::Equalizer8KHzGain => 27,
            EffectKey::Equalizer16KHzGain => 28,
            EffectKey::CompressorThreshold => 29,
            EffectKey::CompressorRatio => 30,
            EffectKey::CompressorAttack => 31,
            EffectKey::CompressorRelease => 32,
            EffectKey::CompressorMakeUpGain => 33,
            EffectKey::DeEsser => 34,
            EffectKey::ReverbAmount => 35,
            EffectKey::ReverbDecay => 36,
            EffectKey::ReverbEarlyLevel => 37,
            EffectKey::ReverbTailLevel => 38,
            EffectKey::ReverbPredelay => 39,
            EffectKey::ReverbLowColor => 40,
            EffectKey::ReverbHighColor => 41,
            EffectKey::ReverbHighFactor => 42,
            EffectKey::ReverbDiffuse => 43,
            EffectKey::ReverbModSpeed => 44,
            EffectKey::ReverbModDepth => 45,
            EffectKey::ReverbType => 46,
            EffectKey::EchoAmount => 47,
            EffectKey::EchoFeedback => 48,
            EffectKey::EchoTempo => 49,
            EffectKey::EchoDelayL => 50,
            EffectKey::EchoDelayR => 51,
            EffectKey::EchoFeedbackL => 52,
            EffectKey::EchoXFBLtoR => 53,
            EffectKey::EchoFeedbackR => 54,
            EffectKey::EchoXFBRtoL => 55,
            EffectKey::EchoSource => 56,
            EffectKey::EchoDivL => 57,
            EffectKey::EchoDivR => 58,
            EffectKey::EchoFilterStyle => 59,
            EffectKey::PitchAmount => 60,
            EffectKey::PitchThreshold => 61,
            EffectKey::PitchCharacter => 62,
            EffectKey::GenderAmount => 63,
            EffectKey::MegaphoneAmount => 64,
            EffectKey::MegaphonePostGain => 65,
            EffectKey::MegaphoneStyle => 66,
            EffectKey::MegaphoneHP => 67,
            EffectKey::MegaphoneLP => 68,
            EffectKey::MegaphonePreGain => 69,
            EffectKey::MegaphoneDistType => 70,
            EffectKey::MegaphonePresenceGain => 71,
            EffectKey::MegaphonePresenceFC => 72,
            EffectKey::MegaphonePresenceBW => 73,
            EffectKey::MegaphoneBeatboxEnable => 74,
            EffectKey::MegaphoneFilterControl => 75,
            EffectKey::MegaphoneFilter => 76,
            EffectKey::MegaphoneDrivePotGainCompMid => 77,
            EffectKey::MegaphoneDrivePotGainCompMax => 78,
            EffectKey::HardTuneAmount => 79,
            EffectKey::HardTuneKeySource => 80,
            EffectKey::HardTuneScale => 81,
            EffectKey::HardTunePitchAmount => 82,
            EffectKey::HardTuneRate => 83,
            EffectKey::HardTuneWindow => 84,
            EffectKey::RobotLowGain => 85,
            EffectKey::RobotLowFreq => 86,
            EffectKey::RobotLowWidth => 87,
            EffectKey::RobotMidGain => 88,
            EffectKey::RobotMidFreq => 89,
            EffectKey::RobotMidWidth => 90,
            EffectKey::RobotHiGain => 91,
            EffectKey::RobotHiFreq => 92,
            EffectKey::RobotHiWidth => 93,
            EffectKey::RobotWaveform => 94,
            EffectKey::RobotPulseWidth => 95,
            EffectKey::RobotThreshold => 96,
            EffectKey::RobotDryMix => 97,
            EffectKey::RobotStyle => 98,
            EffectKey::RobotEnabled => 99,
            EffectKey::MegaphoneEnabled => 100,
            EffectKey::HardTuneEnabled => 101,
            EffectKey::Encoder1Enabled => 102,
            EffectKey::Encoder2Enabled => 103,
            EffectKey::Encoder3Enabled => 104,
            EffectKey::Encoder4Enabled => 105,
        }
    }

    /// Every key, in the order of declaration.
    pub open spec fn order() -> Seq<EffectKey> {
        seq![
            EffectKey::DisableMic,
            EffectKey::BleepLevel,
            EffectKey::GateMode,
            EffectKey::GateEnabled,
            EffectKey::GateThreshold,
            EffectKey::GateAttenuation,
            EffectKey::GateAttack,
            EffectKey::GateRelease,
            EffectKey::MicCompSelect,
            EffectKey::Equalizer31HzFrequency,
            EffectKey::Equalizer63HzFrequency,
            EffectKey::Equalizer125HzFrequency,
            EffectKey::Equalizer250HzFrequency,
            EffectKey::Equalizer500HzFrequency,
            EffectKey::Equalizer1KHzFrequency,
            EffectKey::Equalizer2KHzFrequency,
            EffectKey::Equalizer4KHzFrequency,
            EffectKey::Equalizer8KHzFrequency,
            EffectKey::Equalizer16KHzFrequency,
            EffectKey::Equalizer31HzGain,
            EffectKey::Equalizer63HzGain,
            EffectKey::Equalizer125HzGain,
            EffectKey::Equalizer250HzGain,
            EffectKey::Equalizer500HzGain,
            EffectKey::Equalizer1KHzGain,
            EffectKey::Equalizer2KHzGain,
            EffectKey::Equalizer4KHzGain,
            EffectKey::Equalizer8KHzGain,
            EffectKey::Equalizer16KHzGain,
            EffectKey::CompressorThreshold,
            EffectKey::CompressorRatio,
            EffectKey::CompressorAttack,
            EffectKey::CompressorRelease,
            EffectKey::CompressorMakeUpGain,
            EffectKey::DeEsser,
            EffectKey::ReverbAmount,
            EffectKey::ReverbDecay,
            EffectKey::ReverbEarlyLevel,
            EffectKey::ReverbTailLevel,
            EffectKey::ReverbPredelay,
            EffectKey::ReverbLowColor,
            EffectKey::ReverbHighColor,
            EffectKey::ReverbHighFactor,
            EffectKey::ReverbDiffuse,
            EffectKey::ReverbModSpeed,
            EffectKey::ReverbModDepth,
            EffectKey::ReverbType,
            EffectKey::EchoAmount,
            EffectKey::EchoFeedback,
            EffectKey::EchoTempo,
            EffectKey::EchoDelayL,
            EffectKey::EchoDelayR,
            EffectKey::EchoFeedbackL,
            EffectKey::EchoXFBLtoR,
            EffectKey::EchoFeedbackR,
            EffectKey::EchoXFBRtoL,
            EffectKey::EchoSource,
            EffectKey::EchoDivL,
            EffectKey::EchoDivR,
            EffectKey::EchoFilterStyle,
            EffectKey::PitchAmount,
            EffectKey::PitchThreshold,
            EffectKey::PitchCharacter,
            EffectKey::GenderAmount,
            EffectKey::MegaphoneAmount,
            EffectKey::MegaphonePostGain,
            EffectKey::MegaphoneStyle,
            EffectKey::MegaphoneHP,
            EffectKey::MegaphoneLP,
            EffectKey::MegaphonePreGain,
            EffectKey::MegaphoneDistType,
            EffectKey::MegaphonePresenceGain,
            EffectKey::MegaphonePresenceFC,
            EffectKey::MegaphonePresenceBW,
            EffectKey::MegaphoneBeatboxEnable,
            EffectKey::MegaphoneFilterControl,
            EffectKey::MegaphoneFilter,
            EffectKey::MegaphoneDrivePotGainCompMid,
            EffectKey::MegaphoneDrivePotGainCompMax,
            EffectKey::HardTuneAmount,
            EffectKey::HardTuneKeySource,
            EffectKey::HardTuneScale,
            EffectKey::HardTunePitchAmount,
            EffectKey::HardTuneRate,
            EffectKey::HardTuneWindow,
            EffectKey::RobotLowGain,
            EffectKey::RobotLowFreq,
            EffectKey::RobotLowWidth,
            EffectKey::RobotMidGain,
            EffectKey::RobotMidFreq,
            EffectKey::RobotMidWidth,
            EffectKey::RobotHiGain,
            EffectKey::RobotHiFreq,
            EffectKey::RobotHiWidth,
            EffectKey::RobotWaveform,
            EffectKey::RobotPulseWidth,
            EffectKey::RobotThreshold,
            EffectKey::RobotDryMix,
            EffectKey::RobotStyle,
            EffectKey::RobotEnabled,
            EffectKey::MegaphoneEnabled,
            EffectKey::HardTuneEnabled,
            EffectKey::Encoder1Enabled,
            EffectKey::Encoder2Enabled,
            EffectKey::Encoder3Enabled,
            EffectKey::Encoder4Enabled,
        ]
    }

    /// Gives the place of this key in the order of declaration.
    pub fn id(self) -> (id: u32)
        ensures
            id == self.index(),
            id < 106,
    {
        match self {
            EffectKey::DisableMic => 0,
            EffectKey::BleepLevel => 1,
            EffectKey::GateMode => 2,
            EffectKey::GateEnabled => 3,
            EffectKey::GateThreshold => 4,
            EffectKey::GateAttenuation => 5,
            EffectKey::GateAttack => 6,
            EffectKey::GateRelease => 7,
            EffectKey::MicCompSelect => 8,
            EffectKey::Equalizer31HzFrequency => 9,
            EffectKey::Equalizer63HzFrequency => 10,
            EffectKey::Equalizer125HzFrequency => 11,
            EffectKey::Equalizer250HzFrequency => 12,
            EffectKey::Equalizer500HzFrequency => 13,
            EffectKey::Equalizer1KHzFrequency => 14,
            EffectKey::Equalizer2KHzFrequency => 15,
            EffectKey::Equalizer4KHzFrequency => 16,
            EffectKey::Equalizer8KHzFrequency => 17,
            EffectKey::Equalizer16KHzFrequency => 18,
            EffectKey::Equalizer31HzGain => 19,
            EffectKey::Equalizer63HzGain => 20,
            EffectKey::Equalizer125HzGain => 21,
            EffectKey::Equalizer250HzGain => 22,
            EffectKey::Equalizer500HzGain => 23,
            EffectKey::Equalizer1KHzGain => 24,
            EffectKey::Equalizer2KHzGain => 25,
            EffectKey::Equalizer4KHzGain => 26,
            EffectKey::Equalizer8KHzGain => 27,
            EffectKey::Equalizer16KHzGain => 28,
            EffectKey::CompressorThreshold => 29,
            EffectKey::CompressorRatio => 30,
            EffectKey::CompressorAttack => 31,
            EffectKey::CompressorRelease => 32,
            EffectKey::CompressorMakeUpGain => 33,
            EffectKey::DeEsser => 34,
            EffectKey::ReverbAmount => 35,
            EffectKey::ReverbDecay => 36,
            EffectKey::ReverbEarlyLevel => 37,
            EffectKey::ReverbTailLevel => 38,
            EffectKey::ReverbPredelay => 39,
            EffectKey::ReverbLowColor => 40,
            EffectKey::ReverbHighColor => 41,
            EffectKey::ReverbHighFactor => 42,
            EffectKey::ReverbDiffuse => 43,
            EffectKey::ReverbModSpeed => 44,
            EffectKey::ReverbModDepth => 45,
            EffectKey::ReverbType => 46,
            EffectKey::EchoAmount => 47,
            EffectKey::EchoFeedback => 48,
            EffectKey::EchoTempo => 49,
            EffectKey::EchoDelayL => 50,
            EffectKey::EchoDelayR => 51,
            EffectKey::EchoFeedbackL => 52,
            EffectKey::EchoXFBLtoR => 53,
            EffectKey::EchoFeedbackR => 54,
            EffectKey::EchoXFBRtoL => 55,
            EffectKey::EchoSource => 56,
            EffectKey::EchoDivL => 57,
            EffectKey::EchoDivR => 58,
            EffectKey::EchoFilterStyle => 59,
            EffectKey::PitchAmount => 60,
            EffectKey::PitchThreshold => 61,
            EffectKey::PitchCharacter => 62,
            EffectKey::GenderAmount => 63,
            EffectKey::MegaphoneAmount => 64,
            EffectKey::MegaphonePostGain => 65,
            EffectKey::MegaphoneStyle => 66,
            EffectKey::MegaphoneHP => 67,
            EffectKey::MegaphoneLP => 68,
            EffectKey::MegaphonePreGain => 69,
            EffectKey::MegaphoneDistType => 70,
            EffectKey::MegaphonePresenceGain => 71,
            EffectKey::MegaphonePresenceFC => 72,
            EffectKey::MegaphonePresenceBW => 73,
            EffectKey::MegaphoneBeatboxEnable => 74,
            EffectKey::MegaphoneFilterControl => 75,
            EffectKey::MegaphoneFilter => 76,
            EffectKey::MegaphoneDrivePotGainCompMid => 77,
            EffectKey::MegaphoneDrivePotGainCompMax => 78,
            EffectKey::HardTuneAmount => 79,
            EffectKey::HardTuneKeySource => 80,
            EffectKey::HardTuneScale => 81,
            EffectKey::HardTunePitchAmount => 82,
            EffectKey::HardTuneRate => 83,
            EffectKey::HardTuneWindow => 84,
            EffectKey::RobotLowGain => 85,
            EffectKey::RobotLowFreq => 86,
            EffectKey::RobotLowWidth => 87,
            EffectKey::RobotMidGain => 88,
            EffectKey::RobotMidFreq => 89,
            EffectKey::RobotMidWidth => 90,
            EffectKey::RobotHiGain => 91,
            EffectKey::RobotHiFreq => 92,
            EffectKey::RobotHiWidth => 93,
            EffectKey::RobotWaveform => 94,
            EffectKey::RobotPulseWidth => 95,
            EffectKey::RobotThreshold => 96,
            EffectKey::RobotDryMix => 97,
            EffectKey::RobotStyle => 98,
            EffectKey::RobotEnabled => 99,
            EffectKey::MegaphoneEnabled => 100,
            EffectKey::HardTuneEnabled => 101,
            EffectKey::Encoder1Enabled => 102,
            EffectKey::Encoder2Enabled => 103,
            EffectKey::Encoder3Enabled => 104,
            EffectKey::Encoder4Enabled => 105,
        }
    }

    /// Lists every key once, in the order of declaration.
    pub fn all() -> (list: Vec<EffectKey>)
        ensures
            list@ == EffectKey::order(),
            list@.len() == 106,
            forall|v: EffectKey| 0 <= v.index() < 106 && #[trigger] list@[v.index()] == v,
    {
        let list: Vec<EffectKey> = vec![
            EffectKey::DisableMic,
            EffectKey::BleepLevel,
            EffectKey::GateMode,
            EffectKey::GateEnabled,
            EffectKey::GateThreshold,
            EffectKey::GateAttenuation,
            EffectKey::GateAttack,
            EffectKey::GateRelease,
            EffectKey::MicCompSelect,
            EffectKey::Equalizer31HzFrequency,
            EffectKey::Equalizer63HzFrequency,
            EffectKey::Equalizer125HzFrequency,
            EffectKey::Equalizer250HzFrequency,
            EffectKey::Equalizer500HzFrequency,
            EffectKey::Equalizer1KHzFrequency,
            EffectKey::Equalizer2KHzFrequency,
            EffectKey::Equalizer4KHzFrequency,
            EffectKey::Equalizer8KHzFrequency,
            EffectKey::Equalizer16KHzFrequency,
            EffectKey::Equalizer31HzGain,
            EffectKey::Equalizer63HzGain,
            EffectKey::Equalizer125HzGain,
            EffectKey::Equalizer250HzGain,
            EffectKey::Equalizer500HzGain,
            EffectKey::Equalizer1KHzGain,
            EffectKey::Equalizer2KHzGain,
            EffectKey::Equalizer4KHzGain,
            EffectKey::Equalizer8KHzGain,
            EffectKey::Equalizer16KHzGain,
            EffectKey::CompressorThreshold,
            EffectKey::CompressorRatio,
            EffectKey::CompressorAttack,
            EffectKey::CompressorRelease,
            EffectKey::CompressorMakeUpGain,
            EffectKey::DeEsser,
            EffectKey::ReverbAmount,
            EffectKey::ReverbDecay,
            EffectKey::ReverbEarlyLevel,
            EffectKey::ReverbTailLevel,
            EffectKey::ReverbPredelay,
            EffectKey::ReverbLowColor,
            EffectKey::ReverbHighColor,
            EffectKey::ReverbHighFactor,
            EffectKey::ReverbDiffuse,
            EffectKey::ReverbModSpeed,
            EffectKey::ReverbModDepth,
            EffectKey::ReverbType,
            EffectKey::EchoAmount,
            EffectKey::EchoFeedback,
            EffectKey::EchoTempo,
            EffectKey::EchoDelayL,
            EffectKey::EchoDelayR,
            EffectKey::EchoFeedbackL,
            EffectKey::EchoXFBLtoR,
            EffectKey::EchoFeedbackR,
            EffectKey::EchoXFBRtoL,
            EffectKey::EchoSource,
            EffectKey::EchoDivL,
            EffectKey::EchoDivR,
            EffectKey::EchoFilterStyle,
            EffectKey::PitchAmount,
            EffectKey::PitchThreshold,
            EffectKey::PitchCharacter,
            EffectKey::GenderAmount,
            EffectKey::MegaphoneAmount,
            EffectKey::MegaphonePostGain,
            EffectKey::MegaphoneStyle,
            EffectKey::MegaphoneHP,
            EffectKey::MegaphoneLP,
            EffectKey::MegaphonePreGain,
            EffectKey::MegaphoneDistType,
            EffectKey::MegaphonePresenceGain,
            EffectKey::MegaphonePresenceFC,
            EffectKey::MegaphonePresenceBW,
            EffectKey::MegaphoneBeatboxEnable,
            EffectKey::MegaphoneFilterControl,
            EffectKey::MegaphoneFilter,
            EffectKey::MegaphoneDrivePotGainCompMid,
            EffectKey::MegaphoneDrivePotGainCompMax,
            EffectKey::HardTuneAmount,
            EffectKey::HardTuneKeySource,
            EffectKey::HardTuneScale,
            EffectKey::HardTunePitchAmount,
            EffectKey::HardTuneRate,
            EffectKey::HardTuneWindow,
            EffectKey::RobotLowGain,
            EffectKey::RobotLowFreq,
            EffectKey::RobotLowWidth,
            EffectKey::RobotMidGain,
            EffectKey::RobotMidFreq,
            EffectKey::RobotMidWidth,
            EffectKey::RobotHiGain,
            EffectKey::RobotHiFreq,
            EffectKey::RobotHiWidth,
            EffectKey::RobotWaveform,
            EffectKey::RobotPulseWidth,
            EffectKey::RobotThreshold,
            EffectKey::RobotDryMix,
            EffectKey::RobotStyle,
            EffectKey::RobotEnabled,
            EffectKey::MegaphoneEnabled,
            EffectKey::HardTuneEnabled,
            EffectKey::Encoder1Enabled,
            EffectKey::Encoder2Enabled,
            EffectKey::Encoder3Enabled,
            EffectKey::Encoder4Enabled,
        ];
        assert(list@ =~= EffectKey::order());
        list
    }
}

/// A setting of the microphone preamplifier.
#[derive(Clone, Copy, Debug, PartialEq, Eq, Hash, Structural)]
pub enum MicrophoneParamKey {
    MicType,
    DynamicGain,
    CondenserGain,
    JackGain,
    GateThreshold,
    GateAttack,
    GateRelease,
    GateAttenuation,
    CompressorThreshold,
    CompressorRatio,
    CompressorAttack,
    CompressorRelease,
    CompressorMakeUpGain,
    BleepLevel,
    Equalizer90HzFrequency,
    Equalizer90HzGain,
    Equalizer250HzFrequency,
    Equalizer250HzGain,
    Equalizer500HzFrequency,
    Equalizer500HzGain,
    Equalizer1KHzFrequency,
    Equalizer1KHzGain,
    Equalizer3KHzFrequency,
    Equalizer3KHzGain,
    Equalizer8KHzFrequency,
    Equalizer8KHzGain,
}

impl MicrophoneParamKey {
    /// The place of this parameter in the order of declaration.
    pub open spec fn index(self) -> int {
        match self {
            MicrophoneParamKey::MicType => 0,
            MicrophoneParamKey::DynamicGain => 1,
            MicrophoneParamKey::CondenserGain => 2,
            MicrophoneParamKey::JackGain => 3,
            MicrophoneParamKey::GateThreshold => 4,
            MicrophoneParamKey::GateAttack => 5,
            MicrophoneParamKey::GateRelease => 6,
            MicrophoneParamKey::GateAttenuation => 7,
            MicrophoneParamKey::CompressorThreshold => 8,
            MicrophoneParamKey::CompressorRatio => 9,
            MicrophoneParamKey::CompressorAttack => 10,
            MicrophoneParamKey::CompressorRelease => 11,
            MicrophoneParamKey::CompressorMakeUpGain => 12,
            MicrophoneParamKey::BleepLevel => 13,
            MicrophoneParamKey::Equalizer90HzFrequency => 14,
            MicrophoneParamKey::Equalizer90HzGain => 15,
            MicrophoneParamKey::Equalizer250HzFrequency => 16,
            MicrophoneParamKey::Equalizer250HzGain => 17,
            MicrophoneParamKey::Equalizer500HzFrequency => 18,
            MicrophoneParamKey::Equalizer500HzGain => 19,
            MicrophoneParamKey::Equalizer1KHzFrequency => 20,
            MicrophoneParamKey::Equalizer1KHzGain => 21,
            MicrophoneParamKey::Equalizer3KHzFrequency => 22,
            MicrophoneParamKey::Equalizer3KHzGain => 23,
            MicrophoneParamKey::Equalizer8KHzFrequency => 24,
            MicrophoneParamKey::Equalizer8KHzGain => 25,
        }
    }

    /// Every parameter, in the order of declaration.
    pub open spec fn order() -> Seq<MicrophoneParamKey> {
        seq![
            MicrophoneParamKey::MicType,
            MicrophoneParamKey::DynamicGain,
            MicrophoneParamKey::CondenserGain,
            MicrophoneParamKey::JackGain,
            MicrophoneParamKey::GateThreshold,
            MicrophoneParamKey::GateAttack,
            MicrophoneParamKey::GateRelease,
            MicrophoneParamKey::GateAttenuation,
            MicrophoneParamKey::CompressorThreshold,
            MicrophoneParamKey::CompressorRatio,
            MicrophoneParamKey::CompressorAttack,
            MicrophoneParamKey::CompressorRelease,
            MicrophoneParamKey::CompressorMakeUpGain,
            MicrophoneParamKey::BleepLevel,
            MicrophoneParamKey::Equalizer90HzFrequency,
            MicrophoneParamKey::Equalizer90HzGain,
            MicrophoneParamKey::Equalizer250HzFrequency,
            MicrophoneParamKey::Equalizer250HzGain,
            MicrophoneParamKey::Equalizer500HzFrequency,
            MicrophoneParamKey::Equalizer500HzGain,
            MicrophoneParamKey::Equalizer1KHzFrequency,
            MicrophoneParamKey::Equalizer1KHzGain,
            MicrophoneParamKey::Equalizer3KHzFrequency,
            MicrophoneParamKey::Equalizer3KHzGain,
            MicrophoneParamKey::Equalizer8KHzFrequency,
            MicrophoneParamKey::Equalizer8KHzGain,
        ]
    }

    /// Gives the place of this parameter in the order of declaration.
    pub fn id(self) -> (id: u32)
        ensures
            id == self.index(),
            id < 26,
    {
        match self {
            MicrophoneParamKey::MicType => 0,
            MicrophoneParamKey::DynamicGain => 1,
            MicrophoneParamKey::CondenserGain => 2,
            MicrophoneParamKey::JackGain => 3,
            MicrophoneParamKey::GateThreshold => 4,
            MicrophoneParamKey::GateAttack => 5,
            MicrophoneParamKey::GateRelease => 6,
            MicrophoneParamKey::GateAttenuation => 7,
            MicrophoneParamKey::CompressorThreshold => 8,
            MicrophoneParamKey::CompressorRatio => 9,
            MicrophoneParamKey::CompressorAttack => 10,
            MicrophoneParamKey::CompressorRelease => 11,
            MicrophoneParamKey::CompressorMakeUpGain => 12,
            MicrophoneParamKey::BleepLevel => 13,
            MicrophoneParamKey::Equalizer90HzFrequency => 14,
            MicrophoneParamKey::Equalizer90HzGain => 15,
            MicrophoneParamKey::Equalizer250HzFrequency => 16,
            MicrophoneParamKey::Equalizer250HzGain => 17,
            MicrophoneParamKey::Equalizer500HzFrequency => 18,
            MicrophoneParamKey::Equalizer500HzGain => 19,
            MicrophoneParamKey::Equalizer1KHzFrequency => 20,
            MicrophoneParamKey::Equalizer1KHzGain => 21,
            MicrophoneParamKey::Equalizer3KHzFrequency => 22,
            MicrophoneParamKey::Equalizer3KHzGain => 23,
            MicrophoneParamKey::Equalizer8KHzFrequency => 24,
            MicrophoneParamKey::Equalizer8KHzGain => 25,
        }
    }

    /// Lists every parameter once, in the order of declaration.
    pub fn all() -> (list: Vec<MicrophoneParamKey>)
        ensures
            list@ == MicrophoneParamKey::order(),
            list@.len() == 26,
            forall|v: MicrophoneParamKey| 0 <= v.index() < 26 && #[trigger] list@[v.index()] == v,
    {
        let list: Vec<MicrophoneParamKey> = vec![
            MicrophoneParamKey::MicType,
            MicrophoneParamKey::DynamicGain,
            MicrophoneParamKey::CondenserGain,
            MicrophoneParamKey::JackGain,
            MicrophoneParamKey::GateThreshold,
            MicrophoneParamKey::GateAttack,
            MicrophoneParamKey::GateRelease,
            MicrophoneParamKey::GateAttenuation,
            MicrophoneParamKey::CompressorThreshold,
            MicrophoneParamKey::CompressorRatio,
            MicrophoneParamKey::CompressorAttack,
            MicrophoneParamKey::CompressorRelease,
            MicrophoneParamKey::CompressorMakeUpGain,
            MicrophoneParamKey::BleepLevel,
            MicrophoneParamKey::Equalizer90HzFrequency,
            MicrophoneParamKey::Equalizer90HzGain,
            MicrophoneParamKey::Equalizer250HzFrequency,
            MicrophoneParamKey::Equalizer250HzGain,
            MicrophoneParamKey::Equalizer500HzFrequency,
            MicrophoneParamKey::Equalizer500HzGain,
            MicrophoneParamKey::Equalizer1KHzFrequency,
            MicrophoneParamKey::Equalizer1KHzGain,
            MicrophoneParamKey::Equalizer3KHzFrequency,
            MicrophoneParamKey::Equalizer3KHzGain,
            MicrophoneParamKey::Equalizer8KHzFrequency,
            MicrophoneParamKey::Equalizer8KHzGain,
        ];
        assert(list@ =~= MicrophoneParamKey::order());
        list
    }
}

/// A band of the ten band equaliser.
#[derive(Clone, Copy, Debug, PartialEq, Eq, Hash, Structural)]
pub enum EqFrequencies {
    Equalizer31Hz,
    Equalizer63Hz,
    Equalizer125Hz,
    Equalizer250Hz,
    Equalizer500Hz,
    Equalizer1KHz,
    Equalizer2KHz,
    Equalizer4KHz,
    Equalizer8KHz,
    Equalizer16KHz,
}

/// A band of the six band equaliser.
#[derive(Clone, Copy, Debug, PartialEq, Eq, Hash, Structural)]
pub enum MiniEqFrequencies {
    Equalizer90Hz,
    Equalizer250Hz,
    Equalizer500Hz,
    Equalizer1KHz,
    Equalizer3KHz,
    Equalizer8KHz,
}

/// A set of effect keys that is sent to the device together.
#[derive(Clone, Copy, Debug, PartialEq, Eq, Hash, Structural)]
pub enum EffectGroup {
    /// One key alone.
    Key(EffectKey),
    Reverb,
    Echo,
    Pitch,
    Gender,
    Megaphone,
    Robot,
    HardTune,
    /// The keys that switch effects on and off.
    Switches,
    /// The keys that every model knows.
    Common,
    /// The keys that only the full sized model knows.
    Full,
}

/// A set that remembers the order in which its items were inserted.
#[verifier::external_type_specification]
#[verifier::external_body]
#[verifier::reject_recursive_types(T)]
#[verifier::reject_recursive_types(S)]
pub struct ExLinkedHashSet<T, S>(ritelinked::LinkedHashSet<T, S>);

/// The items of a set of numbers, from the front to the back of its list.
pub uninterp spec fn numbers_in(set: LinkedHashSet<u32, RandomState>) -> Seq<u32>;

/// `LinkedHashSet::with_hasher` gives an empty set.
#[verifier::external_body]
fn new_set() -> (set: LinkedHashSet<u32, RandomState>)
    ensures
        numbers_in(set) == Seq::<u32>::empty(),
{
    LinkedHashSet::with_hasher(RandomState::new())
}

/// `LinkedHashSet::insert` puts an item at the back of the list. An item that was there before
/// leaves its old place.
#[verifier::external_body]
fn insert_number(set: &mut LinkedHashSet<u32, RandomState>, number: u32) -> (inserted: bool)
    ensures
        inserted == !numbers_in(*old(set)).contains(number),
        numbers_in(*final(set)) == numbers_in(*old(set)).filter(|other: u32| other != number).push(
            number,
        ),
{
    set.insert(number)
}

/// `LinkedHashSet::pop_front` takes the item at the front of the list, if there is one.
#[verifier::external_body]
fn pop_number(set: &mut LinkedHashSet<u32, RandomState>) -> (number: Option<u32>)
    ensures
        match number {
            Some(number) => numbers_in(*old(set)).len() > 0 && number == numbers_in(*old(set))[0]
                && numbers_in(*final(set)) == numbers_in(*old(set)).skip(1),
            None => numbers_in(*old(set)).len() == 0 && numbers_in(*final(set)).len() == 0,
        },
{
    set.pop_front()
}

/// The numbers of a list of keys.
pub open spec fn key_ids(keys: Seq<EffectKey>) -> Seq<u32> {
    keys.map_values(|key: EffectKey| key.index() as u32)
}

/// Distinct keys, in the order in which they are sent.
pub struct KeySet {
    set: LinkedHashSet<u32, RandomState>,
}

impl View for KeySet {
    type V = Seq<u32>;

    closed spec fn view(&self) -> Seq<u32> {
        numbers_in(self.set)
    }
}

impl KeySet {
    /// Collects keys that are all different.
    pub fn of(keys: &Vec<EffectKey>) -> (set: KeySet)
        requires
            keys@.no_duplicates(),
        ensures
            set@ == key_ids(keys@),
    {
        let mut set = new_set();
        let mut i: usize = 0;
        assert(key_ids(keys@.take(0)) =~= Seq::<u32>::empty());
        while i < keys.len()
            invariant
                i <= keys.len(),
                keys@.no_duplicates(),
                numbers_in(set) == key_ids(keys@.take(i as int)),
            decreases keys.len() - i,
        {
            let ghost before = numbers_in(set);
            let id: u32 = keys[i].id();
            insert_number(&mut set, id);
            proof {
                lemma_ids_injective();
                assert forall|j: int| 0 <= j < before.len() implies before[j] != id by {
                    assert(before[j] == keys@[j].index() as u32);
                    assert(keys@[j] != keys@[i as int]);
                }
                lemma_filter_keeps_all(before, |other: u32| other != id);
                assert(key_ids(keys@.take(i + 1)) =~= before.push(id));
            }
            i = i + 1;
        }
        assert(keys@.take(i as int) =~= keys@);
        KeySet { set }
    }

    /// Takes the keys out, in the order in which they are sent.
    pub(crate) fn into_keys(self, Ghost(keys): Ghost<Seq<EffectKey>>) -> (list: Vec<EffectKey>)
        requires
            self@ == key_ids(keys),
        ensures
            list@ == keys,
    {
        let all: Vec<EffectKey> = EffectKey::all();
        let mut set = self.set;
        let mut list: Vec<EffectKey> = Vec::new();
        let ghost numbers = numbers_in(set);
        assert(numbers.skip(0) =~= numbers);
        loop
            invariant
                all@.len() == EFFECT_KEYS,
                forall|v: EffectKey|
                    0 <= v.index() < EFFECT_KEYS && #[trigger] all@[v.index()] == v,
                numbers == key_ids(keys),
                list@.len() <= numbers.len(),
                numbers_in(set) == numbers.skip(list@.len() as int),
                list@ == keys.take(list@.len() as int),
            ensures
                list@ == keys,
            decreases numbers_in(set).len(),
        {
            let ghost count = list@.len() as int;
            match pop_number(&mut set) {
                Some(number) => {
                    assert(numbers[count] == keys[count].index() as u32);
                    assert(all@[keys[count].index()] == keys[count]);
                    list.push(all[number as usize]);
                    assert(numbers.skip(count).skip(1) =~= numbers.skip(count + 1));
                    assert(list@ =~= keys.take(count + 1));
                },
                None => {
                    assert(keys.take(count) =~= keys);
                    break;
                },
            }
        }
        list
    }
}

/// How many effect keys there are.
pub const EFFECT_KEYS: usize = 106;

/// Two keys with one number are the same.
proof fn lemma_ids_injective()
    ensures
        forall|a: EffectKey, b: EffectKey|
            #[trigger] a.index() == #[trigger] b.index() ==> a == b,
        forall|a: EffectKey| 0 <= #[trigger] a.index() < EFFECT_KEYS,
{
    assert forall|a: EffectKey, b: EffectKey| #[trigger] a.index() == #[trigger] b.index() implies a
        == b by {
        assert(EffectKey::order()[a.index()] == a);
        assert(EffectKey::order()[b.index()] == b);
    }
}

/// A filter that keeps every item changes nothing.
proof fn lemma_filter_keeps_all(items: Seq<u32>, keep: spec_fn(u32) -> bool)
    requires
        forall|i: int| 0 <= i < items.len() ==> keep(#[trigger] items[i]),
    ensures
        items.filter(keep) == items,
    decreases items.len(),
{
    reveal_with_fuel(Seq::filter, 2);
    if items.len() > 0 {
        lemma_filter_keeps_all(items.drop_last(), keep);
        assert(items.drop_last().push(items.last()) =~= items);
    }
}

/// The keys of the reverb group, in the order in which they are sent.
pub open spec fn reverb_keys() -> Seq<EffectKey> {
    seq![
        EffectKey::ReverbAmount,
        EffectKey::ReverbType,
        EffectKey::ReverbDecay,
        EffectKey::ReverbPredelay,
        EffectKey::ReverbDiffuse,
        EffectKey::ReverbLowColor,
        EffectKey::ReverbHighColor,
        EffectKey::ReverbHighFactor,
        EffectKey::ReverbModSpeed,
        EffectKey::ReverbModDepth,
        EffectKey::ReverbEarlyLevel,
        EffectKey::ReverbTailLevel,
    ]
}

/// The keys of the echo group, in the order in which they are sent.
pub open spec fn echo_keys() -> Seq<EffectKey> {
    seq![
        EffectKey::EchoAmount,
        EffectKey::EchoSource,
        EffectKey::EchoDivL,
        EffectKey::EchoDivR,
        EffectKey::EchoFeedbackL,
        EffectKey::EchoFeedbackR,
        EffectKey::EchoXFBLtoR,
        EffectKey::EchoXFBRtoL,
        EffectKey::EchoFeedback,
        EffectKey::EchoFilterStyle,
        EffectKey::EchoTempo,
        EffectKey::EchoDelayL,
        EffectKey::EchoDelayR,
    ]
}

/// The keys of the pitch group, in the order in which they are sent.
pub open spec fn pitch_keys() -> Seq<EffectKey> {
    seq![
        EffectKey::PitchAmount,
        EffectKey::PitchCharacter,
        EffectKey::PitchThreshold,
    ]
}

/// The keys of the gender group, in the order in which they are sent.
pub open spec fn gender_keys() -> Seq<EffectKey> {
    seq![
        EffectKey::GenderAmount,
    ]
}

/// The keys of the megaphone group, in the order in which they are sent.
pub open spec fn megaphone_keys() -> Seq<EffectKey> {
    seq![
        EffectKey::MegaphoneEnabled,
        EffectKey::MegaphoneStyle,
        EffectKey::MegaphoneAmount,
        EffectKey::MegaphoneHP,
        EffectKey::MegaphoneLP,
        EffectKey::MegaphonePreGain,
        EffectKey::MegaphonePostGain,
        EffectKey::MegaphoneDistType,
        EffectKey::MegaphonePresenceGain,
        EffectKey::MegaphonePresenceFC,
        EffectKey::MegaphonePresenceBW,
        EffectKey::MegaphoneBeatboxEnable,
        EffectKey::MegaphoneFilterControl,
        EffectKey::MegaphoneFilter,
        EffectKey::MegaphoneDrivePotGainCompMid,
        EffectKey::MegaphoneDrivePotGainCompMax,
    ]
}

/// The keys of the robot group, in the order in which they are sent.
pub open spec fn robot_keys() -> Seq<EffectKey> {
    seq![
        EffectKey::RobotEnabled,
        EffectKey::RobotPulseWidth,
        EffectKey::RobotWaveform,
        EffectKey::RobotThreshold,
        EffectKey::RobotDryMix,
        EffectKey::RobotLowFreq,
        EffectKey::RobotLowGain,
        EffectKey::RobotLowWidth,
        EffectKey::RobotMidFreq,
        EffectKey::RobotMidGain,
        EffectKey::RobotMidWidth,
        EffectKey::RobotHiFreq,
        EffectKey::RobotHiGain,
        EffectKey::RobotHiWidth,
        EffectKey::RobotStyle,
    ]
}

/// The keys of the hardtune group, in the order in which they are sent.
pub open spec fn hardtune_keys() -> Seq<EffectKey> {
    seq![
        EffectKey::HardTuneEnabled,
        EffectKey::HardTuneKeySource,
        EffectKey::HardTuneAmount,
        EffectKey::HardTuneWindow,
        EffectKey::HardTuneRate,
        EffectKey::HardTuneScale,
        EffectKey::HardTunePitchAmount,
    ]
}

/// The keys of the common group, in the order in which they are sent.
pub open spec fn common_keys() -> Seq<EffectKey> {
    seq![
        EffectKey::DeEsser,
        EffectKey::GateThreshold,
        EffectKey::GateAttack,
        EffectKey::GateRelease,
        EffectKey::GateAttenuation,
        EffectKey::CompressorThreshold,
        EffectKey::CompressorRatio,
        EffectKey::CompressorAttack,
        EffectKey::CompressorRelease,
        EffectKey::CompressorMakeUpGain,
        EffectKey::GateEnabled,
        EffectKey::BleepLevel,
        EffectKey::GateMode,
        EffectKey::DisableMic,
        EffectKey::Encoder1Enabled,
        EffectKey::Encoder2Enabled,
        EffectKey::Encoder3Enabled,
        EffectKey::Encoder4Enabled,
        EffectKey::RobotEnabled,
        EffectKey::HardTuneEnabled,
        EffectKey::MegaphoneEnabled,
    ]
}

/// The keys of the switch group, in the order in which they are sent.
pub open spec fn switch_keys() -> Seq<EffectKey> {
    seq![
        EffectKey::RobotEnabled,
        EffectKey::MegaphoneEnabled,
        EffectKey::HardTuneEnabled,
        EffectKey::Encoder1Enabled,
        EffectKey::Encoder2Enabled,
        EffectKey::Encoder3Enabled,
        EffectKey::Encoder4Enabled,
    ]
}

/// The keys that are not common to every model, in the order of declaration.
pub open spec fn full_keys() -> Seq<EffectKey> {
    EffectKey::order().filter(|key: EffectKey| !common_keys().contains(key))
}

/// The keys of a group, in the order in which they are sent.
pub open spec fn group_keys(group: EffectGroup) -> Seq<EffectKey> {
    match group {
        EffectGroup::Key(key) => seq![key],
        EffectGroup::Reverb => reverb_keys(),
        EffectGroup::Echo => echo_keys(),
        EffectGroup::Pitch => pitch_keys(),
        EffectGroup::Gender => gender_keys(),
        EffectGroup::Megaphone => megaphone_keys(),
        EffectGroup::Robot => robot_keys(),
        EffectGroup::HardTune => hardtune_keys(),
        EffectGroup::Switches => switch_keys(),
        EffectGroup::Common => common_keys(),
        EffectGroup::Full => full_keys(),
    }
}

/// Collects the keys of the reverb group.
pub fn get_reverb_keyset() -> (set: KeySet)
    ensures
        set@ == key_ids(reverb_keys()),
{
    let keys: Vec<EffectKey> = vec![
        EffectKey::ReverbAmount,
        EffectKey::ReverbType,
        EffectKey::ReverbDecay,
        EffectKey::ReverbPredelay,
        EffectKey::ReverbDiffuse,
        EffectKey::ReverbLowColor,
        EffectKey::ReverbHighColor,
        EffectKey::ReverbHighFactor,
        EffectKey::ReverbModSpeed,
        EffectKey::ReverbModDepth,
        EffectKey::ReverbEarlyLevel,
        EffectKey::ReverbTailLevel,
    ];
    assert(keys@ =~= reverb_keys());
    KeySet::of(&keys)
}

/// Collects the keys of the echo group.
pub fn get_echo_keyset() -> (set: KeySet)
    ensures
        set@ == key_ids(echo_keys()),
{
    let keys: Vec<EffectKey> = vec![
        EffectKey::EchoAmount,
        EffectKey::EchoSource,
        EffectKey::EchoDivL,
        EffectKey::EchoDivR,
        EffectKey::EchoFeedbackL,
        EffectKey::EchoFeedbackR,
        EffectKey::EchoXFBLtoR,
        EffectKey::EchoXFBRtoL,
        EffectKey::EchoFeedback,
        EffectKey::EchoFilterStyle,
        EffectKey::EchoTempo,
        EffectKey::EchoDelayL,
        EffectKey::EchoDelayR,
    ];
    assert(keys@ =~= echo_keys());
    KeySet::of(&keys)
}

/// Collects the keys of the pitch group.
pub fn get_pitch_keyset() -> (set: KeySet)
    ensures
        set@ == key_ids(pitch_keys()),
{
    let keys: Vec<EffectKey> = vec![
        EffectKey::PitchAmount,
        EffectKey::PitchCharacter,
        EffectKey::PitchThreshold,
    ];
    assert(keys@ =~= pitch_keys());
    KeySet::of(&keys)
}

/// Collects the keys of the gender group.
pub fn get_gender_keyset() -> (set: KeySet)
    ensures
        set@ == key_ids(gender_keys()),
{
    let keys: Vec<EffectKey> = vec![
        EffectKey::GenderAmount,
    ];
    assert(keys@ =~= gender_keys());
    KeySet::of(&keys)
}

/// Collects the keys of the megaphone group.
pub fn get_megaphone_keyset() -> (set: KeySet)
    ensures
        set@ == key_ids(megaphone_keys()),
{
    let keys: Vec<EffectKey> = vec![
        EffectKey::MegaphoneEnabled,
        EffectKey::MegaphoneStyle,
        EffectKey::MegaphoneAmount,
        EffectKey::MegaphoneHP,
        EffectKey::MegaphoneLP,
        EffectKey::MegaphonePreGain,
        EffectKey::MegaphonePostGain,
        EffectKey::MegaphoneDistType,
        EffectKey::MegaphonePresenceGain,
        EffectKey::MegaphonePresenceFC,
        EffectKey::MegaphonePresenceBW,
        EffectKey::MegaphoneBeatboxEnable,
        EffectKey::MegaphoneFilterControl,
        EffectKey::MegaphoneFilter,
        EffectKey::MegaphoneDrivePotGainCompMid,
        EffectKey::MegaphoneDrivePotGainCompMax,
    ];
    assert(keys@ =~= megaphone_keys());
    KeySet::of(&keys)
}

/// Collects the keys of the robot group.
pub fn get_robot_keyset() -> (set: KeySet)
    ensures
        set@ == key_ids(robot_keys()),
{
    let keys: Vec<EffectKey> = vec![
        EffectKey::RobotEnabled,
        EffectKey::RobotPulseWidth,
        EffectKey::RobotWaveform,
        EffectKey::RobotThreshold,
        EffectKey::RobotDryMix,
        EffectKey::RobotLowFreq,
        EffectKey::RobotLowGain,
        EffectKey::RobotLowWidth,
        EffectKey::RobotMidFreq,
        EffectKey::RobotMidGain,
        EffectKey::RobotMidWidth,
        EffectKey::RobotHiFreq,
        EffectKey::RobotHiGain,
        EffectKey::RobotHiWidth,
        EffectKey::RobotStyle,
    ];
    assert(keys@ =~= robot_keys());
    KeySet::of(&keys)
}

/// Collects the keys of the hardtune group.
pub fn get_hardtune_keyset() -> (set: KeySet)
    ensures
        set@ == key_ids(hardtune_keys()),
{
    let keys: Vec<EffectKey> = vec![
        EffectKey::HardTuneEnabled,
        EffectKey::HardTuneKeySource,
        EffectKey::HardTuneAmount,
        EffectKey::HardTuneWindow,
        EffectKey::HardTuneRate,
        EffectKey::HardTuneScale,
        EffectKey::HardTunePitchAmount,
    ];
    assert(keys@ =~= hardtune_keys());
    KeySet::of(&keys)
}

/// Lists the keys that every model knows.
pub fn get_common_keys() -> (keys: Vec<EffectKey>)
    ensures
        keys@ == common_keys(),
{
    let keys: Vec<EffectKey> = vec![
        EffectKey::DeEsser,
        EffectKey::GateThreshold,
        EffectKey::GateAttack,
        EffectKey::GateRelease,
        EffectKey::GateAttenuation,
        EffectKey::CompressorThreshold,
        EffectKey::CompressorRatio,
        EffectKey::CompressorAttack,
        EffectKey::CompressorRelease,
        EffectKey::CompressorMakeUpGain,
        EffectKey::GateEnabled,
        EffectKey::BleepLevel,
        EffectKey::GateMode,
        EffectKey::DisableMic,
        EffectKey::Encoder1Enabled,
        EffectKey::Encoder2Enabled,
        EffectKey::Encoder3Enabled,
        EffectKey::Encoder4Enabled,
        EffectKey::RobotEnabled,
        EffectKey::HardTuneEnabled,
        EffectKey::MegaphoneEnabled,
    ];
    assert(keys@ =~= common_keys());
    keys
}

/// Collects the keys of the switch group.
pub fn get_enabled_keyset() -> (set: KeySet)
    ensures
        set@ == key_ids(switch_keys()),
{
    let keys: Vec<EffectKey> = vec![
        EffectKey::RobotEnabled,
        EffectKey::MegaphoneEnabled,
        EffectKey::HardTuneEnabled,
        EffectKey::Encoder1Enabled,
        EffectKey::Encoder2Enabled,
        EffectKey::Encoder3Enabled,
        EffectKey::Encoder4Enabled,
    ];
    assert(keys@ =~= switch_keys());
    KeySet::of(&keys)
}

/// Whether a key is known to every model.
pub fn is_common_key(key: EffectKey) -> (common: bool)
    ensures
        common == common_keys().contains(key),
{
    let keys = get_common_keys();
    let mut i: usize = 0;
    while i < keys.len()
        invariant
            i <= keys.len(),
            keys@ == common_keys(),
            forall|j: int| 0 <= j < i ==> keys@[j] != key,
        decreases keys.len() - i,
    {
        if keys[i] == key {
            assert(common_keys()[i as int] == key);
            return true;
        }
        i = i + 1;
    }
    false
}

/// Lists the keys that are not common to every model.
pub fn get_full_keys() -> (keys: Vec<EffectKey>)
    ensures
        keys@ == full_keys(),
{
    let ghost uncommon = |key: EffectKey| !common_keys().contains(key);
    let all: Vec<EffectKey> = EffectKey::all();
    let mut keys: Vec<EffectKey> = Vec::new();
    let mut i: usize = 0;
    assert(all@.take(0).filter(uncommon) =~= Seq::<EffectKey>::empty());
    while i < all.len()
        invariant
            i <= all.len(),
            all@ == EffectKey::order(),
            uncommon == (|key: EffectKey| !common_keys().contains(key)),
            keys@ == all@.take(i as int).filter(uncommon),
        decreases all.len() - i,
    {
        proof {
            reveal_with_fuel(Seq::filter, 2);
            assert(all@.take(i + 1).drop_last() =~= all@.take(i as int));
            assert(all@.take(i + 1).last() == all@[i as int]);
        }
        if !is_common_key(all[i]) {
            keys.push(all[i]);
        }
        i = i + 1;
    }
    assert(all@.take(i as int) =~= all@);
    keys
}

/// Lists the keys of a group, in the order in which they are sent.
pub fn get_group_keys(group: EffectGroup) -> (keys: Vec<EffectKey>)
    ensures
        keys@ == group_keys(group),
{
    match group {
        EffectGroup::Key(key) => vec![key],
        EffectGroup::Reverb => get_reverb_keyset().into_keys(Ghost(reverb_keys())),
        EffectGroup::Echo => get_echo_keyset().into_keys(Ghost(echo_keys())),
        EffectGroup::Pitch => get_pitch_keyset().into_keys(Ghost(pitch_keys())),
        EffectGroup::Gender => get_gender_keyset().into_keys(Ghost(gender_keys())),
        EffectGroup::Megaphone => get_megaphone_keyset().into_keys(Ghost(megaphone_keys())),
        EffectGroup::Robot => get_robot_keyset().into_keys(Ghost(robot_keys())),
        EffectGroup::HardTune => get_hardtune_keyset().into_keys(Ghost(hardtune_keys())),
        EffectGroup::Switches => get_enabled_keyset().into_keys(Ghost(switch_keys())),
        EffectGroup::Common => get_common_keys(),
        EffectGroup::Full => get_full_keys(),
    }
}

/// Every key is either common to all models or listed among the others, and not both.
pub proof fn keys_partitioned(key: EffectKey)
    ensures
        common_keys().contains(key) <==> !full_keys().contains(key),
{
    let uncommon = |key: EffectKey| !common_keys().contains(key);
    let order = EffectKey::order();
    assert(order[key.index()] == key);
    lemma_filter_membership(order, uncommon, key);
}

/// An item is in a filtered list exactly if it was in the list and is kept.
proof fn lemma_filter_membership(
    items: Seq<EffectKey>,
    keep: spec_fn(EffectKey) -> bool,
    item: EffectKey,
)
    ensures
        items.filter(keep).contains(item) <==> items.contains(item) && keep(item),
    decreases items.len(),
{
    reveal_with_fuel(Seq::filter, 2);
    if items.len() > 0 {
        let rest = items.drop_last();
        lemma_filter_membership(rest, keep, item);
        assert(items =~= rest.push(items.last()));
        let kept = rest.filter(keep);
        if items.contains(item) {
            let i = choose|i: int| 0 <= i < items.len() && items[i] == item;
            if i < rest.len() {
                assert(rest[i] == item);
            }
        }
        if rest.contains(item) {
            let i = choose|i: int| 0 <= i < rest.len() && rest[i] == item;
            assert(items[i] == item);
        }
        if keep(items.last()) {
            assert(kept.push(items.last())[kept.len() as int] == items.last());
            assert(items[items.len() - 1] == items.last());
            if kept.contains(item) {
                let i = choose|i: int| 0 <= i < kept.len() && kept[i] == item;
                assert(kept.push(items.last())[i] == item);
            }
            if kept.push(items.last()).contains(item) {
                let i = choose|i: int|
                    0 <= i < kept.push(items.last()).len() && kept.push(items.last())[i] == item;
                if i < kept.len() {
                    assert(kept[i] == item);
                }
            }
        }
    }
}

} // verus!
