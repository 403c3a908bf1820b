//! The commands that a client sends to one device.

use crate::keys::{EqFrequencies, MiniEqFrequencies};
use crate::lighting::{
    ButtonColourGroups, ButtonColourOffStyle, ButtonColourTargets, ColourTargets,
    FaderDisplayStyle,
};
use crate::types::{
    AnimationMode, ChannelName, EffectBankPresets, EncoderName, FaderName, HardTuneSource,
    InputDevice, MicrophoneType, Mix, MuteFunction, MuteState, OutputDevice, SampleBank,
    SampleButtons, SamplePlayOrder, SamplePlaybackMode, WaterfallDirection,
};
use vstd::prelude::*;

verus! {

/// A panel of the user interface that has a simple and an advanced form.
#[derive(Clone, Copy, Debug, PartialEq, Eq, Structural)]
pub enum DisplayModeComponents {
    NoiseGate,
    Equaliser,
    Compressor,
    EqFineTune,
}

/// The form in which a panel is shown.
#[derive(Clone, Copy, Debug, PartialEq, Eq, Structural)]
pub enum DisplayMode {
    Simple,
    Advanced,
}

/// A frequency range of the vocoder.
#[derive(Clone, Copy, Debug, PartialEq, Eq, Structural)]
pub enum RobotRange {
    Low,
    Medium,
    High,
}

/// A number with a fractional part, as the 32 bits of its single precision form.
#[derive(Clone, Copy, Debug, PartialEq, Eq, Structural)]
pub struct SingleBits {
    pub bits: u32,
}

/// A command to one device. Styles, times and ratios are given by their place in the device's own
/// lists.
#[derive(Debug, PartialEq, Eq)]
pub enum GoXLRCommand {
    SetShutdownCommands(Vec<GoXLRCommand>),
    SetSamplerPreBufferDuration(u16),
    SetFader(FaderName, ChannelName),
    SetFaderMuteFunction(FaderName, MuteFunction),
    SetVolume(ChannelName, u8),
    SetCoughMuteFunction(MuteFunction),
    SetCoughIsHold(bool),
    SetSwearButtonVolume(i8),
    SetMicrophoneType(MicrophoneType),
    SetMicrophoneGain(MicrophoneType, u16),
    SetRouter(InputDevice, OutputDevice, bool),
    SetElementDisplayMode(DisplayModeComponents, DisplayMode),
    SetEqMiniGain(MiniEqFrequencies, i8),
    SetEqMiniFreq(MiniEqFrequencies, SingleBits),
    SetEqGain(EqFrequencies, i8),
    SetEqFreq(EqFrequencies, SingleBits),
    SetGateThreshold(i8),
    SetGateAttenuation(u8),
    SetGateAttack(u8),
    SetGateRelease(u8),
    SetGateActive(bool),
    SetCompressorThreshold(i8),
    SetCompressorRatio(u8),
    SetCompressorAttack(u8),
    SetCompressorReleaseTime(u8),
    SetCompressorMakeupGain(i8),
    SetDeeser(u8),
    SetAnimationMode(AnimationMode),
    SetAnimationMod1(u8),
    SetAnimationMod2(u8),
    SetAnimationWaterfall(WaterfallDirection),
    SetGlobalColour(String),
    SetFaderDisplayStyle(FaderName, FaderDisplayStyle),
    SetFaderColours(FaderName, String, String),
    SetAllFaderColours(String, String),
    SetAllFaderDisplayStyle(FaderDisplayStyle),
    SetButtonColours(ButtonColourTargets, String, Option<String>),
    SetButtonOffStyle(ButtonColourTargets, ButtonColourOffStyle),
    SetButtonGroupColours(ButtonColourGroups, String, Option<String>),
    SetButtonGroupOffStyle(ButtonColourGroups, ButtonColourOffStyle),
    SetSimpleColour(ColourTargets, String),
    SetEncoderColour(EncoderName, String, String, String),
    SetSampleColour(SampleBank, String, String, String),
    SetSampleOffStyle(SampleBank, ButtonColourOffStyle),
    LoadEffectPreset(String),
    RenameActivePreset(String),
    SaveActivePreset,
    SetReverbStyle(u8),
    SetReverbAmount(u8),
    SetReverbDecay(u16),
    SetReverbEarlyLevel(i8),
    SetReverbTailLevel(i8),
    SetReverbPreDelay(u8),
    SetReverbLowColour(i8),
    SetReverbHighColour(i8),
    SetReverbHighFactor(i8),
    SetReverbDiffuse(i8),
    SetReverbModSpeed(i8),
    SetReverbModDepth(i8),
    SetEchoStyle(u8),
    SetEchoAmount(u8),
    SetEchoFeedback(u8),
    SetEchoTempo(u16),
    SetEchoDelayLeft(u16),
    SetEchoDelayRight(u16),
    SetEchoFeedbackLeft(u8),
    SetEchoFeedbackRight(u8),
    SetEchoFeedbackXFBRtoL(u8),
    SetEchoFeedbackXFBLtoR(u8),
    SetPitchStyle(u8),
    SetPitchAmount(i8),
    SetPitchCharacter(u8),
    SetGenderStyle(u8),
    SetGenderAmount(i8),
    SetMegaphoneStyle(u8),
    SetMegaphoneAmount(u8),
    SetMegaphonePostGain(i8),
    SetRobotStyle(u8),
    SetRobotGain(RobotRange, i8),
    SetRobotFreq(RobotRange, u8),
    SetRobotWidth(RobotRange, u8),
    SetRobotWaveform(u8),
    SetRobotPulseWidth(u8),
    SetRobotThreshold(i8),
    SetRobotDryMix(i8),
    SetHardTuneStyle(u8),
    SetHardTuneAmount(u8),
    SetHardTuneRate(u8),
    SetHardTuneWindow(u16),
    SetHardTuneSource(HardTuneSource),
    ClearSampleProcessError,
    SetSamplerFunction(SampleBank, SampleButtons, SamplePlaybackMode),
    SetSamplerOrder(SampleBank, SampleButtons, SamplePlayOrder),
    AddSample(SampleBank, SampleButtons, String),
    SetSampleStartPercent(SampleBank, SampleButtons, usize, SingleBits),
    SetSampleStopPercent(SampleBank, SampleButtons, usize, SingleBits),
    RemoveSampleByIndex(SampleBank, SampleButtons, usize),
    PlaySampleByIndex(SampleBank, SampleButtons, usize),
    PlayNextSample(SampleBank, SampleButtons),
    StopSamplePlayback(SampleBank, SampleButtons),
    SetScribbleIcon(FaderName, Option<String>),
    SetScribbleText(FaderName, String),
    SetScribbleNumber(FaderName, String),
    SetScribbleInvert(FaderName, bool),
    NewProfile(String),
    LoadProfile(String, bool),
    LoadProfileColours(String),
    SaveProfile,
    SaveProfileAs(String),
    DeleteProfile(String),
    NewMicProfile(String),
    LoadMicProfile(String, bool),
    SaveMicProfile,
    SaveMicProfileAs(String),
    DeleteMicProfile(String),
    SetMuteHoldDuration(u16),
    SetVCMuteAlsoMuteCM(bool),
    SetMonitorWithFx(bool),
    SetLockFaders(bool),
    SetActiveEffectPreset(EffectBankPresets),
    SetActiveSamplerBank(SampleBank),
    SetMegaphoneEnabled(bool),
    SetRobotEnabled(bool),
    SetHardTuneEnabled(bool),
    SetFXEnabled(bool),
    SetFaderMuteState(FaderName, MuteState),
    SetCoughMuteState(MuteState),
    SetSubMixEnabled(bool),
    SetSubMixVolume(ChannelName, u8),
    SetSubMixLinked(ChannelName, bool),
    SetSubMixOutputMix(OutputDevice, Mix),
    SetMonitorMix(OutputDevice),
}

} // verus!
