//! What is sent to the device once a command has changed a profile or the settings.

use crate::command::{GoXLRCommand, RobotRange};
use crate::keys::{EffectGroup, EffectKey, EqFrequencies, MicrophoneParamKey, MiniEqFrequencies};
use crate::lighting::is_light_command;
use crate::types::{EncoderName, FaderName};
use vstd::prelude::*;

verus! {

/// What is sent after a value was stored.
#[derive(Clone, Copy, Debug, PartialEq, Eq)]
pub enum Follow {
    Nothing,
    /// The settings are written.
    Save,
    /// The swear level, as an effect and as a microphone parameter.
    Bleep,
    MicGain,
    Param(MicrophoneParamKey),
    ParamEffect(MicrophoneParamKey, EffectKey),
    Effects(EffectGroup),
    Colours,
    ColoursAndButtons,
    /// The lights are taken anew from the profile, and the colours are sent.
    TakenColours,
    TakenColoursAndButtons,
    TakenColoursButtonsDisplays,
    Display(FaderName),
    Displays,
    Scribble(FaderName),
    /// An encoder, at the position that the stored amount gives it, and its effect.
    Encoder(EncoderName, EffectKey),
    /// The pitch encoder, whose range may have changed.
    PitchStyle,
}

/// The key of the gain of a band.
pub open spec fn eq_gain_key(band: EqFrequencies) -> EffectKey {
    match band {
        EqFrequencies::Equalizer31Hz => EffectKey::Equalizer31HzGain,
        EqFrequencies::Equalizer63Hz => EffectKey::Equalizer63HzGain,
        EqFrequencies::Equalizer125Hz => EffectKey::Equalizer125HzGain,
        EqFrequencies::Equalizer250Hz => EffectKey::Equalizer250HzGain,
        EqFrequencies::Equalizer500Hz => EffectKey::Equalizer500HzGain,
        EqFrequencies::Equalizer1KHz => EffectKey::Equalizer1KHzGain,
        EqFrequencies::Equalizer2KHz => EffectKey::Equalizer2KHzGain,
        EqFrequencies::Equalizer4KHz => EffectKey::Equalizer4KHzGain,
        EqFrequencies::Equalizer8KHz => EffectKey::Equalizer8KHzGain,
        EqFrequencies::Equalizer16KHz => EffectKey::Equalizer16KHzGain,
    }
}

/// Finds the key of the gain of a band.
pub fn get_eq_gain_key(band: EqFrequencies) -> (key: EffectKey)
    ensures
        key == eq_gain_key(band),
{
    match band {
        EqFrequencies::Equalizer31Hz => EffectKey::Equalizer31HzGain,
        EqFrequencies::Equalizer63Hz => EffectKey::Equalizer63HzGain,
        EqFrequencies::Equalizer125Hz => EffectKey::Equalizer125HzGain,
        EqFrequencies::Equalizer250Hz => EffectKey::Equalizer250HzGain,
        EqFrequencies::Equalizer500Hz => EffectKey::Equalizer500HzGain,
        EqFrequencies::Equalizer1KHz => EffectKey::Equalizer1KHzGain,
        EqFrequencies::Equalizer2KHz => EffectKey::Equalizer2KHzGain,
        EqFrequencies::Equalizer4KHz => EffectKey::Equalizer4KHzGain,
        EqFrequencies::Equalizer8KHz => EffectKey::Equalizer8KHzGain,
        EqFrequencies::Equalizer16KHz => EffectKey::Equalizer16KHzGain,
    }
}

/// The key of the frequency of a band.
pub open spec fn eq_freq_key(band: EqFrequencies) -> EffectKey {
    match band {
        EqFrequencies::Equalizer31Hz => EffectKey::Equalizer31HzFrequency,
        EqFrequencies::Equalizer63Hz => EffectKey::Equalizer63HzFrequency,
        EqFrequencies::Equalizer125Hz => EffectKey::Equalizer125HzFrequency,
        EqFrequencies::Equalizer250Hz => EffectKey::Equalizer250HzFrequency,
        EqFrequencies::Equalizer500Hz => EffectKey::Equalizer500HzFrequency,
        EqFrequencies::Equalizer1KHz => EffectKey::Equalizer1KHzFrequency,
        EqFrequencies::Equalizer2KHz => EffectKey::Equalizer2KHzFrequency,
        EqFrequencies::Equalizer4KHz => EffectKey::Equalizer4KHzFrequency,
        EqFrequencies::Equalizer8KHz => EffectKey::Equalizer8KHzFrequency,
        EqFrequencies::Equalizer16KHz => EffectKey::Equalizer16KHzFrequency,
    }
}

/// Finds the key of the frequency of a band.
pub fn get_eq_freq_key(band: EqFrequencies) -> (key: EffectKey)
    ensures
        key == eq_freq_key(band),
{
    match band {
        EqFrequencies::Equalizer31Hz => EffectKey::Equalizer31HzFrequency,
        EqFrequencies::Equalizer63Hz => EffectKey::Equalizer63HzFrequency,
        EqFrequencies::Equalizer125Hz => EffectKey::Equalizer125HzFrequency,
        EqFrequencies::Equalizer250Hz => EffectKey::Equalizer250HzFrequency,
        EqFrequencies::Equalizer500Hz => EffectKey::Equalizer500HzFrequency,
        EqFrequencies::Equalizer1KHz => EffectKey::Equalizer1KHzFrequency,
        EqFrequencies::Equalizer2KHz => EffectKey::Equalizer2KHzFrequency,
        EqFrequencies::Equalizer4KHz => EffectKey::Equalizer4KHzFrequency,
        EqFrequencies::Equalizer8KHz => EffectKey::Equalizer8KHzFrequency,
        EqFrequencies::Equalizer16KHz => EffectKey::Equalizer16KHzFrequency,
    }
}

/// The key of the gain of a band of the small equaliser.
pub open spec fn mini_gain_key(band: MiniEqFrequencies) -> MicrophoneParamKey {
    match band {
        MiniEqFrequencies::Equalizer90Hz => MicrophoneParamKey::Equalizer90HzGain,
        MiniEqFrequencies::Equalizer250Hz => MicrophoneParamKey::Equalizer250HzGain,
        MiniEqFrequencies::Equalizer500Hz => MicrophoneParamKey::Equalizer500HzGain,
        MiniEqFrequencies::Equalizer1KHz => MicrophoneParamKey::Equalizer1KHzGain,
        MiniEqFrequencies::Equalizer3KHz => MicrophoneParamKey::Equalizer3KHzGain,
        MiniEqFrequencies::Equalizer8KHz => MicrophoneParamKey::Equalizer8KHzGain,
    }
}

/// Finds the key of the gain of a band of the small equaliser.
pub fn get_mini_gain_key(band: MiniEqFrequencies) -> (key: MicrophoneParamKey)
    ensures
        key == mini_gain_key(band),
{
    match band {
        MiniEqFrequencies::Equalizer90Hz => MicrophoneParamKey::Equalizer90HzGain,
        MiniEqFrequencies::Equalizer250Hz => MicrophoneParamKey::Equalizer250HzGain,
        MiniEqFrequencies::Equalizer500Hz => MicrophoneParamKey::Equalizer500HzGain,
        MiniEqFrequencies::Equalizer1KHz => MicrophoneParamKey::Equalizer1KHzGain,
        MiniEqFrequencies::Equalizer3KHz => MicrophoneParamKey::Equalizer3KHzGain,
        MiniEqFrequencies::Equalizer8KHz => MicrophoneParamKey::Equalizer8KHzGain,
    }
}

/// The key of the frequency of a band of the small equaliser.
pub open spec fn mini_freq_key(band: MiniEqFrequencies) -> MicrophoneParamKey {
    match band {
        MiniEqFrequencies::Equalizer90Hz => MicrophoneParamKey::Equalizer90HzFrequency,
        MiniEqFrequencies::Equalizer250Hz => MicrophoneParamKey::Equalizer250HzFrequency,
        MiniEqFrequencies::Equalizer500Hz => MicrophoneParamKey::Equalizer500HzFrequency,
        MiniEqFrequencies::Equalizer1KHz => MicrophoneParamKey::Equalizer1KHzFrequency,
        MiniEqFrequencies::Equalizer3KHz => MicrophoneParamKey::Equalizer3KHzFrequency,
        MiniEqFrequencies::Equalizer8KHz => MicrophoneParamKey::Equalizer8KHzFrequency,
    }
}

/// Finds the key of the frequency of a band of the small equaliser.
pub fn get_mini_freq_key(band: MiniEqFrequencies) -> (key: MicrophoneParamKey)
    ensures
        key == mini_freq_key(band),
{
    match band {
        MiniEqFrequencies::Equalizer90Hz => MicrophoneParamKey::Equalizer90HzFrequency,
        MiniEqFrequencies::Equalizer250Hz => MicrophoneParamKey::Equalizer250HzFrequency,
        MiniEqFrequencies::Equalizer500Hz => MicrophoneParamKey::Equalizer500HzFrequency,
        MiniEqFrequencies::Equalizer1KHz => MicrophoneParamKey::Equalizer1KHzFrequency,
        MiniEqFrequencies::Equalizer3KHz => MicrophoneParamKey::Equalizer3KHzFrequency,
        MiniEqFrequencies::Equalizer8KHz => MicrophoneParamKey::Equalizer8KHzFrequency,
    }
}

/// What follows a command about the microphone, for those that only store a value.
pub open spec fn microphone_follow(command: &GoXLRCommand) -> Option<Follow> {
    match command {
        GoXLRCommand::SetSwearButtonVolume(_) => Some(Follow::Bleep),
        GoXLRCommand::SetMicrophoneType(_) => Some(Follow::MicGain),
        GoXLRCommand::SetMicrophoneGain(_, _) => Some(Follow::MicGain),
        GoXLRCommand::SetElementDisplayMode(_, _) => Some(Follow::Nothing),
        GoXLRCommand::SetEqMiniGain(band, _) => Some(Follow::Param(mini_gain_key(*band))),
        GoXLRCommand::SetEqMiniFreq(band, _) => Some(Follow::Param(mini_freq_key(*band))),
        GoXLRCommand::SetEqGain(band, _) => Some(Follow::Effects(EffectGroup::Key(eq_gain_key(*band)))),
        GoXLRCommand::SetEqFreq(band, _) => Some(Follow::Effects(EffectGroup::Key(eq_freq_key(*band)))),
        GoXLRCommand::SetGateThreshold(_) => Some(Follow::ParamEffect(MicrophoneParamKey::GateThreshold, EffectKey::GateThreshold)),
        GoXLRCommand::SetGateAttenuation(_) => Some(Follow::ParamEffect(MicrophoneParamKey::GateAttenuation, EffectKey::GateAttenuation)),
        GoXLRCommand::SetGateAttack(_) => Some(Follow::ParamEffect(MicrophoneParamKey::GateAttack, EffectKey::GateAttack)),
        GoXLRCommand::SetGateRelease(_) => Some(Follow::ParamEffect(MicrophoneParamKey::GateRelease, EffectKey::GateRelease)),
        GoXLRCommand::SetGateActive(_) => Some(Follow::Effects(EffectGroup::Key(EffectKey::GateEnabled))),
        GoXLRCommand::SetCompressorThreshold(_) => Some(Follow::ParamEffect(MicrophoneParamKey::CompressorThreshold, EffectKey::CompressorThreshold)),
        GoXLRCommand::SetCompressorRatio(_) => Some(Follow::ParamEffect(MicrophoneParamKey::CompressorRatio, EffectKey::CompressorRatio)),
        GoXLRCommand::SetCompressorAttack(_) => Some(Follow::ParamEffect(MicrophoneParamKey::CompressorAttack, EffectKey::CompressorAttack)),
        GoXLRCommand::SetCompressorReleaseTime(_) => Some(Follow::ParamEffect(MicrophoneParamKey::CompressorRelease, EffectKey::CompressorRelease)),
        GoXLRCommand::SetCompressorMakeupGain(_) => Some(Follow::ParamEffect(MicrophoneParamKey::CompressorMakeUpGain, EffectKey::CompressorMakeUpGain)),
        GoXLRCommand::SetDeeser(_) => Some(Follow::Effects(EffectGroup::Key(EffectKey::DeEsser))),
        _ => None,
    }
}

/// Finds what follows a command about the microphone.
fn get_microphone_follow(command: &GoXLRCommand) -> (follow: Option<Follow>)
    ensures
        follow == microphone_follow(command),
{
    match command {
        GoXLRCommand::SetSwearButtonVolume(_) => Some(Follow::Bleep),
        GoXLRCommand::SetMicrophoneType(_) => Some(Follow::MicGain),
        GoXLRCommand::SetMicrophoneGain(_, _) => Some(Follow::MicGain),
        GoXLRCommand::SetElementDisplayMode(_, _) => Some(Follow::Nothing),
        GoXLRCommand::SetEqMiniGain(band, _) => Some(Follow::Param(get_mini_gain_key(*band))),
        GoXLRCommand::SetEqMiniFreq(band, _) => Some(Follow::Param(get_mini_freq_key(*band))),
        GoXLRCommand::SetEqGain(band, _) => Some(Follow::Effects(EffectGroup::Key(get_eq_gain_key(*band)))),
        GoXLRCommand::SetEqFreq(band, _) => Some(Follow::Effects(EffectGroup::Key(get_eq_freq_key(*band)))),
        GoXLRCommand::SetGateThreshold(_) => Some(Follow::ParamEffect(MicrophoneParamKey::GateThreshold, EffectKey::GateThreshold)),
        GoXLRCommand::SetGateAttenuation(_) => Some(Follow::ParamEffect(MicrophoneParamKey::GateAttenuation, EffectKey::GateAttenuation)),
        GoXLRCommand::SetGateAttack(_) => Some(Follow::ParamEffect(MicrophoneParamKey::GateAttack, EffectKey::GateAttack)),
        GoXLRCommand::SetGateRelease(_) => Some(Follow::ParamEffect(MicrophoneParamKey::GateRelease, EffectKey::GateRelease)),
        GoXLRCommand::SetGateActive(_) => Some(Follow::Effects(EffectGroup::Key(EffectKey::GateEnabled))),
        GoXLRCommand::SetCompressorThreshold(_) => Some(Follow::ParamEffect(MicrophoneParamKey::CompressorThreshold, EffectKey::CompressorThreshold)),
        GoXLRCommand::SetCompressorRatio(_) => Some(Follow::ParamEffect(MicrophoneParamKey::CompressorRatio, EffectKey::CompressorRatio)),
        GoXLRCommand::SetCompressorAttack(_) => Some(Follow::ParamEffect(MicrophoneParamKey::CompressorAttack, EffectKey::CompressorAttack)),
        GoXLRCommand::SetCompressorReleaseTime(_) => Some(Follow::ParamEffect(MicrophoneParamKey::CompressorRelease, EffectKey::CompressorRelease)),
        GoXLRCommand::SetCompressorMakeupGain(_) => Some(Follow::ParamEffect(MicrophoneParamKey::CompressorMakeUpGain, EffectKey::CompressorMakeUpGain)),
        GoXLRCommand::SetDeeser(_) => Some(Follow::Effects(EffectGroup::Key(EffectKey::DeEsser))),
        _ => None,
    }
}

/// What follows a command about the lights and screens, for those that only store a value.
pub open spec fn light_follow(command: &GoXLRCommand) -> Option<Follow> {
    match command {
        GoXLRCommand::SetGlobalColour(_) => Some(Follow::TakenColoursButtonsDisplays),
        GoXLRCommand::SetFaderDisplayStyle(fader, _) => Some(Follow::Display(*fader)),
        GoXLRCommand::SetFaderColours(_, _, _) => Some(Follow::Colours),
        GoXLRCommand::SetAllFaderColours(_, _) => Some(Follow::Colours),
        GoXLRCommand::SetAllFaderDisplayStyle(_) => Some(Follow::Displays),
        GoXLRCommand::SetButtonColours(_, _, _) => Some(Follow::ColoursAndButtons),
        GoXLRCommand::SetButtonOffStyle(_, _) => Some(Follow::ColoursAndButtons),
        GoXLRCommand::SetButtonGroupColours(_, _, _) => Some(Follow::ColoursAndButtons),
        GoXLRCommand::SetButtonGroupOffStyle(_, _) => Some(Follow::ColoursAndButtons),
        GoXLRCommand::SetSimpleColour(_, _) => Some(Follow::TakenColoursAndButtons),
        GoXLRCommand::SetEncoderColour(_, _, _, _) => Some(Follow::TakenColours),
        GoXLRCommand::SetSampleColour(_, _, _, _) => Some(Follow::TakenColours),
        GoXLRCommand::SetSampleOffStyle(_, _) => Some(Follow::TakenColoursAndButtons),
        GoXLRCommand::SetScribbleIcon(fader, _) => Some(Follow::Scribble(*fader)),
        GoXLRCommand::SetScribbleText(fader, _) => Some(Follow::Scribble(*fader)),
        GoXLRCommand::SetScribbleNumber(fader, _) => Some(Follow::Scribble(*fader)),
        GoXLRCommand::SetScribbleInvert(fader, _) => Some(Follow::Scribble(*fader)),
        _ => None,
    }
}

/// Whether the colours are sent.
pub open spec fn sends_colours(follow: Follow) -> bool {
    follow is Colours || follow is ColoursAndButtons || takes_lights(follow)
}

/// Whether the lights are taken anew before the colours are sent.
pub open spec fn takes_lights(follow: Follow) -> bool {
    follow is TakenColours || follow is TakenColoursAndButtons || follow
        is TakenColoursButtonsDisplays
}

/// The colours that a command carries reach the device: where colours are sent after a command about
/// the lights, `Lights::store` has kept those of the command, or the lights are taken anew first.
pub proof fn colours_are_kept_before_they_are_sent(command: &GoXLRCommand)
    requires
        light_follow(command) is Some,
        sends_colours(light_follow(command)->0),
    ensures
        is_light_command(command) <==> !takes_lights(light_follow(command)->0),
{
}

/// Finds what follows a command about the lights and screens.
fn get_light_follow(command: &GoXLRCommand) -> (follow: Option<Follow>)
    ensures
        follow == light_follow(command),
{
    match command {
        GoXLRCommand::SetGlobalColour(_) => Some(Follow::TakenColoursButtonsDisplays),
        GoXLRCommand::SetFaderDisplayStyle(fader, _) => Some(Follow::Display(*fader)),
        GoXLRCommand::SetFaderColours(_, _, _) => Some(Follow::Colours),
        GoXLRCommand::SetAllFaderColours(_, _) => Some(Follow::Colours),
        GoXLRCommand::SetAllFaderDisplayStyle(_) => Some(Follow::Displays),
        GoXLRCommand::SetButtonColours(_, _, _) => Some(Follow::ColoursAndButtons),
        GoXLRCommand::SetButtonOffStyle(_, _) => Some(Follow::ColoursAndButtons),
        GoXLRCommand::SetButtonGroupColours(_, _, _) => Some(Follow::ColoursAndButtons),
        GoXLRCommand::SetButtonGroupOffStyle(_, _) => Some(Follow::ColoursAndButtons),
        GoXLRCommand::SetSimpleColour(_, _) => Some(Follow::TakenColoursAndButtons),
        GoXLRCommand::SetEncoderColour(_, _, _, _) => Some(Follow::TakenColours),
        GoXLRCommand::SetSampleColour(_, _, _, _) => Some(Follow::TakenColours),
        GoXLRCommand::SetSampleOffStyle(_, _) => Some(Follow::TakenColoursAndButtons),
        GoXLRCommand::SetScribbleIcon(fader, _) => Some(Follow::Scribble(*fader)),
        GoXLRCommand::SetScribbleText(fader, _) => Some(Follow::Scribble(*fader)),
        GoXLRCommand::SetScribbleNumber(fader, _) => Some(Follow::Scribble(*fader)),
        GoXLRCommand::SetScribbleInvert(fader, _) => Some(Follow::Scribble(*fader)),
        _ => None,
    }
}

/// What follows a command about the voice effects, for those that only store a value.
pub open spec fn effect_follow(command: &GoXLRCommand) -> Option<Follow> {
    match command {
        GoXLRCommand::RenameActivePreset(_) => Some(Follow::Nothing),
        GoXLRCommand::SetReverbStyle(_) => Some(Follow::Effects(EffectGroup::Reverb)),
        GoXLRCommand::SetReverbAmount(_) => Some(Follow::Encoder(EncoderName::Reverb, EffectKey::ReverbAmount)),
        GoXLRCommand::SetReverbDecay(_) => Some(Follow::Effects(EffectGroup::Key(EffectKey::ReverbDecay))),
        GoXLRCommand::SetReverbEarlyLevel(_) => Some(Follow::Effects(EffectGroup::Key(EffectKey::ReverbEarlyLevel))),
        GoXLRCommand::SetReverbTailLevel(_) => Some(Follow::Effects(EffectGroup::Key(EffectKey::ReverbTailLevel))),
        GoXLRCommand::SetReverbPreDelay(_) => Some(Follow::Effects(EffectGroup::Key(EffectKey::ReverbPredelay))),
        GoXLRCommand::SetReverbLowColour(_) => Some(Follow::Effects(EffectGroup::Key(EffectKey::ReverbLowColor))),
        GoXLRCommand::SetReverbHighColour(_) => Some(Follow::Effects(EffectGroup::Key(EffectKey::ReverbHighColor))),
        GoXLRCommand::SetReverbHighFactor(_) => Some(Follow::Effects(EffectGroup::Key(EffectKey::ReverbHighFactor))),
        GoXLRCommand::SetReverbDiffuse(_) => Some(Follow::Effects(EffectGroup::Key(EffectKey::ReverbDiffuse))),
        GoXLRCommand::SetReverbModSpeed(_) => Some(Follow::Effects(EffectGroup::Key(EffectKey::ReverbModSpeed))),
        GoXLRCommand::SetReverbModDepth(_) => Some(Follow::Effects(EffectGroup::Key(EffectKey::ReverbModDepth))),
        GoXLRCommand::SetEchoStyle(_) => Some(Follow::Effects(EffectGroup::Echo)),
        GoXLRCommand::SetEchoAmount(_) => Some(Follow::Encoder(EncoderName::Echo, EffectKey::EchoAmount)),
        GoXLRCommand::SetEchoFeedback(_) => Some(Follow::Effects(EffectGroup::Key(EffectKey::EchoFeedback))),
        GoXLRCommand::SetEchoTempo(_) => Some(Follow::Effects(EffectGroup::Key(EffectKey::EchoTempo))),
        GoXLRCommand::SetEchoDelayLeft(_) => Some(Follow::Effects(EffectGroup::Key(EffectKey::EchoDelayL))),
        GoXLRCommand::SetEchoDelayRight(_) => Some(Follow::Effects(EffectGroup::Key(EffectKey::EchoDelayR))),
        GoXLRCommand::SetEchoFeedbackLeft(_) => Some(Follow::Effects(EffectGroup::Key(EffectKey::EchoFeedbackL))),
        GoXLRCommand::SetEchoFeedbackRight(_) => Some(Follow::Effects(EffectGroup::Key(EffectKey::EchoFeedbackR))),
        GoXLRCommand::SetEchoFeedbackXFBRtoL(_) => Some(Follow::Effects(EffectGroup::Key(EffectKey::EchoXFBRtoL))),
        GoXLRCommand::SetEchoFeedbackXFBLtoR(_) => Some(Follow::Effects(EffectGroup::Key(EffectKey::EchoXFBLtoR))),
        GoXLRCommand::SetPitchStyle(_) => Some(Follow::PitchStyle),
        GoXLRCommand::SetPitchAmount(_) => Some(Follow::Encoder(EncoderName::Pitch, EffectKey::PitchAmount)),
        GoXLRCommand::SetPitchCharacter(_) => Some(Follow::Effects(EffectGroup::Key(EffectKey::PitchCharacter))),
        GoXLRCommand::SetGenderStyle(_) => Some(Follow::Effects(EffectGroup::Gender)),
        GoXLRCommand::SetGenderAmount(_) => Some(Follow::Encoder(EncoderName::Gender, EffectKey::GenderAmount)),
        GoXLRCommand::SetMegaphoneStyle(_) => Some(Follow::Effects(EffectGroup::Megaphone)),
        GoXLRCommand::SetMegaphoneAmount(_) => Some(Follow::Effects(EffectGroup::Key(EffectKey::MegaphoneAmount))),
        GoXLRCommand::SetMegaphonePostGain(_) => Some(Follow::Effects(EffectGroup::Key(EffectKey::MegaphonePostGain))),
        GoXLRCommand::SetRobotStyle(_) => Some(Follow::Effects(EffectGroup::Robot)),
        GoXLRCommand::SetRobotGain(RobotRange::Low, _) => Some(Follow::Effects(EffectGroup::Key(EffectKey::RobotLowGain))),
        GoXLRCommand::SetRobotGain(RobotRange::Medium, _) => Some(Follow::Effects(EffectGroup::Key(EffectKey::RobotMidGain))),
        GoXLRCommand::SetRobotGain(RobotRange::High, _) => Some(Follow::Effects(EffectGroup::Key(EffectKey::RobotHiGain))),
        GoXLRCommand::SetRobotFreq(RobotRange::Low, _) => Some(Follow::Effects(EffectGroup::Key(EffectKey::RobotLowFreq))),
        GoXLRCommand::SetRobotFreq(RobotRange::Medium, _) => Some(Follow::Effects(EffectGroup::Key(EffectKey::RobotMidFreq))),
        GoXLRCommand::SetRobotFreq(RobotRange::High, _) => Some(Follow::Effects(EffectGroup::Key(EffectKey::RobotHiFreq))),
        GoXLRCommand::SetRobotWidth(RobotRange::Low, _) => Some(Follow::Effects(EffectGroup::Key(EffectKey::RobotLowWidth))),
        GoXLRCommand::SetRobotWidth(RobotRange::Medium, _) => Some(Follow::Effects(EffectGroup::Key(EffectKey::RobotMidWidth))),
        GoXLRCommand::SetRobotWidth(RobotRange::High, _) => Some(Follow::Effects(EffectGroup::Key(EffectKey::RobotHiWidth))),
        GoXLRCommand::SetRobotWaveform(_) => Some(Follow::Effects(EffectGroup::Key(EffectKey::RobotWaveform))),
        GoXLRCommand::SetRobotPulseWidth(_) => Some(Follow::Effects(EffectGroup::Key(EffectKey::RobotPulseWidth))),
        GoXLRCommand::SetRobotThreshold(_) => Some(Follow::Effects(EffectGroup::Key(EffectKey::RobotThreshold))),
        GoXLRCommand::SetRobotDryMix(_) => Some(Follow::Effects(EffectGroup::Key(EffectKey::RobotDryMix))),
        GoXLRCommand::SetHardTuneStyle(_) => Some(Follow::Effects(EffectGroup::HardTune)),
        GoXLRCommand::SetHardTuneAmount(_) => Some(Follow::Effects(EffectGroup::Key(EffectKey::HardTuneAmount))),
        GoXLRCommand::SetHardTuneRate(_) => Some(Follow::Effects(EffectGroup::Key(EffectKey::HardTuneRate))),
        GoXLRCommand::SetHardTuneWindow(_) => Some(Follow::Effects(EffectGroup::Key(EffectKey::HardTuneWindow))),
        _ => None,
    }
}

/// Finds what follows a command about the voice effects.
fn get_effect_follow(command: &GoXLRCommand) -> (follow: Option<Follow>)
    ensures
        follow == effect_follow(command),
{
    match command {
        GoXLRCommand::RenameActivePreset(_) => Some(Follow::Nothing),
        GoXLRCommand::SetReverbStyle(_) => Some(Follow::Effects(EffectGroup::Reverb)),
        GoXLRCommand::SetReverbAmount(_) => Some(Follow::Encoder(EncoderName::Reverb, EffectKey::ReverbAmount)),
        GoXLRCommand::SetReverbDecay(_) => Some(Follow::Effects(EffectGroup::Key(EffectKey::ReverbDecay))),
        GoXLRCommand::SetReverbEarlyLevel(_) => Some(Follow::Effects(EffectGroup::Key(EffectKey::ReverbEarlyLevel))),
        GoXLRCommand::SetReverbTailLevel(_) => Some(Follow::Effects(EffectGroup::Key(EffectKey::ReverbTailLevel))),
        GoXLRCommand::SetReverbPreDelay(_) => Some(Follow::Effects(EffectGroup::Key(EffectKey::ReverbPredelay))),
        GoXLRCommand::SetReverbLowColour(_) => Some(Follow::Effects(EffectGroup::Key(EffectKey::ReverbLowColor))),
        GoXLRCommand::SetReverbHighColour(_) => Some(Follow::Effects(EffectGroup::Key(EffectKey::ReverbHighColor))),
        GoXLRCommand::SetReverbHighFactor(_) => Some(Follow::Effects(EffectGroup::Key(EffectKey::ReverbHighFactor))),
        GoXLRCommand::SetReverbDiffuse(_) => Some(Follow::Effects(EffectGroup::Key(EffectKey::ReverbDiffuse))),
        GoXLRCommand::SetReverbModSpeed(_) => Some(Follow::Effects(EffectGroup::Key(EffectKey::ReverbModSpeed))),
        GoXLRCommand::SetReverbModDepth(_) => Some(Follow::Effects(EffectGroup::Key(EffectKey::ReverbModDepth))),
        GoXLRCommand::SetEchoStyle(_) => Some(Follow::Effects(EffectGroup::Echo)),
        GoXLRCommand::SetEchoAmount(_) => Some(Follow::Encoder(EncoderName::Echo, EffectKey::EchoAmount)),
        GoXLRCommand::SetEchoFeedback(_) => Some(Follow::Effects(EffectGroup::Key(EffectKey::EchoFeedback))),
        GoXLRCommand::SetEchoTempo(_) => Some(Follow::Effects(EffectGroup::Key(EffectKey::EchoTempo))),
        GoXLRCommand::SetEchoDelayLeft(_) => Some(Follow::Effects(EffectGroup::Key(EffectKey::EchoDelayL))),
        GoXLRCommand::SetEchoDelayRight(_) => Some(Follow::Effects(EffectGroup::Key(EffectKey::EchoDelayR))),
        GoXLRCommand::SetEchoFeedbackLeft(_) => Some(Follow::Effects(EffectGroup::Key(EffectKey::EchoFeedbackL))),
        GoXLRCommand::SetEchoFeedbackRight(_) => Some(Follow::Effects(EffectGroup::Key(EffectKey::EchoFeedbackR))),
        GoXLRCommand::SetEchoFeedbackXFBRtoL(_) => Some(Follow::Effects(EffectGroup::Key(EffectKey::EchoXFBRtoL))),
        GoXLRCommand::SetEchoFeedbackXFBLtoR(_) => Some(Follow::Effects(EffectGroup::Key(EffectKey::EchoXFBLtoR))),
        GoXLRCommand::SetPitchStyle(_) => Some(Follow::PitchStyle),
        GoXLRCommand::SetPitchAmount(_) => Some(Follow::Encoder(EncoderName::Pitch, EffectKey::PitchAmount)),
        GoXLRCommand::SetPitchCharacter(_) => Some(Follow::Effects(EffectGroup::Key(EffectKey::PitchCharacter))),
        GoXLRCommand::SetGenderStyle(_) => Some(Follow::Effects(EffectGroup::Gender)),
        GoXLRCommand::SetGenderAmount(_) => Some(Follow::Encoder(EncoderName::Gender, EffectKey::GenderAmount)),
        GoXLRCommand::SetMegaphoneStyle(_) => Some(Follow::Effects(EffectGroup::Megaphone)),
        GoXLRCommand::SetMegaphoneAmount(_) => Some(Follow::Effects(EffectGroup::Key(EffectKey::MegaphoneAmount))),
        GoXLRCommand::SetMegaphonePostGain(_) => Some(Follow::Effects(EffectGroup::Key(EffectKey::MegaphonePostGain))),
        GoXLRCommand::SetRobotStyle(_) => Some(Follow::Effects(EffectGroup::Robot)),
        GoXLRCommand::SetRobotGain(RobotRange::Low, _) => Some(Follow::Effects(EffectGroup::Key(EffectKey::RobotLowGain))),
        GoXLRCommand::SetRobotGain(RobotRange::Medium, _) => Some(Follow::Effects(EffectGroup::Key(EffectKey::RobotMidGain))),
        GoXLRCommand::SetRobotGain(RobotRange::High, _) => Some(Follow::Effects(EffectGroup::Key(EffectKey::RobotHiGain))),
        GoXLRCommand::SetRobotFreq(RobotRange::Low, _) => Some(Follow::Effects(EffectGroup::Key(EffectKey::RobotLowFreq))),
        GoXLRCommand::SetRobotFreq(RobotRange::Medium, _) => Some(Follow::Effects(EffectGroup::Key(EffectKey::RobotMidFreq))),
        GoXLRCommand::SetRobotFreq(RobotRange::High, _) => Some(Follow::Effects(EffectGroup::Key(EffectKey::RobotHiFreq))),
        GoXLRCommand::SetRobotWidth(RobotRange::Low, _) => Some(Follow::Effects(EffectGroup::Key(EffectKey::RobotLowWidth))),
        GoXLRCommand::SetRobotWidth(RobotRange::Medium, _) => Some(Follow::Effects(EffectGroup::Key(EffectKey::RobotMidWidth))),
        GoXLRCommand::SetRobotWidth(RobotRange::High, _) => Some(Follow::Effects(EffectGroup::Key(EffectKey::RobotHiWidth))),
        GoXLRCommand::SetRobotWaveform(_) => Some(Follow::Effects(EffectGroup::Key(EffectKey::RobotWaveform))),
        GoXLRCommand::SetRobotPulseWidth(_) => Some(Follow::Effects(EffectGroup::Key(EffectKey::RobotPulseWidth))),
        GoXLRCommand::SetRobotThreshold(_) => Some(Follow::Effects(EffectGroup::Key(EffectKey::RobotThreshold))),
        GoXLRCommand::SetRobotDryMix(_) => Some(Follow::Effects(EffectGroup::Key(EffectKey::RobotDryMix))),
        GoXLRCommand::SetHardTuneStyle(_) => Some(Follow::Effects(EffectGroup::HardTune)),
        GoXLRCommand::SetHardTuneAmount(_) => Some(Follow::Effects(EffectGroup::Key(EffectKey::HardTuneAmount))),
        GoXLRCommand::SetHardTuneRate(_) => Some(Follow::Effects(EffectGroup::Key(EffectKey::HardTuneRate))),
        GoXLRCommand::SetHardTuneWindow(_) => Some(Follow::Effects(EffectGroup::Key(EffectKey::HardTuneWindow))),
        _ => None,
    }
}

/// What follows a command about samples and settings, for those that only store a value.
pub open spec fn other_follow(command: &GoXLRCommand) -> Option<Follow> {
    match command {
        GoXLRCommand::SetShutdownCommands(_) => Some(Follow::Save),
        GoXLRCommand::ClearSampleProcessError => Some(Follow::Nothing),
        GoXLRCommand::SetSampleStartPercent(_, _, _, _) => Some(Follow::Nothing),
        GoXLRCommand::SetSampleStopPercent(_, _, _, _) => Some(Follow::Nothing),
        _ => None,
    }
}

/// Finds what follows a command about samples and settings.
fn get_other_follow(command: &GoXLRCommand) -> (follow: Option<Follow>)
    ensures
        follow == other_follow(command),
{
    match command {
        GoXLRCommand::SetShutdownCommands(_) => Some(Follow::Save),
        GoXLRCommand::ClearSampleProcessError => Some(Follow::Nothing),
        GoXLRCommand::SetSampleStartPercent(_, _, _, _) => Some(Follow::Nothing),
        GoXLRCommand::SetSampleStopPercent(_, _, _, _) => Some(Follow::Nothing),
        _ => None,
    }
}

/// What follows a command that only stores a value; nothing for every other command.
#[verifier::opaque]
pub open spec fn follow_of(command: &GoXLRCommand) -> Option<Follow> {
    if microphone_follow(command) is Some {
        microphone_follow(command)
    } else if light_follow(command) is Some {
        light_follow(command)
    } else if effect_follow(command) is Some {
        effect_follow(command)
    } else {
        other_follow(command)
    }
}

/// Finds what follows a command that only stores a value.
pub fn get_follow(command: &GoXLRCommand) -> (follow: Option<Follow>)
    ensures
        follow == follow_of(command),
{
    reveal(follow_of);
    let microphone = get_microphone_follow(command);
    if microphone.is_some() {
        return microphone;
    }
    let light = get_light_follow(command);
    if light.is_some() {
        return light;
    }
    let effect = get_effect_follow(command);
    if effect.is_some() {
        return effect;
    }
    get_other_follow(command)
}

} // verus!
