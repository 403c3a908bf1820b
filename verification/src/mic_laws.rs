//! What the values of the microphone profile and of the voice effects come to on the device.

use crate::command::{GoXLRCommand, SingleBits};
use crate::keys::{EffectKey, EqFrequencies, MicrophoneParamKey, MiniEqFrequencies};
use crate::mic_profile::{
    number_bytes, EchoValues, GenderValues, HardTuneValues, MegaphoneValues, MicProfileAdapter,
    PitchValues, ReverbValues, RobotValues, StoreOutcome, VoiceValues,
};
use crate::profile::ProfileAdapter;
use crate::types::{EffectBankPresets, MicrophoneType};
use vstd::prelude::*;

verus! {

/// The number that switches something in the effect processor.
pub open spec fn switched(on: bool) -> i32 {
    if on {
        1
    } else {
        0
    }
}

/// An effect acts in the effect processor exactly where all effects are on and it was switched on
/// itself: what is switched on or off last counts, whatever the profile had before.
pub proof fn switched_effects_act(
    microphone: MicProfileAdapter,
    profile: ProfileAdapter,
    voice: VoiceValues,
    all: bool,
    on: bool,
)
    ensures
        microphone.effect_value(
            EffectKey::MegaphoneEnabled,
            profile.with_megaphone(on).with_fx(all),
            voice,
        ) == switched(all && on),
        microphone.effect_value(
            EffectKey::RobotEnabled,
            profile.with_robot(on).with_fx(all),
            voice,
        ) == switched(all && on),
        microphone.effect_value(
            EffectKey::HardTuneEnabled,
            profile.with_hardtune(on).with_fx(all),
            voice,
        ) == switched(all && on),
        microphone.effect_value(
            EffectKey::MegaphoneEnabled,
            profile.with_fx(all).with_megaphone(on),
            voice,
        ) == switched(all && on),
        microphone.effect_value(
            EffectKey::RobotEnabled,
            profile.with_fx(all).with_robot(on),
            voice,
        ) == switched(all && on),
        microphone.effect_value(
            EffectKey::HardTuneEnabled,
            profile.with_fx(all).with_hardtune(on),
            voice,
        ) == switched(all && on),
        microphone.effect_value(EffectKey::Encoder1Enabled, profile.with_fx(all), voice) == switched(
            all,
        ),
        microphone.effect_value(EffectKey::Encoder2Enabled, profile.with_fx(all), voice) == switched(
            all,
        ),
        microphone.effect_value(EffectKey::Encoder3Enabled, profile.with_fx(all), voice) == switched(
            all,
        ),
        microphone.effect_value(EffectKey::Encoder4Enabled, profile.with_fx(all), voice) == switched(
            all,
        ),
{
}

/// Switching one effect leaves what the device is told of the others.
pub proof fn effects_are_switched_apart(
    microphone: MicProfileAdapter,
    profile: ProfileAdapter,
    voice: VoiceValues,
    on: bool,
)
    ensures
        forall|key: EffectKey| key != EffectKey::MegaphoneEnabled ==> #[trigger]
            microphone.effect_value(key, profile.with_megaphone(on), voice)
                == microphone.effect_value(key, profile, voice),
        forall|key: EffectKey| key != EffectKey::RobotEnabled ==> #[trigger]
            microphone.effect_value(key, profile.with_robot(on), voice)
                == microphone.effect_value(key, profile, voice),
        forall|key: EffectKey| key != EffectKey::HardTuneEnabled ==> #[trigger]
            microphone.effect_value(key, profile.with_hardtune(on), voice)
                == microphone.effect_value(key, profile, voice),
{
}

/// A preset that is selected switches the effects that it had on when it was last used: what was
/// switched while it was selected comes back with it.
pub proof fn presets_bring_their_effects_back(
    microphone: MicProfileAdapter,
    profile: ProfileAdapter,
    voice: VoiceValues,
    other: EffectBankPresets,
    on: bool,
)
    requires
        other != profile.effects.selected,
    ensures
        microphone.effect_value(
            EffectKey::MegaphoneEnabled,
            profile.with_fx(true).with_megaphone(on).with_effect_bank(other).with_effect_bank(
                profile.effects.selected,
            ),
            voice,
        ) == switched(on),
        microphone.effect_value(
            EffectKey::RobotEnabled,
            profile.with_fx(true).with_robot(on).with_effect_bank(other).with_effect_bank(
                profile.effects.selected,
            ),
            voice,
        ) == switched(on),
        microphone.effect_value(
            EffectKey::HardTuneEnabled,
            profile.with_fx(true).with_hardtune(on).with_effect_bank(other).with_effect_bank(
                profile.effects.selected,
            ),
            voice,
        ) == switched(on),
{
}

/// Each setting of the reverb is sent under the key of its name, and nothing else depends on it.
pub proof fn reverb_is_sent(
    microphone: MicProfileAdapter,
    profile: ProfileAdapter,
    voice: VoiceValues,
    reverb: ReverbValues,
)
    ensures
        ({
            let after = VoiceValues { reverb, ..voice };
            &&& microphone.effect_value(EffectKey::ReverbAmount, profile, after) == reverb.amount
            &&& microphone.effect_value(EffectKey::ReverbDecay, profile, after) == reverb.decay
            &&& microphone.effect_value(EffectKey::ReverbEarlyLevel, profile, after) == reverb.early_level
            &&& microphone.effect_value(EffectKey::ReverbPredelay, profile, after) == reverb.predelay
            &&& microphone.effect_value(EffectKey::ReverbLowColor, profile, after) == reverb.low_color
            &&& microphone.effect_value(EffectKey::ReverbHighColor, profile, after) == reverb.high_color
            &&& microphone.effect_value(EffectKey::ReverbHighFactor, profile, after) == reverb.high_factor
            &&& microphone.effect_value(EffectKey::ReverbDiffuse, profile, after) == reverb.diffuse
            &&& microphone.effect_value(EffectKey::ReverbModSpeed, profile, after) == reverb.mod_speed
            &&& microphone.effect_value(EffectKey::ReverbModDepth, profile, after) == reverb.mod_depth
            &&& microphone.effect_value(EffectKey::ReverbType, profile, after) == reverb.reverb_type
            &&& forall|key: EffectKey|
                key != EffectKey::ReverbAmount && key != EffectKey::ReverbDecay && key != EffectKey::ReverbEarlyLevel && key != EffectKey::ReverbPredelay && key != EffectKey::ReverbLowColor && key != EffectKey::ReverbHighColor && key != EffectKey::ReverbHighFactor && key != EffectKey::ReverbDiffuse && key != EffectKey::ReverbModSpeed && key != EffectKey::ReverbModDepth && key != EffectKey::ReverbType ==> #[trigger] microphone.effect_value(key, profile, after)
                    == microphone.effect_value(key, profile, voice)
        }),
{
}

/// Each setting of the echo is sent under the key of its name, and nothing else depends on it.
pub proof fn echo_is_sent(
    microphone: MicProfileAdapter,
    profile: ProfileAdapter,
    voice: VoiceValues,
    echo: EchoValues,
)
    ensures
        ({
            let after = VoiceValues { echo, ..voice };
            &&& microphone.effect_value(EffectKey::EchoAmount, profile, after) == echo.amount
            &&& microphone.effect_value(EffectKey::EchoFeedback, profile, after) == echo.feedback
            &&& microphone.effect_value(EffectKey::EchoTempo, profile, after) == echo.tempo
            &&& microphone.effect_value(EffectKey::EchoDelayL, profile, after) == echo.delay_l
            &&& microphone.effect_value(EffectKey::EchoDelayR, profile, after) == echo.delay_r
            &&& microphone.effect_value(EffectKey::EchoFeedbackL, profile, after) == echo.feedback_l
            &&& microphone.effect_value(EffectKey::EchoXFBLtoR, profile, after) == echo.xfb_l_to_r
            &&& microphone.effect_value(EffectKey::EchoFeedbackR, profile, after) == echo.feedback_r
            &&& microphone.effect_value(EffectKey::EchoXFBRtoL, profile, after) == echo.xfb_r_to_l
            &&& microphone.effect_value(EffectKey::EchoSource, profile, after) == echo.source
            &&& microphone.effect_value(EffectKey::EchoDivL, profile, after) == echo.div_l
            &&& microphone.effect_value(EffectKey::EchoDivR, profile, after) == echo.div_r
            &&& microphone.effect_value(EffectKey::EchoFilterStyle, profile, after) == echo.filter_style
            &&& forall|key: EffectKey|
                key != EffectKey::EchoAmount && key != EffectKey::EchoFeedback && key != EffectKey::EchoTempo && key != EffectKey::EchoDelayL && key != EffectKey::EchoDelayR && key != EffectKey::EchoFeedbackL && key != EffectKey::EchoXFBLtoR && key != EffectKey::EchoFeedbackR && key != EffectKey::EchoXFBRtoL && key != EffectKey::EchoSource && key != EffectKey::EchoDivL && key != EffectKey::EchoDivR && key != EffectKey::EchoFilterStyle ==> #[trigger] microphone.effect_value(key, profile, after)
                    == microphone.effect_value(key, profile, voice)
        }),
{
}

/// Each setting of the pitch is sent under the key of its name, and nothing else depends on it.
pub proof fn pitch_is_sent(
    microphone: MicProfileAdapter,
    profile: ProfileAdapter,
    voice: VoiceValues,
    pitch: PitchValues,
)
    ensures
        ({
            let after = VoiceValues { pitch, ..voice };
            &&& microphone.effect_value(EffectKey::PitchAmount, profile, after) == pitch.amount
            &&& microphone.effect_value(EffectKey::PitchThreshold, profile, after) == pitch.threshold
            &&& microphone.effect_value(EffectKey::PitchCharacter, profile, after) == pitch.character
            &&& forall|key: EffectKey|
                key != EffectKey::PitchAmount && key != EffectKey::PitchThreshold && key != EffectKey::PitchCharacter ==> #[trigger] microphone.effect_value(key, profile, after)
                    == microphone.effect_value(key, profile, voice)
        }),
{
}

/// Each setting of the gender is sent under the key of its name, and nothing else depends on it.
pub proof fn gender_is_sent(
    microphone: MicProfileAdapter,
    profile: ProfileAdapter,
    voice: VoiceValues,
    gender: GenderValues,
)
    ensures
        ({
            let after = VoiceValues { gender, ..voice };
            &&& microphone.effect_value(EffectKey::GenderAmount, profile, after) == gender.amount
            &&& forall|key: EffectKey|
                key != EffectKey::GenderAmount ==> #[trigger] microphone.effect_value(key, profile, after)
                    == microphone.effect_value(key, profile, voice)
        }),
{
}

/// Each setting of the megaphone is sent under the key of its name, and nothing else depends on it.
pub proof fn megaphone_is_sent(
    microphone: MicProfileAdapter,
    profile: ProfileAdapter,
    voice: VoiceValues,
    megaphone: MegaphoneValues,
)
    ensures
        ({
            let after = VoiceValues { megaphone, ..voice };
            &&& microphone.effect_value(EffectKey::MegaphoneAmount, profile, after) == megaphone.amount
            &&& microphone.effect_value(EffectKey::MegaphonePostGain, profile, after) == megaphone.post_gain
            &&& microphone.effect_value(EffectKey::MegaphoneStyle, profile, after) == megaphone.style
            &&& microphone.effect_value(EffectKey::MegaphoneHP, profile, after) == megaphone.hp
            &&& microphone.effect_value(EffectKey::MegaphoneLP, profile, after) == megaphone.lp
            &&& microphone.effect_value(EffectKey::MegaphonePreGain, profile, after) == megaphone.pre_gain
            &&& microphone.effect_value(EffectKey::MegaphoneDistType, profile, after) == megaphone.dist_type
            &&& microphone.effect_value(EffectKey::MegaphonePresenceGain, profile, after) == megaphone.presence_gain
            &&& microphone.effect_value(EffectKey::MegaphonePresenceFC, profile, after) == megaphone.presence_fc
            &&& microphone.effect_value(EffectKey::MegaphonePresenceBW, profile, after) == megaphone.presence_bw
            &&& microphone.effect_value(EffectKey::MegaphoneBeatboxEnable, profile, after) == megaphone.beatbox_enable
            &&& microphone.effect_value(EffectKey::MegaphoneFilterControl, profile, after) == megaphone.filter_control
            &&& microphone.effect_value(EffectKey::MegaphoneFilter, profile, after) == megaphone.filter
            &&& microphone.effect_value(EffectKey::MegaphoneDrivePotGainCompMid, profile, after) == megaphone.drive_pot_gain_comp_mid
            &&& microphone.effect_value(EffectKey::MegaphoneDrivePotGainCompMax, profile, after) == megaphone.drive_pot_gain_comp_max
            &&& forall|key: EffectKey|
                key != EffectKey::MegaphoneAmount && key != EffectKey::MegaphonePostGain && key != EffectKey::MegaphoneStyle && key != EffectKey::MegaphoneHP && key != EffectKey::MegaphoneLP && key != EffectKey::MegaphonePreGain && key != EffectKey::MegaphoneDistType && key != EffectKey::MegaphonePresenceGain && key != EffectKey::MegaphonePresenceFC && key != EffectKey::MegaphonePresenceBW && key != EffectKey::MegaphoneBeatboxEnable && key != EffectKey::MegaphoneFilterControl && key != EffectKey::MegaphoneFilter && key != EffectKey::MegaphoneDrivePotGainCompMid && key != EffectKey::MegaphoneDrivePotGainCompMax ==> #[trigger] microphone.effect_value(key, profile, after)
                    == microphone.effect_value(key, profile, voice)
        }),
{
}

/// Each setting of hard tune is sent under the key of its name, and nothing else depends on it.
pub proof fn hard_tune_is_sent(
    microphone: MicProfileAdapter,
    profile: ProfileAdapter,
    voice: VoiceValues,
    hard_tune: HardTuneValues,
)
    ensures
        ({
            let after = VoiceValues { hard_tune, ..voice };
            &&& microphone.effect_value(EffectKey::HardTuneAmount, profile, after) == hard_tune.amount
            &&& microphone.effect_value(EffectKey::HardTuneScale, profile, after) == hard_tune.scale
            &&& microphone.effect_value(EffectKey::HardTunePitchAmount, profile, after) == hard_tune.pitch_amount
            &&& microphone.effect_value(EffectKey::HardTuneRate, profile, after) == hard_tune.rate
            &&& microphone.effect_value(EffectKey::HardTuneWindow, profile, after) == hard_tune.window
            &&& forall|key: EffectKey|
                key != EffectKey::HardTuneAmount && key != EffectKey::HardTuneScale && key != EffectKey::HardTunePitchAmount && key != EffectKey::HardTuneRate && key != EffectKey::HardTuneWindow ==> #[trigger] microphone.effect_value(key, profile, after)
                    == microphone.effect_value(key, profile, voice)
        }),
{
}

/// Each setting of the robot is sent under the key of its name, and nothing else depends on it.
pub proof fn robot_is_sent(
    microphone: MicProfileAdapter,
    profile: ProfileAdapter,
    voice: VoiceValues,
    robot: RobotValues,
)
    ensures
        ({
            let after = VoiceValues { robot, ..voice };
            &&& microphone.effect_value(EffectKey::RobotLowGain, profile, after) == robot.low_gain
            &&& microphone.effect_value(EffectKey::RobotLowFreq, profile, after) == robot.low_freq
            &&& microphone.effect_value(EffectKey::RobotLowWidth, profile, after) == robot.low_width
            &&& microphone.effect_value(EffectKey::RobotMidGain, profile, after) == robot.mid_gain
            &&& microphone.effect_value(EffectKey::RobotMidFreq, profile, after) == robot.mid_freq
            &&& microphone.effect_value(EffectKey::RobotMidWidth, profile, after) == robot.mid_width
            &&& microphone.effect_value(EffectKey::RobotHiGain, profile, after) == robot.hi_gain
            &&& microphone.effect_value(EffectKey::RobotHiFreq, profile, after) == robot.hi_freq
            &&& microphone.effect_value(EffectKey::RobotHiWidth, profile, after) == robot.hi_width
            &&& microphone.effect_value(EffectKey::RobotWaveform, profile, after) == robot.waveform
            &&& microphone.effect_value(EffectKey::RobotPulseWidth, profile, after) == robot.pulse_width
            &&& microphone.effect_value(EffectKey::RobotThreshold, profile, after) == robot.threshold
            &&& microphone.effect_value(EffectKey::RobotDryMix, profile, after) == robot.dry_mix
            &&& microphone.effect_value(EffectKey::RobotStyle, profile, after) == robot.style
            &&& forall|key: EffectKey|
                key != EffectKey::RobotLowGain && key != EffectKey::RobotLowFreq && key != EffectKey::RobotLowWidth && key != EffectKey::RobotMidGain && key != EffectKey::RobotMidFreq && key != EffectKey::RobotMidWidth && key != EffectKey::RobotHiGain && key != EffectKey::RobotHiFreq && key != EffectKey::RobotHiWidth && key != EffectKey::RobotWaveform && key != EffectKey::RobotPulseWidth && key != EffectKey::RobotThreshold && key != EffectKey::RobotDryMix && key != EffectKey::RobotStyle ==> #[trigger] microphone.effect_value(key, profile, after)
                    == microphone.effect_value(key, profile, voice)
        }),
{
}

/// What a command gives to the noise gate is what both parts of the device are told, each in its
/// form.
pub proof fn gate_commands_reach_the_device(
    microphone: MicProfileAdapter,
    profile: ProfileAdapter,
    voice: VoiceValues,
    step: i32,
    small: i8,
    place: u8,
)
    ensures
        microphone.after_taken(&GoXLRCommand::SetGateThreshold(small), step).effect_value(EffectKey::GateThreshold, profile, voice) == small,
        microphone.after_taken(&GoXLRCommand::SetGateThreshold(small), step).param_value(MicrophoneParamKey::GateThreshold) == number_bytes(small as int),
        microphone.after_taken(&GoXLRCommand::SetGateAttack(place), step).effect_value(EffectKey::GateAttack, profile, voice) == place,
        microphone.after_taken(&GoXLRCommand::SetGateAttack(place), step).param_value(MicrophoneParamKey::GateAttack) == number_bytes(place as int),
        microphone.after_taken(&GoXLRCommand::SetGateRelease(place), step).effect_value(EffectKey::GateRelease, profile, voice) == place,
        microphone.after_taken(&GoXLRCommand::SetGateRelease(place), step).param_value(MicrophoneParamKey::GateRelease) == number_bytes(place as int),
        microphone.after_taken(&GoXLRCommand::SetGateActive(true), step).gate.enabled,
        !microphone.after_taken(&GoXLRCommand::SetGateActive(false), step).gate.enabled,
{
}

/// The noise gate takes away six decibels at least and sixty-one at most, and both parts of the device
/// are told the same.
pub proof fn gate_attenuation_reaches_the_device(
    microphone: MicProfileAdapter,
    profile: ProfileAdapter,
    voice: VoiceValues,
    step: i32,
    percent: u8,
)
    ensures
        microphone.after_taken(&GoXLRCommand::SetGateAttenuation(percent), step).param_value(MicrophoneParamKey::GateAttenuation) == number_bytes(microphone.after_taken(&GoXLRCommand::SetGateAttenuation(percent), step).effect_value(EffectKey::GateAttenuation, profile, voice) as int),
        -61 <= microphone.after_taken(&GoXLRCommand::SetGateAttenuation(percent), step).effect_value(EffectKey::GateAttenuation, profile, voice) <= -6,
        percent == 0 ==> microphone.after_taken(&GoXLRCommand::SetGateAttenuation(percent), step).effect_value(EffectKey::GateAttenuation, profile, voice) == -6,
        percent >= 100 ==> microphone.after_taken(&GoXLRCommand::SetGateAttenuation(percent), step).effect_value(EffectKey::GateAttenuation, profile, voice) == -61,
{
}

/// What a command gives to the compressor is what both parts of the device are told, each in its form.
pub proof fn compressor_commands_reach_the_device(
    microphone: MicProfileAdapter,
    profile: ProfileAdapter,
    voice: VoiceValues,
    step: i32,
    small: i8,
    place: u8,
)
    ensures
        microphone.after_taken(&GoXLRCommand::SetCompressorThreshold(small), step).effect_value(EffectKey::CompressorThreshold, profile, voice) == small,
        microphone.after_taken(&GoXLRCommand::SetCompressorThreshold(small), step).param_value(MicrophoneParamKey::CompressorThreshold) == number_bytes(small as int),
        microphone.after_taken(&GoXLRCommand::SetCompressorRatio(place), step).effect_value(EffectKey::CompressorRatio, profile, voice) == place,
        microphone.after_taken(&GoXLRCommand::SetCompressorRatio(place), step).param_value(MicrophoneParamKey::CompressorRatio) == number_bytes(place as int),
        microphone.after_taken(&GoXLRCommand::SetCompressorAttack(place), step).effect_value(EffectKey::CompressorAttack, profile, voice) == place,
        microphone.after_taken(&GoXLRCommand::SetCompressorAttack(place), step).param_value(MicrophoneParamKey::CompressorAttack) == number_bytes(place as int),
        microphone.after_taken(&GoXLRCommand::SetCompressorReleaseTime(place), step).effect_value(EffectKey::CompressorRelease, profile, voice) == place,
        microphone.after_taken(&GoXLRCommand::SetCompressorReleaseTime(place), step).param_value(MicrophoneParamKey::CompressorRelease) == number_bytes(place as int),
        microphone.after_taken(&GoXLRCommand::SetCompressorMakeupGain(small), step).effect_value(EffectKey::CompressorMakeUpGain, profile, voice) == small,
        microphone.after_taken(&GoXLRCommand::SetCompressorMakeupGain(small), step).param_value(MicrophoneParamKey::CompressorMakeUpGain) == number_bytes(small as int),
{
}

/// What a command gives to the de-esser and to the swear button is what the device is told.
pub proof fn voice_commands_reach_the_device(
    microphone: MicProfileAdapter,
    profile: ProfileAdapter,
    voice: VoiceValues,
    step: i32,
    level: i8,
    strength: u8,
)
    ensures
        microphone.after_taken(&GoXLRCommand::SetDeeser(strength), step).effect_value(EffectKey::DeEsser, profile, voice) == strength,
        microphone.after_taken(&GoXLRCommand::SetSwearButtonVolume(level), step).effect_value(EffectKey::BleepLevel, profile, voice) == level,
        microphone.after_taken(&GoXLRCommand::SetSwearButtonVolume(level), step).param_value(MicrophoneParamKey::BleepLevel) == number_bytes(level * 65536),
{
}

/// What a command gives to a band of the equaliser is what the device is told of that band.
pub proof fn equaliser_commands_reach_the_device(
    microphone: MicProfileAdapter,
    profile: ProfileAdapter,
    voice: VoiceValues,
    step: i32,
    gain: i8,
    frequency: SingleBits,
)
    ensures
        microphone.after_taken(&GoXLRCommand::SetEqGain(EqFrequencies::Equalizer31Hz, gain), step).effect_value(EffectKey::Equalizer31HzGain, profile, voice) == gain,
        microphone.after_taken(&GoXLRCommand::SetEqFreq(EqFrequencies::Equalizer31Hz, frequency), step).effect_value(EffectKey::Equalizer31HzFrequency, profile, voice) == step,
        microphone.after_taken(&GoXLRCommand::SetEqGain(EqFrequencies::Equalizer63Hz, gain), step).effect_value(EffectKey::Equalizer63HzGain, profile, voice) == gain,
        microphone.after_taken(&GoXLRCommand::SetEqFreq(EqFrequencies::Equalizer63Hz, frequency), step).effect_value(EffectKey::Equalizer63HzFrequency, profile, voice) == step,
        microphone.after_taken(&GoXLRCommand::SetEqGain(EqFrequencies::Equalizer125Hz, gain), step).effect_value(EffectKey::Equalizer125HzGain, profile, voice) == gain,
        microphone.after_taken(&GoXLRCommand::SetEqFreq(EqFrequencies::Equalizer125Hz, frequency), step).effect_value(EffectKey::Equalizer125HzFrequency, profile, voice) == step,
        microphone.after_taken(&GoXLRCommand::SetEqGain(EqFrequencies::Equalizer250Hz, gain), step).effect_value(EffectKey::Equalizer250HzGain, profile, voice) == gain,
        microphone.after_taken(&GoXLRCommand::SetEqFreq(EqFrequencies::Equalizer250Hz, frequency), step).effect_value(EffectKey::Equalizer250HzFrequency, profile, voice) == step,
        microphone.after_taken(&GoXLRCommand::SetEqGain(EqFrequencies::Equalizer500Hz, gain), step).effect_value(EffectKey::Equalizer500HzGain, profile, voice) == gain,
        microphone.after_taken(&GoXLRCommand::SetEqFreq(EqFrequencies::Equalizer500Hz, frequency), step).effect_value(EffectKey::Equalizer500HzFrequency, profile, voice) == step,
        microphone.after_taken(&GoXLRCommand::SetEqGain(EqFrequencies::Equalizer1KHz, gain), step).effect_value(EffectKey::Equalizer1KHzGain, profile, voice) == gain,
        microphone.after_taken(&GoXLRCommand::SetEqFreq(EqFrequencies::Equalizer1KHz, frequency), step).effect_value(EffectKey::Equalizer1KHzFrequency, profile, voice) == step,
        microphone.after_taken(&GoXLRCommand::SetEqGain(EqFrequencies::Equalizer2KHz, gain), step).effect_value(EffectKey::Equalizer2KHzGain, profile, voice) == gain,
        microphone.after_taken(&GoXLRCommand::SetEqFreq(EqFrequencies::Equalizer2KHz, frequency), step).effect_value(EffectKey::Equalizer2KHzFrequency, profile, voice) == step,
        microphone.after_taken(&GoXLRCommand::SetEqGain(EqFrequencies::Equalizer4KHz, gain), step).effect_value(EffectKey::Equalizer4KHzGain, profile, voice) == gain,
        microphone.after_taken(&GoXLRCommand::SetEqFreq(EqFrequencies::Equalizer4KHz, frequency), step).effect_value(EffectKey::Equalizer4KHzFrequency, profile, voice) == step,
        microphone.after_taken(&GoXLRCommand::SetEqGain(EqFrequencies::Equalizer8KHz, gain), step).effect_value(EffectKey::Equalizer8KHzGain, profile, voice) == gain,
        microphone.after_taken(&GoXLRCommand::SetEqFreq(EqFrequencies::Equalizer8KHz, frequency), step).effect_value(EffectKey::Equalizer8KHzFrequency, profile, voice) == step,
        microphone.after_taken(&GoXLRCommand::SetEqGain(EqFrequencies::Equalizer16KHz, gain), step).effect_value(EffectKey::Equalizer16KHzGain, profile, voice) == gain,
        microphone.after_taken(&GoXLRCommand::SetEqFreq(EqFrequencies::Equalizer16KHz, frequency), step).effect_value(EffectKey::Equalizer16KHzFrequency, profile, voice) == step,
{
}

/// What a command gives to a band of the equaliser of a smaller device is what the device is told of
/// that band.
pub proof fn small_equaliser_commands_reach_the_device(
    microphone: MicProfileAdapter,
    profile: ProfileAdapter,
    voice: VoiceValues,
    step: i32,
    gain: i8,
    frequency: SingleBits,
)
    ensures
        microphone.after_taken(&GoXLRCommand::SetEqMiniGain(MiniEqFrequencies::Equalizer90Hz, gain), step).param_value(MicrophoneParamKey::Equalizer90HzGain) == number_bytes(gain as int),
        microphone.after_taken(&GoXLRCommand::SetEqMiniFreq(MiniEqFrequencies::Equalizer90Hz, frequency), step).param_value(MicrophoneParamKey::Equalizer90HzFrequency) == crate::bytes::u32_bytes(frequency.bits),
        microphone.after_taken(&GoXLRCommand::SetEqMiniGain(MiniEqFrequencies::Equalizer250Hz, gain), step).param_value(MicrophoneParamKey::Equalizer250HzGain) == number_bytes(gain as int),
        microphone.after_taken(&GoXLRCommand::SetEqMiniFreq(MiniEqFrequencies::Equalizer250Hz, frequency), step).param_value(MicrophoneParamKey::Equalizer250HzFrequency) == crate::bytes::u32_bytes(frequency.bits),
        microphone.after_taken(&GoXLRCommand::SetEqMiniGain(MiniEqFrequencies::Equalizer500Hz, gain), step).param_value(MicrophoneParamKey::Equalizer500HzGain) == number_bytes(gain as int),
        microphone.after_taken(&GoXLRCommand::SetEqMiniFreq(MiniEqFrequencies::Equalizer500Hz, frequency), step).param_value(MicrophoneParamKey::Equalizer500HzFrequency) == crate::bytes::u32_bytes(frequency.bits),
        microphone.after_taken(&GoXLRCommand::SetEqMiniGain(MiniEqFrequencies::Equalizer1KHz, gain), step).param_value(MicrophoneParamKey::Equalizer1KHzGain) == number_bytes(gain as int),
        microphone.after_taken(&GoXLRCommand::SetEqMiniFreq(MiniEqFrequencies::Equalizer1KHz, frequency), step).param_value(MicrophoneParamKey::Equalizer1KHzFrequency) == crate::bytes::u32_bytes(frequency.bits),
        microphone.after_taken(&GoXLRCommand::SetEqMiniGain(MiniEqFrequencies::Equalizer3KHz, gain), step).param_value(MicrophoneParamKey::Equalizer3KHzGain) == number_bytes(gain as int),
        microphone.after_taken(&GoXLRCommand::SetEqMiniFreq(MiniEqFrequencies::Equalizer3KHz, frequency), step).param_value(MicrophoneParamKey::Equalizer3KHzFrequency) == crate::bytes::u32_bytes(frequency.bits),
        microphone.after_taken(&GoXLRCommand::SetEqMiniGain(MiniEqFrequencies::Equalizer8KHz, gain), step).param_value(MicrophoneParamKey::Equalizer8KHzGain) == number_bytes(gain as int),
        microphone.after_taken(&GoXLRCommand::SetEqMiniFreq(MiniEqFrequencies::Equalizer8KHz, frequency), step).param_value(MicrophoneParamKey::Equalizer8KHzFrequency) == crate::bytes::u32_bytes(frequency.bits),
{
}

/// A gain that a command gives to an input is sent for that input, in the upper half of its four
/// bytes, and the input is the one in use. Only a condenser microphone is powered.
pub proof fn gains_reach_the_device(microphone: MicProfileAdapter, kind: MicrophoneType, gain: u16)
    ensures
        ({
            let outcome = StoreOutcome { set: Ok(()), gain: Ok(()), step: 0 };
            let command = GoXLRCommand::SetMicrophoneGain(kind, gain);
            let after = microphone.after_command(&command, outcome);
            let key = match kind {
                MicrophoneType::Dynamic => MicrophoneParamKey::DynamicGain,
                MicrophoneType::Condenser => MicrophoneParamKey::CondenserGain,
                MicrophoneType::Jack => MicrophoneParamKey::JackGain,
            };
            &&& after.microphone() == kind
            &&& after.param_value(key).len() == 4
            &&& after.param_value(key)[0] == 0
            &&& after.param_value(key)[1] == 0
            &&& after.param_value(key)[2] + 256 * after.param_value(key)[3] == gain
            &&& after.param_value(MicrophoneParamKey::MicType)[0] == switched(
                kind == MicrophoneType::Condenser,
            )
        }),
{
}

} // verus!
