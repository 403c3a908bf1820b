//! What a stored value leads to: the device is told exactly what changed.

use crate::command::{GoXLRCommand, RobotRange};
use crate::device::commands::CommandContext;
use crate::device::follow::{follow_of, Follow};
use crate::device::state::Draft;
use crate::device::told::{calls_after_step, tells};
use crate::keys::{group_keys, EffectGroup, EffectKey, MicrophoneParamKey};
use crate::mic_profile::{
    EchoValues, GenderValues, HardTuneValues, MegaphoneValues, MicProfileAdapter, PitchValues,
    ReverbValues, RobotValues, VoiceValues,
};
use crate::plan::{Change, Step, UsbCall, VoiceChange};
use crate::profile::ProfileAdapter;
use crate::types::{EncoderName, FaderName};
use vstd::prelude::*;

verus! {

/// Whether the value of an effect is sent in some of the steps.
pub open spec fn sends_effect(steps: Seq<Step>, key: EffectKey) -> bool
    decreases steps.len(),
{
    if steps.len() == 0 {
        false
    } else {
        ||| steps.last() matches Step::Usb(UsbCall::SendEffects(group)) && group_keys(
            group,
        ).contains(key)
        ||| sends_effect(steps.drop_last(), key)
    }
}

/// Whether a step sends the value of an effect.
pub open spec fn is_sending(step: Step, key: EffectKey) -> bool {
    step matches Step::Usb(UsbCall::SendEffects(group)) && group_keys(group).contains(key)
}

/// What one more step sends of an effect.
proof fn lemma_sends_after_step(draft: Draft, step: Step, key: EffectKey)
    ensures
        sends_effect(draft.then_do(step).steps, key) == (is_sending(step, key) || sends_effect(
            draft.steps,
            key,
        )),
{
    reveal(Draft::then_do);
    assert(draft.then_do(step).steps.drop_last() =~= draft.steps);
}

/// Whether what follows a command sends the value of an effect.
pub open spec fn reaches(command: &GoXLRCommand, key: EffectKey) -> bool {
    match follow_of(command) {
        Some(Follow::Bleep) => key == EffectKey::BleepLevel,
        Some(Follow::ParamEffect(_, sent)) => key == sent,
        Some(Follow::Effects(EffectGroup::Key(sent))) => key == sent,
        Some(Follow::Effects(group)) => group_keys(group).contains(key),
        Some(Follow::Encoder(_, sent)) => key == sent,
        Some(Follow::PitchStyle) => key == EffectKey::PitchThreshold,
        _ => false,
    }
}

/// Whether what follows a command sends a parameter of the microphone.
pub open spec fn reaches_param(command: &GoXLRCommand, key: MicrophoneParamKey) -> bool {
    match follow_of(command) {
        Some(Follow::Bleep) => key == MicrophoneParamKey::BleepLevel,
        Some(Follow::Param(sent)) => key == sent,
        Some(Follow::ParamEffect(sent, _)) => key == sent,
        Some(Follow::MicGain) => key == MicrophoneParamKey::MicType || key
            == MicrophoneParamKey::DynamicGain || key == MicrophoneParamKey::CondenserGain || key
            == MicrophoneParamKey::JackGain,
        _ => false,
    }
}

/// A command whose value is only stored is stored first, and what follows is sent: the effects, the
/// parameters of the microphone, and for an encoder where it stands.
pub proof fn stored_value_is_sent(
    draft: Draft,
    command: &GoXLRCommand,
    context: CommandContext,
    key: EffectKey,
    param: MicrophoneParamKey,
)
    ensures
        ({
            let after = draft.commanded(command, context);
            &&& follow_of(command) is Some ==> after.steps.len() > draft.steps.len()
                && after.steps[draft.steps.len() as int] == Step::Store(*command)
            &&& reaches(command, key) ==> sends_effect(after.steps, key)
            &&& reaches_param(command, param) ==> tells(after.steps, UsbCall::SendMicParam(param))
                || tells(after.steps, UsbCall::SendMicGain)
            &&& follow_of(command) matches Some(Follow::Encoder(name, _)) ==> tells(
                after.steps,
                UsbCall::SetEncoder(name, context.encoder),
            )
            &&& follow_of(command) matches Some(Follow::Scribble(fader)) ==> tells(
                after.steps,
                UsbCall::SendScribble(fader),
            )
            &&& follow_of(command) matches Some(Follow::Display(fader)) ==> tells(
                after.steps,
                UsbCall::SendFaderDisplay(fader),
            )
        }),
{
    match follow_of(command) {
        Some(follow) => {
            let stored = draft.then_do(Step::Store(*command));
            let after = draft.commanded(command, context);
            assert(after == stored.followed(follow, context.encoder)) by {
                reveal(Draft::commanded);
            }
            assert(stored.steps =~= draft.steps.push(Step::Store(*command))) by {
                reveal(Draft::then_do);
            }
            lemma_followed(stored, follow, context.encoder, key, param);
            lemma_followed_extends(stored, follow, context.encoder);
            assert(after.steps[draft.steps.len() as int] == after.steps.take(
                stored.steps.len() as int,
            )[draft.steps.len() as int]);
        },
        None => {},
    }
}

/// What follows a stored value comes after what was there.
proof fn lemma_followed_extends(draft: Draft, follow: Follow, encoder: i8)
    ensures
        draft.followed(follow, encoder).steps.len() >= draft.steps.len(),
        draft.followed(follow, encoder).steps.take(draft.steps.len() as int) =~= draft.steps,
{
    reveal(Draft::followed);
    reveal(Draft::encoder_placed);
    reveal(Draft::pitch_mode_sent);
    reveal(Draft::displays_sent);
    reveal(Draft::usb_if);
    reveal(Draft::then_do);
}

/// What follows a stored value sends.
proof fn lemma_followed(
    draft: Draft,
    follow: Follow,
    encoder: i8,
    key: EffectKey,
    param: MicrophoneParamKey,
)
    ensures
        ({
            let after = draft.followed(follow, encoder);
            match follow {
                Follow::Bleep => (key == EffectKey::BleepLevel ==> sends_effect(after.steps, key))
                    && tells(after.steps, UsbCall::SendMicParam(MicrophoneParamKey::BleepLevel)),
                Follow::MicGain => tells(after.steps, UsbCall::SendMicGain),
                Follow::Param(sent) => tells(after.steps, UsbCall::SendMicParam(sent)),
                Follow::ParamEffect(first, second) => (key == second ==> sends_effect(
                    after.steps,
                    key,
                )) && tells(after.steps, UsbCall::SendMicParam(first)),
                Follow::Effects(group) => group_keys(group).contains(key) ==> sends_effect(
                    after.steps,
                    key,
                ),
                Follow::Encoder(name, second) => (key == second ==> sends_effect(after.steps, key))
                    && tells(after.steps, UsbCall::SetEncoder(name, encoder)),
                Follow::PitchStyle => (key == EffectKey::PitchThreshold ==> sends_effect(
                    after.steps,
                    key,
                )) && tells(after.steps, UsbCall::SetEncoder(EncoderName::Pitch, encoder)),
                Follow::Scribble(fader) => tells(after.steps, UsbCall::SendScribble(fader)),
                Follow::Display(fader) => tells(after.steps, UsbCall::SendFaderDisplay(fader)),
                _ => true,
            }
        }),
        (match follow {
            Follow::Effects(EffectGroup::Key(sent)) => key == sent ==> sends_effect(
                draft.followed(follow, encoder).steps,
                key,
            ),
            _ => true,
        }),
{
    reveal(Draft::followed);
    match follow {
        Follow::Bleep => {
            let effect = Step::Usb(UsbCall::SendEffects(EffectGroup::Key(EffectKey::BleepLevel)));
            let call = UsbCall::SendMicParam(MicrophoneParamKey::BleepLevel);
            lemma_key_is_sent(EffectKey::BleepLevel);
            lemma_sends_after_step(draft, effect, key);
            lemma_sends_after_step(draft.then_do(effect), Step::Usb(call), key);
            calls_after_step(draft.then_do(effect), Step::Usb(call), call);
        },
        Follow::MicGain => {
            calls_after_step(draft, Step::Usb(UsbCall::SendMicGain), UsbCall::SendMicGain);
        },
        Follow::Param(sent) => {
            let call = UsbCall::SendMicParam(sent);
            calls_after_step(draft, Step::Usb(call), call);
        },
        Follow::ParamEffect(first, second) => {
            let call = UsbCall::SendMicParam(first);
            let effect = Step::Usb(UsbCall::SendEffects(EffectGroup::Key(second)));
            lemma_key_is_sent(second);
            calls_after_step(draft, Step::Usb(call), call);
            calls_after_step(draft.usb(call), effect, call);
            lemma_sends_after_step(draft.usb(call), effect, key);
        },
        Follow::Effects(group) => {
            lemma_key_is_sent(key);
            lemma_sends_after_step(draft, Step::Usb(UsbCall::SendEffects(group)), key);
        },
        Follow::Encoder(name, second) => {
            lemma_encoder_placed(draft, name, encoder, second);
        },
        Follow::PitchStyle => {
            lemma_encoder_placed(
                draft.pitch_mode_sent(),
                EncoderName::Pitch,
                encoder,
                EffectKey::PitchThreshold,
            );
        },
        Follow::Scribble(fader) => {
            calls_after_step(
                draft,
                Step::Usb(UsbCall::SendScribble(fader)),
                UsbCall::SendScribble(fader),
            );
        },
        Follow::Display(fader) => {
            calls_after_step(
                draft,
                Step::Usb(UsbCall::SendFaderDisplay(fader)),
                UsbCall::SendFaderDisplay(fader),
            );
        },
        _ => {},
    }
}

/// A key is among those that are sent for it.
proof fn lemma_key_is_sent(key: EffectKey)
    ensures
        group_keys(EffectGroup::Key(key)).contains(key),
{
    assert(group_keys(EffectGroup::Key(key))[0] == key);
}

/// What placing an encoder sends.
proof fn lemma_encoder_placed(draft: Draft, name: EncoderName, value: i8, key: EffectKey)
    ensures
        sends_effect(draft.encoder_placed(name, value, key).steps, key),
        tells(draft.encoder_placed(name, value, key).steps, UsbCall::SetEncoder(name, value)),
{
    reveal(Draft::encoder_placed);
    let call = UsbCall::SetEncoder(name, value);
    let kept = draft.set(Change::Voice(VoiceChange::Encoder(name, value)));
    let effect = Step::Usb(UsbCall::SendEffects(EffectGroup::Key(key)));
    lemma_key_is_sent(key);
    calls_after_step(kept, Step::Usb(call), call);
    calls_after_step(kept.usb(call), effect, call);
    lemma_sends_after_step(kept.usb(call), effect, key);
}

/// Whatever a command changes of what the effect processor is to have, is sent to it.
#[verifier::rlimit(60)]
pub proof fn changed_microphone_effect_is_sent(
    microphone: MicProfileAdapter,
    profile: ProfileAdapter,
    voice: VoiceValues,
    command: &GoXLRCommand,
    step: i32,
    key: EffectKey,
)
    requires
        microphone.after_taken(command, step).effect_value(key, profile, voice)
            != microphone.effect_value(key, profile, voice),
    ensures
        reaches(command, key),
{
    reveal(follow_of);
}

/// Whatever a command changes of what the preamplifier is to have, is sent to it.
pub proof fn changed_microphone_parameter_is_sent(
    microphone: MicProfileAdapter,
    command: &GoXLRCommand,
    step: i32,
    key: MicrophoneParamKey,
)
    requires
        microphone.after_taken(command, step).param_value(key) != microphone.param_value(key),
    ensures
        reaches_param(command, key),
{
    reveal(follow_of);
}

/// Whatever a command gives to the reverb is sent under the key that depends on it.
pub proof fn changed_reverb_is_sent(
    microphone: MicProfileAdapter,
    profile: ProfileAdapter,
    voice: VoiceValues,
    number: i32,
    place: u8,
    wide: u16,
    small: i8,
)
    ensures
        forall|key: EffectKey| #[trigger]
            microphone.effect_value(
                key,
                profile,
                VoiceValues { reverb: ReverbValues { amount: number, ..voice.reverb }, ..voice },
            ) != microphone.effect_value(key, profile, voice) ==> reaches(&GoXLRCommand::SetReverbAmount(place), key),
        forall|key: EffectKey| #[trigger]
            microphone.effect_value(
                key,
                profile,
                VoiceValues { reverb: ReverbValues { decay: number, ..voice.reverb }, ..voice },
            ) != microphone.effect_value(key, profile, voice) ==> reaches(&GoXLRCommand::SetReverbDecay(wide), key),
        forall|key: EffectKey| #[trigger]
            microphone.effect_value(
                key,
                profile,
                VoiceValues { reverb: ReverbValues { early_level: number, ..voice.reverb }, ..voice },
            ) != microphone.effect_value(key, profile, voice) ==> reaches(&GoXLRCommand::SetReverbEarlyLevel(small), key),
        forall|key: EffectKey| #[trigger]
            microphone.effect_value(
                key,
                profile,
                VoiceValues { reverb: ReverbValues { predelay: number, ..voice.reverb }, ..voice },
            ) != microphone.effect_value(key, profile, voice) ==> reaches(&GoXLRCommand::SetReverbPreDelay(place), key),
        forall|key: EffectKey| #[trigger]
            microphone.effect_value(
                key,
                profile,
                VoiceValues { reverb: ReverbValues { low_color: number, ..voice.reverb }, ..voice },
            ) != microphone.effect_value(key, profile, voice) ==> reaches(&GoXLRCommand::SetReverbLowColour(small), key),
        forall|key: EffectKey| #[trigger]
            microphone.effect_value(
                key,
                profile,
                VoiceValues { reverb: ReverbValues { high_color: number, ..voice.reverb }, ..voice },
            ) != microphone.effect_value(key, profile, voice) ==> reaches(&GoXLRCommand::SetReverbHighColour(small), key),
        forall|key: EffectKey| #[trigger]
            microphone.effect_value(
                key,
                profile,
                VoiceValues { reverb: ReverbValues { high_factor: number, ..voice.reverb }, ..voice },
            ) != microphone.effect_value(key, profile, voice) ==> reaches(&GoXLRCommand::SetReverbHighFactor(small), key),
        forall|key: EffectKey| #[trigger]
            microphone.effect_value(
                key,
                profile,
                VoiceValues { reverb: ReverbValues { diffuse: number, ..voice.reverb }, ..voice },
            ) != microphone.effect_value(key, profile, voice) ==> reaches(&GoXLRCommand::SetReverbDiffuse(small), key),
        forall|key: EffectKey| #[trigger]
            microphone.effect_value(
                key,
                profile,
                VoiceValues { reverb: ReverbValues { mod_speed: number, ..voice.reverb }, ..voice },
            ) != microphone.effect_value(key, profile, voice) ==> reaches(&GoXLRCommand::SetReverbModSpeed(small), key),
        forall|key: EffectKey| #[trigger]
            microphone.effect_value(
                key,
                profile,
                VoiceValues { reverb: ReverbValues { mod_depth: number, ..voice.reverb }, ..voice },
            ) != microphone.effect_value(key, profile, voice) ==> reaches(&GoXLRCommand::SetReverbModDepth(small), key),
        reaches(&GoXLRCommand::SetReverbTailLevel(small), EffectKey::ReverbTailLevel),
{
    reveal(follow_of);
}

/// Whatever a command gives to the echo is sent under the key that depends on it.
pub proof fn changed_echo_is_sent(
    microphone: MicProfileAdapter,
    profile: ProfileAdapter,
    voice: VoiceValues,
    number: i32,
    place: u8,
    wide: u16,
)
    ensures
        forall|key: EffectKey| #[trigger]
            microphone.effect_value(
                key,
                profile,
                VoiceValues { echo: EchoValues { amount: number, ..voice.echo }, ..voice },
            ) != microphone.effect_value(key, profile, voice) ==> reaches(&GoXLRCommand::SetEchoAmount(place), key),
        forall|key: EffectKey| #[trigger]
            microphone.effect_value(
                key,
                profile,
                VoiceValues { echo: EchoValues { feedback: number, ..voice.echo }, ..voice },
            ) != microphone.effect_value(key, profile, voice) ==> reaches(&GoXLRCommand::SetEchoFeedback(place), key),
        forall|key: EffectKey| #[trigger]
            microphone.effect_value(
                key,
                profile,
                VoiceValues { echo: EchoValues { tempo: number, ..voice.echo }, ..voice },
            ) != microphone.effect_value(key, profile, voice) ==> reaches(&GoXLRCommand::SetEchoTempo(wide), key),
        forall|key: EffectKey| #[trigger]
            microphone.effect_value(
                key,
                profile,
                VoiceValues { echo: EchoValues { delay_l: number, ..voice.echo }, ..voice },
            ) != microphone.effect_value(key, profile, voice) ==> reaches(&GoXLRCommand::SetEchoDelayLeft(wide), key),
        forall|key: EffectKey| #[trigger]
            microphone.effect_value(
                key,
                profile,
                VoiceValues { echo: EchoValues { delay_r: number, ..voice.echo }, ..voice },
            ) != microphone.effect_value(key, profile, voice) ==> reaches(&GoXLRCommand::SetEchoDelayRight(wide), key),
        forall|key: EffectKey| #[trigger]
            microphone.effect_value(
                key,
                profile,
                VoiceValues { echo: EchoValues { feedback_l: number, ..voice.echo }, ..voice },
            ) != microphone.effect_value(key, profile, voice) ==> reaches(&GoXLRCommand::SetEchoFeedbackLeft(place), key),
        forall|key: EffectKey| #[trigger]
            microphone.effect_value(
                key,
                profile,
                VoiceValues { echo: EchoValues { feedback_r: number, ..voice.echo }, ..voice },
            ) != microphone.effect_value(key, profile, voice) ==> reaches(&GoXLRCommand::SetEchoFeedbackRight(place), key),
        forall|key: EffectKey| #[trigger]
            microphone.effect_value(
                key,
                profile,
                VoiceValues { echo: EchoValues { xfb_r_to_l: number, ..voice.echo }, ..voice },
            ) != microphone.effect_value(key, profile, voice) ==> reaches(&GoXLRCommand::SetEchoFeedbackXFBRtoL(place), key),
        forall|key: EffectKey| #[trigger]
            microphone.effect_value(
                key,
                profile,
                VoiceValues { echo: EchoValues { xfb_l_to_r: number, ..voice.echo }, ..voice },
            ) != microphone.effect_value(key, profile, voice) ==> reaches(&GoXLRCommand::SetEchoFeedbackXFBLtoR(place), key),
{
    reveal(follow_of);
}

/// Whatever a command gives to the pitch, the gender, the megaphone or hard tune is sent under the key
/// that depends on it.
pub proof fn changed_voice_is_sent(
    microphone: MicProfileAdapter,
    profile: ProfileAdapter,
    voice: VoiceValues,
    number: i32,
    place: u8,
    wide: u16,
    small: i8,
)
    ensures
        forall|key: EffectKey| #[trigger]
            microphone.effect_value(
                key,
                profile,
                VoiceValues { pitch: PitchValues { amount: number, ..voice.pitch }, ..voice },
            ) != microphone.effect_value(key, profile, voice) ==> reaches(&GoXLRCommand::SetPitchAmount(small), key),
        forall|key: EffectKey| #[trigger]
            microphone.effect_value(
                key,
                profile,
                VoiceValues { pitch: PitchValues { character: number, ..voice.pitch }, ..voice },
            ) != microphone.effect_value(key, profile, voice) ==> reaches(&GoXLRCommand::SetPitchCharacter(place), key),
        forall|key: EffectKey| #[trigger]
            microphone.effect_value(
                key,
                profile,
                VoiceValues { pitch: PitchValues { threshold: number, ..voice.pitch }, ..voice },
            ) != microphone.effect_value(key, profile, voice) ==> reaches(&GoXLRCommand::SetPitchStyle(place), key),
        forall|key: EffectKey| #[trigger]
            microphone.effect_value(
                key,
                profile,
                VoiceValues { gender: GenderValues { amount: number, ..voice.gender }, ..voice },
            ) != microphone.effect_value(key, profile, voice) ==> reaches(&GoXLRCommand::SetGenderAmount(small), key),
        forall|key: EffectKey| #[trigger]
            microphone.effect_value(
                key,
                profile,
                VoiceValues { megaphone: MegaphoneValues { amount: number, ..voice.megaphone }, ..voice },
            ) != microphone.effect_value(key, profile, voice) ==> reaches(&GoXLRCommand::SetMegaphoneAmount(place), key),
        forall|key: EffectKey| #[trigger]
            microphone.effect_value(
                key,
                profile,
                VoiceValues { megaphone: MegaphoneValues { post_gain: number, ..voice.megaphone }, ..voice },
            ) != microphone.effect_value(key, profile, voice) ==> reaches(&GoXLRCommand::SetMegaphonePostGain(small), key),
        forall|key: EffectKey| #[trigger]
            microphone.effect_value(
                key,
                profile,
                VoiceValues { hard_tune: HardTuneValues { amount: number, ..voice.hard_tune }, ..voice },
            ) != microphone.effect_value(key, profile, voice) ==> reaches(&GoXLRCommand::SetHardTuneAmount(place), key),
        forall|key: EffectKey| #[trigger]
            microphone.effect_value(
                key,
                profile,
                VoiceValues { hard_tune: HardTuneValues { rate: number, ..voice.hard_tune }, ..voice },
            ) != microphone.effect_value(key, profile, voice) ==> reaches(&GoXLRCommand::SetHardTuneRate(place), key),
        forall|key: EffectKey| #[trigger]
            microphone.effect_value(
                key,
                profile,
                VoiceValues { hard_tune: HardTuneValues { window: number, ..voice.hard_tune }, ..voice },
            ) != microphone.effect_value(key, profile, voice) ==> reaches(&GoXLRCommand::SetHardTuneWindow(wide), key),
{
    reveal(follow_of);
}

/// Whatever a command gives to the robot is sent under the key that depends on it.
pub proof fn changed_robot_is_sent(
    microphone: MicProfileAdapter,
    profile: ProfileAdapter,
    voice: VoiceValues,
    number: i32,
    place: u8,
    small: i8,
)
    ensures
        forall|key: EffectKey| #[trigger]
            microphone.effect_value(
                key,
                profile,
                VoiceValues { robot: RobotValues { low_gain: number, ..voice.robot }, ..voice },
            ) != microphone.effect_value(key, profile, voice) ==> reaches(&GoXLRCommand::SetRobotGain(RobotRange::Low, small), key),
        forall|key: EffectKey| #[trigger]
            microphone.effect_value(
                key,
                profile,
                VoiceValues { robot: RobotValues { mid_gain: number, ..voice.robot }, ..voice },
            ) != microphone.effect_value(key, profile, voice) ==> reaches(&GoXLRCommand::SetRobotGain(RobotRange::Medium, small), key),
        forall|key: EffectKey| #[trigger]
            microphone.effect_value(
                key,
                profile,
                VoiceValues { robot: RobotValues { hi_gain: number, ..voice.robot }, ..voice },
            ) != microphone.effect_value(key, profile, voice) ==> reaches(&GoXLRCommand::SetRobotGain(RobotRange::High, small), key),
        forall|key: EffectKey| #[trigger]
            microphone.effect_value(
                key,
                profile,
                VoiceValues { robot: RobotValues { low_freq: number, ..voice.robot }, ..voice },
            ) != microphone.effect_value(key, profile, voice) ==> reaches(&GoXLRCommand::SetRobotFreq(RobotRange::Low, place), key),
        forall|key: EffectKey| #[trigger]
            microphone.effect_value(
                key,
                profile,
                VoiceValues { robot: RobotValues { mid_freq: number, ..voice.robot }, ..voice },
            ) != microphone.effect_value(key, profile, voice) ==> reaches(&GoXLRCommand::SetRobotFreq(RobotRange::Medium, place), key),
        forall|key: EffectKey| #[trigger]
            microphone.effect_value(
                key,
                profile,
                VoiceValues { robot: RobotValues { hi_freq: number, ..voice.robot }, ..voice },
            ) != microphone.effect_value(key, profile, voice) ==> reaches(&GoXLRCommand::SetRobotFreq(RobotRange::High, place), key),
        forall|key: EffectKey| #[trigger]
            microphone.effect_value(
                key,
                profile,
                VoiceValues { robot: RobotValues { low_width: number, ..voice.robot }, ..voice },
            ) != microphone.effect_value(key, profile, voice) ==> reaches(&GoXLRCommand::SetRobotWidth(RobotRange::Low, place), key),
        forall|key: EffectKey| #[trigger]
            microphone.effect_value(
                key,
                profile,
                VoiceValues { robot: RobotValues { mid_width: number, ..voice.robot }, ..voice },
            ) != microphone.effect_value(key, profile, voice) ==> reaches(&GoXLRCommand::SetRobotWidth(RobotRange::Medium, place), key),
        forall|key: EffectKey| #[trigger]
            microphone.effect_value(
                key,
                profile,
                VoiceValues { robot: RobotValues { hi_width: number, ..voice.robot }, ..voice },
            ) != microphone.effect_value(key, profile, voice) ==> reaches(&GoXLRCommand::SetRobotWidth(RobotRange::High, place), key),
        forall|key: EffectKey| #[trigger]
            microphone.effect_value(
                key,
                profile,
                VoiceValues { robot: RobotValues { waveform: number, ..voice.robot }, ..voice },
            ) != microphone.effect_value(key, profile, voice) ==> reaches(&GoXLRCommand::SetRobotWaveform(place), key),
        forall|key: EffectKey| #[trigger]
            microphone.effect_value(
                key,
                profile,
                VoiceValues { robot: RobotValues { pulse_width: number, ..voice.robot }, ..voice },
            ) != microphone.effect_value(key, profile, voice) ==> reaches(&GoXLRCommand::SetRobotPulseWidth(place), key),
        forall|key: EffectKey| #[trigger]
            microphone.effect_value(
                key,
                profile,
                VoiceValues { robot: RobotValues { threshold: number, ..voice.robot }, ..voice },
            ) != microphone.effect_value(key, profile, voice) ==> reaches(&GoXLRCommand::SetRobotThreshold(small), key),
        forall|key: EffectKey| #[trigger]
            microphone.effect_value(
                key,
                profile,
                VoiceValues { robot: RobotValues { dry_mix: number, ..voice.robot }, ..voice },
            ) != microphone.effect_value(key, profile, voice) ==> reaches(&GoXLRCommand::SetRobotDryMix(small), key),
{
    reveal(follow_of);
}

/// A new style sends every value of its effect, and texts and styles of one fader are shown on that
/// fader.
pub proof fn styles_and_texts_are_shown(
    style: u8,
    fader: FaderName,
    text: String,
    invert: bool,
)
    ensures
        follow_of(&GoXLRCommand::SetReverbStyle(style)) == Some(
            Follow::Effects(EffectGroup::Reverb),
        ),
        follow_of(&GoXLRCommand::SetEchoStyle(style)) == Some(Follow::Effects(EffectGroup::Echo)),
        follow_of(&GoXLRCommand::SetGenderStyle(style)) == Some(
            Follow::Effects(EffectGroup::Gender),
        ),
        follow_of(&GoXLRCommand::SetMegaphoneStyle(style)) == Some(
            Follow::Effects(EffectGroup::Megaphone),
        ),
        follow_of(&GoXLRCommand::SetRobotStyle(style)) == Some(
            Follow::Effects(EffectGroup::Robot),
        ),
        follow_of(&GoXLRCommand::SetHardTuneStyle(style)) == Some(
            Follow::Effects(EffectGroup::HardTune),
        ),
        follow_of(&GoXLRCommand::SetScribbleText(fader, text)) == Some(Follow::Scribble(fader)),
        follow_of(&GoXLRCommand::SetScribbleNumber(fader, text)) == Some(Follow::Scribble(fader)),
        follow_of(&GoXLRCommand::SetScribbleInvert(fader, invert)) == Some(
            Follow::Scribble(fader),
        ),
        follow_of(&GoXLRCommand::SetScribbleIcon(fader, Some(text))) == Some(
            Follow::Scribble(fader),
        ),
{
    reveal(follow_of);
}

} // verus!
