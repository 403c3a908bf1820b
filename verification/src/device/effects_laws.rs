//! What switching the voice effects comes to, on the device and in the profile.

use crate::device::load_laws::one_route_told;
use crate::device::state::Draft;
use crate::device::told::{
    calls_after_step, effects_after_change, last_route, mixer_after_step, tells,
};
use crate::keys::{EffectGroup, EffectKey};
use crate::mic_laws::switched;
use crate::mic_profile::{MicProfileAdapter, VoiceValues};
use crate::plan::{Announcement, Change, Step, UsbCall, VoiceChange};
use crate::profile::Effects;
use crate::types::{DeviceType, EffectBankPresets, EncoderName, InputDevice};
use vstd::prelude::*;

verus! {

/// Whether the last thing that a plan does is to send the value of an effect, which is `value`.
pub open spec fn ends_by_sending(
    draft: Draft,
    microphone: MicProfileAdapter,
    voice: VoiceValues,
    key: EffectKey,
    value: i32,
) -> bool {
    &&& draft.steps.len() > 0
    &&& draft.steps.last() == Step::Usb(UsbCall::SendEffects(EffectGroup::Key(key)))
    &&& microphone.effect_value(key, draft.mixer.profile, voice) == value
}

/// Whether two sets of effects have the same presets selected and known beside one that may differ.
pub open spec fn same_elsewhere(
    one: Effects,
    two: Effects,
    preset: EffectBankPresets,
) -> bool {
    &&& one.selected == two.selected
    &&& one.preset_on == two.preset_on
    &&& forall|other: EffectBankPresets|
        other != preset ==> #[trigger] one.presets.at(other) == two.presets.at(other)
}

/// Switching the megaphone says so, lights its button, keeps it in the selected preset, and sends it
/// to the device, where it acts exactly if it is on and all effects are. The other effects stay.
pub proof fn megaphone_is_switched(
    draft: Draft,
    enabled: bool,
    microphone: MicProfileAdapter,
    voice: VoiceValues,
)
    ensures
        ({
            let after = draft.megaphone_set(enabled);
            let before = draft.mixer.profile.effects;
            let effects = after.mixer.profile.effects;
            &&& after.steps.len() == draft.steps.len() + 3
            &&& after.steps[draft.steps.len() as int] == Step::Say(Announcement::Megaphone(enabled))
            &&& ends_by_sending(
                after,
                microphone,
                voice,
                EffectKey::MegaphoneEnabled,
                switched(before.fx_on && enabled),
            )
            &&& effects.megaphone_on == enabled
            &&& effects.presets.at(before.selected).megaphone == enabled
            &&& effects.robot_on == before.robot_on
            &&& effects.hardtune_on == before.hardtune_on
            &&& effects.fx_on == before.fx_on
            &&& same_elsewhere(effects, before, before.selected)
        }),
{
    let change = VoiceChange::Megaphone(enabled);
    let said = draft.say(Announcement::Megaphone(enabled));
    mixer_after_step(draft, Step::Say(Announcement::Megaphone(enabled)));
    effects_after_change(said, change);
    let set = said.set(Change::Voice(change));
    let call = UsbCall::SendEffects(EffectGroup::Key(EffectKey::MegaphoneEnabled));
    mixer_after_step(set, Step::Usb(call));
    reveal(Draft::megaphone_set);
    reveal(Draft::then_do);
}

/// Switching the robot says so, lights its button, keeps it in the selected preset, and sends it to the
/// device, where it acts exactly if it is on and all effects are. The other effects stay.
pub proof fn robot_is_switched(
    draft: Draft,
    enabled: bool,
    microphone: MicProfileAdapter,
    voice: VoiceValues,
)
    ensures
        ({
            let after = draft.robot_set(enabled);
            let before = draft.mixer.profile.effects;
            let effects = after.mixer.profile.effects;
            &&& after.steps.len() == draft.steps.len() + 3
            &&& after.steps[draft.steps.len() as int] == Step::Say(Announcement::Robot(enabled))
            &&& ends_by_sending(
                after,
                microphone,
                voice,
                EffectKey::RobotEnabled,
                switched(before.fx_on && enabled),
            )
            &&& effects.robot_on == enabled
            &&& effects.presets.at(before.selected).robot == enabled
            &&& effects.megaphone_on == before.megaphone_on
            &&& effects.hardtune_on == before.hardtune_on
            &&& effects.fx_on == before.fx_on
            &&& same_elsewhere(effects, before, before.selected)
        }),
{
    let change = VoiceChange::Robot(enabled);
    let said = draft.say(Announcement::Robot(enabled));
    mixer_after_step(draft, Step::Say(Announcement::Robot(enabled)));
    effects_after_change(said, change);
    let set = said.set(Change::Voice(change));
    let call = UsbCall::SendEffects(EffectGroup::Key(EffectKey::RobotEnabled));
    mixer_after_step(set, Step::Usb(call));
    reveal(Draft::robot_set);
    reveal(Draft::then_do);
}

/// What sending the mode of the pitch encoder tells: a device that has one learns whether hard tune
/// acts and is lit, after the preset that is selected.
proof fn lemma_pitch_mode(draft: Draft)
    ensures
        ({
            let after = draft.pitch_mode_sent();
            let effects = draft.mixer.profile.effects;
            &&& after.mixer == draft.mixer
            &&& draft.mixer.device_type != DeviceType::Full ==> after == draft
            &&& draft.mixer.device_type == DeviceType::Full ==> after.steps =~= draft.steps.push(
                Step::Usb(
                    UsbCall::SetPitchMode {
                        hardtune_acts: effects.fx_on && effects.hardtune_on,
                        hardtune_lit: effects.hardtune_on,
                        preset: effects.selected,
                    },
                ),
            )
        }),
{
    let effects = draft.mixer.profile.effects;
    mixer_after_step(
        draft,
        Step::Usb(
            UsbCall::SetPitchMode {
                hardtune_acts: effects.fx_on && effects.hardtune_on,
                hardtune_lit: effects.hardtune_on,
                preset: effects.selected,
            },
        ),
    );
    reveal(Draft::pitch_mode_sent);
    reveal(Draft::usb_if);
    reveal(Draft::then_do);
}

impl Draft {
    /// What switching hard tune does before the pitch encoder is sent.
    spec fn hardtune_begun(self, enabled: bool) -> Draft {
        self.say(Announcement::HardTune(enabled))
            .set(Change::Voice(VoiceChange::HardTune(enabled)))
            .effect(EffectKey::HardTuneEnabled)
            .pitch_mode_sent()
    }
}

/// What the first part of switching hard tune does.
proof fn lemma_hard_tune_begun(draft: Draft, enabled: bool)
    ensures
        ({
            let after = draft.hardtune_begun(enabled);
            let before = draft.mixer.profile.effects;
            let effects = after.mixer.profile.effects;
            let key = UsbCall::SendEffects(EffectGroup::Key(EffectKey::HardTuneEnabled));
            let mode = UsbCall::SetPitchMode {
                hardtune_acts: before.fx_on && enabled,
                hardtune_lit: enabled,
                preset: before.selected,
            };
            &&& effects.hardtune_on == enabled
            &&& effects.presets.at(before.selected).hardtune == enabled
            &&& effects.presets.at(before.selected).encoders == before.presets.at(
                before.selected,
            ).encoders
            &&& effects.megaphone_on == before.megaphone_on
            &&& effects.robot_on == before.robot_on
            &&& effects.fx_on == before.fx_on
            &&& same_elsewhere(effects, before, before.selected)
            &&& after.steps.len() > draft.steps.len()
            &&& after.steps[draft.steps.len() as int] == Step::Say(Announcement::HardTune(enabled))
            &&& tells(after.steps, key)
            &&& draft.mixer.device_type == DeviceType::Full ==> tells(after.steps, mode)
        }),
{
    let say = Step::Say(Announcement::HardTune(enabled));
    let key = UsbCall::SendEffects(EffectGroup::Key(EffectKey::HardTuneEnabled));
    let one = draft.say(Announcement::HardTune(enabled));
    mixer_after_step(draft, say);
    let two = one.set(Change::Voice(VoiceChange::HardTune(enabled)));
    effects_after_change(one, VoiceChange::HardTune(enabled));
    let three = two.usb(key);
    mixer_after_step(two, Step::Usb(key));
    lemma_pitch_mode(three);
    let four = three.pitch_mode_sent();
    calls_after_step(two, Step::Usb(key), key);
    assert(tells(four.steps, key)) by {
        assert(draft.mixer.device_type == DeviceType::Full ==> four.steps.drop_last()
            =~= three.steps);
    }
    assert(three.steps.len() == draft.steps.len() + 3 && three.steps[draft.steps.len() as int]
        == say) by {
        reveal(Draft::then_do);
    }
}

/// What keeping the position of an encoder changes.
proof fn lemma_encoder_set(draft: Draft, encoder: EncoderName, value: i8)
    ensures
        ({
            let after = draft.set(Change::Voice(VoiceChange::Encoder(encoder, value)));
            let before = draft.mixer.profile.effects;
            let effects = after.mixer.profile.effects;
            let was = before.presets.at(before.selected);
            let is = effects.presets.at(before.selected);
            &&& is.encoders == was.encoders.with(encoder, value)
            &&& is.hardtune == was.hardtune
            &&& effects.hardtune_on == before.hardtune_on
            &&& effects.megaphone_on == before.megaphone_on
            &&& effects.robot_on == before.robot_on
            &&& effects.fx_on == before.fx_on
            &&& same_elsewhere(effects, before, before.selected)
        }),
{
    effects_after_change(draft, VoiceChange::Encoder(encoder, value));
}

/// What switching hard tune keeps.
proof fn lemma_hard_tune_kept(draft: Draft, enabled: bool)
    ensures
        ({
            let after = draft.hardtune_set(enabled);
            let before = draft.mixer.profile.effects;
            let effects = after.mixer.profile.effects;
            &&& effects.hardtune_on == enabled
            &&& effects.presets.at(before.selected).hardtune == enabled
            &&& effects.presets.at(before.selected).encoders == before.presets.at(
                before.selected,
            ).encoders
            &&& effects.megaphone_on == before.megaphone_on
            &&& effects.robot_on == before.robot_on
            &&& effects.fx_on == before.fx_on
            &&& same_elsewhere(effects, before, before.selected)
        }),
{
    lemma_hard_tune_begun(draft, enabled);
    let four = draft.hardtune_begun(enabled);
    let pitch = four.mixer.profile.preset().encoders.pitch;
    let encoder = UsbCall::SetEncoder(EncoderName::Pitch, pitch);
    let amount = UsbCall::SendEffects(EffectGroup::Key(EffectKey::PitchAmount));
    let five = four.usb(encoder);
    mixer_after_step(four, Step::Usb(encoder));
    let six = five.set(Change::Voice(VoiceChange::Encoder(EncoderName::Pitch, pitch)));
    lemma_encoder_set(five, EncoderName::Pitch, pitch);
    mixer_after_step(six, Step::Usb(amount));
    let encoders = draft.mixer.profile.effects.presets.at(
        draft.mixer.profile.effects.selected,
    ).encoders;
    assert(encoders.with(EncoderName::Pitch, encoders.pitch) == encoders);
    assert(draft.hardtune_set(enabled) == six.usb(amount)) by {
        reveal(Draft::hardtune_set);
        reveal(Draft::encoder_sent);
    }
}

/// What switching hard tune tells.
proof fn lemma_hard_tune_told(draft: Draft, enabled: bool)
    ensures
        ({
            let after = draft.hardtune_set(enabled);
            let before = draft.mixer.profile.effects;
            let pitch = before.presets.at(before.selected).encoders.pitch;
            let mode = UsbCall::SetPitchMode {
                hardtune_acts: before.fx_on && enabled,
                hardtune_lit: enabled,
                preset: before.selected,
            };
            &&& after.steps.len() > draft.steps.len()
            &&& after.steps[draft.steps.len() as int] == Step::Say(Announcement::HardTune(enabled))
            &&& tells(
                after.steps,
                UsbCall::SendEffects(EffectGroup::Key(EffectKey::HardTuneEnabled)),
            )
            &&& draft.mixer.device_type == DeviceType::Full ==> tells(after.steps, mode)
            &&& tells(after.steps, UsbCall::SetEncoder(EncoderName::Pitch, pitch))
            &&& after.steps.last() == Step::Usb(
                UsbCall::SendEffects(EffectGroup::Key(EffectKey::PitchAmount)),
            )
        }),
{
    let before = draft.mixer.profile.effects;
    let key = UsbCall::SendEffects(EffectGroup::Key(EffectKey::HardTuneEnabled));
    let mode = UsbCall::SetPitchMode {
        hardtune_acts: before.fx_on && enabled,
        hardtune_lit: enabled,
        preset: before.selected,
    };
    lemma_hard_tune_begun(draft, enabled);
    let four = draft.hardtune_begun(enabled);
    let pitch = four.mixer.profile.preset().encoders.pitch;
    assert(pitch == before.presets.at(before.selected).encoders.pitch);
    let encoder = UsbCall::SetEncoder(EncoderName::Pitch, pitch);
    let amount = UsbCall::SendEffects(EffectGroup::Key(EffectKey::PitchAmount));
    let kept = Step::Apply(Change::Voice(VoiceChange::Encoder(EncoderName::Pitch, pitch)));
    let five = four.usb(encoder);
    let six = five.then_do(kept);
    let seven = six.usb(amount);
    assert(draft.hardtune_set(enabled) == seven) by {
        reveal(Draft::hardtune_set);
        reveal(Draft::encoder_sent);
    }
    calls_after_step(four, Step::Usb(encoder), key);
    calls_after_step(four, Step::Usb(encoder), mode);
    calls_after_step(four, Step::Usb(encoder), encoder);
    calls_after_step(five, kept, key);
    calls_after_step(five, kept, mode);
    calls_after_step(five, kept, encoder);
    calls_after_step(six, Step::Usb(amount), key);
    calls_after_step(six, Step::Usb(amount), mode);
    calls_after_step(six, Step::Usb(amount), encoder);
    assert(seven.steps =~= four.steps.push(Step::Usb(encoder)).push(kept).push(Step::Usb(amount)))
        by {
        reveal(Draft::then_do);
    }
}

/// Switching hard tune says so, lights its button, keeps it in the selected preset, and sends whether
/// it acts. A full device learns the range of its pitch encoder, every device where that encoder
/// stands and the amount of pitch, and the encoder stays where it was.
pub proof fn hard_tune_is_switched(
    draft: Draft,
    enabled: bool,
    microphone: MicProfileAdapter,
    voice: VoiceValues,
)
    ensures
        ({
            let after = draft.hardtune_set(enabled);
            let before = draft.mixer.profile.effects;
            let effects = after.mixer.profile.effects;
            let pitch = before.presets.at(before.selected).encoders.pitch;
            let mode = UsbCall::SetPitchMode {
                hardtune_acts: before.fx_on && enabled,
                hardtune_lit: enabled,
                preset: before.selected,
            };
            &&& after.steps.len() > draft.steps.len()
            &&& after.steps[draft.steps.len() as int] == Step::Say(Announcement::HardTune(enabled))
            &&& tells(
                after.steps,
                UsbCall::SendEffects(EffectGroup::Key(EffectKey::HardTuneEnabled)),
            )
            &&& microphone.effect_value(
                EffectKey::HardTuneEnabled,
                after.mixer.profile,
                voice,
            ) == switched(before.fx_on && enabled)
            &&& draft.mixer.device_type == DeviceType::Full ==> tells(after.steps, mode)
            &&& tells(after.steps, UsbCall::SetEncoder(EncoderName::Pitch, pitch))
            &&& after.steps.last() == Step::Usb(
                UsbCall::SendEffects(EffectGroup::Key(EffectKey::PitchAmount)),
            )
            &&& effects.hardtune_on == enabled
            &&& effects.presets.at(before.selected).hardtune == enabled
            &&& effects.presets.at(before.selected).encoders == before.presets.at(
                before.selected,
            ).encoders
            &&& effects.megaphone_on == before.megaphone_on
            &&& effects.robot_on == before.robot_on
            &&& effects.fx_on == before.fx_on
            &&& same_elsewhere(effects, before, before.selected)
        }),
{
    lemma_hard_tune_kept(draft, enabled);
    lemma_hard_tune_told(draft, enabled);
}

/// Switching all effects says so, lights the button, and sends every switch. The single effects stay
/// as they are, and act exactly if they are on and all effects are. What is heard of the microphone is
/// sent anew.
pub proof fn all_effects_are_switched(
    draft: Draft,
    enabled: bool,
    microphone: MicProfileAdapter,
    voice: VoiceValues,
)
    ensures
        ({
            let after = draft.effects_set(enabled);
            let before = draft.mixer.profile.effects;
            let effects = after.mixer.profile.effects;
            &&& after.steps.len() > draft.steps.len()
            &&& after.steps[draft.steps.len() as int] == Step::Say(Announcement::Effects(enabled))
            &&& tells(after.steps, UsbCall::SendEffects(EffectGroup::Switches))
            &&& last_route(after.steps, InputDevice::Microphone) == Some(
                after.mixer.route(InputDevice::Microphone),
            )
            &&& effects.fx_on == enabled
            &&& effects.megaphone_on == before.megaphone_on
            &&& effects.robot_on == before.robot_on
            &&& effects.hardtune_on == before.hardtune_on
            &&& effects.presets == before.presets
            &&& effects.selected == before.selected
            &&& microphone.effect_value(EffectKey::MegaphoneEnabled, after.mixer.profile, voice)
                == switched(enabled && before.megaphone_on)
            &&& microphone.effect_value(EffectKey::RobotEnabled, after.mixer.profile, voice)
                == switched(enabled && before.robot_on)
            &&& microphone.effect_value(EffectKey::HardTuneEnabled, after.mixer.profile, voice)
                == switched(enabled && before.hardtune_on)
        }),
{
    let say = Step::Say(Announcement::Effects(enabled));
    let call = UsbCall::SendEffects(EffectGroup::Switches);
    let one = draft.say(Announcement::Effects(enabled));
    mixer_after_step(draft, say);
    let two = one.set(Change::Voice(VoiceChange::Effects(enabled)));
    effects_after_change(one, VoiceChange::Effects(enabled));
    let three = two.usb(call);
    mixer_after_step(two, Step::Usb(call));
    calls_after_step(two, Step::Usb(call), call);
    one_route_told(three, InputDevice::Microphone);
    assert(draft.effects_set(enabled) == three.route(InputDevice::Microphone)) by {
        reveal(Draft::effects_set);
    }
    let route = UsbCall::SetRoute(
        InputDevice::Microphone,
        three.mixer.route(InputDevice::Microphone),
    );
    assert(three.route(InputDevice::Microphone) == three.usb(route)) by {
        reveal(Draft::route);
    }
    calls_after_step(three, Step::Usb(route), call);
    reveal(Draft::then_do);
}

/// What moving every encoder to where the selected preset has it tells.
proof fn lemma_encoders(draft: Draft, encoder: EncoderName)
    ensures
        ({
            let after = draft.encoders_sent();
            &&& after.mixer == draft.mixer
            &&& after.steps.len() == draft.steps.len() + 4
            &&& after.steps.take(draft.steps.len() as int) =~= draft.steps
            &&& tells(
                after.steps,
                UsbCall::SetEncoder(
                    encoder,
                    draft.mixer.profile.effects.presets.at(
                        draft.mixer.profile.effects.selected,
                    ).encoders.at(encoder),
                ),
            )
        }),
{
    reveal(Draft::encoders_sent);
    reveal(Draft::encoder_sent);
    let encoders = draft.mixer.profile.effects.presets.at(
        draft.mixer.profile.effects.selected,
    ).encoders;
    let wanted = UsbCall::SetEncoder(encoder, encoders.at(encoder));
    let pitch = Step::Usb(UsbCall::SetEncoder(EncoderName::Pitch, encoders.pitch));
    let echo = Step::Usb(UsbCall::SetEncoder(EncoderName::Echo, encoders.echo));
    let gender = Step::Usb(UsbCall::SetEncoder(EncoderName::Gender, encoders.gender));
    let reverb = Step::Usb(UsbCall::SetEncoder(EncoderName::Reverb, encoders.reverb));
    mixer_after_step(draft, pitch);
    calls_after_step(draft, pitch, wanted);
    let one = draft.then_do(pitch);
    mixer_after_step(one, echo);
    calls_after_step(one, echo, wanted);
    let two = one.then_do(echo);
    mixer_after_step(two, gender);
    calls_after_step(two, gender, wanted);
    let three = two.then_do(gender);
    mixer_after_step(three, reverb);
    calls_after_step(three, reverb, wanted);
    assert(draft.encoders_sent() == three.then_do(reverb));
    reveal(Draft::then_do);
}

/// Selecting an effect preset says so, lights its button alone, brings back what it had of the single
/// effects, moves every encoder to where the preset has it, and sends all effects. The presets
/// themselves stay, and so does whether effects are on.
pub proof fn selected_preset_is_loaded(draft: Draft, preset: EffectBankPresets, encoder: EncoderName)
    ensures
        ({
            let after = draft.effect_bank_loaded(preset);
            let before = draft.mixer.profile.effects;
            let effects = after.mixer.profile.effects;
            &&& after.steps.len() > draft.steps.len()
            &&& after.steps[draft.steps.len() as int] == Step::Say(Announcement::EffectBank(preset))
            &&& after.steps.last() == Step::Usb(UsbCall::SendEffects(EffectGroup::Full))
            &&& tells(
                after.steps,
                UsbCall::SetEncoder(encoder, before.presets.at(preset).encoders.at(encoder)),
            )
            &&& draft.mixer.device_type == DeviceType::Full ==> tells(
                after.steps,
                UsbCall::SetPitchMode {
                    hardtune_acts: before.fx_on && before.presets.at(preset).hardtune,
                    hardtune_lit: before.presets.at(preset).hardtune,
                    preset,
                },
            )
            &&& effects.selected == preset
            &&& effects.presets == before.presets
            &&& effects.fx_on == before.fx_on
            &&& effects.megaphone_on == before.presets.at(preset).megaphone
            &&& effects.robot_on == before.presets.at(preset).robot
            &&& effects.hardtune_on == before.presets.at(preset).hardtune
            &&& effects.preset_on.at(preset)
            &&& before.selected != preset ==> !effects.preset_on.at(before.selected)
        }),
{
    let before = draft.mixer.profile.effects;
    let say = Step::Say(Announcement::EffectBank(preset));
    let full = UsbCall::SendEffects(EffectGroup::Full);
    let wanted = UsbCall::SetEncoder(encoder, before.presets.at(preset).encoders.at(encoder));
    let mode = UsbCall::SetPitchMode {
        hardtune_acts: before.fx_on && before.presets.at(preset).hardtune,
        hardtune_lit: before.presets.at(preset).hardtune,
        preset,
    };
    let one = draft.say(Announcement::EffectBank(preset));
    mixer_after_step(draft, say);
    let two = one.set(Change::Voice(VoiceChange::Bank(preset)));
    effects_after_change(one, VoiceChange::Bank(preset));
    lemma_encoders(two, encoder);
    let three = two.encoders_sent();
    lemma_pitch_mode(three);
    let four = three.pitch_mode_sent();
    mixer_after_step(four, Step::Usb(full));
    calls_after_step(four, Step::Usb(full), wanted);
    calls_after_step(four, Step::Usb(full), mode);
    assert(draft.effect_bank_loaded(preset) == four.usb(full)) by {
        reveal(Draft::effect_bank_loaded);
    }
    assert(tells(four.steps, wanted)) by {
        assert(draft.mixer.device_type == DeviceType::Full ==> four.steps.drop_last()
            =~= three.steps);
    }
    if draft.mixer.device_type == DeviceType::Full {
        assert(four.steps.last() == Step::Usb(mode));
        assert(tells(four.steps, mode));
    }
    assert(two.steps.len() == draft.steps.len() + 2 && two.steps[draft.steps.len() as int] == say)
        by {
        reveal(Draft::then_do);
    }
    assert(three.steps[draft.steps.len() as int] == three.steps.take(two.steps.len() as int)[
        draft.steps.len() as int]);
    assert(four.usb(full).steps =~= four.steps.push(Step::Usb(full))) by {
        reveal(Draft::then_do);
    }
}

/// What one encoder that was seen at a position does.
pub proof fn turned_encoder_is_kept(
    draft: Draft,
    encoder: EncoderName,
    value: i8,
    key: EffectKey,
    sends: bool,
)
    ensures
        ({
            let after = draft.encoder_moved(encoder, value, key, sends);
            let before = draft.mixer.profile.effects;
            let effects = after.mixer.profile.effects;
            let moved = before.presets.at(before.selected).encoders.at(encoder) != value;
            &&& !moved ==> after == draft
            &&& effects.presets.at(before.selected).encoders == before.presets.at(
                before.selected,
            ).encoders.with(encoder, value)
            &&& effects.selected == before.selected
            &&& same_elsewhere(effects, before, before.selected)
            &&& moved && sends ==> after.steps.len() == draft.steps.len() + 3
                && after.steps[draft.steps.len() as int + 1] == Step::Usb(
                UsbCall::SendEffects(EffectGroup::Key(key)),
            ) && after.steps[draft.steps.len() as int + 2] == Step::Say(Announcement::Encoder(encoder))
            &&& moved && !sends ==> after.steps.len() == draft.steps.len() + 1
        }),
{
    let change = VoiceChange::Encoder(encoder, value);
    effects_after_change(draft, change);
    let kept = draft.set(Change::Voice(change));
    let call = UsbCall::SendEffects(EffectGroup::Key(key));
    mixer_after_step(kept, Step::Usb(call));
    mixer_after_step(kept.usb(call), Step::Say(Announcement::Encoder(encoder)));
    reveal(Draft::encoder_moved);
    reveal(Draft::then_do);
}

/// Every encoder is kept where it was seen, and the effect that it turns is the one that is sent: the
/// amounts of pitch, gender, reverb and echo. An amount that did not change is not sent.
pub proof fn turned_encoders_are_kept(draft: Draft, seen: crate::device::effects::SeenEncoders)
    requires
        draft.steps.len() == 0,
    ensures
        ({
            let after = draft.encoders_moved(seen);
            let before = draft.mixer.profile.effects;
            let effects = after.mixer.profile.effects;
            let was = before.presets.at(before.selected).encoders;
            let is = effects.presets.at(before.selected).encoders;
            let sent = |key: EffectKey|
                tells(after.steps, UsbCall::SendEffects(EffectGroup::Key(key)));
            &&& effects.selected == before.selected
            &&& is.pitch == seen.pitch_position
            &&& is.gender == seen.gender
            &&& is.reverb == seen.reverb
            &&& is.echo == seen.echo
            &&& sent(EffectKey::PitchAmount) <==> was.pitch != seen.pitch_position
            &&& sent(EffectKey::GenderAmount) <==> was.gender != seen.gender && seen.gender_changes
            &&& sent(EffectKey::ReverbAmount) <==> was.reverb != seen.reverb
            &&& sent(EffectKey::EchoAmount) <==> was.echo != seen.echo
            &&& draft.encoders_change(seen) <==> was.pitch != seen.pitch_position || was.gender
                != seen.gender || was.reverb != seen.reverb || was.echo != seen.echo
        }),
{
    reveal(Draft::encoders_moved);
    let one = draft.encoder_moved(
        EncoderName::Pitch,
        seen.pitch_position,
        EffectKey::PitchAmount,
        true,
    );
    lemma_encoder_moved(draft, EncoderName::Pitch, seen.pitch_position, EffectKey::PitchAmount, true);
    let two = one.encoder_moved(
        EncoderName::Gender,
        seen.gender,
        EffectKey::GenderAmount,
        seen.gender_changes,
    );
    lemma_encoder_moved(
        one,
        EncoderName::Gender,
        seen.gender,
        EffectKey::GenderAmount,
        seen.gender_changes,
    );
    let three = two.encoder_moved(EncoderName::Reverb, seen.reverb, EffectKey::ReverbAmount, true);
    lemma_encoder_moved(two, EncoderName::Reverb, seen.reverb, EffectKey::ReverbAmount, true);
    lemma_encoder_moved(three, EncoderName::Echo, seen.echo, EffectKey::EchoAmount, true);
    assert(!tells(draft.steps, UsbCall::SendEffects(EffectGroup::Key(EffectKey::PitchAmount))));
    assert(!tells(draft.steps, UsbCall::SendEffects(EffectGroup::Key(EffectKey::GenderAmount))));
    assert(!tells(draft.steps, UsbCall::SendEffects(EffectGroup::Key(EffectKey::ReverbAmount))));
    assert(!tells(draft.steps, UsbCall::SendEffects(EffectGroup::Key(EffectKey::EchoAmount))));
}

/// What one encoder that was seen tells and keeps.
proof fn lemma_encoder_moved(
    draft: Draft,
    encoder: EncoderName,
    value: i8,
    key: EffectKey,
    sends: bool,
)
    ensures
        ({
            let after = draft.encoder_moved(encoder, value, key, sends);
            let before = draft.mixer.profile.effects;
            let effects = after.mixer.profile.effects;
            let moved = before.presets.at(before.selected).encoders.at(encoder) != value;
            &&& effects.presets.at(before.selected).encoders == before.presets.at(
                before.selected,
            ).encoders.with(encoder, value)
            &&& effects.selected == before.selected
            &&& forall|other: EffectKey| #[trigger]
                tells(after.steps, UsbCall::SendEffects(EffectGroup::Key(other))) == (tells(
                    draft.steps,
                    UsbCall::SendEffects(EffectGroup::Key(other)),
                ) || (other == key && moved && sends))
        }),
{
    turned_encoder_is_kept(draft, encoder, value, key, sends);
    let after = draft.encoder_moved(encoder, value, key, sends);
    let change = Step::Apply(Change::Voice(VoiceChange::Encoder(encoder, value)));
    let call = Step::Usb(UsbCall::SendEffects(EffectGroup::Key(key)));
    let say = Step::Say(Announcement::Encoder(encoder));
    assert forall|other: EffectKey| #[trigger]
        tells(after.steps, UsbCall::SendEffects(EffectGroup::Key(other))) == (tells(
            draft.steps,
            UsbCall::SendEffects(EffectGroup::Key(other)),
        ) || (other == key && draft.mixer.profile.effects.presets.at(
            draft.mixer.profile.effects.selected,
        ).encoders.at(encoder) != value && sends)) by {
        let wanted = UsbCall::SendEffects(EffectGroup::Key(other));
        calls_after_step(draft, change, wanted);
        calls_after_step(draft.then_do(change), call, wanted);
        calls_after_step(draft.then_do(change).then_do(call), say, wanted);
        reveal(Draft::encoder_moved);
    }
}

} // verus!
