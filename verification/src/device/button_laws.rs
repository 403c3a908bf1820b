//! What each physical button is for.

use crate::device::effects_laws::{
    all_effects_are_switched, hard_tune_is_switched, megaphone_is_switched, robot_is_switched,
    selected_preset_is_loaded,
};
use crate::device::sampler_laws::selected_bank_is_shown;
use crate::device::state::{Draft, Mixer};
use crate::device::told::mixer_after_step;
use crate::mic_profile::{MicProfileAdapter, VoiceValues};
use crate::plan::{Change, Step, UsbCall, VoiceChange};
use crate::types::{Buttons, EffectBankPresets, EncoderName, FaderName, SampleBank, SampleButtons};
use vstd::prelude::*;

verus! {

/// Each effect button switches its own effect to the other state, and leaves the others.
pub proof fn effect_buttons_switch_their_effect(
    draft: Draft,
    hold_handled: bool,
    microphone: MicProfileAdapter,
    voice: VoiceValues,
)
    ensures
        ({
            let before = draft.mixer.profile.effects;
            let after = draft.button_up(
                Buttons::EffectMegaphone,
                hold_handled,
            ).mixer.profile.effects;
            &&& after.megaphone_on == !before.megaphone_on
            &&& after.robot_on == before.robot_on
            &&& after.hardtune_on == before.hardtune_on
            &&& after.fx_on == before.fx_on
            &&& after.selected == before.selected
        }),
        ({
            let before = draft.mixer.profile.effects;
            let after = draft.button_up(Buttons::EffectRobot, hold_handled).mixer.profile.effects;
            &&& after.megaphone_on == before.megaphone_on
            &&& after.robot_on == !before.robot_on
            &&& after.hardtune_on == before.hardtune_on
            &&& after.fx_on == before.fx_on
            &&& after.selected == before.selected
        }),
        ({
            let before = draft.mixer.profile.effects;
            let after = draft.button_up(
                Buttons::EffectHardTune,
                hold_handled,
            ).mixer.profile.effects;
            &&& after.megaphone_on == before.megaphone_on
            &&& after.robot_on == before.robot_on
            &&& after.hardtune_on == !before.hardtune_on
            &&& after.fx_on == before.fx_on
            &&& after.selected == before.selected
        }),
        ({
            let before = draft.mixer.profile.effects;
            let after = draft.button_up(Buttons::EffectFx, hold_handled).mixer.profile.effects;
            &&& after.megaphone_on == before.megaphone_on
            &&& after.robot_on == before.robot_on
            &&& after.hardtune_on == before.hardtune_on
            &&& after.fx_on == !before.fx_on
            &&& after.selected == before.selected
        }),
{
    let effects = draft.mixer.profile.effects;
    let lights = Step::Usb(UsbCall::SendButtonStates);
    megaphone_is_switched(draft, !effects.megaphone_on, microphone, voice);
    mixer_after_step(draft.megaphone_set(!effects.megaphone_on), lights);
    robot_is_switched(draft, !effects.robot_on, microphone, voice);
    mixer_after_step(draft.robot_set(!effects.robot_on), lights);
    hard_tune_is_switched(draft, !effects.hardtune_on, microphone, voice);
    mixer_after_step(draft.hardtune_set(!effects.hardtune_on), lights);
    all_effects_are_switched(draft, !effects.fx_on, microphone, voice);
    mixer_after_step(draft.effects_set(!effects.fx_on), lights);
    reveal(Draft::button_up);
    reveal(Draft::release_handled);
    reveal(Draft::effect_released);
    reveal(Draft::usb_if);
}

/// The six preset buttons select the six effect presets, in their order.
pub proof fn preset_buttons_select_their_preset(draft: Draft, hold_handled: bool)
    ensures
        draft.button_up(Buttons::EffectSelect1, hold_handled).mixer.profile.effects.selected
            == EffectBankPresets::Preset1,
        draft.button_up(Buttons::EffectSelect2, hold_handled).mixer.profile.effects.selected
            == EffectBankPresets::Preset2,
        draft.button_up(Buttons::EffectSelect3, hold_handled).mixer.profile.effects.selected
            == EffectBankPresets::Preset3,
        draft.button_up(Buttons::EffectSelect4, hold_handled).mixer.profile.effects.selected
            == EffectBankPresets::Preset4,
        draft.button_up(Buttons::EffectSelect5, hold_handled).mixer.profile.effects.selected
            == EffectBankPresets::Preset5,
        draft.button_up(Buttons::EffectSelect6, hold_handled).mixer.profile.effects.selected
            == EffectBankPresets::Preset6,
{
    lemma_preset_button(draft, Buttons::EffectSelect1, hold_handled);
    lemma_preset_button(draft, Buttons::EffectSelect2, hold_handled);
    lemma_preset_button(draft, Buttons::EffectSelect3, hold_handled);
    lemma_preset_button(draft, Buttons::EffectSelect4, hold_handled);
    lemma_preset_button(draft, Buttons::EffectSelect5, hold_handled);
    lemma_preset_button(draft, Buttons::EffectSelect6, hold_handled);
}

/// What the release of a preset button selects.
proof fn lemma_preset_button(draft: Draft, button: Buttons, hold_handled: bool)
    requires
        crate::device::buttons::preset_of(button) is Some,
    ensures
        draft.button_up(button, hold_handled).mixer.profile.effects.selected
            == crate::device::buttons::preset_of(button)->0,
{
    let preset = crate::device::buttons::preset_of(button)->0;
    selected_preset_is_loaded(draft, preset, EncoderName::Pitch);
    mixer_after_step(draft.effect_bank_loaded(preset), Step::Usb(UsbCall::SendButtonStates));
    reveal(Draft::button_up);
    reveal(Draft::release_handled);
    reveal(Draft::usb_if);
}

/// The three bank buttons select the three banks of the sampler.
pub proof fn bank_buttons_select_their_bank(draft: Draft, hold_handled: bool)
    ensures
        draft.button_up(Buttons::SamplerSelectA, hold_handled).mixer.profile.sampler.selected
            == SampleBank::A,
        draft.button_up(Buttons::SamplerSelectB, hold_handled).mixer.profile.sampler.selected
            == SampleBank::B,
        draft.button_up(Buttons::SamplerSelectC, hold_handled).mixer.profile.sampler.selected
            == SampleBank::C,
{
    lemma_bank_button(draft, Buttons::SamplerSelectA, hold_handled);
    lemma_bank_button(draft, Buttons::SamplerSelectB, hold_handled);
    lemma_bank_button(draft, Buttons::SamplerSelectC, hold_handled);
}

/// What the release of a bank button selects.
proof fn lemma_bank_button(draft: Draft, button: Buttons, hold_handled: bool)
    requires
        crate::device::buttons::bank_of(button) is Some,
    ensures
        draft.button_up(button, hold_handled).mixer.profile.sampler.selected
            == crate::device::buttons::bank_of(button)->0,
{
    let bank = crate::device::buttons::bank_of(button)->0;
    selected_bank_is_shown(draft, bank, SampleButtons::TopLeft);
    let loaded = draft.sample_bank_loaded(bank);
    let coloured = loaded.usb(UsbCall::SendColourMap);
    mixer_after_step(loaded, Step::Usb(UsbCall::SendColourMap));
    mixer_after_step(coloured, Step::Usb(UsbCall::SendButtonStates));
    reveal(Draft::button_up);
    reveal(Draft::release_handled);
    reveal(Draft::usb_if);
}

/// A sample button does what the sampler does for that place, and the lights follow unless there is no
/// audio handler.
pub proof fn sample_buttons_act_for_their_place(draft: Draft, hold_handled: bool)
    requires
        draft.mixer.sampler is Some,
    ensures
        ({
            let lights = Step::Usb(UsbCall::SendButtonStates);
            &&& draft.button_down(Buttons::SamplerTopLeft) == draft.sample_down(
                SampleButtons::TopLeft,
            ).then_do(lights)
            &&& draft.button_down(Buttons::SamplerTopRight) == draft.sample_down(
                SampleButtons::TopRight,
            ).then_do(lights)
            &&& draft.button_down(Buttons::SamplerBottomLeft) == draft.sample_down(
                SampleButtons::BottomLeft,
            ).then_do(lights)
            &&& draft.button_down(Buttons::SamplerBottomRight) == draft.sample_down(
                SampleButtons::BottomRight,
            ).then_do(lights)
            &&& draft.button_up(Buttons::SamplerTopLeft, hold_handled) == draft.sample_up(
                SampleButtons::TopLeft,
            ).then_do(lights)
            &&& draft.button_up(Buttons::SamplerTopRight, hold_handled) == draft.sample_up(
                SampleButtons::TopRight,
            ).then_do(lights)
            &&& draft.button_up(Buttons::SamplerBottomLeft, hold_handled) == draft.sample_up(
                SampleButtons::BottomLeft,
            ).then_do(lights)
            &&& draft.button_up(Buttons::SamplerBottomRight, hold_handled) == draft.sample_up(
                SampleButtons::BottomRight,
            ).then_do(lights)
        }),
{
    reveal(Draft::button_down);
    reveal(Draft::press_handled);
    reveal(Draft::button_up);
    reveal(Draft::release_handled);
    reveal(Draft::usb_if);
}

/// The mute button under each fader mutes that fader, by a short press or by being held. A release
/// after a hold that was acted on only sends the lights.
pub proof fn mute_buttons_mute_their_fader(draft: Draft)
    ensures
        draft.button_up(Buttons::Fader1Mute, false) == draft.fader_mute(FaderName::A, false),
        draft.button_up(Buttons::Fader2Mute, false) == draft.fader_mute(FaderName::B, false),
        draft.button_up(Buttons::Fader3Mute, false) == draft.fader_mute(FaderName::C, false),
        draft.button_up(Buttons::Fader4Mute, false) == draft.fader_mute(FaderName::D, false),
        draft.button_hold(Buttons::Fader1Mute) == draft.fader_mute(FaderName::A, true),
        draft.button_hold(Buttons::Fader2Mute) == draft.fader_mute(FaderName::B, true),
        draft.button_hold(Buttons::Fader3Mute) == draft.fader_mute(FaderName::C, true),
        draft.button_hold(Buttons::Fader4Mute) == draft.fader_mute(FaderName::D, true),
        draft.button_up(Buttons::Fader1Mute, true).mixer == draft.mixer,
        draft.button_up(Buttons::Fader2Mute, true).mixer == draft.mixer,
        draft.button_up(Buttons::Fader3Mute, true).mixer == draft.mixer,
        draft.button_up(Buttons::Fader4Mute, true).mixer == draft.mixer,
{
    mixer_after_step(draft, Step::Usb(UsbCall::SendButtonStates));
    reveal(Draft::button_hold);
    reveal(Draft::button_up);
}

/// What the press, the hold and the release of the cough button make of it, before the lights are
/// sent. One that acts only while it is held is lit by a press and goes out on release; the other is
/// toggled by a release, unless its being held was acted on, which mutes everywhere.
pub proof fn cough_button_acts(draft: Draft, hold_handled: bool)
    requires
        crate::device::mute_laws::is_kept(draft.mixer.profile),
    ensures
        ({
            let cough = draft.mixer.profile.cough;
            let down = draft.button_down(Buttons::MicrophoneMute).mixer.profile.cough;
            let held = draft.button_hold(Buttons::MicrophoneMute).mixer.profile.cough;
            let up = draft.button_up(
                Buttons::MicrophoneMute,
                hold_handled,
            ).mixer.profile.cough;
            &&& !cough.is_toggle ==> down.on && held == cough && !up.on
            &&& cough.is_toggle ==> down == cough && held.on && held.blink
            &&& cough.is_toggle && hold_handled ==> up == cough
            &&& cough.is_toggle && !hold_handled ==> up.on == !(cough.on || cough.blink)
                && !up.blink
        }),
{
    let lights = Step::Usb(UsbCall::SendButtonStates);
    crate::device::mute_laws::cough_button_is_lit_and_put_out(draft, hold_handled);
    crate::device::mute_laws::cough_button_is_lit_and_put_out(draft, false);
    mixer_after_step(draft.cough_mute(true, false, false, false), lights);
    mixer_after_step(draft.cough_mute(false, false, true, false), lights);
    mixer_after_step(draft.cough_mute(false, true, false, hold_handled), lights);
    reveal(Draft::button_down);
    reveal(Draft::press_handled);
    reveal(Draft::button_hold);
    reveal(Draft::button_up);
    reveal(Draft::release_handled);
    reveal(Draft::usb_if);
    reveal(Draft::cough_mute);
}

/// The bleep sounds from the press of its button to the release.
pub proof fn bleep_sounds_while_held(draft: Draft, hold_handled: bool)
    ensures
        draft.button_down(Buttons::Bleep).mixer.profile.swear_on,
        !draft.button_up(Buttons::Bleep, hold_handled).mixer.profile.swear_on,
        draft.button_hold(Buttons::Bleep).mixer == draft.mixer,
        draft.button_up(Buttons::SamplerClear, hold_handled) == draft.sample_clear_toggled().then_do(
            Step::Usb(UsbCall::SendButtonStates),
        ),
{
    let lights = Step::Usb(UsbCall::SendButtonStates);
    let on = Change::Voice(VoiceChange::SwearButton(true));
    let off = Change::Voice(VoiceChange::SwearButton(false));
    assert(draft.set(on).mixer.profile.swear_on && !draft.set(off).mixer.profile.swear_on) by {
        mixer_after_step(draft, Step::Apply(on));
        mixer_after_step(draft, Step::Apply(off));
        reveal(Mixer::changed);
    }
    mixer_after_step(draft.set(on), lights);
    mixer_after_step(draft.set(off), lights);
    mixer_after_step(draft, lights);
    reveal(Draft::button_down);
    reveal(Draft::press_handled);
    reveal(Draft::button_hold);
    reveal(Draft::button_up);
    reveal(Draft::release_handled);
    reveal(Draft::usb_if);
}

} // verus!
