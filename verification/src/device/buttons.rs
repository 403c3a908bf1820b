//! What the physical buttons do.

use crate::device::state::{Device, DeviceError, Draft, Mixer};
use crate::plan::{Change, KeptChange, UsbCall, VoiceChange};
use crate::types::{
    ButtonMap, Buttons, EffectBankPresets, FaderName, MuteFunction, SampleBank, SampleButtons,
};
use vstd::prelude::*;

verus! {

/// The fader that a mute button belongs to.
pub open spec fn mute_button_of(button: Buttons) -> Option<FaderName> {
    match button {
        Buttons::Fader1Mute => Some(FaderName::A),
        Buttons::Fader2Mute => Some(FaderName::B),
        Buttons::Fader3Mute => Some(FaderName::C),
        Buttons::Fader4Mute => Some(FaderName::D),
        _ => None,
    }
}

/// The sample button that a physical button is.
pub open spec fn sample_button_of(button: Buttons) -> Option<SampleButtons> {
    match button {
        Buttons::SamplerTopLeft => Some(SampleButtons::TopLeft),
        Buttons::SamplerTopRight => Some(SampleButtons::TopRight),
        Buttons::SamplerBottomLeft => Some(SampleButtons::BottomLeft),
        Buttons::SamplerBottomRight => Some(SampleButtons::BottomRight),
        _ => None,
    }
}

/// The effect preset that a button selects.
pub open spec fn preset_of(button: Buttons) -> Option<EffectBankPresets> {
    match button {
        Buttons::EffectSelect1 => Some(EffectBankPresets::Preset1),
        Buttons::EffectSelect2 => Some(EffectBankPresets::Preset2),
        Buttons::EffectSelect3 => Some(EffectBankPresets::Preset3),
        Buttons::EffectSelect4 => Some(EffectBankPresets::Preset4),
        Buttons::EffectSelect5 => Some(EffectBankPresets::Preset5),
        Buttons::EffectSelect6 => Some(EffectBankPresets::Preset6),
        _ => None,
    }
}

/// The sample bank that a button selects.
pub open spec fn bank_of(button: Buttons) -> Option<SampleBank> {
    match button {
        Buttons::SamplerSelectA => Some(SampleBank::A),
        Buttons::SamplerSelectB => Some(SampleBank::B),
        Buttons::SamplerSelectC => Some(SampleBank::C),
        _ => None,
    }
}

/// Finds the fader that a mute button belongs to.
fn find_mute_button(button: Buttons) -> (fader: Option<FaderName>)
    ensures
        fader == mute_button_of(button),
{
    match button {
        Buttons::Fader1Mute => Some(FaderName::A),
        Buttons::Fader2Mute => Some(FaderName::B),
        Buttons::Fader3Mute => Some(FaderName::C),
        Buttons::Fader4Mute => Some(FaderName::D),
        _ => None,
    }
}

/// Finds the sample button that a physical button is.
fn find_sample_button(button: Buttons) -> (sample: Option<SampleButtons>)
    ensures
        sample == sample_button_of(button),
{
    match button {
        Buttons::SamplerTopLeft => Some(SampleButtons::TopLeft),
        Buttons::SamplerTopRight => Some(SampleButtons::TopRight),
        Buttons::SamplerBottomLeft => Some(SampleButtons::BottomLeft),
        Buttons::SamplerBottomRight => Some(SampleButtons::BottomRight),
        _ => None,
    }
}

/// Finds the effect preset that a button selects.
fn find_preset(button: Buttons) -> (preset: Option<EffectBankPresets>)
    ensures
        preset == preset_of(button),
{
    match button {
        Buttons::EffectSelect1 => Some(EffectBankPresets::Preset1),
        Buttons::EffectSelect2 => Some(EffectBankPresets::Preset2),
        Buttons::EffectSelect3 => Some(EffectBankPresets::Preset3),
        Buttons::EffectSelect4 => Some(EffectBankPresets::Preset4),
        Buttons::EffectSelect5 => Some(EffectBankPresets::Preset5),
        Buttons::EffectSelect6 => Some(EffectBankPresets::Preset6),
        _ => None,
    }
}

/// Finds the sample bank that a button selects.
fn find_bank(button: Buttons) -> (bank: Option<SampleBank>)
    ensures
        bank == bank_of(button),
{
    match button {
        Buttons::SamplerSelectA => Some(SampleBank::A),
        Buttons::SamplerSelectB => Some(SampleBank::B),
        Buttons::SamplerSelectC => Some(SampleBank::C),
        _ => None,
    }
}

impl Mixer {
    /// Whether the press of a button is refused: the sampler has no audio handler.
    pub open spec fn press_refused(self, button: Buttons) -> bool {
        sample_button_of(button) is Some && !self.profile.sampler.clear && self.sampler is None
    }

    /// Why the release of a button is refused, if it is.
    pub open spec fn release_refused(self, button: Buttons, hold_handled: bool) -> Option<
        DeviceError,
    > {
        match mute_button_of(button) {
            Some(fader) => {
                let mute = self.profile.mutes.at(fader);
                if !hold_handled && mute.blink && !mute.on && mute.function != MuteFunction::All {
                    Some(DeviceError::MutedToAll)
                } else {
                    None
                }
            },
            None => if self.press_refused(button) {
                Some(DeviceError::NoAudioHandler)
            } else {
                None
            },
        }
    }

    /// Whether a button has been down for longer than the time that counts as held, and that was
    /// not acted on.
    pub open spec fn is_held(self, button: Buttons, now: u128) -> bool {
        self.last_buttons.at(button) && !self.button_states.at(button).hold_handled && now
            - self.button_states.at(button).press_time > self.hold_time
    }
}

impl Draft {
    /// What the press of a button does before the lights are sent.
    #[verifier::opaque]
    pub open spec fn press_handled(self, button: Buttons) -> Draft {
        match sample_button_of(button) {
            Some(sample) => self.sample_down(sample),
            None => match button {
                Buttons::MicrophoneMute => self.cough_mute(true, false, false, false),
                Buttons::Bleep => self.set(Change::Voice(VoiceChange::SwearButton(true))),
                _ => self,
            },
        }
    }

    /// A button is pressed.
    #[verifier::opaque]
    pub open spec fn button_down(self, button: Buttons) -> Draft {
        self.press_handled(button).usb_if(
            !self.mixer.press_refused(button),
            UsbCall::SendButtonStates,
        )
    }

    /// A button was held. Mute buttons send the lights on their own.
    #[verifier::opaque]
    pub open spec fn button_hold(self, button: Buttons) -> Draft {
        match mute_button_of(button) {
            Some(fader) => self.fader_mute(fader, true),
            None => if button == Buttons::MicrophoneMute {
                self.cough_mute(false, false, true, false).usb(UsbCall::SendButtonStates)
            } else {
                self.usb(UsbCall::SendButtonStates)
            },
        }
    }

    /// What the release of an effect button does.
    #[verifier::opaque]
    pub open spec fn effect_released(self, button: Buttons) -> Draft {
        let effects = self.mixer.profile.effects;
        match button {
            Buttons::EffectMegaphone => self.megaphone_set(!effects.megaphone_on),
            Buttons::EffectRobot => self.robot_set(!effects.robot_on),
            Buttons::EffectHardTune => self.hardtune_set(!effects.hardtune_on),
            Buttons::EffectFx => self.effects_set(!effects.fx_on),
            _ => self,
        }
    }

    /// What the release of a button that mutes no fader does before the lights are sent.
    #[verifier::opaque]
    pub open spec fn release_handled(self, button: Buttons, hold_handled: bool) -> Draft {
        if let Some(preset) = preset_of(button) {
            self.effect_bank_loaded(preset)
        } else if let Some(bank) = bank_of(button) {
            self.sample_bank_loaded(bank).usb(UsbCall::SendColourMap)
        } else if let Some(sample) = sample_button_of(button) {
            self.sample_up(sample)
        } else {
            match button {
                Buttons::MicrophoneMute => self.cough_mute(false, true, false, hold_handled),
                Buttons::Bleep => self.set(Change::Voice(VoiceChange::SwearButton(false))),
                Buttons::SamplerClear => self.sample_clear_toggled(),
                _ => self.effect_released(button),
            }
        }
    }

    /// A button is released. `hold_handled` says whether its being held was acted on.
    #[verifier::opaque]
    pub open spec fn button_up(self, button: Buttons, hold_handled: bool) -> Draft {
        match mute_button_of(button) {
            Some(fader) => if hold_handled {
                self.usb(UsbCall::SendButtonStates)
            } else {
                self.fader_mute(fader, false)
            },
            None => self.release_handled(button, hold_handled).usb_if(
                !self.mixer.press_refused(button),
                UsbCall::SendButtonStates,
            ),
        }
    }
}

impl Device {
    /// Acts on the press of a button. Refused for a sample button without an audio handler.
    pub fn on_button_down(&mut self, button: Buttons) -> (result: Result<(), DeviceError>)
        ensures
            final(self)@ == old(self)@.button_down(button),
            result is Err <==> old(self)@.mixer.press_refused(button),
            result is Err ==> result->Err_0 == DeviceError::NoAudioHandler,
            old(self)@.consistent() ==> final(self)@.consistent(),
    {
        reveal(Draft::button_down);
        reveal(Draft::press_handled);
        let result = match find_sample_button(button) {
            Some(sample) => self.handle_sample_button_down(sample),
            None => {
                if button == Buttons::MicrophoneMute {
                    self.handle_cough_mute(true, false, false, false);
                } else if button == Buttons::Bleep {
                    self.set(Change::Voice(VoiceChange::SwearButton(true)));
                }
                Ok(())
            },
        };
        self.usb_if(result.is_ok(), UsbCall::SendButtonStates);
        result
    }

    /// Acts on a button that was held.
    pub fn on_button_hold(&mut self, button: Buttons)
        ensures
            final(self)@ == old(self)@.button_hold(button),
            old(self)@.consistent() ==> final(self)@.consistent(),
    {
        reveal(Draft::button_hold);
        match find_mute_button(button) {
            Some(fader) => {
                let _ = self.handle_fader_mute(fader, true);
            },
            None => {
                if button == Buttons::MicrophoneMute {
                    self.handle_cough_mute(false, false, true, false);
                }
                self.usb(UsbCall::SendButtonStates);
            },
        }
    }

    /// Acts on the release of an effect button.
    fn release_effect(&mut self, button: Buttons)
        ensures
            final(self)@ == old(self)@.effect_released(button),
            old(self)@.consistent() ==> final(self)@.consistent(),
    {
        reveal(Draft::effect_released);
        let effects = self.mixer().profile.effects;
        match button {
            Buttons::EffectMegaphone => self.set_megaphone(!effects.megaphone_on),
            Buttons::EffectRobot => self.set_robot(!effects.robot_on),
            Buttons::EffectHardTune => self.set_hardtune(!effects.hardtune_on),
            Buttons::EffectFx => self.set_effects(!effects.fx_on),
            _ => {},
        }
    }

    /// Acts on the release of a button that mutes no fader.
    fn handle_release(&mut self, button: Buttons, hold_handled: bool) -> (result: Result<
        (),
        DeviceError,
    >)
        ensures
            final(self)@ == old(self)@.release_handled(button, hold_handled),
            result is Err <==> old(self)@.mixer.press_refused(button),
            result is Err ==> result->Err_0 == DeviceError::NoAudioHandler,
            old(self)@.consistent() ==> final(self)@.consistent(),
    {
        reveal(Draft::release_handled);
        if let Some(preset) = find_preset(button) {
            self.load_effect_bank(preset);
            return Ok(());
        }
        if let Some(bank) = find_bank(button) {
            self.load_sample_bank(bank);
            self.usb(UsbCall::SendColourMap);
            return Ok(());
        }
        if let Some(sample) = find_sample_button(button) {
            return self.handle_sample_button_release(sample);
        }
        match button {
            Buttons::MicrophoneMute => self.handle_cough_mute(false, true, false, hold_handled),
            Buttons::Bleep => self.set(Change::Voice(VoiceChange::SwearButton(false))),
            Buttons::SamplerClear => self.handle_sample_clear(),
            _ => self.release_effect(button),
        }
        Ok(())
    }

    /// Acts on the release of a button.
    pub fn on_button_up(&mut self, button: Buttons, hold_handled: bool) -> (result: Result<
        (),
        DeviceError,
    >)
        ensures
            final(self)@ == old(self)@.button_up(button, hold_handled),
            result.err() == old(self)@.mixer.release_refused(button, hold_handled),
            old(self)@.consistent() ==> final(self)@.consistent(),
    {
        reveal(Draft::button_up);
        match find_mute_button(button) {
            Some(fader) => {
                if hold_handled {
                    self.usb(UsbCall::SendButtonStates);
                    Ok(())
                } else {
                    self.handle_fader_mute(fader, false)
                }
            },
            None => {
                let result = self.handle_release(button, hold_handled);
                self.usb_if(result.is_ok(), UsbCall::SendButtonStates);
                result
            },
        }
    }

    /// Notes that a button was pressed, and acts on it.
    pub fn button_pressed(&mut self, button: Buttons, now: u128) -> (result: Result<
        (),
        DeviceError,
    >)
        ensures
            final(self)@ == old(self)@.set(
                Change::Kept(KeptChange::ButtonPressed(button, now)),
            ).button_down(button),
            result is Err ==> result->Err_0 == DeviceError::NoAudioHandler,
            result is Err <==> old(self)@.set(
                Change::Kept(KeptChange::ButtonPressed(button, now)),
            ).mixer.press_refused(button),
            old(self)@.consistent() ==> final(self)@.consistent(),
    {
        self.set(Change::Kept(KeptChange::ButtonPressed(button, now)));
        self.on_button_down(button)
    }

    /// Acts on a released button. `button_released` is told once the plan was performed.
    pub fn button_lifted(&mut self, button: Buttons) -> (result: Result<(), DeviceError>)
        ensures
            final(self)@ == old(self)@.button_up(
                button,
                old(self)@.mixer.button_states.at(button).hold_handled,
            ),
            result.err() == old(self)@.mixer.release_refused(
                button,
                old(self)@.mixer.button_states.at(button).hold_handled,
            ),
            old(self)@.consistent() ==> final(self)@.consistent(),
    {
        let hold_handled = self.mixer().button_states.get(button).hold_handled;
        self.on_button_up(button, hold_handled)
    }

    /// Notes that a button is no longer down.
    pub fn button_released(&mut self, button: Buttons)
        ensures
            final(self)@ == old(self)@.set(Change::Kept(KeptChange::ButtonReleased(button))),
            old(self)@.consistent() ==> final(self)@.consistent(),
    {
        self.set(Change::Kept(KeptChange::ButtonReleased(button)));
    }

    /// Notes that a button was held, and that it was acted on.
    pub fn button_held(&mut self, button: Buttons)
        ensures
            final(self)@ == old(self)@.set(Change::Kept(KeptChange::ButtonHeld(button))),
            old(self)@.consistent() ==> final(self)@.consistent(),
    {
        self.set(Change::Kept(KeptChange::ButtonHeld(button)));
    }

    /// Notes which buttons are down.
    pub fn buttons_seen(&mut self, pressed: ButtonMap<bool>)
        ensures
            final(self)@ == old(self)@.set(Change::Kept(KeptChange::ButtonsSeen(pressed))),
            old(self)@.consistent() ==> final(self)@.consistent(),
    {
        self.set(Change::Kept(KeptChange::ButtonsSeen(pressed)));
    }
}

/// The buttons that `chosen` holds of, in their order.
pub open spec fn chosen_buttons(chosen: spec_fn(Buttons) -> bool) -> Seq<Buttons> {
    Buttons::order().filter(chosen)
}

impl Mixer {
    /// The buttons that are down now and were not before, in their order.
    pub fn newly_pressed(&self, pressed: &ButtonMap<bool>) -> (buttons: Vec<Buttons>)
        ensures
            buttons@ == chosen_buttons(
                |button: Buttons| pressed.at(button) && !self.last_buttons.at(button),
            ),
    {
        let ghost chosen = |button: Buttons|
            pressed.at(button) && !self.last_buttons.at(button);
        let all: Vec<Buttons> = Buttons::all();
        let mut buttons: Vec<Buttons> = Vec::new();
        let mut i: usize = 0;
        assert(all@.take(0).filter(chosen) =~= Seq::<Buttons>::empty());
        while i < all.len()
            invariant
                i <= all.len(),
                all@ == Buttons::order(),
                chosen == (|button: Buttons| pressed.at(button) && !self.last_buttons.at(button)),
                buttons@ == all@.take(i as int).filter(chosen),
            decreases all.len() - i,
        {
            let button = all[i];
            proof {
                reveal_with_fuel(Seq::filter, 2);
                assert(all@.take(i + 1).drop_last() =~= all@.take(i as int));
                assert(all@.take(i + 1).last() == button);
            }
            if *pressed.get(button) && !*self.last_buttons.get(button) {
                buttons.push(button);
            }
            i = i + 1;
        }
        assert(all@.take(i as int) =~= all@);
        buttons
    }

    /// The buttons that were down before and are not now, in their order.
    pub fn newly_released(&self, pressed: &ButtonMap<bool>) -> (buttons: Vec<Buttons>)
        ensures
            buttons@ == chosen_buttons(
                |button: Buttons| self.last_buttons.at(button) && !pressed.at(button),
            ),
    {
        let ghost chosen = |button: Buttons|
            self.last_buttons.at(button) && !pressed.at(button);
        let all: Vec<Buttons> = Buttons::all();
        let mut buttons: Vec<Buttons> = Vec::new();
        let mut i: usize = 0;
        assert(all@.take(0).filter(chosen) =~= Seq::<Buttons>::empty());
        while i < all.len()
            invariant
                i <= all.len(),
                all@ == Buttons::order(),
                chosen == (|button: Buttons| self.last_buttons.at(button) && !pressed.at(button)),
                buttons@ == all@.take(i as int).filter(chosen),
            decreases all.len() - i,
        {
            let button = all[i];
            proof {
                reveal_with_fuel(Seq::filter, 2);
                assert(all@.take(i + 1).drop_last() =~= all@.take(i as int));
                assert(all@.take(i + 1).last() == button);
            }
            if *self.last_buttons.get(button) && !*pressed.get(button) {
                buttons.push(button);
            }
            i = i + 1;
        }
        assert(all@.take(i as int) =~= all@);
        buttons
    }

    /// The buttons that have been held long enough to be acted on, in their order. The time must
    /// not lie before any press.
    pub fn newly_held(&self, now: u128) -> (buttons: Vec<Buttons>)
        requires
            forall|button: Buttons| self.last_buttons.at(button) ==> #[trigger]
                self.button_states.at(button).press_time <= now,
        ensures
            buttons@ == chosen_buttons(|button: Buttons| self.is_held(button, now)),
    {
        let ghost chosen = |button: Buttons| self.is_held(button, now);
        let all: Vec<Buttons> = Buttons::all();
        let mut buttons: Vec<Buttons> = Vec::new();
        let mut i: usize = 0;
        assert(all@.take(0).filter(chosen) =~= Seq::<Buttons>::empty());
        while i < all.len()
            invariant
                i <= all.len(),
                all@ == Buttons::order(),
                chosen == (|button: Buttons| self.is_held(button, now)),
                buttons@ == all@.take(i as int).filter(chosen),
                forall|button: Buttons| self.last_buttons.at(button) ==> #[trigger]
                    self.button_states.at(button).press_time <= now,
            decreases all.len() - i,
        {
            let button = all[i];
            proof {
                reveal_with_fuel(Seq::filter, 2);
                assert(all@.take(i + 1).drop_last() =~= all@.take(i as int));
                assert(all@.take(i + 1).last() == button);
            }
            let state = *self.button_states.get(button);
            if *self.last_buttons.get(button) && !state.hold_handled && now - state.press_time
                > self.hold_time as u128 {
                buttons.push(button);
            }
            i = i + 1;
        }
        assert(all@.take(i as int) =~= all@);
        buttons
    }
}

} // verus!
