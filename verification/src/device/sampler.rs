//! The buttons of the sampler.

use crate::device::state::{Device, DeviceError, Draft, Mixer, SampleActivity};
use crate::plan::{Announcement, Change, SamplerCall, SamplerChange, UsbCall};
use crate::types::{SampleBank, SampleButtons, SamplePlaybackMode};
use vstd::prelude::*;

verus! {

impl Mixer {
    /// What the audio handler does for a button; nothing where there is no handler.
    pub open spec fn activity(self, bank: SampleBank, button: SampleButtons) -> SampleActivity {
        match self.sampler {
            Some(sampler) => sampler.activity.at(bank).at(button),
            None => SampleActivity::Idle,
        }
    }

    /// Whether a sample is heard. One that was asked to stop still is.
    pub open spec fn plays(self, bank: SampleBank, button: SampleButtons) -> bool {
        self.activity(bank, button) == SampleActivity::Playing || self.activity(bank, button)
            == SampleActivity::Stopping
    }

    /// Whether any button of any bank records.
    pub open spec fn records(self) -> bool {
        exists|bank: SampleBank, button: SampleButtons| #[trigger]
            self.activity(bank, button) == SampleActivity::Recording
    }

    /// Finds what the audio handler does for a button.
    pub fn get_activity(&self, bank: SampleBank, button: SampleButtons) -> (activity:
        SampleActivity)
        ensures
            activity == self.activity(bank, button),
    {
        match &self.sampler {
            Some(sampler) => *sampler.activity.get(bank).get(button),
            None => SampleActivity::Idle,
        }
    }

    /// Finds whether a sample is heard.
    pub fn is_sample_playing(&self, bank: SampleBank, button: SampleButtons) -> (playing: bool)
        ensures
            playing == self.plays(bank, button),
    {
        let activity = self.get_activity(bank, button);
        activity == SampleActivity::Playing || activity == SampleActivity::Stopping
    }

    /// Finds whether any button of a bank records.
    fn is_bank_recording(&self, bank: SampleBank) -> (recording: bool)
        ensures
            recording == exists|button: SampleButtons| #[trigger]
                self.activity(bank, button) == SampleActivity::Recording,
    {
        let recording = self.get_activity(bank, SampleButtons::TopLeft)
            == SampleActivity::Recording || self.get_activity(bank, SampleButtons::TopRight)
            == SampleActivity::Recording || self.get_activity(bank, SampleButtons::BottomLeft)
            == SampleActivity::Recording || self.get_activity(bank, SampleButtons::BottomRight)
            == SampleActivity::Recording;
        proof {
            if exists|button: SampleButtons| #[trigger]
                self.activity(bank, button) == SampleActivity::Recording {
                let button = choose|button: SampleButtons| #[trigger]
                    self.activity(bank, button) == SampleActivity::Recording;
                assert(button == SampleButtons::TopLeft || button == SampleButtons::TopRight
                    || button == SampleButtons::BottomLeft || button
                    == SampleButtons::BottomRight);
            }
        }
        recording
    }

    /// Finds whether any button of any bank records.
    pub fn is_sample_recording(&self) -> (recording: bool)
        ensures
            recording == self.records(),
    {
        let a = self.is_bank_recording(SampleBank::A);
        let b = self.is_bank_recording(SampleBank::B);
        let c = self.is_bank_recording(SampleBank::C);
        proof {
            if self.records() {
                let (bank, button) = choose|bank: SampleBank, button: SampleButtons| #[trigger]
                    self.activity(bank, button) == SampleActivity::Recording;
                assert(bank == SampleBank::A || bank == SampleBank::B || bank == SampleBank::C);
            }
        }
        a || b || c
    }
}

/// The name of the file of a recording that was begun at a date.
pub fn recording_name(date: &str) -> (name: String)
    ensures
        name@ == "Recording_"@ + date@ + ".wav"@,
{
    let begun = crate::text::joined("Recording_", date);
    crate::text::joined(begun.as_str(), ".wav")
}

impl Draft {
    /// A button is lit if its sample is heard.
    #[verifier::opaque]
    pub open spec fn lit_if_playing(self, bank: SampleBank, button: SampleButtons) -> Draft {
        self.set_if(
            self.mixer.plays(bank, button),
            Change::Sampler(SamplerChange::ButtonOn(button, true)),
        )
    }

    /// A bank is selected.
    #[verifier::opaque]
    pub open spec fn sample_bank_loaded(self, bank: SampleBank) -> Draft {
        self.say(Announcement::SampleBank(bank))
            .set(Change::Sampler(SamplerChange::ActiveBank(bank)))
            .lit_if_playing(bank, SampleButtons::TopLeft)
            .lit_if_playing(bank, SampleButtons::TopRight)
            .lit_if_playing(bank, SampleButtons::BottomLeft)
            .lit_if_playing(bank, SampleButtons::BottomRight)
    }

    /// A button that has samples is pressed. The modes that stop on a press do so while a sample
    /// plays that was not asked to stop; every other press plays the next track.
    #[verifier::opaque]
    pub open spec fn sample_pressed(self, button: SampleButtons) -> Draft {
        let bank = self.mixer.profile.sampler.selected;
        let mode = self.mixer.profile.stack(button).mode;
        let toggles = mode == SamplePlaybackMode::PlayStop || mode == SamplePlaybackMode::PlayFade
            || mode == SamplePlaybackMode::Loop;
        if toggles && self.mixer.activity(bank, button) == SampleActivity::Playing {
            self.sampler(SamplerCall::StopPlayback { bank, button, force: false })
        } else {
            self.sampler(SamplerCall::FindNext { bank, button }).sampler(
                SamplerCall::PlayFound {
                    bank,
                    button,
                    fade_on_stop: mode == SamplePlaybackMode::FadeOnRelease || mode
                        == SamplePlaybackMode::PlayFade,
                    loop_track: mode == SamplePlaybackMode::Loop,
                },
            )
        }
    }

    /// A sample button is pressed. A button without samples records. While samples are being
    /// cleared, or without an audio handler, nothing is done.
    #[verifier::opaque]
    pub open spec fn sample_down(self, button: SampleButtons) -> Draft {
        let bank = self.mixer.profile.sampler.selected;
        if self.mixer.profile.sampler.clear || self.mixer.sampler is None {
            self
        } else if self.mixer.profile.stack(button).count == 0 {
            self.sampler(SamplerCall::Record { bank, button })
        } else {
            self.sample_pressed(button)
        }
    }

    /// The samples of a button are removed, and samples are no longer being cleared.
    #[verifier::opaque]
    pub open spec fn sample_cleared(self, button: SampleButtons) -> Draft {
        let bank = self.mixer.profile.sampler.selected;
        let stopped = if self.mixer.sampler is Some {
            self.sampler(SamplerCall::StopPlayback { bank, button, force: true })
        } else {
            self
        };
        stopped.set(Change::Sampler(SamplerChange::RemoveSamples(button)))
            .set(Change::Sampler(SamplerChange::Clear(false)))
            .usb(UsbCall::SendColourMap)
    }

    /// A button without samples is released: what was recorded is kept.
    #[verifier::opaque]
    pub open spec fn recording_released(self, button: SampleButtons) -> Draft {
        let bank = self.mixer.profile.sampler.selected;
        let stopped = if self.mixer.activity(bank, button) == SampleActivity::Recording {
            self.sampler(SamplerCall::KeepRecording { bank, button })
        } else {
            self
        };
        stopped.set(Change::Sampler(SamplerChange::ButtonBlink(button, false))).usb(
            UsbCall::SendColourMap,
        )
    }

    /// A sample button is released.
    #[verifier::opaque]
    pub open spec fn sample_up(self, button: SampleButtons) -> Draft {
        let bank = self.mixer.profile.sampler.selected;
        let mode = self.mixer.profile.stack(button).mode;
        if self.mixer.profile.sampler.clear {
            self.sample_cleared(button)
        } else if self.mixer.sampler is None {
            self
        } else if self.mixer.profile.stack(button).count == 0 {
            self.recording_released(button)
        } else if mode == SamplePlaybackMode::StopOnRelease || mode
            == SamplePlaybackMode::FadeOnRelease {
            self.sampler(SamplerCall::StopPlayback { bank, button, force: false })
        } else {
            self
        }
    }

    /// A button stops whatever it does, at once.
    #[verifier::opaque]
    pub open spec fn sample_stopped(self, bank: SampleBank, button: SampleButtons) -> Draft {
        if self.mixer.plays(bank, button) {
            self.sampler(SamplerCall::StopPlayback { bank, button, force: true }).set(
                Change::Sampler(SamplerChange::ButtonOn(button, false)),
            )
        } else if self.mixer.activity(bank, button) == SampleActivity::Recording {
            self.sampler(SamplerCall::StopRecording { bank, button }).set(
                Change::Sampler(SamplerChange::ButtonBlink(button, false)),
            )
        } else {
            self
        }
    }

    /// Every button of a bank stops.
    #[verifier::opaque]
    pub open spec fn bank_stopped(self, bank: SampleBank) -> Draft {
        self.sample_stopped(bank, SampleButtons::TopLeft)
            .sample_stopped(bank, SampleButtons::TopRight)
            .sample_stopped(bank, SampleButtons::BottomLeft)
            .sample_stopped(bank, SampleButtons::BottomRight)
    }

    /// Every button of every bank stops.
    #[verifier::opaque]
    pub open spec fn samples_stopped(self) -> Draft {
        self.bank_stopped(SampleBank::A).bank_stopped(SampleBank::B).bank_stopped(SampleBank::C)
    }

    /// The clear button is pressed. It does nothing while a sample is recorded.
    #[verifier::opaque]
    pub open spec fn sample_clear_toggled(self) -> Draft {
        let state = self.mixer.profile.sampler.clear;
        if self.mixer.sampler is Some && !self.mixer.records() {
            self.say(Announcement::SampleClear(!state)).set(
                Change::Sampler(SamplerChange::Clear(!state)),
            )
        } else {
            self
        }
    }

    /// A lit button is put out if its sample is no longer heard.
    #[verifier::opaque]
    pub open spec fn unlit_if_silent(self, button: SampleButtons) -> Draft {
        self.set_if(
            self.mixer.stays_lit_wrongly(button),
            Change::Sampler(SamplerChange::ButtonOn(button, false)),
        )
    }

    /// Whether one of the lit buttons is to be put out.
    pub open spec fn lighting_changes(self) -> bool {
        let first = self.unlit_if_silent(SampleButtons::TopLeft);
        let second = first.unlit_if_silent(SampleButtons::TopRight);
        let third = second.unlit_if_silent(SampleButtons::BottomLeft);
        self.mixer.sampler is Some && (self.mixer.stays_lit_wrongly(SampleButtons::TopLeft)
            || first.mixer.stays_lit_wrongly(SampleButtons::TopRight)
            || second.mixer.stays_lit_wrongly(SampleButtons::BottomLeft)
            || third.mixer.stays_lit_wrongly(SampleButtons::BottomRight))
    }

    /// The lights of the sample buttons follow what is heard.
    #[verifier::opaque]
    pub open spec fn sample_lighting_synced(self) -> Draft {
        if self.mixer.sampler is None {
            self
        } else {
            self.unlit_if_silent(SampleButtons::TopLeft)
                .unlit_if_silent(SampleButtons::TopRight)
                .unlit_if_silent(SampleButtons::BottomLeft)
                .unlit_if_silent(SampleButtons::BottomRight)
                .usb_if(self.lighting_changes(), UsbCall::SendButtonStates)
        }
    }

    /// Tracks whose files are gone are forgotten, and the lights follow.
    #[verifier::opaque]
    pub open spec fn sampler_validated(self) -> Draft {
        self.sampler(SamplerCall::Validate)
            .usb(UsbCall::SendColourMap)
            .usb(UsbCall::SendButtonStates)
    }
}

impl Mixer {
    /// Whether a button of the selected bank is lit though its sample is not heard.
    pub open spec fn stays_lit_wrongly(self, button: SampleButtons) -> bool {
        self.profile.sampler.on.at(button) && !self.plays(self.profile.sampler.selected, button)
    }
}

impl Device {
    /// Lights a button if its sample is heard.
    fn light_if_playing(&mut self, bank: SampleBank, button: SampleButtons)
        ensures
            final(self)@ == old(self)@.lit_if_playing(bank, button),
            old(self)@.consistent() ==> final(self)@.consistent(),
    {
        reveal(Draft::lit_if_playing);
        self.set_if(
            self.mixer().is_sample_playing(bank, button),
            Change::Sampler(SamplerChange::ButtonOn(button, true)),
        );
    }

    /// Selects a bank.
    pub fn load_sample_bank(&mut self, bank: SampleBank)
        ensures
            final(self)@ == old(self)@.sample_bank_loaded(bank),
            old(self)@.consistent() ==> final(self)@.consistent(),
    {
        reveal(Draft::sample_bank_loaded);
        self.say(Announcement::SampleBank(bank));
        self.set(Change::Sampler(SamplerChange::ActiveBank(bank)));
        self.light_if_playing(bank, SampleButtons::TopLeft);
        self.light_if_playing(bank, SampleButtons::TopRight);
        self.light_if_playing(bank, SampleButtons::BottomLeft);
        self.light_if_playing(bank, SampleButtons::BottomRight);
    }

    /// Acts on the press of a button that has samples.
    fn press_sample(&mut self, button: SampleButtons)
        ensures
            final(self)@ == old(self)@.sample_pressed(button),
            old(self)@.consistent() ==> final(self)@.consistent(),
    {
        reveal(Draft::sample_pressed);
        let bank = self.mixer().profile.sampler.selected;
        let mode = self.mixer().profile.get_sample_playback_mode(button);
        let toggles = mode == SamplePlaybackMode::PlayStop || mode == SamplePlaybackMode::PlayFade
            || mode == SamplePlaybackMode::Loop;
        if toggles && self.mixer().get_activity(bank, button) == SampleActivity::Playing {
            self.sampler(SamplerCall::StopPlayback { bank, button, force: false });
            return ;
        }
        let fade_on_stop = mode == SamplePlaybackMode::FadeOnRelease || mode
            == SamplePlaybackMode::PlayFade;
        let loop_track = mode == SamplePlaybackMode::Loop;
        self.sampler(SamplerCall::FindNext { bank, button });
        self.sampler(SamplerCall::PlayFound { bank, button, fade_on_stop, loop_track });
    }

    /// Acts on the press of a sample button. Refused where there is no audio handler.
    pub fn handle_sample_button_down(&mut self, button: SampleButtons) -> (result: Result<
        (),
        DeviceError,
    >)
        ensures
            final(self)@ == old(self)@.sample_down(button),
            result is Err <==> !old(self)@.mixer.profile.sampler.clear && old(
                self,
            )@.mixer.sampler is None,
            result is Err ==> result->Err_0 == DeviceError::NoAudioHandler,
            old(self)@.consistent() ==> final(self)@.consistent(),
    {
        reveal(Draft::sample_down);
        if self.mixer().profile.sampler.clear {
            return Ok(());
        }
        if self.mixer().sampler.is_none() {
            return Err(DeviceError::NoAudioHandler);
        }
        if !self.mixer().profile.current_sample_bank_has_samples(button) {
            let bank = self.mixer().profile.sampler.selected;
            self.sampler(SamplerCall::Record { bank, button });
            return Ok(());
        }
        self.press_sample(button);
        Ok(())
    }

    /// Removes the samples of a button, and stops clearing.
    fn clear_sample(&mut self, button: SampleButtons)
        ensures
            final(self)@ == old(self)@.sample_cleared(button),
            old(self)@.consistent() ==> final(self)@.consistent(),
    {
        reveal(Draft::sample_cleared);
        let bank = self.mixer().profile.sampler.selected;
        if self.mixer().sampler.is_some() {
            self.sampler(SamplerCall::StopPlayback { bank, button, force: true });
        }
        self.set(Change::Sampler(SamplerChange::RemoveSamples(button)));
        self.set(Change::Sampler(SamplerChange::Clear(false)));
        self.usb(UsbCall::SendColourMap);
    }

    /// Acts on the release of a button without samples.
    fn release_recording(&mut self, button: SampleButtons)
        ensures
            final(self)@ == old(self)@.recording_released(button),
            old(self)@.consistent() ==> final(self)@.consistent(),
    {
        reveal(Draft::recording_released);
        let bank = self.mixer().profile.sampler.selected;
        if self.mixer().get_activity(bank, button) == SampleActivity::Recording {
            self.sampler(SamplerCall::KeepRecording { bank, button });
        }
        self.set(Change::Sampler(SamplerChange::ButtonBlink(button, false)));
        self.usb(UsbCall::SendColourMap);
    }

    /// Acts on the release of a sample button. Refused where there is no audio handler, unless
    /// samples are being cleared.
    pub fn handle_sample_button_release(&mut self, button: SampleButtons) -> (result: Result<
        (),
        DeviceError,
    >)
        ensures
            final(self)@ == old(self)@.sample_up(button),
            result is Err <==> !old(self)@.mixer.profile.sampler.clear && old(
                self,
            )@.mixer.sampler is None,
            result is Err ==> result->Err_0 == DeviceError::NoAudioHandler,
            old(self)@.consistent() ==> final(self)@.consistent(),
    {
        reveal(Draft::sample_up);
        if self.mixer().profile.sampler.clear {
            self.clear_sample(button);
            return Ok(());
        }
        if self.mixer().sampler.is_none() {
            return Err(DeviceError::NoAudioHandler);
        }
        if !self.mixer().profile.current_sample_bank_has_samples(button) {
            self.release_recording(button);
            return Ok(());
        }
        let bank = self.mixer().profile.sampler.selected;
        let mode = self.mixer().profile.get_sample_playback_mode(button);
        if mode == SamplePlaybackMode::StopOnRelease || mode == SamplePlaybackMode::FadeOnRelease {
            self.sampler(SamplerCall::StopPlayback { bank, button, force: false });
        }
        Ok(())
    }

    /// Stops whatever a button does, at once.
    fn stop_sample(&mut self, bank: SampleBank, button: SampleButtons)
        ensures
            final(self)@ == old(self)@.sample_stopped(bank, button),
            old(self)@.consistent() ==> final(self)@.consistent(),
    {
        reveal(Draft::sample_stopped);
        let activity = self.mixer().get_activity(bank, button);
        if activity == SampleActivity::Playing || activity == SampleActivity::Stopping {
            self.sampler(SamplerCall::StopPlayback { bank, button, force: true });
            self.set(Change::Sampler(SamplerChange::ButtonOn(button, false)));
        } else if activity == SampleActivity::Recording {
            self.sampler(SamplerCall::StopRecording { bank, button });
            self.set(Change::Sampler(SamplerChange::ButtonBlink(button, false)));
        }
    }

    /// Stops every button of a bank.
    fn stop_bank(&mut self, bank: SampleBank)
        ensures
            final(self)@ == old(self)@.bank_stopped(bank),
            old(self)@.consistent() ==> final(self)@.consistent(),
    {
        reveal(Draft::bank_stopped);
        self.stop_sample(bank, SampleButtons::TopLeft);
        self.stop_sample(bank, SampleButtons::TopRight);
        self.stop_sample(bank, SampleButtons::BottomLeft);
        self.stop_sample(bank, SampleButtons::BottomRight);
    }

    /// Stops every button of every bank.
    pub fn stop_all_samples(&mut self)
        ensures
            final(self)@ == old(self)@.samples_stopped(),
            old(self)@.consistent() ==> final(self)@.consistent(),
    {
        reveal(Draft::samples_stopped);
        self.stop_bank(SampleBank::A);
        self.stop_bank(SampleBank::B);
        self.stop_bank(SampleBank::C);
    }

    /// Acts on the clear button.
    pub fn handle_sample_clear(&mut self)
        ensures
            final(self)@ == old(self)@.sample_clear_toggled(),
            old(self)@.consistent() ==> final(self)@.consistent(),
    {
        reveal(Draft::sample_clear_toggled);
        let state = self.mixer().profile.sampler.clear;
        if self.mixer().sampler.is_some() && !self.mixer().is_sample_recording() {
            self.say(Announcement::SampleClear(!state));
            self.set(Change::Sampler(SamplerChange::Clear(!state)));
        }
    }

    /// Puts a lit button out if its sample is no longer heard. Gives whether it was.
    fn unlight_if_silent(&mut self, button: SampleButtons) -> (changed: bool)
        ensures
            final(self)@ == old(self)@.unlit_if_silent(button),
            changed == old(self)@.mixer.stays_lit_wrongly(button),
            old(self)@.consistent() ==> final(self)@.consistent(),
    {
        reveal(Draft::unlit_if_silent);
        let bank = self.mixer().profile.sampler.selected;
        let changed = self.mixer().profile.is_sample_active(button)
            && !self.mixer().is_sample_playing(bank, button);
        self.set_if(changed, Change::Sampler(SamplerChange::ButtonOn(button, false)));
        changed
    }

    /// Lets the lights of the sample buttons follow what is heard. Gives whether one was put out.
    pub fn sync_sample_lighting(&mut self) -> (changed: bool)
        ensures
            final(self)@ == old(self)@.sample_lighting_synced(),
            changed == old(self)@.lighting_changes(),
            old(self)@.consistent() ==> final(self)@.consistent(),
    {
        reveal(Draft::sample_lighting_synced);
        if self.mixer().sampler.is_none() {
            return false;
        }
        let first = self.unlight_if_silent(SampleButtons::TopLeft);
        let second = self.unlight_if_silent(SampleButtons::TopRight);
        let third = self.unlight_if_silent(SampleButtons::BottomLeft);
        let fourth = self.unlight_if_silent(SampleButtons::BottomRight);
        let changed = first || second || third || fourth;
        self.usb_if(changed, UsbCall::SendButtonStates);
        changed
    }

    /// Forgets every track whose file is gone, and lets the lights follow.
    pub fn validate_sampler(&mut self)
        ensures
            final(self)@ == old(self)@.sampler_validated(),
            old(self)@.consistent() ==> final(self)@.consistent(),
    {
        reveal(Draft::sampler_validated);
        self.sampler(SamplerCall::Validate);
        self.usb(UsbCall::SendColourMap);
        self.usb(UsbCall::SendButtonStates);
    }

    /// Lights a button whose playback has started.
    pub fn playback_started(&mut self, button: SampleButtons)
        ensures
            final(self)@ == old(self)@.set(Change::Sampler(SamplerChange::ButtonOn(button, true))),
            old(self)@.consistent() ==> final(self)@.consistent(),
    {
        self.set(Change::Sampler(SamplerChange::ButtonOn(button, true)));
    }

    /// Lets a button blink whose recording has started.
    pub fn recording_started(&mut self, button: SampleButtons)
        ensures
            final(self)@ == old(self)@.set(
                Change::Sampler(SamplerChange::ButtonBlink(button, true)),
            ),
            old(self)@.consistent() ==> final(self)@.consistent(),
    {
        self.set(Change::Sampler(SamplerChange::ButtonBlink(button, true)));
    }

    /// Counts a track that was added to a button.
    pub fn sample_added(&mut self, bank: SampleBank, button: SampleButtons)
        ensures
            final(self)@ == old(self)@.set(Change::Sampler(SamplerChange::AddSample(bank, button))),
            old(self)@.consistent() ==> final(self)@.consistent(),
    {
        self.set(Change::Sampler(SamplerChange::AddSample(bank, button)));
    }
}

} // verus!
