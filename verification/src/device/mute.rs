//! The mute buttons of the faders, and the cough button.

use crate::device::state::{Device, DeviceError, Draft, Mixer};
use crate::keys::EffectKey;
use crate::plan::{Announcement, Change, CoughChange, MixerChange, MuteChange, UsbCall};
use crate::types::{
    ChannelName, ChannelState, DeviceType, FaderName, InputDevice, MuteFunction,
};
use vstd::prelude::*;

verus! {

impl Mixer {
    /// Whether the faders run on their own when a channel is muted.
    pub open spec fn faders_move(self) -> bool {
        self.device_type != DeviceType::Mini && !self.lock_faders
    }

    /// Whether this firmware forgets the volume of `channel` when it is unmuted.
    pub open spec fn forgets_volume(self, channel: ChannelName) -> bool {
        self.supports_submixes() && (channel == ChannelName::Headphones || channel
            == ChannelName::LineOut)
    }

    /// Finds whether the faders run on their own when a channel is muted.
    pub fn do_faders_move(&self) -> (moves: bool)
        ensures
            moves == self.faders_move(),
    {
        self.device_type != DeviceType::Mini && !self.lock_faders
    }

    /// Finds whether this firmware forgets the volume of a channel when it is unmuted.
    pub fn needs_submix_correction(&self, channel: ChannelName) -> (needed: bool)
        ensures
            needed == self.forgets_volume(channel),
    {
        self.device_supports_submixes() && (channel == ChannelName::Headphones || channel
            == ChannelName::LineOut)
    }

    /// Finds whether a fader silences the microphone everywhere.
    pub fn mic_muted_by_fader(&self) -> (muted: bool)
        ensures
            muted == self.profile.mic_silenced_by_fader(),
    {
        if self.profile.is_mic_on_fader() {
            let fader = self.profile.get_mic_fader();
            let (muted_to_x, muted_to_all, function) = self.profile.get_mute_button_state(fader);
            return muted_to_all || (muted_to_x && function == MuteFunction::All);
        }
        false
    }

    /// Finds whether the cough button silences the microphone everywhere.
    pub fn mic_muted_by_cough(&self) -> (muted: bool)
        ensures
            muted == self.profile.cough.silences(),
    {
        let (_toggle, muted_to_x, muted_to_all, function) =
            self.profile.get_mute_chat_button_state();
        muted_to_all || (muted_to_x && function == MuteFunction::All)
    }
}

impl Draft {
    /// The microphone channel is muted or let through, and the effect processor is told.
    #[verifier::opaque]
    pub open spec fn mic_state(self, state: ChannelState) -> Draft {
        self.usb(UsbCall::SetChannelState(ChannelName::Mic, state)).effect(EffectKey::DisableMic)
    }

    /// The same where `condition` holds.
    #[verifier::opaque]
    pub open spec fn mic_state_if(self, condition: bool, state: ChannelState) -> Draft {
        if condition {
            self.mic_state(state)
        } else {
            self
        }
    }

    /// The cough button is lit, and what it silences is muted.
    #[verifier::opaque]
    pub open spec fn cough_on(self) -> Draft {
        let function = self.mixer.profile.cough.function;
        self.set(Change::Cough(CoughChange::On(true)))
            .mic_state_if(function == MuteFunction::All, ChannelState::Muted)
            .say(Announcement::MicMuted(function))
            .route(InputDevice::Microphone)
    }

    /// The cough button was held: the microphone is muted everywhere.
    #[verifier::opaque]
    pub open spec fn cough_held(self) -> Draft {
        self.set(Change::Cough(CoughChange::On(true)))
            .set(Change::Cough(CoughChange::Blink(true)))
            .say(Announcement::MicMuted(MuteFunction::All))
            .mic_state(ChannelState::Muted)
            .route(InputDevice::Microphone)
    }

    /// The cough button is put out. The channel is let through only if the button silenced it, and
    /// no fader does.
    #[verifier::opaque]
    pub open spec fn cough_off(self) -> Draft {
        let cough = self.mixer.profile.cough;
        let silenced = if cough.is_toggle {
            cough.silences()
        } else {
            cough.function == MuteFunction::All
        };
        self.set(Change::Cough(CoughChange::On(false)))
            .set_if(cough.is_toggle, Change::Cough(CoughChange::Blink(false)))
            .mic_state_if(
            silenced && !self.mixer.profile.mic_silenced_by_fader(),
            ChannelState::Unmuted,
        ).say(Announcement::MicUnmuted).route(InputDevice::Microphone)
    }

    /// The cough button is pressed, was held long enough, or is released. A button that toggles
    /// acts on release, unless its being held was acted on; one that does not acts while it is
    /// down.
    #[verifier::opaque]
    pub open spec fn cough_mute(
        self,
        press: bool,
        release: bool,
        held: bool,
        held_called: bool,
    ) -> Draft {
        let cough = self.mixer.profile.cough;
        if press {
            if cough.is_toggle {
                self
            } else {
                self.cough_on()
            }
        } else if held {
            if cough.is_toggle {
                self.cough_held()
            } else {
                self
            }
        } else if !release || (cough.is_toggle && held_called) {
            self
        } else if !cough.is_toggle || cough.on || cough.blink {
            self.cough_off()
        } else {
            self.cough_on()
        }
    }

    /// A cough button that mutes something is pressed.
    #[verifier::opaque]
    pub open spec fn chat_unmuted(self) -> Draft {
        if self.mixer.profile.cough.on || self.mixer.profile.cough.blink {
            self.cough_mute(true, false, false, false)
        } else {
            self
        }
    }

    /// The state of the channel on a fader is set to muted. A fader that moves runs down, and where
    /// it stood is kept.
    #[verifier::opaque]
    pub open spec fn fader_silenced(self, fader: FaderName) -> Draft {
        let mixer = self.mixer;
        let channel = mixer.profile.faders.at(fader);
        self.set_if(
            mixer.device_type != DeviceType::Mini,
            Change::Mute(fader, MuteChange::PreviousVolume(mixer.profile.volumes.at(channel))),
        )
            .usb_if(mixer.faders_move(), UsbCall::SetVolume(channel, 0))
            .usb(UsbCall::SetChannelState(channel, ChannelState::Muted))
            .set(Change::Mute(fader, MuteChange::On(true)))
    }

    /// The channel on a fader is silenced everywhere.
    #[verifier::opaque]
    pub open spec fn muted_to_all(self, fader: FaderName, blink: bool) -> Draft {
        let mixer = self.mixer;
        let button = mixer.profile.mutes.at(fader);
        let channel = mixer.profile.faders.at(fader);
        let moves = mixer.faders_move();
        if button.blink {
            self
        } else {
            let silenced = if button.on && button.function == MuteFunction::All {
                self
            } else {
                self.fader_silenced(fader)
            };
            silenced.say(Announcement::ChannelMuted(channel, MuteFunction::All))
                .set_if(blink, Change::Mute(fader, MuteChange::Blink(true)))
                .set_if(moves, Change::Mixer(MixerChange::Volume(channel, 0)))
                .usb_if(!moves, UsbCall::SendColourMap)
                .route_if(
                channel == ChannelName::Chat || channel == ChannelName::Mic,
                InputDevice::Microphone,
            ).usb(UsbCall::SendButtonStates)
        }
    }

    /// The channel on a fader is kept from what its button silences.
    #[verifier::opaque]
    pub open spec fn muted_to_x(self, fader: FaderName) -> Draft {
        let button = self.mixer.profile.mutes.at(fader);
        let channel = self.mixer.profile.faders.at(fader);
        if button.on || button.blink {
            self
        } else if button.function == MuteFunction::All {
            self.muted_to_all(fader, false)
        } else {
            self.say(Announcement::ChannelMuted(channel, button.function))
                .set(Change::Mute(fader, MuteChange::On(true)))
                .route_channel_if(true, channel)
                .usb(UsbCall::SendButtonStates)
        }
    }

    /// A channel is let through, unless it is the microphone and the cough button silences it.
    #[verifier::opaque]
    pub open spec fn let_through(self, channel: ChannelName) -> Draft {
        if channel != ChannelName::Mic || !self.mixer.profile.cough.silences() {
            self.usb(UsbCall::SetChannelState(channel, ChannelState::Unmuted)).effect(
                EffectKey::DisableMic,
            )
        } else {
            self
        }
    }

    /// A fader that moves returns to where it stood; for one that does not, the lights are sent.
    #[verifier::opaque]
    pub open spec fn volume_restored(self, fader: FaderName, channel: ChannelName) -> Draft {
        let previous = self.mixer.profile.mutes.at(fader).previous_volume;
        if self.mixer.faders_move() {
            self.usb(UsbCall::SetVolume(channel, previous)).set(
                Change::Mixer(MixerChange::Volume(channel, previous)),
            )
        } else {
            self.usb_if(
                self.mixer.forgets_volume(channel),
                UsbCall::SetVolume(channel, self.mixer.profile.volumes.at(channel)),
            ).usb(UsbCall::SendColourMap)
        }
    }

    /// A mute everywhere is undone.
    #[verifier::opaque]
    pub open spec fn unsilenced(self, fader: FaderName, channel: ChannelName) -> Draft {
        self.let_through(channel).volume_restored(fader, channel).route_if(
            channel == ChannelName::Chat || channel == ChannelName::Mic,
            InputDevice::Microphone,
        )
    }

    /// Either kind of mute of a fader is undone.
    #[verifier::opaque]
    pub open spec fn unmuted(self, fader: FaderName) -> Draft {
        let button = self.mixer.profile.mutes.at(fader);
        let channel = self.mixer.profile.faders.at(fader);
        if !button.on && !button.blink {
            self
        } else {
            let unlit = self.set(Change::Mute(fader, MuteChange::On(false)))
                .set(Change::Mute(fader, MuteChange::Blink(false)));
            let restored = if button.blink || button.function == MuteFunction::All {
                unlit.unsilenced(fader, channel)
            } else {
                unlit
            };
            restored.route_channel_if(button.function != MuteFunction::All, channel).say(Announcement::ChannelUnmuted(channel)).usb(UsbCall::SendButtonStates)
        }
    }

    /// The mute button of a fader was held long enough, or is released before that.
    #[verifier::opaque]
    pub open spec fn fader_mute(self, fader: FaderName, held: bool) -> Draft {
        let button = self.mixer.profile.mutes.at(fader);
        if held {
            self.muted_to_all(fader, true)
        } else if button.on {
            self.unmuted(fader)
        } else if button.function == MuteFunction::All {
            self.muted_to_all(fader, false)
        } else {
            self.muted_to_x(fader)
        }
    }

    /// A muted fader returns to where it stood.
    #[verifier::opaque]
    pub open spec fn fader_locked(self, fader: FaderName) -> Draft {
        let button = self.mixer.profile.mutes.at(fader);
        self.usb_if(
            button.silences(),
            UsbCall::SetVolume(self.mixer.profile.faders.at(fader), button.previous_volume),
        )
    }

    /// A muted fader runs down, and where it stood is kept.
    #[verifier::opaque]
    pub open spec fn fader_unlocked(self, fader: FaderName) -> Draft {
        let channel = self.mixer.profile.faders.at(fader);
        if self.mixer.profile.mutes.at(fader).silences() {
            self.set(
                Change::Mute(
                    fader,
                    MuteChange::PreviousVolume(self.mixer.profile.volumes.at(channel)),
                ),
            ).usb(UsbCall::SetVolume(channel, 0))
        } else {
            self
        }
    }

    /// Every muted fader returns to where it stood. The faders of a small device do not move.
    #[verifier::opaque]
    pub open spec fn faders_locked(self) -> Draft {
        if self.mixer.device_type == DeviceType::Mini {
            self
        } else {
            self.fader_locked(FaderName::A).fader_locked(FaderName::B).fader_locked(
                FaderName::C,
            ).fader_locked(FaderName::D)
        }
    }

    /// Every muted fader runs down. The faders of a small device do not move.
    #[verifier::opaque]
    pub open spec fn faders_unlocked(self) -> Draft {
        if self.mixer.device_type == DeviceType::Mini {
            self
        } else {
            self.fader_unlocked(FaderName::A).fader_unlocked(FaderName::B).fader_unlocked(
                FaderName::C,
            ).fader_unlocked(FaderName::D)
        }
    }
}

impl Device {
    /// Mutes the microphone channel or lets it through, and tells the effect processor.
    fn set_mic_state(&mut self, state: ChannelState)
        ensures
            final(self)@ == old(self)@.mic_state(state),
            old(self)@.consistent() ==> final(self)@.consistent(),
    {
        reveal(Draft::mic_state);
        self.usb(UsbCall::SetChannelState(ChannelName::Mic, state));
        self.effect(EffectKey::DisableMic);
    }

    /// The same where `condition` holds.
    fn set_mic_state_if(&mut self, condition: bool, state: ChannelState)
        ensures
            final(self)@ == old(self)@.mic_state_if(condition, state),
            old(self)@.consistent() ==> final(self)@.consistent(),
    {
        reveal(Draft::mic_state_if);
        if condition {
            self.set_mic_state(state);
        }
    }

    /// Lights the cough button and mutes what it silences.
    fn cough_on(&mut self)
        ensures
            final(self)@ == old(self)@.cough_on(),
            old(self)@.consistent() ==> final(self)@.consistent(),
    {
        reveal(Draft::cough_on);
        let function = self.mixer().profile.get_chat_mute_button_behaviour();
        self.set(Change::Cough(CoughChange::On(true)));
        self.set_mic_state_if(function == MuteFunction::All, ChannelState::Muted);
        self.say(Announcement::MicMuted(function));
        self.apply_routing(InputDevice::Microphone);
    }

    /// Mutes the microphone everywhere after the cough button was held.
    fn cough_held(&mut self)
        ensures
            final(self)@ == old(self)@.cough_held(),
            old(self)@.consistent() ==> final(self)@.consistent(),
    {
        reveal(Draft::cough_held);
        self.set(Change::Cough(CoughChange::On(true)));
        self.set(Change::Cough(CoughChange::Blink(true)));
        self.say(Announcement::MicMuted(MuteFunction::All));
        self.set_mic_state(ChannelState::Muted);
        self.apply_routing(InputDevice::Microphone);
    }

    /// Puts the cough button out and lets the microphone through where nothing else mutes it.
    fn cough_off(&mut self)
        ensures
            final(self)@ == old(self)@.cough_off(),
            old(self)@.consistent() ==> final(self)@.consistent(),
    {
        reveal(Draft::cough_off);
        let (toggle, muted_to_x, muted_to_all, function) =
            self.mixer().profile.get_mute_chat_button_state();
        let by_fader = self.mixer().mic_muted_by_fader();
        self.set(Change::Cough(CoughChange::On(false)));
        self.set_if(toggle, Change::Cough(CoughChange::Blink(false)));
        let silenced = if toggle {
            muted_to_all || (muted_to_x && function == MuteFunction::All)
        } else {
            function == MuteFunction::All
        };
        self.set_mic_state_if(silenced && !by_fader, ChannelState::Unmuted);
        self.say(Announcement::MicUnmuted);
        self.apply_routing(InputDevice::Microphone);
    }

    /// Acts on the cough button.
    pub fn handle_cough_mute(&mut self, press: bool, release: bool, held: bool, held_called: bool)
        ensures
            final(self)@ == old(self)@.cough_mute(press, release, held, held_called),
            old(self)@.consistent() ==> final(self)@.consistent(),
    {
        reveal(Draft::cough_mute);
        let (toggle, muted_to_x, muted_to_all, _function) =
            self.mixer().profile.get_mute_chat_button_state();
        if press {
            if !toggle {
                self.cough_on();
            }
            return ;
        }
        if held {
            if toggle {
                self.cough_held();
            }
            return ;
        }
        if release {
            if !toggle {
                self.cough_off();
            } else if !held_called {
                if muted_to_x || muted_to_all {
                    self.cough_off();
                } else {
                    self.cough_on();
                }
            }
        }
    }

    /// Acts on the cough button as if it were pressed, if it mutes anything.
    pub fn unmute_chat_if_muted(&mut self)
        ensures
            final(self)@ == old(self)@.chat_unmuted(),
            old(self)@.consistent() ==> final(self)@.consistent(),
    {
        reveal(Draft::chat_unmuted);
        let (_toggle, muted_to_x, muted_to_all, _function) =
            self.mixer().profile.get_mute_chat_button_state();
        if muted_to_x || muted_to_all {
            self.handle_cough_mute(true, false, false, false);
        }
    }

    /// Sets the state of the channel on a fader to muted, and lets the fader run down.
    fn silence_fader(&mut self, fader: FaderName)
        ensures
            final(self)@ == old(self)@.fader_silenced(fader),
            old(self)@.consistent() ==> final(self)@.consistent(),
    {
        reveal(Draft::fader_silenced);
        let channel = self.mixer().profile.get_fader_assignment(fader);
        let volume: u8 = self.mixer().profile.get_channel_volume(channel);
        let moves = self.mixer().do_faders_move();
        self.set_if(
            self.mixer().device_type != DeviceType::Mini,
            Change::Mute(fader, MuteChange::PreviousVolume(volume)),
        );
        self.usb_if(moves, UsbCall::SetVolume(channel, 0));
        self.usb(UsbCall::SetChannelState(channel, ChannelState::Muted));
        self.set(Change::Mute(fader, MuteChange::On(true)));
    }

    /// Silences the channel on a fader everywhere.
    pub fn mute_fader_to_all(&mut self, fader: FaderName, blink: bool)
        ensures
            final(self)@ == old(self)@.muted_to_all(fader, blink),
            old(self)@.consistent() ==> final(self)@.consistent(),
    {
        reveal(Draft::muted_to_all);
        let (muted_to_x, muted_to_all, function) = self.mixer().profile.get_mute_button_state(fader);
        let channel = self.mixer().profile.get_fader_assignment(fader);
        let moves = self.mixer().do_faders_move();
        if muted_to_all {
            return ;
        }
        if !(muted_to_x && function == MuteFunction::All) {
            self.silence_fader(fader);
        }
        self.say(Announcement::ChannelMuted(channel, MuteFunction::All));
        self.set_if(blink, Change::Mute(fader, MuteChange::Blink(true)));
        self.set_if(moves, Change::Mixer(MixerChange::Volume(channel, 0)));
        self.usb_if(!moves, UsbCall::SendColourMap);
        self.apply_routing_if(
            channel == ChannelName::Chat || channel == ChannelName::Mic,
            InputDevice::Microphone,
        );
        self.usb(UsbCall::SendButtonStates);
    }

    /// Keeps the channel on a fader from what its button silences. Refused where the channel is
    /// muted everywhere.
    pub fn mute_fader_to_x(&mut self, fader: FaderName) -> (result: Result<(), DeviceError>)
        ensures
            result is Err <==> old(self)@.mixer.profile.mutes.at(fader).blink,
            result is Err ==> result->Err_0 == DeviceError::MutedToAll,
            final(self)@ == old(self)@.muted_to_x(fader),
            old(self)@.consistent() ==> final(self)@.consistent(),
    {
        reveal(Draft::muted_to_x);
        let (muted_to_x, muted_to_all, function) = self.mixer().profile.get_mute_button_state(fader);
        let channel = self.mixer().profile.get_fader_assignment(fader);
        if muted_to_all {
            return Err(DeviceError::MutedToAll);
        }
        if muted_to_x {
            return Ok(());
        }
        if function == MuteFunction::All {
            self.mute_fader_to_all(fader, false);
            return Ok(());
        }
        self.say(Announcement::ChannelMuted(channel, function));
        self.set(Change::Mute(fader, MuteChange::On(true)));
        self.apply_channel_routing_if(true, channel);
        self.usb(UsbCall::SendButtonStates);
        Ok(())
    }

    /// Lets a channel through, unless it is the microphone and the cough button silences it.
    fn let_through(&mut self, channel: ChannelName)
        ensures
            final(self)@ == old(self)@.let_through(channel),
            old(self)@.consistent() ==> final(self)@.consistent(),
    {
        reveal(Draft::let_through);
        if channel != ChannelName::Mic || !self.mixer().mic_muted_by_cough() {
            self.usb(UsbCall::SetChannelState(channel, ChannelState::Unmuted));
            self.effect(EffectKey::DisableMic);
        }
    }

    /// Lets a fader return to where it stood, or sends the lights of one that does not move.
    fn restore_volume(&mut self, fader: FaderName, channel: ChannelName)
        ensures
            final(self)@ == old(self)@.volume_restored(fader, channel),
            old(self)@.consistent() ==> final(self)@.consistent(),
    {
        reveal(Draft::volume_restored);
        let previous: u8 = self.mixer().profile.get_mute_button_previous_volume(fader);
        if self.mixer().do_faders_move() {
            self.usb(UsbCall::SetVolume(channel, previous));
            self.set(Change::Mixer(MixerChange::Volume(channel, previous)));
        } else {
            let current: u8 = self.mixer().profile.get_channel_volume(channel);
            self.usb_if(
                self.mixer().needs_submix_correction(channel),
                UsbCall::SetVolume(channel, current),
            );
            self.usb(UsbCall::SendColourMap);
        }
    }

    /// Undoes either kind of mute of a fader.
    pub fn unmute_fader(&mut self, fader: FaderName)
        ensures
            final(self)@ == old(self)@.unmuted(fader),
            old(self)@.consistent() ==> final(self)@.consistent(),
    {
        reveal(Draft::unmuted);
        reveal(Draft::unsilenced);
        let (muted_to_x, muted_to_all, function) = self.mixer().profile.get_mute_button_state(fader);
        let channel = self.mixer().profile.get_fader_assignment(fader);
        if !muted_to_x && !muted_to_all {
            return ;
        }
        self.set(Change::Mute(fader, MuteChange::On(false)));
        self.set(Change::Mute(fader, MuteChange::Blink(false)));
        if muted_to_all || function == MuteFunction::All {
            self.let_through(channel);
            self.restore_volume(fader, channel);
            self.apply_routing_if(
                channel == ChannelName::Chat || channel == ChannelName::Mic,
                InputDevice::Microphone,
            );
        }
        self.apply_channel_routing_if(function != MuteFunction::All, channel);
        self.say(Announcement::ChannelUnmuted(channel));
        self.usb(UsbCall::SendButtonStates);
    }

    /// Acts on the mute button of a fader. Refused where a released button would mute a channel to
    /// one output that is muted everywhere.
    pub fn handle_fader_mute(&mut self, fader: FaderName, held: bool) -> (result: Result<
        (),
        DeviceError,
    >)
        ensures
            result is Err <==> !held && old(self)@.mixer.profile.mutes.at(fader).blink && !old(
                self,
            )@.mixer.profile.mutes.at(fader).on && old(self)@.mixer.profile.mutes.at(fader).function
                != MuteFunction::All,
            result is Err ==> result->Err_0 == DeviceError::MutedToAll,
            final(self)@ == old(self)@.fader_mute(fader, held),
            old(self)@.consistent() ==> final(self)@.consistent(),
    {
        reveal(Draft::fader_mute);
        let (muted_to_x, _muted_to_all, function) =
            self.mixer().profile.get_mute_button_state(fader);
        if held || (!muted_to_x && function == MuteFunction::All) {
            self.mute_fader_to_all(fader, held);
            return Ok(());
        }
        if muted_to_x {
            self.unmute_fader(fader);
            return Ok(());
        }
        self.mute_fader_to_x(fader)
    }

    /// Brings one muted fader back to where it stood.
    fn lock_fader(&mut self, fader: FaderName)
        ensures
            final(self)@ == old(self)@.fader_locked(fader),
            old(self)@.consistent() ==> final(self)@.consistent(),
    {
        reveal(Draft::fader_locked);
        let volume: u8 = self.mixer().profile.get_mute_button_previous_volume(fader);
        let channel = self.mixer().profile.get_fader_assignment(fader);
        self.usb_if(
            self.mixer().profile.get_fader_mute_state(fader) == ChannelState::Muted,
            UsbCall::SetVolume(channel, volume),
        );
    }

    /// Brings every muted fader back to where it stood.
    pub fn lock_faders(&mut self)
        ensures
            final(self)@ == old(self)@.faders_locked(),
            old(self)@.consistent() ==> final(self)@.consistent(),
    {
        reveal(Draft::faders_locked);
        if self.mixer().device_type == DeviceType::Mini {
            return ;
        }
        self.lock_fader(FaderName::A);
        self.lock_fader(FaderName::B);
        self.lock_fader(FaderName::C);
        self.lock_fader(FaderName::D);
    }

    /// Lets one muted fader run down.
    fn unlock_fader(&mut self, fader: FaderName)
        ensures
            final(self)@ == old(self)@.fader_unlocked(fader),
            old(self)@.consistent() ==> final(self)@.consistent(),
    {
        reveal(Draft::fader_unlocked);
        if self.mixer().profile.get_fader_mute_state(fader) == ChannelState::Muted {
            let channel = self.mixer().profile.get_fader_assignment(fader);
            let volume: u8 = self.mixer().profile.get_channel_volume(channel);
            self.set(Change::Mute(fader, MuteChange::PreviousVolume(volume)));
            self.usb(UsbCall::SetVolume(channel, 0));
        }
    }

    /// Lets every muted fader run down.
    pub fn unlock_faders(&mut self)
        ensures
            final(self)@ == old(self)@.faders_unlocked(),
            old(self)@.consistent() ==> final(self)@.consistent(),
    {
        reveal(Draft::faders_unlocked);
        if self.mixer().device_type == DeviceType::Mini {
            return ;
        }
        self.unlock_fader(FaderName::A);
        self.unlock_fader(FaderName::B);
        self.unlock_fader(FaderName::C);
        self.unlock_fader(FaderName::D);
    }
}

} // verus!
