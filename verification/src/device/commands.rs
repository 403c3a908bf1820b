//! What the commands of a client do.

use crate::command::GoXLRCommand;
use crate::device::follow::{follow_of, get_follow, Follow};
use crate::device::load::CurrentState;
use crate::device::state::{Device, DeviceError, Draft, Mixer};
use crate::keys::{EffectKey, MicrophoneParamKey};
use crate::plan::{
    Change, CoughChange, KeptChange, LightChange, MixerChange, MuteChange, SamplerCall,
    SamplerChange, Step, UsbCall, VoiceChange,
};
use crate::profile::{Animation, ProfileAdapter};
use crate::types::{
    AnimationMode, ChannelMap, ChannelName, ChannelState, DeviceType, EncoderName, FaderName,
    HardTuneSource, InputDevice, MuteFunction, MuteState, OutputDevice, SampleBank, SampleButtons,
    SubMixMap,
};
use vstd::prelude::*;

verus! {

/// The longest time, in milliseconds, that the sampler keeps before a recording.
pub const LONGEST_PRE_BUFFER: u16 = 30000;

/// What a command needs to know beside the state of the mixer.
#[derive(Debug)]
pub struct CommandContext {
    pub profile_name: String,
    pub mic_profile_name: String,
    /// The volume that a linked channel gets from the volume in the command.
    pub linked: u8,
    /// The volume in the second mix that each linked channel gets from its main volume.
    pub links: SubMixMap<u8>,
    /// The position that the amount in the command gives to an encoder.
    pub encoder: i8,
    /// Whether the file that the command names was found.
    pub sample_found: bool,
}

impl Mixer {
    /// Why a command is refused, if it is. `profile` and `mic_profile` are the names of the
    /// profiles in use.
    #[verifier::opaque]
    pub open spec fn refusal(
        self,
        command: &GoXLRCommand,
        context: CommandContext,
    ) -> Option<DeviceError> {
        match command {
            GoXLRCommand::SetSamplerPreBufferDuration(duration) => {
                if *duration > LONGEST_PRE_BUFFER {
                    Some(DeviceError::BufferTooLong)
                } else {
                    None
                }
            },
            GoXLRCommand::SetAnimationMode(mode) => {
                if !self.supports_animations() {
                    Some(DeviceError::AnimationsUnsupported)
                } else if *mode == AnimationMode::Ripple && self.device_type == DeviceType::Mini {
                    Some(DeviceError::RippleUnsupported)
                } else {
                    None
                }
            },
            GoXLRCommand::SetAnimationMod1(_) | GoXLRCommand::SetAnimationMod2(_)
            | GoXLRCommand::SetAnimationWaterfall(_) => {
                if !self.supports_animations() {
                    Some(DeviceError::AnimationsUnsupported)
                } else {
                    None
                }
            },
            GoXLRCommand::DeleteProfile(name) => {
                if name@ == context.profile_name@ {
                    Some(DeviceError::ProfileInUse)
                } else {
                    None
                }
            },
            GoXLRCommand::DeleteMicProfile(name) => {
                if name@ == context.mic_profile_name@ {
                    Some(DeviceError::ProfileInUse)
                } else {
                    None
                }
            },
            GoXLRCommand::SetFaderMuteState(fader, MuteState::MutedToX) => {
                if self.profile.mutes.at(*fader).blink {
                    Some(DeviceError::MutedToAll)
                } else {
                    None
                }
            },
            GoXLRCommand::SetCoughMuteState(_) => {
                if !self.profile.cough.is_toggle {
                    Some(DeviceError::CoughInHoldMode)
                } else {
                    None
                }
            },
            GoXLRCommand::AddSample(_, _, _) => {
                if !context.sample_found {
                    Some(DeviceError::SampleMissing)
                } else if self.sampler is Some && self.sampler->0.calculating {
                    Some(DeviceError::GainCalculationRunning)
                } else {
                    None
                }
            },
            _ => None,
        }
    }

    /// Finds why a command is refused.
    pub fn get_refusal(&self, command: &GoXLRCommand, context: &CommandContext) -> (refusal: Option<
        DeviceError,
    >)
        ensures
            refusal == self.refusal(command, *context),
    {
        reveal(Mixer::refusal);
        match command {
            GoXLRCommand::SetSamplerPreBufferDuration(duration) => {
                if *duration > LONGEST_PRE_BUFFER {
                    return Some(DeviceError::BufferTooLong);
                }
            },
            GoXLRCommand::SetAnimationMode(mode) => {
                if !self.device_supports_animations() {
                    return Some(DeviceError::AnimationsUnsupported);
                }
                if *mode == AnimationMode::Ripple && self.device_type == DeviceType::Mini {
                    return Some(DeviceError::RippleUnsupported);
                }
            },
            GoXLRCommand::SetAnimationMod1(_) | GoXLRCommand::SetAnimationMod2(_)
            | GoXLRCommand::SetAnimationWaterfall(_) => {
                if !self.device_supports_animations() {
                    return Some(DeviceError::AnimationsUnsupported);
                }
            },
            GoXLRCommand::DeleteProfile(name) => {
                if *name == context.profile_name {
                    return Some(DeviceError::ProfileInUse);
                }
            },
            GoXLRCommand::DeleteMicProfile(name) => {
                if *name == context.mic_profile_name {
                    return Some(DeviceError::ProfileInUse);
                }
            },
            GoXLRCommand::SetFaderMuteState(fader, MuteState::MutedToX) => {
                if self.profile.mutes.get(*fader).blink {
                    return Some(DeviceError::MutedToAll);
                }
            },
            GoXLRCommand::SetCoughMuteState(_) => {
                if !self.profile.cough.is_toggle {
                    return Some(DeviceError::CoughInHoldMode);
                }
            },
            GoXLRCommand::AddSample(_, _, _) => {
                if !context.sample_found {
                    return Some(DeviceError::SampleMissing);
                }
                if let Some(sampler) = &self.sampler {
                    if sampler.calculating {
                        return Some(DeviceError::GainCalculationRunning);
                    }
                }
            },
            _ => {},
        }
        None
    }

    /// The state of a channel that the profile calls for.
    pub open spec fn channel_state(self, channel: ChannelName) -> ChannelState {
        let silenced = if channel == ChannelName::Mic {
            self.profile.cough.silences() || self.profile.mic_silenced_by_fader()
        } else {
            match self.profile.fader_with(channel) {
                Some(fader) => self.profile.mutes.at(fader).silences(),
                None => false,
            }
        };
        if silenced {
            ChannelState::Muted
        } else {
            ChannelState::Unmuted
        }
    }

    /// Finds the state of a channel that the profile calls for.
    pub fn get_channel_state(&self, channel: ChannelName) -> (state: ChannelState)
        ensures
            state == self.channel_state(channel),
    {
        if channel == ChannelName::Mic {
            if self.mic_muted_by_cough() || self.mic_muted_by_fader() {
                return ChannelState::Muted;
            }
            return ChannelState::Unmuted;
        }
        match self.profile.get_fader_from_channel(channel) {
            Some(fader) => self.profile.get_fader_mute_state(fader),
            None => ChannelState::Unmuted,
        }
    }

    /// What the hardware was told of the profile.
    pub open spec fn current_state(self) -> CurrentState {
        CurrentState {
            faders: self.profile.faders,
            mute_state: ChannelMap {
                mic: self.channel_state(ChannelName::Mic),
                line_in: self.channel_state(ChannelName::LineIn),
                console: self.channel_state(ChannelName::Console),
                system: self.channel_state(ChannelName::System),
                game: self.channel_state(ChannelName::Game),
                chat: self.channel_state(ChannelName::Chat),
                sample: self.channel_state(ChannelName::Sample),
                music: self.channel_state(ChannelName::Music),
                headphones: self.channel_state(ChannelName::Headphones),
                mic_monitor: self.channel_state(ChannelName::MicMonitor),
                line_out: self.channel_state(ChannelName::LineOut),
            },
            volumes: self.profile.volumes,
        }
    }

    /// Notes what the hardware was told of the profile.
    pub fn get_current_state(&self) -> (state: CurrentState)
        ensures
            state == self.current_state(),
    {
        CurrentState {
            faders: self.profile.faders,
            mute_state: ChannelMap {
                mic: self.get_channel_state(ChannelName::Mic),
                line_in: self.get_channel_state(ChannelName::LineIn),
                console: self.get_channel_state(ChannelName::Console),
                system: self.get_channel_state(ChannelName::System),
                game: self.get_channel_state(ChannelName::Game),
                chat: self.get_channel_state(ChannelName::Chat),
                sample: self.get_channel_state(ChannelName::Sample),
                music: self.get_channel_state(ChannelName::Music),
                headphones: self.get_channel_state(ChannelName::Headphones),
                mic_monitor: self.get_channel_state(ChannelName::MicMonitor),
                line_out: self.get_channel_state(ChannelName::LineOut),
            },
            volumes: self.profile.volumes,
        }
    }
}

impl Draft {
    /// An encoder takes a position, and its effect is sent.
    #[verifier::opaque]
    pub open spec fn encoder_placed(self, encoder: EncoderName, value: i8, key: EffectKey) -> Draft {
        self.set(Change::Voice(VoiceChange::Encoder(encoder, value)))
            .usb(UsbCall::SetEncoder(encoder, value))
            .effect(key)
    }

    /// What follows a stored value is sent.
    #[verifier::opaque]
    pub open spec fn followed(self, follow: Follow, encoder: i8) -> Draft {
        match follow {
            Follow::Nothing => self,
            Follow::Save => self.then_do(Step::SaveSettings),
            Follow::Bleep => self.effect(EffectKey::BleepLevel).usb(
                UsbCall::SendMicParam(MicrophoneParamKey::BleepLevel),
            ),
            Follow::MicGain => self.usb(UsbCall::SendMicGain),
            Follow::Param(key) => self.usb(UsbCall::SendMicParam(key)),
            Follow::ParamEffect(param, key) => self.usb(UsbCall::SendMicParam(param)).effect(key),
            Follow::Effects(group) => self.effects(group),
            Follow::Colours => self.usb(UsbCall::SendColourMap),
            Follow::ColoursAndButtons => self.usb(UsbCall::SendColourMap).usb(
                UsbCall::SendButtonStates,
            ),
            Follow::TakenColours => self.then_do(Step::TakeLights).usb(UsbCall::SendColourMap),
            Follow::TakenColoursAndButtons => self.then_do(Step::TakeLights)
                .usb(UsbCall::SendColourMap)
                .usb(UsbCall::SendButtonStates),
            Follow::TakenColoursButtonsDisplays => self.then_do(Step::TakeLights)
                .usb(UsbCall::SendColourMap)
                .usb(UsbCall::SendButtonStates)
                .displays_sent(),
            Follow::Display(fader) => self.usb(UsbCall::SendFaderDisplay(fader)),
            Follow::Displays => self.displays_sent(),
            Follow::Scribble(fader) => self.usb(UsbCall::SendScribble(fader)),
            Follow::Encoder(name, key) => self.encoder_placed(name, encoder, key),
            Follow::PitchStyle => self.pitch_mode_sent().encoder_placed(
                EncoderName::Pitch,
                encoder,
                EffectKey::PitchThreshold,
            ),
        }
    }

    /// What a fader mutes is changed. It is unmuted first, since nothing could undo the old mute.
    #[verifier::opaque]
    pub open spec fn mute_function_set(self, fader: FaderName, function: MuteFunction) -> Draft {
        if self.mixer.profile.mutes.at(fader).function == function {
            self
        } else {
            self.unmuted(fader).set(Change::Mute(fader, MuteChange::Function(function)))
        }
    }

    /// What the cough button mutes is changed.
    #[verifier::opaque]
    pub open spec fn cough_function_set(self, function: MuteFunction) -> Draft {
        if self.mixer.profile.cough.function == function {
            self
        } else {
            self.chat_unmuted().set(Change::Cough(CoughChange::Function(function)))
        }
    }

    /// The cough button is put into a state.
    #[verifier::opaque]
    pub open spec fn cough_state_set(self, state: MuteState) -> Draft {
        self.set(Change::Cough(CoughChange::On(state == MuteState::MutedToX)))
            .set(Change::Cough(CoughChange::Blink(state == MuteState::MutedToAll)))
            .cough_applied()
            .route(InputDevice::Microphone)
            .usb(UsbCall::SendButtonStates)
    }

    /// The source of hard tune is changed, and the routes of the inputs that it marks are sent.
    #[verifier::opaque]
    pub open spec fn hardtune_source_set(self, source: HardTuneSource) -> Draft {
        let profile = self.mixer.profile;
        let changed = self.set(Change::Voice(VoiceChange::HardTuneSource(source)));
        if profile.hardtune_source() == source {
            self
        } else if source == HardTuneSource::All || profile.hardtune_follows_all() {
            changed.route(InputDevice::Music)
                .route(InputDevice::Game)
                .route(InputDevice::LineIn)
                .route(InputDevice::System)
                .effect(EffectKey::HardTuneKeySource)
        } else {
            changed.route(profile.hardtune_input())
                .route(changed.mixer.profile.hardtune_input())
                .effect(EffectKey::HardTuneKeySource)
        }
    }

    /// The second mix is switched. Without it the headphones are monitored again.
    #[verifier::opaque]
    pub open spec fn submix_enabled_set(self, enabled: bool, links: SubMixMap<u8>) -> Draft {
        if self.mixer.profile.submix.enabled == enabled {
            self
        } else {
            let monitored = if enabled {
                self
            } else {
                self.set(Change::Mixer(MixerChange::Monitor(OutputDevice::Headphones))).all_routed()
            };
            monitored.set(Change::Mixer(MixerChange::SubMixEnabled(enabled))).submix_loaded(
                true,
                links,
            )
        }
    }

    /// The volume of a channel in the second mix is linked to its main volume, or not. The ratio of
    /// a new link is stored with it.
    #[verifier::opaque]
    pub open spec fn submix_link_set(self, channel: ChannelName, linked: bool) -> Draft {
        match ProfileAdapter::submix_of(channel) {
            Some(mix) => {
                let set = self.set(Change::Mixer(MixerChange::SubMixLinked(mix, linked)));
                if linked {
                    set.then_do(Step::Store(GoXLRCommand::SetSubMixLinked(channel, linked)))
                } else {
                    set
                }
            },
            None => self,
        }
    }

    /// Faders are locked, or not.
    #[verifier::opaque]
    pub open spec fn lock_set(self, locked: bool) -> Draft {
        if self.mixer.lock_faders == locked {
            self
        } else {
            let saved = self.set(Change::Kept(KeptChange::LockFaders(locked)))
                .then_do(Step::Store(GoXLRCommand::SetLockFaders(locked)))
                .then_do(Step::SaveSettings);
            let moved = if locked {
                saved.faders_locked()
            } else {
                saved.faders_unlocked()
            };
            moved.usb(UsbCall::SendColourMap)
        }
    }

    /// A command about faders, mutes and routes is obeyed.
    #[verifier::opaque]
    pub open spec fn mixer_commanded(self, command: &GoXLRCommand, context: CommandContext) -> Draft {
        match command {
            GoXLRCommand::SetFader(fader, channel) => self.fader_set(*fader, *channel),
            GoXLRCommand::SetFaderMuteFunction(fader, function) => self.mute_function_set(
                *fader,
                *function,
            ),
            GoXLRCommand::SetVolume(channel, volume) => self.volume_set(
                *channel,
                *volume,
                context.linked,
            ),
            GoXLRCommand::SetCoughMuteFunction(function) => self.cough_function_set(*function),
            GoXLRCommand::SetCoughIsHold(is_hold) => self.chat_unmuted().set(
                Change::Cough(CoughChange::IsToggle(!*is_hold)),
            ),
            GoXLRCommand::SetRouter(input, output, enabled) => self.set(
                Change::Mixer(MixerChange::Routing(*input, *output, *enabled)),
            ).route(*input),
            GoXLRCommand::SetFaderMuteState(fader, state) => match state {
                MuteState::Unmuted => self.unmuted(*fader),
                MuteState::MutedToX => self.muted_to_x(*fader),
                MuteState::MutedToAll => self.muted_to_all(*fader, true),
            },
            GoXLRCommand::SetCoughMuteState(state) => self.cough_state_set(*state),
            GoXLRCommand::SetSubMixEnabled(enabled) => self.submix_enabled_set(
                *enabled,
                context.links,
            ),
            GoXLRCommand::SetSubMixVolume(channel, volume) => self.submix_volume_set(
                *channel,
                *volume,
                context.linked,
            ),
            GoXLRCommand::SetSubMixLinked(channel, linked) => self.submix_link_set(
                *channel,
                *linked,
            ),
            GoXLRCommand::SetSubMixOutputMix(output, mix) => self.set(
                Change::Mixer(MixerChange::MixOutput(*output, *mix)),
            ).submix_loaded(false, context.links),
            GoXLRCommand::SetMonitorMix(output) => self.set(
                Change::Mixer(MixerChange::Monitor(*output)),
            ).all_routed().submix_loaded(false, context.links),
            _ => self,
        }
    }

    /// A command about the settings of the device and its lights is obeyed.
    #[verifier::opaque]
    pub open spec fn setting_commanded(self, command: &GoXLRCommand) -> Draft {
        match command {
            GoXLRCommand::SetMuteHoldDuration(duration) => self.set(
                Change::Kept(KeptChange::HoldTime(*duration)),
            ).then_do(Step::Store(*command)).then_do(Step::SaveSettings),
            GoXLRCommand::SetVCMuteAlsoMuteCM(value) => self.set(
                Change::Kept(KeptChange::ChatMuteMutesMic(*value)),
            ).then_do(Step::Store(*command)).then_do(Step::SaveSettings),
            GoXLRCommand::SetMonitorWithFx(value) => self.set(
                Change::Kept(KeptChange::MonitorWithFx(*value)),
            ).then_do(Step::Store(*command)).then_do(Step::SaveSettings).route(
                InputDevice::Microphone,
            ),
            GoXLRCommand::SetLockFaders(value) => self.lock_set(*value),
            GoXLRCommand::SetAnimationMode(mode) => self.set(
                Change::Light(LightChange::Mode(*mode)),
            ).animation_loaded(false),
            GoXLRCommand::SetAnimationMod1(value) => self.set(
                Change::Light(LightChange::Mod1(*value)),
            ).animation_loaded(false),
            GoXLRCommand::SetAnimationMod2(value) => self.set(
                Change::Light(LightChange::Mod2(*value)),
            ).animation_loaded(false),
            GoXLRCommand::SetAnimationWaterfall(direction) => self.set(
                Change::Light(LightChange::Waterfall(*direction)),
            ).animation_loaded(false),
            _ => self,
        }
    }

    /// A command that switches an effect is obeyed.
    #[verifier::opaque]
    pub open spec fn voice_commanded(self, command: &GoXLRCommand) -> Draft {
        match command {
            GoXLRCommand::SetHardTuneSource(source) => self.hardtune_source_set(*source),
            GoXLRCommand::SetActiveEffectPreset(preset) => self.effect_bank_loaded(*preset).usb(
                UsbCall::SendButtonStates,
            ),
            GoXLRCommand::SetMegaphoneEnabled(enabled) => self.megaphone_set(*enabled).usb(
                UsbCall::SendButtonStates,
            ),
            GoXLRCommand::SetRobotEnabled(enabled) => self.robot_set(*enabled).usb(
                UsbCall::SendButtonStates,
            ),
            GoXLRCommand::SetHardTuneEnabled(enabled) => self.hardtune_set(*enabled).usb(
                UsbCall::SendButtonStates,
            ),
            GoXLRCommand::SetFXEnabled(enabled) => self.effects_set(*enabled).usb(
                UsbCall::SendButtonStates,
            ),
            _ => self,
        }
    }

    /// A sample is taken from a button; the lights follow if it was the last.
    #[verifier::opaque]
    pub open spec fn sample_removed(
        self,
        command: GoXLRCommand,
        bank: SampleBank,
        button: SampleButtons,
    ) -> Draft {
        self.then_do(Step::Store(command))
            .set(Change::Sampler(SamplerChange::DropSample(bank, button)))
            .usb_if(
            self.mixer.profile.sampler.stacks.at(bank).at(button).count <= 1,
            UsbCall::SendColourMap,
        )
    }

    /// The gain of a file is asked for where `condition` holds.
    #[verifier::opaque]
    pub open spec fn gain_asked(
        self,
        condition: bool,
        bank: SampleBank,
        button: SampleButtons,
        file: String,
    ) -> Draft {
        if condition {
            self.then_do(Step::CalculateGain(bank, button, file))
        } else {
            self
        }
    }

    /// The track that was found is played where there is an audio handler.
    #[verifier::opaque]
    pub open spec fn found_played(self, bank: SampleBank, button: SampleButtons) -> Draft {
        self.sampler_if(
            self.mixer.sampler is Some,
            SamplerCall::PlayFound { bank, button, fade_on_stop: false, loop_track: false },
        ).usb(UsbCall::SendButtonStates)
    }

    /// A command about samples is obeyed.
    #[verifier::opaque]
    pub open spec fn sample_commanded(self, command: &GoXLRCommand) -> Draft {
        let handler = self.mixer.sampler is Some;
        match command {
            GoXLRCommand::SetSamplerPreBufferDuration(duration) => self.then_do(
                Step::Store(*command),
            )
                .then_do(Step::SaveSettings)
                .samples_stopped()
                .sampler(SamplerCall::Restart { pre_buffer: *duration }),
            GoXLRCommand::SetActiveSamplerBank(bank) => self.sample_bank_loaded(*bank).usb(
                UsbCall::SendColourMap,
            ),
            GoXLRCommand::SetSamplerFunction(bank, button, mode) => self.set(
                Change::Sampler(SamplerChange::Mode(*bank, *button, *mode)),
            ),
            GoXLRCommand::SetSamplerOrder(bank, button, order) => self.set(
                Change::Sampler(SamplerChange::Order(*bank, *button, *order)),
            ),
            GoXLRCommand::AddSample(bank, button, file) => self.gain_asked(
                handler,
                *bank,
                *button,
                *file,
            ).usb(UsbCall::SendColourMap),
            GoXLRCommand::RemoveSampleByIndex(bank, button, _) => self.sample_removed(
                *command,
                *bank,
                *button,
            ),
            GoXLRCommand::PlaySampleByIndex(bank, button, index) => self.sampler(
                SamplerCall::FindIndex { bank: *bank, button: *button, index: *index },
            ).found_played(*bank, *button),
            GoXLRCommand::PlayNextSample(bank, button) => self.sampler(
                SamplerCall::FindNext { bank: *bank, button: *button },
            ).found_played(*bank, *button),
            GoXLRCommand::StopSamplePlayback(bank, button) => self.sampler_if(
                handler,
                SamplerCall::StopPlayback { bank: *bank, button: *button, force: false },
            ).usb(UsbCall::SendButtonStates),
            _ => self,
        }
    }

    /// A command about profile files is obeyed. A file that changes the state of the mixer is
    /// applied once it was read: `Device::profile_loaded`, `Device::preset_loaded` and
    /// `Device::colours_loaded` are told.
    #[verifier::opaque]
    pub open spec fn file_commanded(self, command: &GoXLRCommand) -> Draft {
        match command {
            GoXLRCommand::NewProfile(_) | GoXLRCommand::LoadProfile(_, _) => {
                self.samples_stopped().then_do(Step::File(*command))
            },
            GoXLRCommand::SaveProfileAs(_) => self.then_do(Step::File(*command))
                .then_do(Step::RememberProfile)
                .then_do(Step::SaveSettings),
            GoXLRCommand::NewMicProfile(_) | GoXLRCommand::SaveMicProfileAs(_) => {
                self.then_do(Step::File(*command))
                    .then_do(Step::RememberMicProfile)
                    .then_do(Step::SaveSettings)
            },
            GoXLRCommand::LoadMicProfile(_, save) => {
                let applied = self.then_do(Step::File(*command)).mic_profile_applied();
                if *save {
                    applied.then_do(Step::RememberMicProfile).then_do(Step::SaveSettings)
                } else {
                    applied
                }
            },
            _ => self.then_do(Step::File(*command)),
        }
    }

    /// The sampler is asked to do something where `condition` holds.
    #[verifier::opaque]
    pub open spec fn sampler_if(self, condition: bool, call: SamplerCall) -> Draft {
        if condition {
            self.sampler(call)
        } else {
            self
        }
    }

    /// A command is obeyed.
    #[verifier::opaque]
    pub open spec fn commanded(self, command: &GoXLRCommand, context: CommandContext) -> Draft {
        match follow_of(command) {
            Some(follow) => self.then_do(Step::Store(*command)).followed(follow, context.encoder),
            None => match area_of(command) {
                Area::Mixer => self.mixer_commanded(command, context),
                Area::Setting => self.setting_commanded(command),
                Area::Voice => self.voice_commanded(command),
                Area::Sampler => self.sample_commanded(command),
                Area::File => self.file_commanded(command),
            },
        }
    }
}

/// What is done once a profile is in use.
#[derive(Debug)]
pub enum LoadEnd {
    Leave,
    /// The name of the profile is remembered.
    Remember,
    /// The profile is written under a name, which is remembered.
    WriteAs(String),
}

/// What is done once the profile is in use that a command asks for: a new profile is written, and
/// one that was loaded is remembered where the command says so.
pub open spec fn load_end(command: &GoXLRCommand) -> LoadEnd {
    match command {
        GoXLRCommand::NewProfile(name) => LoadEnd::WriteAs(*name),
        GoXLRCommand::LoadProfile(_, true) => LoadEnd::Remember,
        _ => LoadEnd::Leave,
    }
}

/// Finds what is done once the profile is in use that a command asks for.
pub fn get_load_end(command: &GoXLRCommand) -> (end: LoadEnd)
    ensures
        end == load_end(command),
{
    match command {
        GoXLRCommand::NewProfile(name) => LoadEnd::WriteAs(name.clone()),
        GoXLRCommand::LoadProfile(_, true) => LoadEnd::Remember,
        _ => LoadEnd::Leave,
    }
}

impl Draft {
    /// The loading of a profile ends.
    #[verifier::opaque]
    pub open spec fn load_ended(self, end: LoadEnd) -> Draft {
        match end {
            LoadEnd::Leave => self,
            LoadEnd::Remember => self.then_do(Step::RememberProfile).then_do(Step::SaveSettings),
            LoadEnd::WriteAs(name) => self.then_do(Step::WriteProfile(name)).then_do(
                Step::RememberProfile,
            ).then_do(Step::SaveSettings),
        }
    }
}

/// The part of the device that a command is about.
#[derive(Clone, Copy, Debug, PartialEq, Eq, Structural)]
pub enum Area {
    Mixer,
    Setting,
    Voice,
    Sampler,
    File,
}

/// The part of the device that a command is about.
pub open spec fn area_of(command: &GoXLRCommand) -> Area {
    match command {
        GoXLRCommand::SetFader(_, _) | GoXLRCommand::SetFaderMuteFunction(_, _)
        | GoXLRCommand::SetVolume(_, _) | GoXLRCommand::SetCoughMuteFunction(_)
        | GoXLRCommand::SetCoughIsHold(_) | GoXLRCommand::SetRouter(_, _, _)
        | GoXLRCommand::SetFaderMuteState(_, _) | GoXLRCommand::SetCoughMuteState(_)
        | GoXLRCommand::SetSubMixEnabled(_) | GoXLRCommand::SetSubMixVolume(_, _)
        | GoXLRCommand::SetSubMixLinked(_, _) | GoXLRCommand::SetSubMixOutputMix(_, _)
        | GoXLRCommand::SetMonitorMix(_) => Area::Mixer,
        GoXLRCommand::SetMuteHoldDuration(_) | GoXLRCommand::SetVCMuteAlsoMuteCM(_)
        | GoXLRCommand::SetMonitorWithFx(_) | GoXLRCommand::SetLockFaders(_)
        | GoXLRCommand::SetAnimationMode(_) | GoXLRCommand::SetAnimationMod1(_)
        | GoXLRCommand::SetAnimationMod2(_) | GoXLRCommand::SetAnimationWaterfall(_) => {
            Area::Setting
        },
        GoXLRCommand::SetHardTuneSource(_) | GoXLRCommand::SetActiveEffectPreset(_)
        | GoXLRCommand::SetMegaphoneEnabled(_) | GoXLRCommand::SetRobotEnabled(_)
        | GoXLRCommand::SetHardTuneEnabled(_) | GoXLRCommand::SetFXEnabled(_) => Area::Voice,
        GoXLRCommand::SetSamplerPreBufferDuration(_) | GoXLRCommand::SetActiveSamplerBank(_)
        | GoXLRCommand::SetSamplerFunction(_, _, _) | GoXLRCommand::SetSamplerOrder(_, _, _)
        | GoXLRCommand::AddSample(_, _, _) | GoXLRCommand::RemoveSampleByIndex(_, _, _)
        | GoXLRCommand::PlaySampleByIndex(_, _, _) | GoXLRCommand::PlayNextSample(_, _)
        | GoXLRCommand::StopSamplePlayback(_, _) => Area::Sampler,
        _ => Area::File,
    }
}

/// Finds the part of the device that a command is about.
fn get_area(command: &GoXLRCommand) -> (area: Area)
    ensures
        area == area_of(command),
{
    match command {
        GoXLRCommand::SetFader(_, _) | GoXLRCommand::SetFaderMuteFunction(_, _)
        | GoXLRCommand::SetVolume(_, _) | GoXLRCommand::SetCoughMuteFunction(_)
        | GoXLRCommand::SetCoughIsHold(_) | GoXLRCommand::SetRouter(_, _, _)
        | GoXLRCommand::SetFaderMuteState(_, _) | GoXLRCommand::SetCoughMuteState(_)
        | GoXLRCommand::SetSubMixEnabled(_) | GoXLRCommand::SetSubMixVolume(_, _)
        | GoXLRCommand::SetSubMixLinked(_, _) | GoXLRCommand::SetSubMixOutputMix(_, _)
        | GoXLRCommand::SetMonitorMix(_) => Area::Mixer,
        GoXLRCommand::SetMuteHoldDuration(_) | GoXLRCommand::SetVCMuteAlsoMuteCM(_)
        | GoXLRCommand::SetMonitorWithFx(_) | GoXLRCommand::SetLockFaders(_)
        | GoXLRCommand::SetAnimationMode(_) | GoXLRCommand::SetAnimationMod1(_)
        | GoXLRCommand::SetAnimationMod2(_) | GoXLRCommand::SetAnimationWaterfall(_) => {
            Area::Setting
        },
        GoXLRCommand::SetHardTuneSource(_) | GoXLRCommand::SetActiveEffectPreset(_)
        | GoXLRCommand::SetMegaphoneEnabled(_) | GoXLRCommand::SetRobotEnabled(_)
        | GoXLRCommand::SetHardTuneEnabled(_) | GoXLRCommand::SetFXEnabled(_) => Area::Voice,
        GoXLRCommand::SetSamplerPreBufferDuration(_) | GoXLRCommand::SetActiveSamplerBank(_)
        | GoXLRCommand::SetSamplerFunction(_, _, _) | GoXLRCommand::SetSamplerOrder(_, _, _)
        | GoXLRCommand::AddSample(_, _, _) | GoXLRCommand::RemoveSampleByIndex(_, _, _)
        | GoXLRCommand::PlaySampleByIndex(_, _, _) | GoXLRCommand::PlayNextSample(_, _)
        | GoXLRCommand::StopSamplePlayback(_, _) => Area::Sampler,
        _ => Area::File,
    }
}

impl Device {
    /// Puts an encoder at a position, and sends its effect.
    fn place_encoder(&mut self, encoder: EncoderName, value: i8, key: EffectKey)
        ensures
            final(self)@ == old(self)@.encoder_placed(encoder, value, key),
            old(self)@.consistent() ==> final(self)@.consistent(),
    {
        reveal(Draft::encoder_placed);
        self.set(Change::Voice(VoiceChange::Encoder(encoder, value)));
        self.usb(UsbCall::SetEncoder(encoder, value));
        self.effect(key);
    }

    /// Sends what follows a stored value.
    fn follow(&mut self, follow: Follow, encoder: i8)
        ensures
            final(self)@ == old(self)@.followed(follow, encoder),
            old(self)@.consistent() ==> final(self)@.consistent(),
    {
        reveal(Draft::followed);
        match follow {
            Follow::Nothing => {},
            Follow::Save => {
                self.push(Step::SaveSettings);
                return ;
            },
            Follow::Bleep => {
                self.effect(EffectKey::BleepLevel);
                self.usb(UsbCall::SendMicParam(MicrophoneParamKey::BleepLevel));
                return ;
            },
            Follow::MicGain => {
                self.usb(UsbCall::SendMicGain);
                return ;
            },
            Follow::Param(key) => {
                self.usb(UsbCall::SendMicParam(key));
                return ;
            },
            Follow::ParamEffect(param, key) => {
                self.usb(UsbCall::SendMicParam(param));
                self.effect(key);
                return ;
            },
            Follow::Effects(group) => {
                self.effects(group);
                return ;
            },
            Follow::Colours => {
                self.usb(UsbCall::SendColourMap);
                return ;
            },
            Follow::ColoursAndButtons => {
                self.usb(UsbCall::SendColourMap);
                self.usb(UsbCall::SendButtonStates);
                return ;
            },
            Follow::TakenColours => {
                self.push(Step::TakeLights);
                self.usb(UsbCall::SendColourMap);
                return ;
            },
            Follow::TakenColoursAndButtons => {
                self.push(Step::TakeLights);
                self.usb(UsbCall::SendColourMap);
                self.usb(UsbCall::SendButtonStates);
                return ;
            },
            Follow::TakenColoursButtonsDisplays => {
                self.push(Step::TakeLights);
                self.usb(UsbCall::SendColourMap);
                self.usb(UsbCall::SendButtonStates);
                self.set_all_fader_display_from_profile();
                return ;
            },
            Follow::Display(fader) => {
                self.usb(UsbCall::SendFaderDisplay(fader));
                return ;
            },
            Follow::Displays => {
                self.set_all_fader_display_from_profile();
                return ;
            },
            Follow::Scribble(fader) => {
                self.usb(UsbCall::SendScribble(fader));
                return ;
            },
            Follow::Encoder(name, key) => {
                self.place_encoder(name, encoder, key);
                return ;
            },
            Follow::PitchStyle => {
                self.set_pitch_mode();
                self.place_encoder(EncoderName::Pitch, encoder, EffectKey::PitchThreshold);
                return ;
            },
        }
    }

    /// Changes what a fader mutes.
    fn set_mute_function(&mut self, fader: FaderName, function: MuteFunction)
        ensures
            final(self)@ == old(self)@.mute_function_set(fader, function),
            old(self)@.consistent() ==> final(self)@.consistent(),
    {
        reveal(Draft::mute_function_set);
        if self.mixer().profile.get_mute_button_behaviour(fader) == function {
            return ;
        }
        self.unmute_fader(fader);
        self.set(Change::Mute(fader, MuteChange::Function(function)));
    }

    /// Changes what the cough button mutes.
    fn set_cough_function(&mut self, function: MuteFunction)
        ensures
            final(self)@ == old(self)@.cough_function_set(function),
            old(self)@.consistent() ==> final(self)@.consistent(),
    {
        reveal(Draft::cough_function_set);
        if self.mixer().profile.get_chat_mute_button_behaviour() == function {
            return ;
        }
        self.unmute_chat_if_muted();
        self.set(Change::Cough(CoughChange::Function(function)));
    }

    /// Puts the cough button into a state.
    fn set_cough_state(&mut self, state: MuteState)
        ensures
            final(self)@ == old(self)@.cough_state_set(state),
            old(self)@.consistent() ==> final(self)@.consistent(),
    {
        reveal(Draft::cough_state_set);
        self.set(Change::Cough(CoughChange::On(state == MuteState::MutedToX)));
        self.set(Change::Cough(CoughChange::Blink(state == MuteState::MutedToAll)));
        self.apply_cough_from_profile();
        self.apply_routing(InputDevice::Microphone);
        self.usb(UsbCall::SendButtonStates);
    }

    /// Changes the source of hard tune.
    fn set_hardtune_source(&mut self, source: HardTuneSource)
        ensures
            final(self)@ == old(self)@.hardtune_source_set(source),
            old(self)@.consistent() ==> final(self)@.consistent(),
    {
        reveal(Draft::hardtune_source_set);
        if self.mixer().profile.get_hardtune_source() == source {
            return ;
        }
        if source == HardTuneSource::All || self.mixer().profile.is_active_hardtune_source_all() {
            self.set(Change::Voice(VoiceChange::HardTuneSource(source)));
            self.apply_routing(InputDevice::Music);
            self.apply_routing(InputDevice::Game);
            self.apply_routing(InputDevice::LineIn);
            self.apply_routing(InputDevice::System);
        } else {
            let current = self.mixer().profile.get_active_hardtune_source();
            self.set(Change::Voice(VoiceChange::HardTuneSource(source)));
            proof {
                reveal(Draft::then_do);
                reveal(Mixer::changed);
            }
            let new = self.mixer().profile.get_active_hardtune_source();
            self.apply_routing(current);
            self.apply_routing(new);
        }
        self.effect(EffectKey::HardTuneKeySource);
    }

    /// Switches the second mix.
    fn set_submix_enabled(&mut self, enabled: bool, links: &SubMixMap<u8>)
        ensures
            final(self)@ == old(self)@.submix_enabled_set(enabled, *links),
            old(self)@.consistent() ==> final(self)@.consistent(),
    {
        reveal(Draft::submix_enabled_set);
        if self.mixer().profile.submix.enabled == enabled {
            return ;
        }
        if !enabled {
            self.set(Change::Mixer(MixerChange::Monitor(OutputDevice::Headphones)));
            self.apply_all_routing();
        }
        self.set(Change::Mixer(MixerChange::SubMixEnabled(enabled)));
        self.load_submix_settings(true, links);
    }

    /// Links the volume of a channel in the second mix to its main volume, or not.
    pub fn link_submix_channel(&mut self, channel: ChannelName, linked: bool)
        ensures
            final(self)@ == old(self)@.submix_link_set(channel, linked),
            old(self)@.consistent() ==> final(self)@.consistent(),
    {
        reveal(Draft::submix_link_set);
        if let Some(mix) = self.mixer().profile.get_submix_from_channel(channel) {
            self.set(Change::Mixer(MixerChange::SubMixLinked(mix, linked)));
            if linked {
                self.push(Step::Store(GoXLRCommand::SetSubMixLinked(channel, linked)));
            }
        }
    }

    /// Locks the faders, or not.
    fn set_lock(&mut self, locked: bool)
        ensures
            final(self)@ == old(self)@.lock_set(locked),
            old(self)@.consistent() ==> final(self)@.consistent(),
    {
        reveal(Draft::lock_set);
        if self.mixer().lock_faders == locked {
            return ;
        }
        self.set(Change::Kept(KeptChange::LockFaders(locked)));
        self.push(Step::Store(GoXLRCommand::SetLockFaders(locked)));
        self.push(Step::SaveSettings);
        if locked {
            self.lock_faders();
        } else {
            self.unlock_faders();
        }
        self.usb(UsbCall::SendColourMap);
    }

    /// Asks the sampler to do something where `condition` holds.
    fn sampler_if(&mut self, condition: bool, call: SamplerCall)
        ensures
            final(self)@ == old(self)@.sampler_if(condition, call),
            old(self)@.consistent() ==> final(self)@.consistent(),
    {
        reveal(Draft::sampler_if);
        if condition {
            self.sampler(call);
        }
    }

    /// Obeys a command about faders, mutes and routes.
    fn command_mixer(&mut self, command: &GoXLRCommand, context: &CommandContext)
        requires
            old(self)@.mixer.refusal(command, *context) is None,
        ensures
            final(self)@ == old(self)@.mixer_commanded(command, *context),
            old(self)@.consistent() ==> final(self)@.consistent(),
    {
        reveal(Draft::mixer_commanded);
        match command {
            GoXLRCommand::SetFader(fader, channel) => {
                self.set_fader(*fader, *channel);
                return ;
            },
            GoXLRCommand::SetFaderMuteFunction(fader, function) => {
                self.set_mute_function(*fader, *function);
                return ;
            },
            GoXLRCommand::SetVolume(channel, volume) => {
                self.set_volume(*channel, *volume, context.linked);
                return ;
            },
            GoXLRCommand::SetCoughMuteFunction(function) => {
                self.set_cough_function(*function);
                return ;
            },
            GoXLRCommand::SetCoughIsHold(is_hold) => {
                self.unmute_chat_if_muted();
                self.set(Change::Cough(CoughChange::IsToggle(!*is_hold)));
                return ;
            },
            GoXLRCommand::SetRouter(input, output, enabled) => {
                self.set(Change::Mixer(MixerChange::Routing(*input, *output, *enabled)));
                self.apply_routing(*input);
                return ;
            },
            GoXLRCommand::SetFaderMuteState(fader, state) => {
                match state {
                    MuteState::Unmuted => self.unmute_fader(*fader),
                    MuteState::MutedToX => {
                        let _ = self.mute_fader_to_x(*fader);
                    },
                    MuteState::MutedToAll => self.mute_fader_to_all(*fader, true),
                }
                return ;
            },
            GoXLRCommand::SetCoughMuteState(state) => {
                self.set_cough_state(*state);
                return ;
            },
            GoXLRCommand::SetSubMixEnabled(enabled) => {
                self.set_submix_enabled(*enabled, &context.links);
                return ;
            },
            GoXLRCommand::SetSubMixVolume(channel, volume) => {
                self.apply_submix_volume(*channel, *volume, context.linked);
                return ;
            },
            GoXLRCommand::SetSubMixLinked(channel, linked) => {
                self.link_submix_channel(*channel, *linked);
                return ;
            },
            GoXLRCommand::SetSubMixOutputMix(output, mix) => {
                self.set(Change::Mixer(MixerChange::MixOutput(*output, *mix)));
                self.load_submix_settings(false, &context.links);
                return ;
            },
            GoXLRCommand::SetMonitorMix(output) => {
                self.set(Change::Mixer(MixerChange::Monitor(*output)));
                self.apply_all_routing();
                self.load_submix_settings(false, &context.links);
                return ;
            },
            _ => {},
        }
    }

    /// Stores what a command says, and writes the settings.
    fn store_and_save(&mut self, command: GoXLRCommand)
        ensures
            final(self)@ == old(self)@.then_do(Step::Store(command)).then_do(Step::SaveSettings),
            old(self)@.consistent() ==> final(self)@.consistent(),
    {
        self.push(Step::Store(command));
        self.push(Step::SaveSettings);
    }

    /// Obeys a command about the settings of the device and its lights.
    fn command_setting(&mut self, command: &GoXLRCommand)
        ensures
            final(self)@ == old(self)@.setting_commanded(command),
            old(self)@.consistent() ==> final(self)@.consistent(),
    {
        reveal(Draft::setting_commanded);
        match command {
            GoXLRCommand::SetMuteHoldDuration(duration) => {
                self.set(Change::Kept(KeptChange::HoldTime(*duration)));
                self.store_and_save(GoXLRCommand::SetMuteHoldDuration(*duration));
                return ;
            },
            GoXLRCommand::SetVCMuteAlsoMuteCM(value) => {
                self.set(Change::Kept(KeptChange::ChatMuteMutesMic(*value)));
                self.store_and_save(GoXLRCommand::SetVCMuteAlsoMuteCM(*value));
                return ;
            },
            GoXLRCommand::SetMonitorWithFx(value) => {
                self.set(Change::Kept(KeptChange::MonitorWithFx(*value)));
                self.store_and_save(GoXLRCommand::SetMonitorWithFx(*value));
                self.apply_routing(InputDevice::Microphone);
                return ;
            },
            GoXLRCommand::SetLockFaders(value) => {
                self.set_lock(*value);
                return ;
            },
            GoXLRCommand::SetAnimationMode(mode) => {
                self.set(Change::Light(LightChange::Mode(*mode)));
                self.load_animation(false);
                return ;
            },
            GoXLRCommand::SetAnimationMod1(value) => {
                self.set(Change::Light(LightChange::Mod1(*value)));
                self.load_animation(false);
                return ;
            },
            GoXLRCommand::SetAnimationMod2(value) => {
                self.set(Change::Light(LightChange::Mod2(*value)));
                self.load_animation(false);
                return ;
            },
            GoXLRCommand::SetAnimationWaterfall(direction) => {
                self.set(Change::Light(LightChange::Waterfall(*direction)));
                self.load_animation(false);
                return ;
            },
            _ => {},
        }
    }

    /// Obeys a command that switches an effect.
    fn command_voice(&mut self, command: &GoXLRCommand)
        ensures
            final(self)@ == old(self)@.voice_commanded(command),
            old(self)@.consistent() ==> final(self)@.consistent(),
    {
        reveal(Draft::voice_commanded);
        match command {
            GoXLRCommand::SetHardTuneSource(source) => {
                self.set_hardtune_source(*source);
                return ;
            },
            GoXLRCommand::SetActiveEffectPreset(preset) => {
                self.load_effect_bank(*preset);
                self.usb(UsbCall::SendButtonStates);
                return ;
            },
            GoXLRCommand::SetMegaphoneEnabled(enabled) => {
                self.set_megaphone(*enabled);
                self.usb(UsbCall::SendButtonStates);
                return ;
            },
            GoXLRCommand::SetRobotEnabled(enabled) => {
                self.set_robot(*enabled);
                self.usb(UsbCall::SendButtonStates);
                return ;
            },
            GoXLRCommand::SetHardTuneEnabled(enabled) => {
                self.set_hardtune(*enabled);
                self.usb(UsbCall::SendButtonStates);
                return ;
            },
            GoXLRCommand::SetFXEnabled(enabled) => {
                self.set_effects(*enabled);
                self.usb(UsbCall::SendButtonStates);
                return ;
            },
            _ => {},
        }
    }

    /// Takes a sample from a button.
    fn remove_sample(&mut self, command: GoXLRCommand, bank: SampleBank, button: SampleButtons)
        ensures
            final(self)@ == old(self)@.sample_removed(command, bank, button),
            old(self)@.consistent() ==> final(self)@.consistent(),
    {
        reveal(Draft::sample_removed);
        let count: usize = self.mixer().profile.sampler.stacks.get(bank).get(button).count;
        self.push(Step::Store(command));
        self.set(Change::Sampler(SamplerChange::DropSample(bank, button)));
        self.usb_if(count <= 1, UsbCall::SendColourMap);
    }

    /// Asks for the gain of a file where `condition` holds.
    fn ask_gain(&mut self, condition: bool, bank: SampleBank, button: SampleButtons, file: &String)
        ensures
            final(self)@ == old(self)@.gain_asked(condition, bank, button, *file),
            old(self)@.consistent() ==> final(self)@.consistent(),
    {
        reveal(Draft::gain_asked);
        if condition {
            self.push(Step::CalculateGain(bank, button, file.clone()));
        }
    }

    /// Plays the track that was found where there is an audio handler.
    fn play_found(&mut self, bank: SampleBank, button: SampleButtons)
        ensures
            final(self)@ == old(self)@.found_played(bank, button),
            old(self)@.consistent() ==> final(self)@.consistent(),
    {
        reveal(Draft::found_played);
        let handler = self.mixer().sampler.is_some();
        self.sampler_if(
            handler,
            SamplerCall::PlayFound { bank, button, fade_on_stop: false, loop_track: false },
        );
        self.usb(UsbCall::SendButtonStates);
    }

    /// Obeys a command about samples.
    fn command_sampler(&mut self, command: &GoXLRCommand)
        ensures
            final(self)@ == old(self)@.sample_commanded(command),
            old(self)@.consistent() ==> final(self)@.consistent(),
    {
        reveal(Draft::sample_commanded);
        let handler = self.mixer().sampler.is_some();
        match command {
            GoXLRCommand::SetSamplerPreBufferDuration(duration) => {
                self.store_and_save(GoXLRCommand::SetSamplerPreBufferDuration(*duration));
                self.stop_all_samples();
                self.sampler(SamplerCall::Restart { pre_buffer: *duration });
                return ;
            },
            GoXLRCommand::SetActiveSamplerBank(bank) => {
                self.load_sample_bank(*bank);
                self.usb(UsbCall::SendColourMap);
                return ;
            },
            GoXLRCommand::SetSamplerFunction(bank, button, mode) => {
                self.set(
                    Change::Sampler(SamplerChange::Mode(*bank, *button, *mode)),
                );
                return ;
            },
            GoXLRCommand::SetSamplerOrder(bank, button, order) => {
                self.set(
                    Change::Sampler(SamplerChange::Order(*bank, *button, *order)),
                );
                return ;
            },
            GoXLRCommand::AddSample(bank, button, file) => {
                self.ask_gain(handler, *bank, *button, file);
                self.usb(UsbCall::SendColourMap);
                return ;
            },
            GoXLRCommand::RemoveSampleByIndex(bank, button, index) => {
                self.remove_sample(
                    GoXLRCommand::RemoveSampleByIndex(*bank, *button, *index),
                    *bank,
                    *button,
                );
                return ;
            },
            GoXLRCommand::PlaySampleByIndex(bank, button, index) => {
                self.sampler(
                    SamplerCall::FindIndex { bank: *bank, button: *button, index: *index },
                );
                self.play_found(*bank, *button);
                return ;
            },
            GoXLRCommand::PlayNextSample(bank, button) => {
                self.sampler(SamplerCall::FindNext { bank: *bank, button: *button });
                self.play_found(*bank, *button);
                return ;
            },
            GoXLRCommand::StopSamplePlayback(bank, button) => {
                self.sampler_if(
                    handler,
                    SamplerCall::StopPlayback { bank: *bank, button: *button, force: false },
                );
                self.usb(UsbCall::SendButtonStates);
                return ;
            },
            _ => {},
        }
    }

    /// Obeys a command about profile files.
    fn command_file(&mut self, command: GoXLRCommand)
        ensures
            final(self)@ == old(self)@.file_commanded(&command),
            old(self)@.consistent() ==> final(self)@.consistent(),
    {
        reveal(Draft::file_commanded);
        let stops = matches!(&command, GoXLRCommand::NewProfile(_) | GoXLRCommand::LoadProfile(_, _));
        let remembers = matches!(&command, GoXLRCommand::SaveProfileAs(_));
        let remembers_mic = matches!(
            &command,
            GoXLRCommand::NewMicProfile(_) | GoXLRCommand::SaveMicProfileAs(_)
        );
        let (applies, saves) = match &command {
            GoXLRCommand::LoadMicProfile(_, save) => (true, *save),
            _ => (false, false),
        };
        if stops {
            self.stop_all_samples();
        }
        self.push(Step::File(command));
        if applies {
            self.apply_mic_profile();
        }
        if remembers {
            self.push(Step::RememberProfile);
            self.push(Step::SaveSettings);
        }
        if remembers_mic || saves {
            self.push(Step::RememberMicProfile);
            self.push(Step::SaveSettings);
        }
    }

    /// Obeys a command, or says why it is refused. A refused command plans nothing.
    pub fn perform_command(&mut self, command: GoXLRCommand, context: &CommandContext) -> (result:
        Result<(), DeviceError>)
        ensures
            result.err() == old(self)@.mixer.refusal(&command, *context),
            result is Err ==> final(self)@ == old(self)@,
            result is Ok ==> final(self)@ == old(self)@.commanded(&command, *context),
            old(self)@.consistent() ==> final(self)@.consistent(),
    {
        reveal(Draft::commanded);
        if let Some(error) = self.mixer().get_refusal(&command, context) {
            return Err(error);
        }
        if let Some(follow) = get_follow(&command) {
            self.push(Step::Store(command));
            self.follow(follow, context.encoder);
            return Ok(());
        }
        match get_area(&command) {
            Area::Mixer => self.command_mixer(&command, context),
            Area::Setting => self.command_setting(&command),
            Area::Voice => self.command_voice(&command),
            Area::Sampler => self.command_sampler(&command),
            Area::File => self.command_file(command),
        }
        Ok(())
    }

    /// Takes a profile into use that was read from a file. The plan must have been taken. `end` is
    /// what `get_load_end` gave for the command.
    pub fn profile_loaded(&mut self, profile: ProfileAdapter, links: &SubMixMap<u8>, end: LoadEnd)
        requires
            old(self)@.steps.len() == 0,
        ensures
            final(self)@ == (Draft {
                start: (Mixer { profile, ..old(self)@.mixer }),
                mixer: (Mixer { profile, ..old(self)@.mixer }),
                steps: Seq::empty(),
            }).profile_applied(Some(old(self)@.mixer.current_state()), *links).load_ended(end),
            final(self)@.consistent(),
    {
        let current = self.mixer().get_current_state();
        let mut mixer = *self.mixer();
        mixer.profile = profile;
        *self = Device::new(mixer);
        self.apply_profile(Some(current), links);
        self.end_load(end);
    }

    /// Ends the loading of a profile.
    fn end_load(&mut self, end: LoadEnd)
        ensures
            final(self)@ == old(self)@.load_ended(end),
            old(self)@.consistent() ==> final(self)@.consistent(),
    {
        reveal(Draft::load_ended);
        match end {
            LoadEnd::Leave => {
                return ;
            },
            LoadEnd::Remember => {},
            LoadEnd::WriteAs(name) => {
                self.push(Step::WriteProfile(name));
            },
        }
        self.push(Step::RememberProfile);
        self.push(Step::SaveSettings);
    }

    /// Takes an effect preset into use that was read from a file into the selected slot. The plan
    /// must have been taken.
    pub fn preset_loaded(&mut self, preset: crate::profile::PresetEffects)
        requires
            old(self)@.steps.len() == 0,
        ensures
            final(self)@ == (Draft {
                start: (Mixer {
                    profile: old(self)@.mixer.profile.with_preset(preset),
                    ..old(self)@.mixer
                }),
                mixer: (Mixer {
                    profile: old(self)@.mixer.profile.with_preset(preset),
                    ..old(self)@.mixer
                }),
                steps: Seq::empty(),
            }).effect_bank_loaded(old(self)@.mixer.profile.effects.selected).usb(
                UsbCall::SendButtonStates,
            ),
            final(self)@.consistent(),
    {
        let mut mixer = *self.mixer();
        let selected = mixer.profile.effects.selected;
        mixer.profile.effects.presets.set(selected, preset);
        *self = Device::new(mixer);
        self.load_effect_bank(selected);
        self.usb(UsbCall::SendButtonStates);
    }

    /// Shows colours that were read from the file of another profile, with its animation.
    pub fn colours_loaded(&mut self, animation: Animation)
        ensures
            final(self)@ == old(self)@.colours_shown(animation),
            old(self)@.consistent() ==> final(self)@.consistent(),
    {
        reveal(Draft::colours_shown);
        let animates = self.mixer().device_supports_animations();
        self.set(Change::Light(LightChange::Mode(animation.mode)));
        self.set(Change::Light(LightChange::Mod1(animation.mod1)));
        self.set(Change::Light(LightChange::Mod2(animation.mod2)));
        self.set(Change::Light(LightChange::Waterfall(animation.waterfall)));
        if animates {
            self.load_animation(false);
        } else {
            self.usb(UsbCall::SendColourMap);
        }
        self.usb(UsbCall::SendButtonStates);
    }
}

impl Draft {
    /// The colours and the animation of another profile are shown.
    #[verifier::opaque]
    pub open spec fn colours_shown(self, animation: Animation) -> Draft {
        let set = self.set(Change::Light(LightChange::Mode(animation.mode)))
            .set(Change::Light(LightChange::Mod1(animation.mod1)))
            .set(Change::Light(LightChange::Mod2(animation.mod2)))
            .set(Change::Light(LightChange::Waterfall(animation.waterfall)));
        let shown = if self.mixer.supports_animations() {
            set.animation_loaded(false)
        } else {
            set.usb(UsbCall::SendColourMap)
        };
        shown.usb(UsbCall::SendButtonStates)
    }
}

} // verus!
