//! The state of a device, and what each step does to it.

use crate::keys::{EffectGroup, EffectKey};
use crate::plan::{
    Announcement, Change, CoughChange, KeptChange, LightChange, MixerChange, MuteChange, SamplerCall, SamplerChange,
    Step, UsbCall, VoiceChange,
};
use crate::profile::{
    Animation, CoughButton, MuteButton, ProfileAdapter, SampleStack, SamplerSettings, SubMix,
    SubMixes, NO_MIC_FADER,
};
use crate::types::{BankMap, ButtonMap, DeviceType, FaderMap, FaderName, SampleMap};
use crate::version::{version_newer_or_equal_to, VersionNumber};
use vstd::prelude::*;

verus! {

/// The volume that a moved fader is not listened to until it comes near.
#[derive(Clone, Copy, Debug, PartialEq, Eq)]
pub struct PauseUntil {
    pub paused: bool,
    pub until: u8,
}

/// When a button was pressed, and whether its being held was acted on.
#[derive(Clone, Copy, Debug, PartialEq, Eq)]
pub struct ButtonState {
    pub press_time: u128,
    pub hold_handled: bool,
}

/// What the audio handler does for one sample button.
#[derive(Clone, Copy, Debug, PartialEq, Eq, Structural)]
pub enum SampleActivity {
    Idle,
    Playing,
    /// Playing, and asked to stop.
    Stopping,
    Recording,
}

/// The audio handler of a device, as far as the mixer logic reads it.
#[derive(Clone, Copy, Debug, PartialEq, Eq)]
pub struct Sampler {
    pub activity: BankMap<SampleMap<SampleActivity>>,
    pub calculating: bool,
}

/// The state that the mixer logic reads and changes.
#[derive(Clone, Copy, Debug, PartialEq, Eq)]
pub struct Mixer {
    pub device_type: DeviceType,
    pub firmware: VersionNumber,
    pub profile: ProfileAdapter,
    pub sampler: Option<Sampler>,
    pub last_buttons: ButtonMap<bool>,
    pub button_states: ButtonMap<ButtonState>,
    pub fader_last_seen: FaderMap<u8>,
    pub fader_pause_until: FaderMap<PauseUntil>,
    pub hold_time: u16,
    pub vc_mute_also_mute_cm: bool,
    pub monitor_with_fx: bool,
    pub lock_faders: bool,
}

/// Why a request to a device is refused.
#[derive(Clone, Copy, Debug, PartialEq, Eq, Structural)]
pub enum DeviceError {
    /// A channel that is muted everywhere cannot be muted to one output.
    MutedToAll,
    /// The cough button has no lasting state while it acts only when held.
    CoughInHoldMode,
    /// More audio would be kept before a recording than the sampler can hold.
    BufferTooLong,
    AnimationsUnsupported,
    RippleUnsupported,
    ProfileInUse,
    NoAudioHandler,
    GainCalculationRunning,
    SampleMissing,
}

impl DeviceError {
    /// What clients are told of a refusal.
    pub open spec fn text(self) -> Seq<char> {
        match self {
            DeviceError::MutedToAll => "Unable to Transition from MutedToAll to MutedToX"@,
            DeviceError::CoughInHoldMode => "Cannot Set state when Mute button is in 'Hold' Mode"@,
            DeviceError::BufferTooLong => "Buffer must be below 30seconds"@,
            DeviceError::AnimationsUnsupported => "Animations not supported on this firmware."@,
            DeviceError::RippleUnsupported => "Ripple Mode not supported on the GoXLR Mini"@,
            DeviceError::ProfileInUse => "Unable to Remove Active Profile!"@,
            DeviceError::NoAudioHandler => "Not handling button, audio handler not configured."@,
            DeviceError::GainCalculationRunning => "Gain Calculation already in progress.."@,
            DeviceError::SampleMissing => "Sample Not Found"@,
        }
    }

    /// Says what clients are told of a refusal.
    pub fn message(self) -> (text: String)
        ensures
            text@ == self.text(),
    {
        match self {
            DeviceError::MutedToAll => "Unable to Transition from MutedToAll to MutedToX".to_owned(),
            DeviceError::CoughInHoldMode => "Cannot Set state when Mute button is in 'Hold' Mode".to_owned(),
            DeviceError::BufferTooLong => "Buffer must be below 30seconds".to_owned(),
            DeviceError::AnimationsUnsupported => "Animations not supported on this firmware.".to_owned(),
            DeviceError::RippleUnsupported => "Ripple Mode not supported on the GoXLR Mini".to_owned(),
            DeviceError::ProfileInUse => "Unable to Remove Active Profile!".to_owned(),
            DeviceError::NoAudioHandler => "Not handling button, audio handler not configured.".to_owned(),
            DeviceError::GainCalculationRunning => "Gain Calculation already in progress..".to_owned(),
            DeviceError::SampleMissing => "Sample Not Found".to_owned(),
        }
    }
}

/// A mute button once a change was made.
pub open spec fn mute_changed(button: MuteButton, change: MuteChange) -> MuteButton {
    match change {
        MuteChange::On(on) => MuteButton { on, ..button },
        MuteChange::Blink(blink) => MuteButton { blink, ..button },
        MuteChange::PreviousVolume(previous_volume) => MuteButton { previous_volume, ..button },
        MuteChange::Function(function) => MuteButton { function, ..button },
    }
}

/// The cough button once a change was made.
pub open spec fn cough_changed(button: CoughButton, change: CoughChange) -> CoughButton {
    match change {
        CoughChange::On(on) => CoughButton { on, ..button },
        CoughChange::Blink(blink) => CoughButton { blink, ..button },
        CoughChange::Function(function) => CoughButton { function, ..button },
        CoughChange::IsToggle(is_toggle) => CoughButton { is_toggle, ..button },
    }
}

impl ProfileAdapter {
    /// The profile once a change of volumes, faders or routes was made.
    pub open spec fn mixer_changed(self, change: MixerChange) -> ProfileAdapter {
        match change {
            MixerChange::Volume(channel, volume) => ProfileAdapter {
                volumes: self.volumes.with(channel, volume),
                ..self
            },
            MixerChange::FaderAssignment(fader, channel) => ProfileAdapter {
                faders: self.faders.with(fader, channel),
                ..self
            },
            MixerChange::SwitchFaders(one, two) => self.with_switched(one, two),
            MixerChange::MicFader(fader) => ProfileAdapter {
                mic_fader_id: fader.index() as u8,
                ..self
            },
            MixerChange::NoMicFader => ProfileAdapter { mic_fader_id: NO_MIC_FADER, ..self },
            MixerChange::Routing(input, output, enabled) => self.with_routing(
                input,
                output,
                enabled,
            ),
            MixerChange::Monitor(monitor) => ProfileAdapter { monitor, ..self },
            MixerChange::SubMixEnabled(enabled) => ProfileAdapter {
                submix: SubMixes { enabled, ..self.submix },
                ..self
            },
            MixerChange::SubMixVolume(channel, volume) => self.with_submix(
                channel,
                SubMix { volume, ..self.submix.channels.at(channel) },
            ),
            MixerChange::SubMixLinked(channel, linked) => self.with_submix(
                channel,
                SubMix { linked, ..self.submix.channels.at(channel) },
            ),
            MixerChange::MixOutput(output, mix) => ProfileAdapter {
                submix: SubMixes { outputs: self.submix.outputs.with(output, mix), ..self.submix },
                ..self
            },
        }
    }

    /// The profile once a change of the voice effects was made.
    pub open spec fn voice_changed(self, change: VoiceChange) -> ProfileAdapter {
        match change {
            VoiceChange::SwearButton(swear_on) => ProfileAdapter { swear_on, ..self },
            VoiceChange::Bank(preset) => self.with_effect_bank(preset),
            VoiceChange::Megaphone(enabled) => self.with_megaphone(enabled),
            VoiceChange::Robot(enabled) => self.with_robot(enabled),
            VoiceChange::HardTune(enabled) => self.with_hardtune(enabled),
            VoiceChange::Effects(enabled) => self.with_fx(enabled),
            VoiceChange::HardTuneSource(source) => self.with_hardtune_source(source),
            VoiceChange::Encoder(encoder, value) => self.with_encoder(encoder, value),
        }
    }

    /// The profile once a change of its sampler was made.
    pub open spec fn sampler_changed(self, change: SamplerChange) -> ProfileAdapter {
        match change {
            SamplerChange::ActiveBank(bank) => self.with_sample_bank(bank),
            SamplerChange::ButtonOn(button, on) => self.with_sample_on(button, on),
            SamplerChange::ButtonBlink(button, on) => self.with_sample_blink(button, on),
            SamplerChange::Clear(clear) => ProfileAdapter {
                sampler: SamplerSettings { clear, ..self.sampler },
                ..self
            },
            SamplerChange::RemoveSamples(button) => self.without_samples(button),
            SamplerChange::AddSample(bank, button) => self.with_sample_added(bank, button),
            SamplerChange::DropSample(bank, button) => {
                let stack = self.sampler.stacks.at(bank).at(button);
                let count: usize = if stack.count > 0 {
                    (stack.count - 1) as usize
                } else {
                    0
                };
                self.with_stack(bank, button, SampleStack { count, ..stack })
            },
            SamplerChange::Mode(bank, button, mode) => self.with_stack(
                bank,
                button,
                SampleStack { mode, ..self.sampler.stacks.at(bank).at(button) },
            ),
            SamplerChange::Order(bank, button, order) => self.with_stack(
                bank,
                button,
                SampleStack { order, ..self.sampler.stacks.at(bank).at(button) },
            ),
        }
    }

    /// The profile once a change of the animation was made.
    pub open spec fn light_changed(self, change: LightChange) -> ProfileAdapter {
        ProfileAdapter {
            animation: match change {
                LightChange::Mode(mode) => Animation { mode, ..self.animation },
                LightChange::Mod1(mod1) => Animation { mod1, ..self.animation },
                LightChange::Mod2(mod2) => Animation { mod2, ..self.animation },
                LightChange::Waterfall(waterfall) => Animation { waterfall, ..self.animation },
            },
            ..self
        }
    }

    /// Makes one change of volumes, faders or routes.
    pub fn change_mixer(&mut self, change: MixerChange)
        ensures
            *final(self) == old(self).mixer_changed(change),
    {
        match change {
            MixerChange::Volume(channel, volume) => self.set_channel_volume(channel, volume),
            MixerChange::FaderAssignment(fader, channel) => {
                self.set_fader_assignment(fader, channel)
            },
            MixerChange::SwitchFaders(one, two) => self.switch_fader_assignment(one, two),
            MixerChange::MicFader(fader) => self.set_mic_fader(fader),
            MixerChange::NoMicFader => self.clear_mic_fader(),
            MixerChange::Routing(input, output, enabled) => {
                self.set_routing(input, output, enabled)
            },
            MixerChange::Monitor(output) => self.monitor = output,
            MixerChange::SubMixEnabled(enabled) => self.submix.enabled = enabled,
            MixerChange::SubMixVolume(channel, volume) => self.set_submix_volume(channel, volume),
            MixerChange::SubMixLinked(channel, linked) => self.set_submix_linked(channel, linked),
            MixerChange::MixOutput(output, mix) => self.submix.outputs.set(output, mix),
        }
    }

    /// Makes one change of the voice effects.
    pub fn change_voice(&mut self, change: VoiceChange)
        ensures
            *final(self) == old(self).voice_changed(change),
    {
        match change {
            VoiceChange::SwearButton(on) => self.set_swear_button_on(on),
            VoiceChange::Bank(preset) => self.load_effect_bank(preset),
            VoiceChange::Megaphone(enabled) => self.set_megaphone(enabled),
            VoiceChange::Robot(enabled) => self.set_robot(enabled),
            VoiceChange::HardTune(enabled) => self.set_hardtune(enabled),
            VoiceChange::Effects(enabled) => self.set_effects(enabled),
            VoiceChange::HardTuneSource(source) => self.set_hardtune_source(source),
            VoiceChange::Encoder(encoder, value) => self.set_encoder_value(encoder, value),
        }
    }

    /// Makes one change of the sampler.
    pub fn change_sampler(&mut self, change: SamplerChange)
        ensures
            *final(self) == old(self).sampler_changed(change),
    {
        match change {
            SamplerChange::ActiveBank(bank) => self.load_sample_bank(bank),
            SamplerChange::ButtonOn(button, on) => self.set_sample_button_state(button, on),
            SamplerChange::ButtonBlink(button, on) => self.set_sample_button_blink(button, on),
            SamplerChange::Clear(active) => self.sampler.clear = active,
            SamplerChange::RemoveSamples(button) => self.clear_all_samples(button),
            SamplerChange::AddSample(bank, button) => self.add_sample(bank, button),
            SamplerChange::DropSample(bank, button) => {
                let mut stack = *self.sampler.stacks.get(bank).get(button);
                if stack.count > 0 {
                    stack.count = stack.count - 1;
                }
                self.set_stack(bank, button, stack);
            },
            SamplerChange::Mode(bank, button, mode) => {
                let mut stack = *self.sampler.stacks.get(bank).get(button);
                stack.mode = mode;
                self.set_stack(bank, button, stack);
            },
            SamplerChange::Order(bank, button, order) => {
                let mut stack = *self.sampler.stacks.get(bank).get(button);
                stack.order = order;
                self.set_stack(bank, button, stack);
            },
        }
    }

    /// Makes one change of the animation.
    pub fn change_light(&mut self, change: LightChange)
        ensures
            *final(self) == old(self).light_changed(change),
    {
        match change {
            LightChange::Mode(mode) => self.animation.mode = mode,
            LightChange::Mod1(value) => self.animation.mod1 = value,
            LightChange::Mod2(value) => self.animation.mod2 = value,
            LightChange::Waterfall(direction) => self.animation.waterfall = direction,
        }
    }

    /// Makes one change of a mute button.
    pub fn change_mute(&mut self, fader: FaderName, change: MuteChange)
        ensures
            *final(self) == old(self).with_mute(
                fader,
                mute_changed(old(self).mutes.at(fader), change),
            ),
    {
        match change {
            MuteChange::On(on) => self.set_mute_button_on(fader, on),
            MuteChange::Blink(on) => self.set_mute_button_blink(fader, on),
            MuteChange::PreviousVolume(volume) => {
                self.set_mute_button_previous_volume(fader, volume)
            },
            MuteChange::Function(function) => self.set_mute_button_behaviour(fader, function),
        }
    }

    /// Makes one change of the cough button.
    pub fn change_cough(&mut self, change: CoughChange)
        ensures
            *final(self) == (ProfileAdapter {
                cough: cough_changed(old(self).cough, change),
                ..*old(self)
            }),
    {
        match change {
            CoughChange::On(on) => self.set_mute_chat_button_on(on),
            CoughChange::Blink(on) => self.set_mute_chat_button_blink(on),
            CoughChange::Function(function) => self.set_chat_mute_button_behaviour(function),
            CoughChange::IsToggle(toggle) => self.set_chat_mute_button_is_held(!toggle),
        }
    }
}

impl Mixer {
    /// Whether the firmware has a second mix.
    pub open spec fn supports_submixes(self) -> bool {
        match self.device_type {
            DeviceType::Unknown => false,
            DeviceType::Full => self.firmware.at_least(
                VersionNumber(1, 4, Some(2), Some(107)),
            ),
            DeviceType::Mini => self.firmware.at_least(VersionNumber(1, 2, Some(0), Some(46))),
        }
    }

    /// Whether the firmware animates the lights.
    pub open spec fn supports_animations(self) -> bool {
        match self.device_type {
            DeviceType::Unknown => true,
            DeviceType::Full => self.firmware.at_least(VersionNumber(1, 3, Some(40), Some(0))),
            DeviceType::Mini => self.firmware.at_least(VersionNumber(1, 1, Some(8), Some(0))),
        }
    }

    /// Finds whether the firmware has a second mix.
    pub fn device_supports_submixes(&self) -> (supported: bool)
        ensures
            supported == self.supports_submixes(),
    {
        match self.device_type {
            DeviceType::Unknown => false,
            DeviceType::Full => version_newer_or_equal_to(
                &self.firmware,
                VersionNumber(1, 4, Some(2), Some(107)),
            ),
            DeviceType::Mini => version_newer_or_equal_to(
                &self.firmware,
                VersionNumber(1, 2, Some(0), Some(46)),
            ),
        }
    }

    /// Finds whether the firmware animates the lights.
    pub fn device_supports_animations(&self) -> (supported: bool)
        ensures
            supported == self.supports_animations(),
    {
        match self.device_type {
            DeviceType::Unknown => true,
            DeviceType::Full => version_newer_or_equal_to(
                &self.firmware,
                VersionNumber(1, 3, Some(40), Some(0)),
            ),
            DeviceType::Mini => version_newer_or_equal_to(
                &self.firmware,
                VersionNumber(1, 1, Some(8), Some(0)),
            ),
        }
    }

    /// The device once a change of what it keeps beside its profile was made.
    pub open spec fn kept_changed(self, change: KeptChange) -> Mixer {
        match change {
            KeptChange::FaderSeen(fader, volume) => Mixer {
                fader_last_seen: self.fader_last_seen.with(fader, volume),
                ..self
            },
            KeptChange::FaderPaused(fader, until) => Mixer {
                fader_pause_until: self.fader_pause_until.with(
                    fader,
                    PauseUntil { paused: true, until },
                ),
                ..self
            },
            KeptChange::FaderResumed(fader) => Mixer {
                fader_pause_until: self.fader_pause_until.with(
                    fader,
                    PauseUntil { paused: false, ..self.fader_pause_until.at(fader) },
                ),
                ..self
            },
            KeptChange::HoldTime(hold_time) => Mixer { hold_time, ..self },
            KeptChange::ChatMuteMutesMic(vc_mute_also_mute_cm) => Mixer {
                vc_mute_also_mute_cm,
                ..self
            },
            KeptChange::MonitorWithFx(monitor_with_fx) => Mixer { monitor_with_fx, ..self },
            KeptChange::LockFaders(lock_faders) => Mixer { lock_faders, ..self },
            KeptChange::ButtonPressed(button, press_time) => Mixer {
                button_states: self.button_states.with(
                    button,
                    ButtonState { press_time, hold_handled: false },
                ),
                ..self
            },
            KeptChange::ButtonHeld(button) => Mixer {
                button_states: self.button_states.with(
                    button,
                    ButtonState { hold_handled: true, ..self.button_states.at(button) },
                ),
                ..self
            },
            KeptChange::ButtonReleased(button) => Mixer {
                button_states: self.button_states.with(
                    button,
                    ButtonState { press_time: 0, hold_handled: false },
                ),
                ..self
            },
            KeptChange::ButtonsSeen(last_buttons) => Mixer { last_buttons, ..self },
        }
    }

    /// The device once a change was made.
    #[verifier::opaque]
    pub open spec fn changed(self, change: Change) -> Mixer {
        let profile = self.profile;
        match change {
            Change::Mute(fader, mute) => Mixer {
                profile: profile.with_mute(fader, mute_changed(profile.mutes.at(fader), mute)),
                ..self
            },
            Change::Cough(cough) => Mixer {
                profile: ProfileAdapter { cough: cough_changed(profile.cough, cough), ..profile },
                ..self
            },
            Change::Mixer(mixer) => Mixer { profile: profile.mixer_changed(mixer), ..self },
            Change::Voice(voice) => Mixer { profile: profile.voice_changed(voice), ..self },
            Change::Sampler(sampler) => Mixer {
                profile: profile.sampler_changed(sampler),
                ..self
            },
            Change::Light(light) => Mixer { profile: profile.light_changed(light), ..self },
            Change::Kept(kept) => self.kept_changed(kept),
        }
    }

    /// The device once a step was done. Only a change alters it: what is sent or said does not,
    /// and what is stored is not part of this state.
    pub open spec fn after(self, step: Step) -> Mixer {
        match step {
            Step::Apply(change) => self.changed(change),
            _ => self,
        }
    }

    /// The device once a list of steps was done in order.
    pub open spec fn after_all(self, steps: Seq<Step>) -> Mixer
        decreases steps.len(),
    {
        if steps.len() == 0 {
            self
        } else {
            self.after_all(steps.drop_last()).after(steps.last())
        }
    }

    /// Makes one change of what the device keeps beside its profile.
    pub fn change_kept(&mut self, change: KeptChange)
        ensures
            *final(self) == old(self).kept_changed(change),
    {
        match change {
            KeptChange::FaderSeen(fader, volume) => self.fader_last_seen.set(fader, volume),
            KeptChange::FaderPaused(fader, until) => self.fader_pause_until.set(
                fader,
                PauseUntil { paused: true, until },
            ),
            KeptChange::FaderResumed(fader) => {
                let until: u8 = self.fader_pause_until.get(fader).until;
                self.fader_pause_until.set(fader, PauseUntil { paused: false, until });
            },
            KeptChange::HoldTime(duration) => self.hold_time = duration,
            KeptChange::ChatMuteMutesMic(value) => self.vc_mute_also_mute_cm = value,
            KeptChange::MonitorWithFx(value) => self.monitor_with_fx = value,
            KeptChange::LockFaders(value) => self.lock_faders = value,
            KeptChange::ButtonPressed(button, press_time) => self.button_states.set(
                button,
                ButtonState { press_time, hold_handled: false },
            ),
            KeptChange::ButtonHeld(button) => {
                let press_time: u128 = self.button_states.get(button).press_time;
                self.button_states.set(button, ButtonState { press_time, hold_handled: true });
            },
            KeptChange::ButtonReleased(button) => self.button_states.set(
                button,
                ButtonState { press_time: 0, hold_handled: false },
            ),
            KeptChange::ButtonsSeen(buttons) => self.last_buttons = buttons,
        }
    }

    /// Makes one change.
    pub fn apply(&mut self, change: Change)
        ensures
            *final(self) == old(self).changed(change),
    {
        reveal(Mixer::changed);
        match change {
            Change::Mute(fader, mute) => self.profile.change_mute(fader, mute),
            Change::Cough(cough) => self.profile.change_cough(cough),
            Change::Mixer(mixer) => self.profile.change_mixer(mixer),
            Change::Voice(voice) => self.profile.change_voice(voice),
            Change::Sampler(sampler) => self.profile.change_sampler(sampler),
            Change::Light(light) => self.profile.change_light(light),
            Change::Kept(kept) => self.change_kept(kept),
        }
    }

    /// Replays the first `count` steps of a plan.
    pub fn replay(&mut self, plan: &Vec<Step>, count: usize)
        requires
            count <= plan@.len(),
        ensures
            *final(self) == old(self).after_all(plan@.take(count as int)),
    {
        let mut i: usize = 0;
        assert(plan@.take(0) =~= Seq::<Step>::empty());
        while i < count
            invariant
                i <= count <= plan@.len(),
                *self == old(self).after_all(plan@.take(i as int)),
            decreases count - i,
        {
            if let Step::Apply(change) = &plan[i] {
                self.apply(*change);
            }
            proof {
                let prefix = plan@.take(i + 1);
                assert(prefix.drop_last() =~= plan@.take(i as int));
                assert(prefix.last() == plan@[i as int]);
            }
            i = i + 1;
        }
    }
}

/// A step at the end of a list is done last.
pub proof fn after_push(mixer: Mixer, steps: Seq<Step>, step: Step)
    ensures
        mixer.after_all(steps.push(step)) == mixer.after_all(steps).after(step),
{
    assert(steps.push(step).drop_last() =~= steps);
    assert(steps.push(step).last() == step);
}

/// A device whose next steps are being decided.
///
/// `mixer` is the state that the steps of the plan lead to from `start`.
#[derive(Debug)]
pub struct Device {
    start: Mixer,
    mixer: Mixer,
    plan: Vec<Step>,
}

/// A device and its plan, as contracts speak of them.
pub struct Draft {
    pub start: Mixer,
    pub mixer: Mixer,
    pub steps: Seq<Step>,
}

impl View for Device {
    type V = Draft;

    closed spec fn view(&self) -> Draft {
        Draft { start: self.start, mixer: self.mixer, steps: self.plan@ }
    }
}

impl Draft {
    /// Doing the steps, from the state at the start, leads to the state that the draft shows.
    #[verifier::opaque]
    pub open spec fn consistent(self) -> bool {
        self.mixer == self.start.after_all(self.steps)
    }

    /// The draft with one more step.
    #[verifier::opaque]
    pub open spec fn then_do(self, step: Step) -> Draft {
        Draft {
            start: self.start,
            mixer: self.mixer.after(step),
            steps: self.steps.push(step),
        }
    }

    /// The draft with one more change.
    pub open spec fn set(self, change: Change) -> Draft {
        self.then_do(Step::Apply(change))
    }

    /// The draft with one more change where `condition` holds.
    #[verifier::opaque]
    pub open spec fn set_if(self, condition: bool, change: Change) -> Draft {
        if condition {
            self.set(change)
        } else {
            self
        }
    }

    /// The draft with one more call to the device.
    pub open spec fn usb(self, call: UsbCall) -> Draft {
        self.then_do(Step::Usb(call))
    }

    /// The draft with one more call to the device where `condition` holds.
    #[verifier::opaque]
    pub open spec fn usb_if(self, condition: bool, call: UsbCall) -> Draft {
        if condition {
            self.usb(call)
        } else {
            self
        }
    }

    /// The draft with one more announcement.
    pub open spec fn say(self, announcement: Announcement) -> Draft {
        self.then_do(Step::Say(announcement))
    }

    /// The draft with one more thing for the sampler to do.
    pub open spec fn sampler(self, call: SamplerCall) -> Draft {
        self.then_do(Step::Sampler(call))
    }

    /// The draft in which the effect settings of a group are sent.
    pub open spec fn effects(self, group: EffectGroup) -> Draft {
        self.usb(UsbCall::SendEffects(group))
    }

    /// The draft in which one effect setting is sent.
    pub open spec fn effect(self, key: EffectKey) -> Draft {
        self.effects(EffectGroup::Key(key))
    }
}

/// A step more keeps a draft consistent.
pub proof fn then_keeps_consistent(draft: Draft, step: Step)
    requires
        draft.consistent(),
    ensures
        draft.then_do(step).consistent(),
{
    reveal(Draft::consistent);
    reveal(Draft::then_do);
    after_push(draft.start, draft.steps, step);
}

impl Device {
    /// Starts a plan from a state.
    pub fn new(mixer: Mixer) -> (device: Device)
        ensures
            device@ == (Draft { start: mixer, mixer, steps: Seq::empty() }),
            device@.consistent(),
    {
        reveal(Draft::consistent);
        Device { start: mixer, mixer, plan: Vec::new() }
    }

    /// The state that the plan leads to.
    pub fn mixer(&self) -> (mixer: &Mixer)
        ensures
            *mixer == self@.mixer,
    {
        &self.mixer
    }

    /// The state that the plan starts from.
    pub fn start(&self) -> (start: &Mixer)
        ensures
            *start == self@.start,
    {
        &self.start
    }

    /// The plan.
    pub fn plan(&self) -> (plan: &Vec<Step>)
        ensures
            plan@ == self@.steps,
    {
        &self.plan
    }

    /// Puts one step at the end of the plan that changes nothing of the state.
    pub fn push(&mut self, step: Step)
        requires
            !(step is Apply),
        ensures
            final(self)@ == old(self)@.then_do(step),
            old(self)@.consistent() ==> final(self)@.consistent(),
    {
        proof {
            reveal(Draft::then_do);
            if self@.consistent() {
                then_keeps_consistent(self@, step);
            }
        }
        self.plan.push(step);
    }

    /// Makes one change, and puts it at the end of the plan.
    pub fn set(&mut self, change: Change)
        ensures
            final(self)@ == old(self)@.set(change),
            old(self)@.consistent() ==> final(self)@.consistent(),
    {
        proof {
            reveal(Draft::then_do);
            if self@.consistent() {
                then_keeps_consistent(self@, Step::Apply(change));
            }
        }
        self.mixer.apply(change);
        self.plan.push(Step::Apply(change));
    }

    /// Puts one call to the device at the end of the plan.
    pub fn usb(&mut self, call: UsbCall)
        ensures
            final(self)@ == old(self)@.usb(call),
            old(self)@.consistent() ==> final(self)@.consistent(),
    {
        self.push(Step::Usb(call));
    }

    /// Makes one change where `condition` holds.
    pub fn set_if(&mut self, condition: bool, change: Change)
        ensures
            final(self)@ == old(self)@.set_if(condition, change),
            old(self)@.consistent() ==> final(self)@.consistent(),
    {
        reveal(Draft::set_if);
        if condition {
            self.set(change);
        }
    }

    /// Puts one call to the device at the end of the plan where `condition` holds.
    pub fn usb_if(&mut self, condition: bool, call: UsbCall)
        ensures
            final(self)@ == old(self)@.usb_if(condition, call),
            old(self)@.consistent() ==> final(self)@.consistent(),
    {
        reveal(Draft::usb_if);
        if condition {
            self.usb(call);
        }
    }

    /// Puts one announcement at the end of the plan.
    pub fn say(&mut self, announcement: Announcement)
        ensures
            final(self)@ == old(self)@.say(announcement),
            old(self)@.consistent() ==> final(self)@.consistent(),
    {
        self.push(Step::Say(announcement));
    }

    /// Puts one call of the sampler at the end of the plan.
    pub fn sampler(&mut self, call: SamplerCall)
        ensures
            final(self)@ == old(self)@.sampler(call),
            old(self)@.consistent() ==> final(self)@.consistent(),
    {
        self.push(Step::Sampler(call));
    }

    /// Sends the effect settings of a group.
    pub fn effects(&mut self, group: EffectGroup)
        ensures
            final(self)@ == old(self)@.effects(group),
            old(self)@.consistent() ==> final(self)@.consistent(),
    {
        self.usb(UsbCall::SendEffects(group));
    }

    /// Sends one effect setting.
    pub fn effect(&mut self, key: EffectKey)
        ensures
            final(self)@ == old(self)@.effect(key),
            old(self)@.consistent() ==> final(self)@.consistent(),
    {
        self.usb(UsbCall::SendEffects(EffectGroup::Key(key)));
    }

    /// Hands the plan out, and starts a new one from the state that it leads to.
    pub fn take_plan(&mut self) -> (plan: Vec<Step>)
        ensures
            plan@ == old(self)@.steps,
            final(self)@ == (Draft {
                start: old(self)@.mixer,
                mixer: old(self)@.mixer,
                steps: Seq::empty(),
            }),
            final(self)@.consistent(),
    {
        reveal(Draft::consistent);
        let mut plan: Vec<Step> = Vec::new();
        std::mem::swap(&mut plan, &mut self.plan);
        self.start = self.mixer;
        plan
    }

    /// Goes back to the state after the first `count` steps of a plan that began at `start`.
    pub fn rewind(&mut self, start: Mixer, plan: &Vec<Step>, count: usize)
        requires
            count <= plan@.len(),
        ensures
            final(self)@.mixer == start.after_all(plan@.take(count as int)),
            final(self)@.steps.len() == 0,
            final(self)@.consistent(),
    {
        reveal(Draft::consistent);
        let mut mixer = start;
        mixer.replay(plan, count);
        self.start = mixer;
        self.mixer = mixer;
        self.plan = Vec::new();
    }
}

/// A plan that breaks off at any step leaves the state that its done steps lead to, and doing the
/// rest from there leads to the end of the plan.
pub proof fn plan_resumes(start: Mixer, steps: Seq<Step>, count: int)
    requires
        0 <= count <= steps.len(),
    ensures
        start.after_all(steps) == start.after_all(steps.take(count)).after_all(steps.skip(count)),
    decreases steps.len(),
{
    if count == steps.len() {
        assert(steps.take(count) =~= steps);
        assert(steps.skip(count) =~= Seq::<Step>::empty());
    } else {
        plan_resumes(start, steps.drop_last(), count);
        assert(steps.drop_last().take(count) =~= steps.take(count));
        assert(steps.drop_last().skip(count) =~= steps.skip(count).drop_last());
        assert(steps.skip(count).last() == steps.last());
    }
}

} // verus!
