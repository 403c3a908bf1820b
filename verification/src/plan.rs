//! What the mixer logic asks to be done: changes of the profile, calls to the device, spoken
//! announcements and work on files and samples.
//!
//! The functions of `device` decide on a list of steps. Whoever drives the hardware performs the
//! list in order, and stops at the first step that fails.

use crate::command::GoXLRCommand;
use crate::keys::{EffectGroup, MicrophoneParamKey};
use crate::types::{
    AnimationMode, ButtonMap, Buttons, ChannelName, ChannelState, EffectBankPresets, EncoderName, FaderName,
    HardTuneSource, InputDevice, Mix, MuteFunction, OutputDevice, OutputMap, SampleBank,
    SampleButtons, SamplePlayOrder, SamplePlaybackMode, SubMixChannelName, WaterfallDirection,
};
use vstd::prelude::*;

verus! {

/// A change of the mute button of a fader.
#[derive(Clone, Copy, Debug, PartialEq, Eq)]
pub enum MuteChange {
    On(bool),
    Blink(bool),
    PreviousVolume(u8),
    Function(MuteFunction),
}

/// A change of the cough button.
#[derive(Clone, Copy, Debug, PartialEq, Eq)]
pub enum CoughChange {
    On(bool),
    Blink(bool),
    Function(MuteFunction),
    IsToggle(bool),
}

/// A change of volumes, faders or routes.
#[derive(Clone, Copy, Debug, PartialEq, Eq)]
pub enum MixerChange {
    Volume(ChannelName, u8),
    FaderAssignment(FaderName, ChannelName),
    SwitchFaders(FaderName, FaderName),
    MicFader(FaderName),
    NoMicFader,
    Routing(InputDevice, OutputDevice, bool),
    Monitor(OutputDevice),
    SubMixEnabled(bool),
    SubMixVolume(SubMixChannelName, u8),
    SubMixLinked(SubMixChannelName, bool),
    MixOutput(OutputDevice, Mix),
}

/// A change of the voice effects.
#[derive(Clone, Copy, Debug, PartialEq, Eq)]
pub enum VoiceChange {
    SwearButton(bool),
    Bank(EffectBankPresets),
    Megaphone(bool),
    Robot(bool),
    HardTune(bool),
    Effects(bool),
    HardTuneSource(HardTuneSource),
    Encoder(EncoderName, i8),
}

/// A change of the sampler's part of the profile.
#[derive(Clone, Copy, Debug, PartialEq, Eq)]
pub enum SamplerChange {
    ActiveBank(SampleBank),
    ButtonOn(SampleButtons, bool),
    ButtonBlink(SampleButtons, bool),
    Clear(bool),
    RemoveSamples(SampleButtons),
    AddSample(SampleBank, SampleButtons),
    DropSample(SampleBank, SampleButtons),
    Mode(SampleBank, SampleButtons, SamplePlaybackMode),
    Order(SampleBank, SampleButtons, SamplePlayOrder),
}

/// A change of the animation of the lights.
#[derive(Clone, Copy, Debug, PartialEq, Eq)]
pub enum LightChange {
    Mode(AnimationMode),
    Mod1(u8),
    Mod2(u8),
    Waterfall(WaterfallDirection),
}

/// A change of what the device keeps beside its profile.
#[derive(Clone, Copy, Debug, PartialEq, Eq)]
pub enum KeptChange {
    FaderSeen(FaderName, u8),
    FaderPaused(FaderName, u8),
    FaderResumed(FaderName),
    HoldTime(u16),
    ChatMuteMutesMic(bool),
    MonitorWithFx(bool),
    LockFaders(bool),
    /// A button was pressed at a time, in milliseconds.
    ButtonPressed(Buttons, u128),
    ButtonHeld(Buttons),
    ButtonReleased(Buttons),
    /// The buttons that are down.
    ButtonsSeen(ButtonMap<bool>),
}

/// A change of the state that the mixer logic reads.
#[derive(Clone, Copy, Debug, PartialEq, Eq)]
pub enum Change {
    Mute(FaderName, MuteChange),
    Cough(CoughChange),
    Mixer(MixerChange),
    Voice(VoiceChange),
    Sampler(SamplerChange),
    Light(LightChange),
    Kept(KeptChange),
}

/// The mark that hard tune leaves on the route of an input.
#[derive(Clone, Copy, Debug, PartialEq, Eq, Structural)]
pub enum HardTuneMark {
    Unmarked,
    Light,
    Hard,
}

/// The route of one input: the outputs that it reaches, and its hard tune mark.
#[derive(Clone, Copy, Debug, PartialEq, Eq)]
pub struct Route {
    pub outputs: OutputMap<bool>,
    pub hardtune: HardTuneMark,
}

/// The outputs on each of the two mixes, as the device numbers them.
#[derive(Clone, Copy, Debug, PartialEq, Eq)]
pub struct ChannelMixes {
    pub a: (u8, u8, u8, u8),
    pub b: (u8, u8, u8, u8),
}

/// A call to the device.
#[derive(Clone, Copy, Debug, PartialEq, Eq)]
pub enum UsbCall {
    SetChannelState(ChannelName, ChannelState),
    SetVolume(ChannelName, u8),
    SetFader(FaderName, ChannelName),
    SetRoute(InputDevice, Route),
    SetSubVolume(SubMixChannelName, u8),
    SetMonitoredMix(Mix),
    SetChannelMixes(ChannelMixes),
    SetEncoder(EncoderName, i8),
    /// Sets how the pitch encoder turns. The mode depends on whether hard tune acts, the resolution
    /// on whether it is lit and on the pitch settings of a preset.
    SetPitchMode { hardtune_acts: bool, hardtune_lit: bool, preset: EffectBankPresets },
    SendEffects(EffectGroup),
    SendMicParam(MicrophoneParamKey),
    /// Sends every microphone parameter, of the gains only that of the chosen input.
    SendAllMicParams,
    SendMicGain,
    SendButtonStates,
    SendColourMap,
    SendFaderDisplay(FaderName),
    SendScribble(FaderName),
    SetAnimation { enabled: bool, mode: AnimationMode, mod1: u8, mod2: u8, waterfall: WaterfallDirection },
}

/// A sentence for the text to speech service.
#[derive(Clone, Copy, Debug, PartialEq, Eq)]
pub enum Announcement {
    MicMuted(MuteFunction),
    MicUnmuted,
    ChannelMuted(ChannelName, MuteFunction),
    ChannelUnmuted(ChannelName),
    SampleBank(SampleBank),
    SampleClear(bool),
    EffectBank(EffectBankPresets),
    Megaphone(bool),
    Robot(bool),
    HardTune(bool),
    Effects(bool),
    /// The value that an encoder now has.
    Encoder(EncoderName),
}

/// Work on the samples of a button.
#[derive(Clone, Copy, Debug, PartialEq, Eq)]
pub enum SamplerCall {
    /// Stops playback, at once if `force` holds, else with a fade where one is set.
    StopPlayback { bank: SampleBank, button: SampleButtons, force: bool },
    /// Stops a recording without keeping it in the profile.
    StopRecording { bank: SampleBank, button: SampleButtons },
    /// Stops a recording and, if it gave a file, adds it to the button and tells
    /// `Device::sample_added`.
    KeepRecording { bank: SampleBank, button: SampleButtons },
    /// Finds the next track of the button and its file. It fails where either is missing.
    FindNext { bank: SampleBank, button: SampleButtons },
    /// The same for the track at `index`.
    FindIndex { bank: SampleBank, button: SampleButtons, index: usize },
    /// Plays the track that was found last, after whatever the button plays was stopped. A failure
    /// to play is not passed on; `Device::playback_started` is told of a success.
    PlayFound { bank: SampleBank, button: SampleButtons, fade_on_stop: bool, loop_track: bool },
    /// Starts a recording. A failure is not passed on; `Device::recording_started` is told of a
    /// success.
    Record { bank: SampleBank, button: SampleButtons },
    /// Forgets every track whose file is gone.
    Validate,
    /// Replaces the audio handler by one with this much audio kept before a recording.
    Restart { pre_buffer: u16 },
}

/// One thing to do.
#[derive(Debug)]
pub enum Step {
    Apply(Change),
    Usb(UsbCall),
    Say(Announcement),
    Sampler(SamplerCall),
    /// Writes the value that the command carries into the profiles or the settings of the device. What
    /// the profiles refuse is an error, and ends the plan. `MicProfileAdapter::store` and
    /// `Lights::store` keep what they took.
    Store(GoXLRCommand),
    /// Takes the lights anew from the profile, which has worked out the colours of the command that
    /// was stored before.
    TakeLights,
    /// Starts the calculation of the gain of a file that is to be a sample of a button.
    CalculateGain(SampleBank, SampleButtons, String),
    /// Applies what the command names to the files on disk.
    File(GoXLRCommand),
    /// Writes the profile in use to a new file of this name.
    WriteProfile(String),
    /// Writes the name of the profile in use to the settings of the device.
    RememberProfile,
    /// Writes the name of the microphone profile in use to the settings of the device.
    RememberMicProfile,
    SaveSettings,
}

} // verus!
