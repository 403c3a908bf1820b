//! Names of the parts of a GoXLR, and small records keyed by them.
//!
//! Each record (`FaderMap`, `ChannelMap`, ...) holds one value for every name. `at` reads a
//! value in a specification, `with` gives the record in which one value is replaced, and the
//! executable `get` and `set` do the same.

use vstd::prelude::*;

verus! {

/// A channel of the mixer.
#[derive(Clone, Copy, Debug, PartialEq, Eq, Hash, Structural)]
pub enum ChannelName {
    Mic,
    LineIn,
    Console,
    System,
    Game,
    Chat,
    Sample,
    Music,
    Headphones,
    MicMonitor,
    LineOut,
}

impl ChannelName {
    /// The place of this channel in the order of declaration.
    pub open spec fn index(self) -> int {
        match self {
            ChannelName::Mic => 0,
            ChannelName::LineIn => 1,
            ChannelName::Console => 2,
            ChannelName::System => 3,
            ChannelName::Game => 4,
            ChannelName::Chat => 5,
            ChannelName::Sample => 6,
            ChannelName::Music => 7,
            ChannelName::Headphones => 8,
            ChannelName::MicMonitor => 9,
            ChannelName::LineOut => 10,
        }
    }

    /// Every channel, in the order of declaration.
    pub open spec fn order() -> Seq<ChannelName> {
        seq![
            ChannelName::Mic,
            ChannelName::LineIn,
            ChannelName::Console,
            ChannelName::System,
            ChannelName::Game,
            ChannelName::Chat,
            ChannelName::Sample,
            ChannelName::Music,
            ChannelName::Headphones,
            ChannelName::MicMonitor,
            ChannelName::LineOut,
        ]
    }

    /// Lists every channel once, in the order of declaration.
    pub fn all() -> (list: Vec<ChannelName>)
        ensures
            list@ == ChannelName::order(),
            list@.len() == 11,
            forall|v: ChannelName| 0 <= v.index() < 11 && #[trigger] list@[v.index()] == v,
    {
        let list: Vec<ChannelName> = vec![
            ChannelName::Mic,
            ChannelName::LineIn,
            ChannelName::Console,
            ChannelName::System,
            ChannelName::Game,
            ChannelName::Chat,
            ChannelName::Sample,
            ChannelName::Music,
            ChannelName::Headphones,
            ChannelName::MicMonitor,
            ChannelName::LineOut,
        ];
        assert(list@ =~= ChannelName::order());
        list
    }
}

/// One of the four faders.
#[derive(Clone, Copy, Debug, PartialEq, Eq, Hash, Structural)]
pub enum FaderName {
    A,
    B,
    C,
    D,
}

impl FaderName {
    /// The place of this fader in the order of declaration.
    pub open spec fn index(self) -> int {
        match self {
            FaderName::A => 0,
            FaderName::B => 1,
            FaderName::C => 2,
            FaderName::D => 3,
        }
    }

    /// Every fader, in the order of declaration.
    pub open spec fn order() -> Seq<FaderName> {
        seq![
            FaderName::A,
            FaderName::B,
            FaderName::C,
            FaderName::D,
        ]
    }

    /// Lists every fader once, in the order of declaration.
    pub fn all() -> (list: Vec<FaderName>)
        ensures
            list@ == FaderName::order(),
            list@.len() == 4,
            forall|v: FaderName| 0 <= v.index() < 4 && #[trigger] list@[v.index()] == v,
    {
        let list: Vec<FaderName> = vec![
            FaderName::A,
            FaderName::B,
            FaderName::C,
            FaderName::D,
        ];
        assert(list@ =~= FaderName::order());
        list
    }
}

/// An input that can be routed.
#[derive(Clone, Copy, Debug, PartialEq, Eq, Hash, Structural)]
pub enum InputDevice {
    Microphone,
    Chat,
    Music,
    Game,
    Console,
    LineIn,
    System,
    Samples,
}

impl InputDevice {
    /// The place of this input in the order of declaration.
    pub open spec fn index(self) -> int {
        match self {
            InputDevice::Microphone => 0,
            InputDevice::Chat => 1,
            InputDevice::Music => 2,
            InputDevice::Game => 3,
            InputDevice::Console => 4,
            InputDevice::LineIn => 5,
            InputDevice::System => 6,
            InputDevice::Samples => 7,
        }
    }

    /// Every input, in the order of declaration.
    pub open spec fn order() -> Seq<InputDevice> {
        seq![
            InputDevice::Microphone,
            InputDevice::Chat,
            InputDevice::Music,
            InputDevice::Game,
            InputDevice::Console,
            InputDevice::LineIn,
            InputDevice::System,
            InputDevice::Samples,
        ]
    }

    /// Lists every input once, in the order of declaration.
    pub fn all() -> (list: Vec<InputDevice>)
        ensures
            list@ == InputDevice::order(),
            list@.len() == 8,
            forall|v: InputDevice| 0 <= v.index() < 8 && #[trigger] list@[v.index()] == v,
    {
        let list: Vec<InputDevice> = vec![
            InputDevice::Microphone,
            InputDevice::Chat,
            InputDevice::Music,
            InputDevice::Game,
            InputDevice::Console,
            InputDevice::LineIn,
            InputDevice::System,
            InputDevice::Samples,
        ];
        assert(list@ =~= InputDevice::order());
        list
    }
}

/// An output that inputs are routed to.
#[derive(Clone, Copy, Debug, PartialEq, Eq, Hash, Structural)]
pub enum OutputDevice {
    Headphones,
    BroadcastMix,
    LineOut,
    ChatMic,
    Sampler,
}

impl OutputDevice {
    /// The place of this output in the order of declaration.
    pub open spec fn index(self) -> int {
        match self {
            OutputDevice::Headphones => 0,
            OutputDevice::BroadcastMix => 1,
            OutputDevice::LineOut => 2,
            OutputDevice::ChatMic => 3,
            OutputDevice::Sampler => 4,
        }
    }

    /// Every output, in the order of declaration.
    pub open spec fn order() -> Seq<OutputDevice> {
        seq![
            OutputDevice::Headphones,
            OutputDevice::BroadcastMix,
            OutputDevice::LineOut,
            OutputDevice::ChatMic,
            OutputDevice::Sampler,
        ]
    }

    /// Lists every output once, in the order of declaration.
    pub fn all() -> (list: Vec<OutputDevice>)
        ensures
            list@ == OutputDevice::order(),
            list@.len() == 5,
            forall|v: OutputDevice| 0 <= v.index() < 5 && #[trigger] list@[v.index()] == v,
    {
        let list: Vec<OutputDevice> = vec![
            OutputDevice::Headphones,
            OutputDevice::BroadcastMix,
            OutputDevice::LineOut,
            OutputDevice::ChatMic,
            OutputDevice::Sampler,
        ];
        assert(list@ =~= OutputDevice::order());
        list
    }
}

/// A slot of the effect bank.
#[derive(Clone, Copy, Debug, PartialEq, Eq, Hash, Structural)]
pub enum EffectBankPresets {
    Preset1,
    Preset2,
    Preset3,
    Preset4,
    Preset5,
    Preset6,
}

impl EffectBankPresets {
    /// The place of this preset in the order of declaration.
    pub open spec fn index(self) -> int {
        match self {
            EffectBankPresets::Preset1 => 0,
            EffectBankPresets::Preset2 => 1,
            EffectBankPresets::Preset3 => 2,
            EffectBankPresets::Preset4 => 3,
            EffectBankPresets::Preset5 => 4,
            EffectBankPresets::Preset6 => 5,
        }
    }

    /// Every preset, in the order of declaration.
    pub open spec fn order() -> Seq<EffectBankPresets> {
        seq![
            EffectBankPresets::Preset1,
            EffectBankPresets::Preset2,
            EffectBankPresets::Preset3,
            EffectBankPresets::Preset4,
            EffectBankPresets::Preset5,
            EffectBankPresets::Preset6,
        ]
    }

    /// Lists every preset once, in the order of declaration.
    pub fn all() -> (list: Vec<EffectBankPresets>)
        ensures
            list@ == EffectBankPresets::order(),
            list@.len() == 6,
            forall|v: EffectBankPresets| 0 <= v.index() < 6 && #[trigger] list@[v.index()] == v,
    {
        let list: Vec<EffectBankPresets> = vec![
            EffectBankPresets::Preset1,
            EffectBankPresets::Preset2,
            EffectBankPresets::Preset3,
            EffectBankPresets::Preset4,
            EffectBankPresets::Preset5,
            EffectBankPresets::Preset6,
        ];
        assert(list@ =~= EffectBankPresets::order());
        list
    }
}

/// A bank of the sampler.
#[derive(Clone, Copy, Debug, PartialEq, Eq, Hash, Structural)]
pub enum SampleBank {
    A,
    B,
    C,
}

impl SampleBank {
    /// The place of this bank in the order of declaration.
    pub open spec fn index(self) -> int {
        match self {
            SampleBank::A => 0,
            SampleBank::B => 1,
            SampleBank::C => 2,
        }
    }

    /// Every bank, in the order of declaration.
    pub open spec fn order() -> Seq<SampleBank> {
        seq![
            SampleBank::A,
            SampleBank::B,
            SampleBank::C,
        ]
    }

    /// Lists every bank once, in the order of declaration.
    pub fn all() -> (list: Vec<SampleBank>)
        ensures
            list@ == SampleBank::order(),
            list@.len() == 3,
            forall|v: SampleBank| 0 <= v.index() < 3 && #[trigger] list@[v.index()] == v,
    {
        let list: Vec<SampleBank> = vec![
            SampleBank::A,
            SampleBank::B,
            SampleBank::C,
        ];
        assert(list@ =~= SampleBank::order());
        list
    }
}

/// A button of the sampler that plays samples.
#[derive(Clone, Copy, Debug, PartialEq, Eq, Hash, Structural)]
pub enum SampleButtons {
    TopLeft,
    TopRight,
    BottomLeft,
    BottomRight,
}

impl SampleButtons {
    /// The place of this sample button in the order of declaration.
    pub open spec fn index(self) -> int {
        match self {
            SampleButtons::TopLeft => 0,
            SampleButtons::TopRight => 1,
            SampleButtons::BottomLeft => 2,
            SampleButtons::BottomRight => 3,
        }
    }

    /// Every sample button, in the order of declaration.
    pub open spec fn order() -> Seq<SampleButtons> {
        seq![
            SampleButtons::TopLeft,
            SampleButtons::TopRight,
            SampleButtons::BottomLeft,
            SampleButtons::BottomRight,
        ]
    }

    /// Lists every sample button once, in the order of declaration.
    pub fn all() -> (list: Vec<SampleButtons>)
        ensures
            list@ == SampleButtons::order(),
            list@.len() == 4,
            forall|v: SampleButtons| 0 <= v.index() < 4 && #[trigger] list@[v.index()] == v,
    {
        let list: Vec<SampleButtons> = vec![
            SampleButtons::TopLeft,
            SampleButtons::TopRight,
            SampleButtons::BottomLeft,
            SampleButtons::BottomRight,
        ];
        assert(list@ =~= SampleButtons::order());
        list
    }
}

/// A physical button, as the device reports it.
#[derive(Clone, Copy, Debug, PartialEq, Eq, Hash, Structural)]
pub enum Buttons {
    Fader1Mute,
    Fader2Mute,
    Fader3Mute,
    Fader4Mute,
    Bleep,
    MicrophoneMute,
    EffectSelect1,
    EffectSelect2,
    EffectSelect3,
    EffectSelect4,
    EffectSelect5,
    EffectSelect6,
    EffectFx,
    EffectMegaphone,
    EffectRobot,
    EffectHardTune,
    SamplerSelectA,
    SamplerSelectB,
    SamplerSelectC,
    SamplerTopLeft,
    SamplerTopRight,
    SamplerBottomLeft,
    SamplerBottomRight,
    SamplerClear,
}

impl Buttons {
    /// The place of this button in the order of declaration.
    pub open spec fn index(self) -> int {
        match self {
            Buttons::Fader1Mute => 0,
            Buttons::Fader2Mute => 1,
            Buttons::Fader3Mute => 2,
            Buttons::Fader4Mute => 3,
            Buttons::Bleep => 4,
            Buttons::MicrophoneMute => 5,
            Buttons::EffectSelect1 => 6,
            Buttons::EffectSelect2 => 7,
            Buttons::EffectSelect3 => 8,
            Buttons::EffectSelect4 => 9,
            Buttons::EffectSelect5 => 10,
            Buttons::EffectSelect6 => 11,
            Buttons::EffectFx => 12,
            Buttons::EffectMegaphone => 13,
            Buttons::EffectRobot => 14,
            Buttons::EffectHardTune => 15,
            Buttons::SamplerSelectA => 16,
            Buttons::SamplerSelectB => 17,
            Buttons::SamplerSelectC => 18,
            Buttons::SamplerTopLeft => 19,
            Buttons::SamplerTopRight => 20,
            Buttons::SamplerBottomLeft => 21,
            Buttons::SamplerBottomRight => 22,
            Buttons::SamplerClear => 23,
        }
    }

    /// Every button, in the order of declaration.
    pub open spec fn order() -> Seq<Buttons> {
        seq![
            Buttons::Fader1Mute,
            Buttons::Fader2Mute,
            Buttons::Fader3Mute,
            Buttons::Fader4Mute,
            Buttons::Bleep,
            Buttons::MicrophoneMute,
            Buttons::EffectSelect1,
            Buttons::EffectSelect2,
            Buttons::EffectSelect3,
            Buttons::EffectSelect4,
            Buttons::EffectSelect5,
            Buttons::EffectSelect6,
            Buttons::EffectFx,
            Buttons::EffectMegaphone,
            Buttons::EffectRobot,
            Buttons::EffectHardTune,
            Buttons::SamplerSelectA,
            Buttons::SamplerSelectB,
            Buttons::SamplerSelectC,
            Buttons::SamplerTopLeft,
            Buttons::SamplerTopRight,
            Buttons::SamplerBottomLeft,
            Buttons::SamplerBottomRight,
            Buttons::SamplerClear,
        ]
    }

    /// Lists every button once, in the order of declaration.
    pub fn all() -> (list: Vec<Buttons>)
        ensures
            list@ == Buttons::order(),
            list@.len() == 24,
            forall|v: Buttons| 0 <= v.index() < 24 && #[trigger] list@[v.index()] == v,
    {
        let list: Vec<Buttons> = vec![
            Buttons::Fader1Mute,
            Buttons::Fader2Mute,
            Buttons::Fader3Mute,
            Buttons::Fader4Mute,
            Buttons::Bleep,
            Buttons::MicrophoneMute,
            Buttons::EffectSelect1,
            Buttons::EffectSelect2,
            Buttons::EffectSelect3,
            Buttons::EffectSelect4,
            Buttons::EffectSelect5,
            Buttons::EffectSelect6,
            Buttons::EffectFx,
            Buttons::EffectMegaphone,
            Buttons::EffectRobot,
            Buttons::EffectHardTune,
            Buttons::SamplerSelectA,
            Buttons::SamplerSelectB,
            Buttons::SamplerSelectC,
            Buttons::SamplerTopLeft,
            Buttons::SamplerTopRight,
            Buttons::SamplerBottomLeft,
            Buttons::SamplerBottomRight,
            Buttons::SamplerClear,
        ];
        assert(list@ =~= Buttons::order());
        list
    }
}

/// A rotary encoder.
#[derive(Clone, Copy, Debug, PartialEq, Eq, Hash, Structural)]
pub enum EncoderName {
    Pitch,
    Gender,
    Reverb,
    Echo,
}

impl EncoderName {
    /// The place of this encoder in the order of declaration.
    pub open spec fn index(self) -> int {
        match self {
            EncoderName::Pitch => 0,
            EncoderName::Gender => 1,
            EncoderName::Reverb => 2,
            EncoderName::Echo => 3,
        }
    }

    /// Every encoder, in the order of declaration.
    pub open spec fn order() -> Seq<EncoderName> {
        seq![
            EncoderName::Pitch,
            EncoderName::Gender,
            EncoderName::Reverb,
            EncoderName::Echo,
        ]
    }

    /// Lists every encoder once, in the order of declaration.
    pub fn all() -> (list: Vec<EncoderName>)
        ensures
            list@ == EncoderName::order(),
            list@.len() == 4,
            forall|v: EncoderName| 0 <= v.index() < 4 && #[trigger] list@[v.index()] == v,
    {
        let list: Vec<EncoderName> = vec![
            EncoderName::Pitch,
            EncoderName::Gender,
            EncoderName::Reverb,
            EncoderName::Echo,
        ];
        assert(list@ =~= EncoderName::order());
        list
    }
}

/// A channel that has a volume of its own in the second mix.
#[derive(Clone, Copy, Debug, PartialEq, Eq, Hash, Structural)]
pub enum SubMixChannelName {
    Mic,
    LineIn,
    Console,
    System,
    Game,
    Chat,
    Sample,
    Music,
}

impl SubMixChannelName {
    /// The place of this sub-mix channel in the order of declaration.
    pub open spec fn index(self) -> int {
        match self {
            SubMixChannelName::Mic => 0,
            SubMixChannelName::LineIn => 1,
            SubMixChannelName::Console => 2,
            SubMixChannelName::System => 3,
            SubMixChannelName::Game => 4,
            SubMixChannelName::Chat => 5,
            SubMixChannelName::Sample => 6,
            SubMixChannelName::Music => 7,
        }
    }

    /// Every sub-mix channel, in the order of declaration.
    pub open spec fn order() -> Seq<SubMixChannelName> {
        seq![
            SubMixChannelName::Mic,
            SubMixChannelName::LineIn,
            SubMixChannelName::Console,
            SubMixChannelName::System,
            SubMixChannelName::Game,
            SubMixChannelName::Chat,
            SubMixChannelName::Sample,
            SubMixChannelName::Music,
        ]
    }

    /// Lists every sub-mix channel once, in the order of declaration.
    pub fn all() -> (list: Vec<SubMixChannelName>)
        ensures
            list@ == SubMixChannelName::order(),
            list@.len() == 8,
            forall|v: SubMixChannelName| 0 <= v.index() < 8 && #[trigger] list@[v.index()] == v,
    {
        let list: Vec<SubMixChannelName> = vec![
            SubMixChannelName::Mic,
            SubMixChannelName::LineIn,
            SubMixChannelName::Console,
            SubMixChannelName::System,
            SubMixChannelName::Game,
            SubMixChannelName::Chat,
            SubMixChannelName::Sample,
            SubMixChannelName::Music,
        ];
        assert(list@ =~= SubMixChannelName::order());
        list
    }
}

/// One of the two mixes.
#[derive(Clone, Copy, Debug, PartialEq, Eq, Hash, Structural)]
pub enum Mix {
    A,
    B,
}

/// The model of a device.
#[derive(Clone, Copy, Debug, PartialEq, Eq, Hash, Structural)]
pub enum DeviceType {
    Unknown,
    Full,
    Mini,
}

/// What a mute button silences.
#[derive(Clone, Copy, Debug, PartialEq, Eq, Hash, Structural)]
pub enum MuteFunction {
    All,
    ToStream,
    ToVoiceChat,
    ToPhones,
    ToLineOut,
}

/// How far a channel is muted.
#[derive(Clone, Copy, Debug, PartialEq, Eq, Hash, Structural)]
pub enum MuteState {
    Unmuted,
    MutedToX,
    MutedToAll,
}

/// Whether the device passes a channel at all.
#[derive(Clone, Copy, Debug, PartialEq, Eq, Hash, Structural)]
pub enum ChannelState {
    Muted,
    Unmuted,
}

/// What pressing a sample button does.
#[derive(Clone, Copy, Debug, PartialEq, Eq, Hash, Structural)]
pub enum SamplePlaybackMode {
    PlayNext,
    PlayStop,
    PlayFade,
    StopOnRelease,
    FadeOnRelease,
    Loop,
}

/// The order in which the samples of a button are played.
#[derive(Clone, Copy, Debug, PartialEq, Eq, Hash, Structural)]
pub enum SamplePlayOrder {
    Sequential,
    Random,
}

/// The input that hard tune follows.
#[derive(Clone, Copy, Debug, PartialEq, Eq, Hash, Structural)]
pub enum HardTuneSource {
    All,
    Music,
    Game,
    LineIn,
    System,
}

/// How a button is lit.
#[derive(Clone, Copy, Debug, PartialEq, Eq, Hash, Structural)]
pub enum ButtonStates {
    Colour1,
    Colour2,
    DimmedColour1,
    DimmedColour2,
    Flashing,
}

/// The animation of the lights.
#[derive(Clone, Copy, Debug, PartialEq, Eq, Hash, Structural)]
pub enum AnimationMode {
    RetroRainbow,
    RainbowDark,
    RainbowBright,
    Simple,
    Ripple,
    NoAnimation,
}

/// The direction in which the fader lights run.
#[derive(Clone, Copy, Debug, PartialEq, Eq, Hash, Structural)]
pub enum WaterfallDirection {
    Down,
    Up,
    Off,
}

/// The input that the microphone is plugged into.
#[derive(Clone, Copy, Debug, PartialEq, Eq, Hash, Structural)]
pub enum MicrophoneType {
    Dynamic,
    Condenser,
    Jack,
}

/// One value for every fader.
#[derive(Clone, Copy, Debug, PartialEq, Eq, Structural)]
pub struct FaderMap<T> {
    pub a: T,
    pub b: T,
    pub c: T,
    pub d: T,
}

impl<T> FaderMap<T> {
    /// The value kept for `fader`.
    pub open spec fn at(self, fader: FaderName) -> T {
        match fader {
            FaderName::A => self.a,
            FaderName::B => self.b,
            FaderName::C => self.c,
            FaderName::D => self.d,
        }
    }

    /// This record with `value` kept for `fader`.
    pub open spec fn with(self, fader: FaderName, value: T) -> FaderMap<T> {
        match fader {
            FaderName::A => FaderMap { a: value, ..self },
            FaderName::B => FaderMap { b: value, ..self },
            FaderName::C => FaderMap { c: value, ..self },
            FaderName::D => FaderMap { d: value, ..self },
        }
    }

    /// Borrows the value kept for `fader`.
    pub fn get(&self, fader: FaderName) -> (value: &T)
        ensures
            *value == self.at(fader),
    {
        match fader {
            FaderName::A => &self.a,
            FaderName::B => &self.b,
            FaderName::C => &self.c,
            FaderName::D => &self.d,
        }
    }

    /// Replaces the value kept for `fader`.
    pub fn set(&mut self, fader: FaderName, value: T)
        ensures
            *final(self) == old(self).with(fader, value),
    {
        match fader {
            FaderName::A => self.a = value,
            FaderName::B => self.b = value,
            FaderName::C => self.c = value,
            FaderName::D => self.d = value,
        }
    }
}

impl<T: Copy> FaderMap<T> {
    /// The record that keeps `value` for every name.
    pub open spec fn all_of(value: T) -> FaderMap<T> {
        FaderMap {
            a: value,
            b: value,
            c: value,
            d: value,
        }
    }

    /// Builds the record that keeps `value` for every name.
    pub fn fill(value: T) -> (record: FaderMap<T>)
        ensures
            record == FaderMap::all_of(value),
    {
        FaderMap {
            a: value,
            b: value,
            c: value,
            d: value,
        }
    }
}

/// One value for every channel.
#[derive(Clone, Copy, Debug, PartialEq, Eq, Structural)]
pub struct ChannelMap<T> {
    pub mic: T,
    pub line_in: T,
    pub console: T,
    pub system: T,
    pub game: T,
    pub chat: T,
    pub sample: T,
    pub music: T,
    pub headphones: T,
    pub mic_monitor: T,
    pub line_out: T,
}

impl<T> ChannelMap<T> {
    /// The value kept for `channel`.
    pub open spec fn at(self, channel: ChannelName) -> T {
        match channel {
            ChannelName::Mic => self.mic,
            ChannelName::LineIn => self.line_in,
            ChannelName::Console => self.console,
            ChannelName::System => self.system,
            ChannelName::Game => self.game,
            ChannelName::Chat => self.chat,
            ChannelName::Sample => self.sample,
            ChannelName::Music => self.music,
            ChannelName::Headphones => self.headphones,
            ChannelName::MicMonitor => self.mic_monitor,
            ChannelName::LineOut => self.line_out,
        }
    }

    /// This record with `value` kept for `channel`.
    pub open spec fn with(self, channel: ChannelName, value: T) -> ChannelMap<T> {
        match channel {
            ChannelName::Mic => ChannelMap { mic: value, ..self },
            ChannelName::LineIn => ChannelMap { line_in: value, ..self },
            ChannelName::Console => ChannelMap { console: value, ..self },
            ChannelName::System => ChannelMap { system: value, ..self },
            ChannelName::Game => ChannelMap { game: value, ..self },
            ChannelName::Chat => ChannelMap { chat: value, ..self },
            ChannelName::Sample => ChannelMap { sample: value, ..self },
            ChannelName::Music => ChannelMap { music: value, ..self },
            ChannelName::Headphones => ChannelMap { headphones: value, ..self },
            ChannelName::MicMonitor => ChannelMap { mic_monitor: value, ..self },
            ChannelName::LineOut => ChannelMap { line_out: value, ..self },
        }
    }

    /// Borrows the value kept for `channel`.
    pub fn get(&self, channel: ChannelName) -> (value: &T)
        ensures
            *value == self.at(channel),
    {
        match channel {
            ChannelName::Mic => &self.mic,
            ChannelName::LineIn => &self.line_in,
            ChannelName::Console => &self.console,
            ChannelName::System => &self.system,
            ChannelName::Game => &self.game,
            ChannelName::Chat => &self.chat,
            ChannelName::Sample => &self.sample,
            ChannelName::Music => &self.music,
            ChannelName::Headphones => &self.headphones,
            ChannelName::MicMonitor => &self.mic_monitor,
            ChannelName::LineOut => &self.line_out,
        }
    }

    /// Replaces the value kept for `channel`.
    pub fn set(&mut self, channel: ChannelName, value: T)
        ensures
            *final(self) == old(self).with(channel, value),
    {
        match channel {
            ChannelName::Mic => self.mic = value,
            ChannelName::LineIn => self.line_in = value,
            ChannelName::Console => self.console = value,
            ChannelName::System => self.system = value,
            ChannelName::Game => self.game = value,
            ChannelName::Chat => self.chat = value,
            ChannelName::Sample => self.sample = value,
            ChannelName::Music => self.music = value,
            ChannelName::Headphones => self.headphones = value,
            ChannelName::MicMonitor => self.mic_monitor = value,
            ChannelName::LineOut => self.line_out = value,
        }
    }
}

impl<T: Copy> ChannelMap<T> {
    /// The record that keeps `value` for every name.
    pub open spec fn all_of(value: T) -> ChannelMap<T> {
        ChannelMap {
            mic: value,
            line_in: value,
            console: value,
            system: value,
            game: value,
            chat: value,
            sample: value,
            music: value,
            headphones: value,
            mic_monitor: value,
            line_out: value,
        }
    }

    /// Builds the record that keeps `value` for every name.
    pub fn fill(value: T) -> (record: ChannelMap<T>)
        ensures
            record == ChannelMap::all_of(value),
    {
        ChannelMap {
            mic: value,
            line_in: value,
            console: value,
            system: value,
            game: value,
            chat: value,
            sample: value,
            music: value,
            headphones: value,
            mic_monitor: value,
            line_out: value,
        }
    }
}

/// One value for every input.
#[derive(Clone, Copy, Debug, PartialEq, Eq, Structural)]
pub struct InputMap<T> {
    pub microphone: T,
    pub chat: T,
    pub music: T,
    pub game: T,
    pub console: T,
    pub line_in: T,
    pub system: T,
    pub samples: T,
}

impl<T> InputMap<T> {
    /// The value kept for `input`.
    pub open spec fn at(self, input: InputDevice) -> T {
        match input {
            InputDevice::Microphone => self.microphone,
            InputDevice::Chat => self.chat,
            InputDevice::Music => self.music,
            InputDevice::Game => self.game,
            InputDevice::Console => self.console,
            InputDevice::LineIn => self.line_in,
            InputDevice::System => self.system,
            InputDevice::Samples => self.samples,
        }
    }

    /// This record with `value` kept for `input`.
    pub open spec fn with(self, input: InputDevice, value: T) -> InputMap<T> {
        match input {
            InputDevice::Microphone => InputMap { microphone: value, ..self },
            InputDevice::Chat => InputMap { chat: value, ..self },
            InputDevice::Music => InputMap { music: value, ..self },
            InputDevice::Game => InputMap { game: value, ..self },
            InputDevice::Console => InputMap { console: value, ..self },
            InputDevice::LineIn => InputMap { line_in: value, ..self },
            InputDevice::System => InputMap { system: value, ..self },
            InputDevice::Samples => InputMap { samples: value, ..self },
        }
    }

    /// Borrows the value kept for `input`.
    pub fn get(&self, input: InputDevice) -> (value: &T)
        ensures
            *value == self.at(input),
    {
        match input {
            InputDevice::Microphone => &self.microphone,
            InputDevice::Chat => &self.chat,
            InputDevice::Music => &self.music,
            InputDevice::Game => &self.game,
            InputDevice::Console => &self.console,
            InputDevice::LineIn => &self.line_in,
            InputDevice::System => &self.system,
            InputDevice::Samples => &self.samples,
        }
    }

    /// Replaces the value kept for `input`.
    pub fn set(&mut self, input: InputDevice, value: T)
        ensures
            *final(self) == old(self).with(input, value),
    {
        match input {
            InputDevice::Microphone => self.microphone = value,
            InputDevice::Chat => self.chat = value,
            InputDevice::Music => self.music = value,
            InputDevice::Game => self.game = value,
            InputDevice::Console => self.console = value,
            InputDevice::LineIn => self.line_in = value,
            InputDevice::System => self.system = value,
            InputDevice::Samples => self.samples = value,
        }
    }
}

impl<T: Copy> InputMap<T> {
    /// The record that keeps `value` for every name.
    pub open spec fn all_of(value: T) -> InputMap<T> {
        InputMap {
            microphone: value,
            chat: value,
            music: value,
            game: value,
            console: value,
            line_in: value,
            system: value,
            samples: value,
        }
    }

    /// Builds the record that keeps `value` for every name.
    pub fn fill(value: T) -> (record: InputMap<T>)
        ensures
            record == InputMap::all_of(value),
    {
        InputMap {
            microphone: value,
            chat: value,
            music: value,
            game: value,
            console: value,
            line_in: value,
            system: value,
            samples: value,
        }
    }
}

/// One value for every output.
#[derive(Clone, Copy, Debug, PartialEq, Eq, Structural)]
pub struct OutputMap<T> {
    pub headphones: T,
    pub broadcast_mix: T,
    pub line_out: T,
    pub chat_mic: T,
    pub sampler: T,
}

impl<T> OutputMap<T> {
    /// The value kept for `output`.
    pub open spec fn at(self, output: OutputDevice) -> T {
        match output {
            OutputDevice::Headphones => self.headphones,
            OutputDevice::BroadcastMix => self.broadcast_mix,
            OutputDevice::LineOut => self.line_out,
            OutputDevice::ChatMic => self.chat_mic,
            OutputDevice::Sampler => self.sampler,
        }
    }

    /// This record with `value` kept for `output`.
    pub open spec fn with(self, output: OutputDevice, value: T) -> OutputMap<T> {
        match output {
            OutputDevice::Headphones => OutputMap { headphones: value, ..self },
            OutputDevice::BroadcastMix => OutputMap { broadcast_mix: value, ..self },
            OutputDevice::LineOut => OutputMap { line_out: value, ..self },
            OutputDevice::ChatMic => OutputMap { chat_mic: value, ..self },
            OutputDevice::Sampler => OutputMap { sampler: value, ..self },
        }
    }

    /// Borrows the value kept for `output`.
    pub fn get(&self, output: OutputDevice) -> (value: &T)
        ensures
            *value == self.at(output),
    {
        match output {
            OutputDevice::Headphones => &self.headphones,
            OutputDevice::BroadcastMix => &self.broadcast_mix,
            OutputDevice::LineOut => &self.line_out,
            OutputDevice::ChatMic => &self.chat_mic,
            OutputDevice::Sampler => &self.sampler,
        }
    }

    /// Replaces the value kept for `output`.
    pub fn set(&mut self, output: OutputDevice, value: T)
        ensures
            *final(self) == old(self).with(output, value),
    {
        match output {
            OutputDevice::Headphones => self.headphones = value,
            OutputDevice::BroadcastMix => self.broadcast_mix = value,
            OutputDevice::LineOut => self.line_out = value,
            OutputDevice::ChatMic => self.chat_mic = value,
            OutputDevice::Sampler => self.sampler = value,
        }
    }
}

impl<T: Copy> OutputMap<T> {
    /// The record that keeps `value` for every name.
    pub open spec fn all_of(value: T) -> OutputMap<T> {
        OutputMap {
            headphones: value,
            broadcast_mix: value,
            line_out: value,
            chat_mic: value,
            sampler: value,
        }
    }

    /// Builds the record that keeps `value` for every name.
    pub fn fill(value: T) -> (record: OutputMap<T>)
        ensures
            record == OutputMap::all_of(value),
    {
        OutputMap {
            headphones: value,
            broadcast_mix: value,
            line_out: value,
            chat_mic: value,
            sampler: value,
        }
    }
}

/// One value for every effect preset.
#[derive(Clone, Copy, Debug, PartialEq, Eq, Structural)]
pub struct PresetMap<T> {
    pub preset1: T,
    pub preset2: T,
    pub preset3: T,
    pub preset4: T,
    pub preset5: T,
    pub preset6: T,
}

impl<T> PresetMap<T> {
    /// The value kept for `preset`.
    pub open spec fn at(self, preset: EffectBankPresets) -> T {
        match preset {
            EffectBankPresets::Preset1 => self.preset1,
            EffectBankPresets::Preset2 => self.preset2,
            EffectBankPresets::Preset3 => self.preset3,
            EffectBankPresets::Preset4 => self.preset4,
            EffectBankPresets::Preset5 => self.preset5,
            EffectBankPresets::Preset6 => self.preset6,
        }
    }

    /// This record with `value` kept for `preset`.
    pub open spec fn with(self, preset: EffectBankPresets, value: T) -> PresetMap<T> {
        match preset {
            EffectBankPresets::Preset1 => PresetMap { preset1: value, ..self },
            EffectBankPresets::Preset2 => PresetMap { preset2: value, ..self },
            EffectBankPresets::Preset3 => PresetMap { preset3: value, ..self },
            EffectBankPresets::Preset4 => PresetMap { preset4: value, ..self },
            EffectBankPresets::Preset5 => PresetMap { preset5: value, ..self },
            EffectBankPresets::Preset6 => PresetMap { preset6: value, ..self },
        }
    }

    /// Borrows the value kept for `preset`.
    pub fn get(&self, preset: EffectBankPresets) -> (value: &T)
        ensures
            *value == self.at(preset),
    {
        match preset {
            EffectBankPresets::Preset1 => &self.preset1,
            EffectBankPresets::Preset2 => &self.preset2,
            EffectBankPresets::Preset3 => &self.preset3,
            EffectBankPresets::Preset4 => &self.preset4,
            EffectBankPresets::Preset5 => &self.preset5,
            EffectBankPresets::Preset6 => &self.preset6,
        }
    }

    /// Replaces the value kept for `preset`.
    pub fn set(&mut self, preset: EffectBankPresets, value: T)
        ensures
            *final(self) == old(self).with(preset, value),
    {
        match preset {
            EffectBankPresets::Preset1 => self.preset1 = value,
            EffectBankPresets::Preset2 => self.preset2 = value,
            EffectBankPresets::Preset3 => self.preset3 = value,
            EffectBankPresets::Preset4 => self.preset4 = value,
            EffectBankPresets::Preset5 => self.preset5 = value,
            EffectBankPresets::Preset6 => self.preset6 = value,
        }
    }
}

impl<T: Copy> PresetMap<T> {
    /// The record that keeps `value` for every name.
    pub open spec fn all_of(value: T) -> PresetMap<T> {
        PresetMap {
            preset1: value,
            preset2: value,
            preset3: value,
            preset4: value,
            preset5: value,
            preset6: value,
        }
    }

    /// Builds the record that keeps `value` for every name.
    pub fn fill(value: T) -> (record: PresetMap<T>)
        ensures
            record == PresetMap::all_of(value),
    {
        PresetMap {
            preset1: value,
            preset2: value,
            preset3: value,
            preset4: value,
            preset5: value,
            preset6: value,
        }
    }
}

/// One value for every sample bank.
#[derive(Clone, Copy, Debug, PartialEq, Eq, Structural)]
pub struct BankMap<T> {
    pub a: T,
    pub b: T,
    pub c: T,
}

impl<T> BankMap<T> {
    /// The value kept for `bank`.
    pub open spec fn at(self, bank: SampleBank) -> T {
        match bank {
            SampleBank::A => self.a,
            SampleBank::B => self.b,
            SampleBank::C => self.c,
        }
    }

    /// This record with `value` kept for `bank`.
    pub open spec fn with(self, bank: SampleBank, value: T) -> BankMap<T> {
        match bank {
            SampleBank::A => BankMap { a: value, ..self },
            SampleBank::B => BankMap { b: value, ..self },
            SampleBank::C => BankMap { c: value, ..self },
        }
    }

    /// Borrows the value kept for `bank`.
    pub fn get(&self, bank: SampleBank) -> (value: &T)
        ensures
            *value == self.at(bank),
    {
        match bank {
            SampleBank::A => &self.a,
            SampleBank::B => &self.b,
            SampleBank::C => &self.c,
        }
    }

    /// Replaces the value kept for `bank`.
    pub fn set(&mut self, bank: SampleBank, value: T)
        ensures
            *final(self) == old(self).with(bank, value),
    {
        match bank {
            SampleBank::A => self.a = value,
            SampleBank::B => self.b = value,
            SampleBank::C => self.c = value,
        }
    }
}

impl<T: Copy> BankMap<T> {
    /// The record that keeps `value` for every name.
    pub open spec fn all_of(value: T) -> BankMap<T> {
        BankMap {
            a: value,
            b: value,
            c: value,
        }
    }

    /// Builds the record that keeps `value` for every name.
    pub fn fill(value: T) -> (record: BankMap<T>)
        ensures
            record == BankMap::all_of(value),
    {
        BankMap {
            a: value,
            b: value,
            c: value,
        }
    }
}

/// One value for every sample button.
#[derive(Clone, Copy, Debug, PartialEq, Eq, Structural)]
pub struct SampleMap<T> {
    pub top_left: T,
    pub top_right: T,
    pub bottom_left: T,
    pub bottom_right: T,
}

impl<T> SampleMap<T> {
    /// The value kept for `button`.
    pub open spec fn at(self, button: SampleButtons) -> T {
        match button {
            SampleButtons::TopLeft => self.top_left,
            SampleButtons::TopRight => self.top_right,
            SampleButtons::BottomLeft => self.bottom_left,
            SampleButtons::BottomRight => self.bottom_right,
        }
    }

    /// This record with `value` kept for `button`.
    pub open spec fn with(self, button: SampleButtons, value: T) -> SampleMap<T> {
        match button {
            SampleButtons::TopLeft => SampleMap { top_left: value, ..self },
            SampleButtons::TopRight => SampleMap { top_right: value, ..self },
            SampleButtons::BottomLeft => SampleMap { bottom_left: value, ..self },
            SampleButtons::BottomRight => SampleMap { bottom_right: value, ..self },
        }
    }

    /// Borrows the value kept for `button`.
    pub fn get(&self, button: SampleButtons) -> (value: &T)
        ensures
            *value == self.at(button),
    {
        match button {
            SampleButtons::TopLeft => &self.top_left,
            SampleButtons::TopRight => &self.top_right,
            SampleButtons::BottomLeft => &self.bottom_left,
            SampleButtons::BottomRight => &self.bottom_right,
        }
    }

    /// Replaces the value kept for `button`.
    pub fn set(&mut self, button: SampleButtons, value: T)
        ensures
            *final(self) == old(self).with(button, value),
    {
        match button {
            SampleButtons::TopLeft => self.top_left = value,
            SampleButtons::TopRight => self.top_right = value,
            SampleButtons::BottomLeft => self.bottom_left = value,
            SampleButtons::BottomRight => self.bottom_right = value,
        }
    }
}

impl<T: Copy> SampleMap<T> {
    /// The record that keeps `value` for every name.
    pub open spec fn all_of(value: T) -> SampleMap<T> {
        SampleMap {
            top_left: value,
            top_right: value,
            bottom_left: value,
            bottom_right: value,
        }
    }

    /// Builds the record that keeps `value` for every name.
    pub fn fill(value: T) -> (record: SampleMap<T>)
        ensures
            record == SampleMap::all_of(value),
    {
        SampleMap {
            top_left: value,
            top_right: value,
            bottom_left: value,
            bottom_right: value,
        }
    }
}

/// One value for every physical button.
#[derive(Clone, Copy, Debug, PartialEq, Eq, Structural)]
pub struct ButtonMap<T> {
    pub fader1_mute: T,
    pub fader2_mute: T,
    pub fader3_mute: T,
    pub fader4_mute: T,
    pub bleep: T,
    pub microphone_mute: T,
    pub effect_select1: T,
    pub effect_select2: T,
    pub effect_select3: T,
    pub effect_select4: T,
    pub effect_select5: T,
    pub effect_select6: T,
    pub effect_fx: T,
    pub effect_megaphone: T,
    pub effect_robot: T,
    pub effect_hard_tune: T,
    pub sampler_select_a: T,
    pub sampler_select_b: T,
    pub sampler_select_c: T,
    pub sampler_top_left: T,
    pub sampler_top_right: T,
    pub sampler_bottom_left: T,
    pub sampler_bottom_right: T,
    pub sampler_clear: T,
}

impl<T> ButtonMap<T> {
    /// The value kept for `button`.
    pub open spec fn at(self, button: Buttons) -> T {
        match button {
            Buttons::Fader1Mute => self.fader1_mute,
            Buttons::Fader2Mute => self.fader2_mute,
            Buttons::Fader3Mute => self.fader3_mute,
            Buttons::Fader4Mute => self.fader4_mute,
            Buttons::Bleep => self.bleep,
            Buttons::MicrophoneMute => self.microphone_mute,
            Buttons::EffectSelect1 => self.effect_select1,
            Buttons::EffectSelect2 => self.effect_select2,
            Buttons::EffectSelect3 => self.effect_select3,
            Buttons::EffectSelect4 => self.effect_select4,
            Buttons::EffectSelect5 => self.effect_select5,
            Buttons::EffectSelect6 => self.effect_select6,
            Buttons::EffectFx => self.effect_fx,
            Buttons::EffectMegaphone => self.effect_megaphone,
            Buttons::EffectRobot => self.effect_robot,
            Buttons::EffectHardTune => self.effect_hard_tune,
            Buttons::SamplerSelectA => self.sampler_select_a,
            Buttons::SamplerSelectB => self.sampler_select_b,
            Buttons::SamplerSelectC => self.sampler_select_c,
            Buttons::SamplerTopLeft => self.sampler_top_left,
            Buttons::SamplerTopRight => self.sampler_top_right,
            Buttons::SamplerBottomLeft => self.sampler_bottom_left,
            Buttons::SamplerBottomRight => self.sampler_bottom_right,
            Buttons::SamplerClear => self.sampler_clear,
        }
    }

    /// This record with `value` kept for `button`.
    pub open spec fn with(self, button: Buttons, value: T) -> ButtonMap<T> {
        match button {
            Buttons::Fader1Mute => ButtonMap { fader1_mute: value, ..self },
            Buttons::Fader2Mute => ButtonMap { fader2_mute: value, ..self },
            Buttons::Fader3Mute => ButtonMap { fader3_mute: value, ..self },
            Buttons::Fader4Mute => ButtonMap { fader4_mute: value, ..self },
            Buttons::Bleep => ButtonMap { bleep: value, ..self },
            Buttons::MicrophoneMute => ButtonMap { microphone_mute: value, ..self },
            Buttons::EffectSelect1 => ButtonMap { effect_select1: value, ..self },
            Buttons::EffectSelect2 => ButtonMap { effect_select2: value, ..self },
            Buttons::EffectSelect3 => ButtonMap { effect_select3: value, ..self },
            Buttons::EffectSelect4 => ButtonMap { effect_select4: value, ..self },
            Buttons::EffectSelect5 => ButtonMap { effect_select5: value, ..self },
            Buttons::EffectSelect6 => ButtonMap { effect_select6: value, ..self },
            Buttons::EffectFx => ButtonMap { effect_fx: value, ..self },
            Buttons::EffectMegaphone => ButtonMap { effect_megaphone: value, ..self },
            Buttons::EffectRobot => ButtonMap { effect_robot: value, ..self },
            Buttons::EffectHardTune => ButtonMap { effect_hard_tune: value, ..self },
            Buttons::SamplerSelectA => ButtonMap { sampler_select_a: value, ..self },
            Buttons::SamplerSelectB => ButtonMap { sampler_select_b: value, ..self },
            Buttons::SamplerSelectC => ButtonMap { sampler_select_c: value, ..self },
            Buttons::SamplerTopLeft => ButtonMap { sampler_top_left: value, ..self },
            Buttons::SamplerTopRight => ButtonMap { sampler_top_right: value, ..self },
            Buttons::SamplerBottomLeft => ButtonMap { sampler_bottom_left: value, ..self },
            Buttons::SamplerBottomRight => ButtonMap { sampler_bottom_right: value, ..self },
            Buttons::SamplerClear => ButtonMap { sampler_clear: value, ..self },
        }
    }

    /// Borrows the value kept for `button`.
    pub fn get(&self, button: Buttons) -> (value: &T)
        ensures
            *value == self.at(button),
    {
        match button {
            Buttons::Fader1Mute => &self.fader1_mute,
            Buttons::Fader2Mute => &self.fader2_mute,
            Buttons::Fader3Mute => &self.fader3_mute,
            Buttons::Fader4Mute => &self.fader4_mute,
            Buttons::Bleep => &self.bleep,
            Buttons::MicrophoneMute => &self.microphone_mute,
            Buttons::EffectSelect1 => &self.effect_select1,
            Buttons::EffectSelect2 => &self.effect_select2,
            Buttons::EffectSelect3 => &self.effect_select3,
            Buttons::EffectSelect4 => &self.effect_select4,
            Buttons::EffectSelect5 => &self.effect_select5,
            Buttons::EffectSelect6 => &self.effect_select6,
            Buttons::EffectFx => &self.effect_fx,
            Buttons::EffectMegaphone => &self.effect_megaphone,
            Buttons::EffectRobot => &self.effect_robot,
            Buttons::EffectHardTune => &self.effect_hard_tune,
            Buttons::SamplerSelectA => &self.sampler_select_a,
            Buttons::SamplerSelectB => &self.sampler_select_b,
            Buttons::SamplerSelectC => &self.sampler_select_c,
            Buttons::SamplerTopLeft => &self.sampler_top_left,
            Buttons::SamplerTopRight => &self.sampler_top_right,
            Buttons::SamplerBottomLeft => &self.sampler_bottom_left,
            Buttons::SamplerBottomRight => &self.sampler_bottom_right,
            Buttons::SamplerClear => &self.sampler_clear,
        }
    }

    /// Replaces the value kept for `button`.
    pub fn set(&mut self, button: Buttons, value: T)
        ensures
            *final(self) == old(self).with(button, value),
    {
        match button {
            Buttons::Fader1Mute => self.fader1_mute = value,
            Buttons::Fader2Mute => self.fader2_mute = value,
            Buttons::Fader3Mute => self.fader3_mute = value,
            Buttons::Fader4Mute => self.fader4_mute = value,
            Buttons::Bleep => self.bleep = value,
            Buttons::MicrophoneMute => self.microphone_mute = value,
            Buttons::EffectSelect1 => self.effect_select1 = value,
            Buttons::EffectSelect2 => self.effect_select2 = value,
            Buttons::EffectSelect3 => self.effect_select3 = value,
            Buttons::EffectSelect4 => self.effect_select4 = value,
            Buttons::EffectSelect5 => self.effect_select5 = value,
            Buttons::EffectSelect6 => self.effect_select6 = value,
            Buttons::EffectFx => self.effect_fx = value,
            Buttons::EffectMegaphone => self.effect_megaphone = value,
            Buttons::EffectRobot => self.effect_robot = value,
            Buttons::EffectHardTune => self.effect_hard_tune = value,
            Buttons::SamplerSelectA => self.sampler_select_a = value,
            Buttons::SamplerSelectB => self.sampler_select_b = value,
            Buttons::SamplerSelectC => self.sampler_select_c = value,
            Buttons::SamplerTopLeft => self.sampler_top_left = value,
            Buttons::SamplerTopRight => self.sampler_top_right = value,
            Buttons::SamplerBottomLeft => self.sampler_bottom_left = value,
            Buttons::SamplerBottomRight => self.sampler_bottom_right = value,
            Buttons::SamplerClear => self.sampler_clear = value,
        }
    }
}

impl<T: Copy> ButtonMap<T> {
    /// The record that keeps `value` for every name.
    pub open spec fn all_of(value: T) -> ButtonMap<T> {
        ButtonMap {
            fader1_mute: value,
            fader2_mute: value,
            fader3_mute: value,
            fader4_mute: value,
            bleep: value,
            microphone_mute: value,
            effect_select1: value,
            effect_select2: value,
            effect_select3: value,
            effect_select4: value,
            effect_select5: value,
            effect_select6: value,
            effect_fx: value,
            effect_megaphone: value,
            effect_robot: value,
            effect_hard_tune: value,
            sampler_select_a: value,
            sampler_select_b: value,
            sampler_select_c: value,
            sampler_top_left: value,
            sampler_top_right: value,
            sampler_bottom_left: value,
            sampler_bottom_right: value,
            sampler_clear: value,
        }
    }

    /// Builds the record that keeps `value` for every name.
    pub fn fill(value: T) -> (record: ButtonMap<T>)
        ensures
            record == ButtonMap::all_of(value),
    {
        ButtonMap {
            fader1_mute: value,
            fader2_mute: value,
            fader3_mute: value,
            fader4_mute: value,
            bleep: value,
            microphone_mute: value,
            effect_select1: value,
            effect_select2: value,
            effect_select3: value,
            effect_select4: value,
            effect_select5: value,
            effect_select6: value,
            effect_fx: value,
            effect_megaphone: value,
            effect_robot: value,
            effect_hard_tune: value,
            sampler_select_a: value,
            sampler_select_b: value,
            sampler_select_c: value,
            sampler_top_left: value,
            sampler_top_right: value,
            sampler_bottom_left: value,
            sampler_bottom_right: value,
            sampler_clear: value,
        }
    }
}

/// One value for every encoder.
#[derive(Clone, Copy, Debug, PartialEq, Eq, Structural)]
pub struct EncoderMap<T> {
    pub pitch: T,
    pub gender: T,
    pub reverb: T,
    pub echo: T,
}

impl<T> EncoderMap<T> {
    /// The value kept for `encoder`.
    pub open spec fn at(self, encoder: EncoderName) -> T {
        match encoder {
            EncoderName::Pitch => self.pitch,
            EncoderName::Gender => self.gender,
            EncoderName::Reverb => self.reverb,
            EncoderName::Echo => self.echo,
        }
    }

    /// This record with `value` kept for `encoder`.
    pub open spec fn with(self, encoder: EncoderName, value: T) -> EncoderMap<T> {
        match encoder {
            EncoderName::Pitch => EncoderMap { pitch: value, ..self },
            EncoderName::Gender => EncoderMap { gender: value, ..self },
            EncoderName::Reverb => EncoderMap { reverb: value, ..self },
            EncoderName::Echo => EncoderMap { echo: value, ..self },
        }
    }

    /// Borrows the value kept for `encoder`.
    pub fn get(&self, encoder: EncoderName) -> (value: &T)
        ensures
            *value == self.at(encoder),
    {
        match encoder {
            EncoderName::Pitch => &self.pitch,
            EncoderName::Gender => &self.gender,
            EncoderName::Reverb => &self.reverb,
            EncoderName::Echo => &self.echo,
        }
    }

    /// Replaces the value kept for `encoder`.
    pub fn set(&mut self, encoder: EncoderName, value: T)
        ensures
            *final(self) == old(self).with(encoder, value),
    {
        match encoder {
            EncoderName::Pitch => self.pitch = value,
            EncoderName::Gender => self.gender = value,
            EncoderName::Reverb => self.reverb = value,
            EncoderName::Echo => self.echo = value,
        }
    }
}

impl<T: Copy> EncoderMap<T> {
    /// The record that keeps `value` for every name.
    pub open spec fn all_of(value: T) -> EncoderMap<T> {
        EncoderMap {
            pitch: value,
            gender: value,
            reverb: value,
            echo: value,
        }
    }

    /// Builds the record that keeps `value` for every name.
    pub fn fill(value: T) -> (record: EncoderMap<T>)
        ensures
            record == EncoderMap::all_of(value),
    {
        EncoderMap {
            pitch: value,
            gender: value,
            reverb: value,
            echo: value,
        }
    }
}

/// One value for every sub-mix channel.
#[derive(Clone, Copy, Debug, PartialEq, Eq, Structural)]
pub struct SubMixMap<T> {
    pub mic: T,
    pub line_in: T,
    pub console: T,
    pub system: T,
    pub game: T,
    pub chat: T,
    pub sample: T,
    pub music: T,
}

impl<T> SubMixMap<T> {
    /// The value kept for `channel`.
    pub open spec fn at(self, channel: SubMixChannelName) -> T {
        match channel {
            SubMixChannelName::Mic => self.mic,
            SubMixChannelName::LineIn => self.line_in,
            SubMixChannelName::Console => self.console,
            SubMixChannelName::System => self.system,
            SubMixChannelName::Game => self.game,
            SubMixChannelName::Chat => self.chat,
            SubMixChannelName::Sample => self.sample,
            SubMixChannelName::Music => self.music,
        }
    }

    /// This record with `value` kept for `channel`.
    pub open spec fn with(self, channel: SubMixChannelName, value: T) -> SubMixMap<T> {
        match channel {
            SubMixChannelName::Mic => SubMixMap { mic: value, ..self },
            SubMixChannelName::LineIn => SubMixMap { line_in: value, ..self },
            SubMixChannelName::Console => SubMixMap { console: value, ..self },
            SubMixChannelName::System => SubMixMap { system: value, ..self },
            SubMixChannelName::Game => SubMixMap { game: value, ..self },
            SubMixChannelName::Chat => SubMixMap { chat: value, ..self },
            SubMixChannelName::Sample => SubMixMap { sample: value, ..self },
            SubMixChannelName::Music => SubMixMap { music: value, ..self },
        }
    }

    /// Borrows the value kept for `channel`.
    pub fn get(&self, channel: SubMixChannelName) -> (value: &T)
        ensures
            *value == self.at(channel),
    {
        match channel {
            SubMixChannelName::Mic => &self.mic,
            SubMixChannelName::LineIn => &self.line_in,
            SubMixChannelName::Console => &self.console,
            SubMixChannelName::System => &self.system,
            SubMixChannelName::Game => &self.game,
            SubMixChannelName::Chat => &self.chat,
            SubMixChannelName::Sample => &self.sample,
            SubMixChannelName::Music => &self.music,
        }
    }

    /// Replaces the value kept for `channel`.
    pub fn set(&mut self, channel: SubMixChannelName, value: T)
        ensures
            *final(self) == old(self).with(channel, value),
    {
        match channel {
            SubMixChannelName::Mic => self.mic = value,
            SubMixChannelName::LineIn => self.line_in = value,
            SubMixChannelName::Console => self.console = value,
            SubMixChannelName::System => self.system = value,
            SubMixChannelName::Game => self.game = value,
            SubMixChannelName::Chat => self.chat = value,
            SubMixChannelName::Sample => self.sample = value,
            SubMixChannelName::Music => self.music = value,
        }
    }
}

impl<T: Copy> SubMixMap<T> {
    /// The record that keeps `value` for every name.
    pub open spec fn all_of(value: T) -> SubMixMap<T> {
        SubMixMap {
            mic: value,
            line_in: value,
            console: value,
            system: value,
            game: value,
            chat: value,
            sample: value,
            music: value,
        }
    }

    /// Builds the record that keeps `value` for every name.
    pub fn fill(value: T) -> (record: SubMixMap<T>)
        ensures
            record == SubMixMap::all_of(value),
    {
        SubMixMap {
            mic: value,
            line_in: value,
            console: value,
            system: value,
            game: value,
            chat: value,
            sample: value,
            music: value,
        }
    }
}

} // verus!
