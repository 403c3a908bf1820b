//! The part of a profile that the mixer logic reads and changes.

use crate::types::{
    AnimationMode, BankMap, ChannelMap, ChannelName, ChannelState, EffectBankPresets, EncoderMap,
    EncoderName, FaderMap, FaderName, HardTuneSource, InputDevice, InputMap, Mix, MuteFunction,
    MuteState, OutputDevice, OutputMap, PresetMap, SampleBank, SampleButtons, SampleMap,
    SamplePlayOrder, SamplePlaybackMode, SubMixChannelName, SubMixMap, WaterfallDirection,
};
use vstd::prelude::*;

verus! {

/// The level that the mixer table holds for an input that is routed to an output.
pub const ROUTED: u16 = 8192;

/// The number kept in place of a fader while the microphone is on none.
pub const NO_MIC_FADER: u8 = 4;

/// The mute button of a fader.
#[derive(Clone, Copy, Debug, PartialEq, Eq)]
pub struct MuteButton {
    pub on: bool,
    pub blink: bool,
    pub function: MuteFunction,
    pub previous_volume: u8,
}

impl MuteButton {
    /// Whether the channel is silenced everywhere.
    pub open spec fn silences(self) -> bool {
        self.blink || (self.on && self.function == MuteFunction::All)
    }
}

/// The button that mutes the microphone.
#[derive(Clone, Copy, Debug, PartialEq, Eq)]
pub struct CoughButton {
    pub is_toggle: bool,
    pub on: bool,
    pub blink: bool,
    pub function: MuteFunction,
}

impl CoughButton {
    /// Whether the microphone is silenced everywhere.
    pub open spec fn silences(self) -> bool {
        self.blink || (self.on && self.function == MuteFunction::All)
    }
}

/// The place of a channel in the second mix.
#[derive(Clone, Copy, Debug, PartialEq, Eq)]
pub struct SubMix {
    pub linked: bool,
    pub volume: u8,
}

/// What an effect preset keeps for the mixer logic.
#[derive(Clone, Copy, Debug, PartialEq, Eq)]
pub struct PresetEffects {
    pub megaphone: bool,
    pub robot: bool,
    pub hardtune: bool,
    pub hardtune_source: Option<HardTuneSource>,
    pub pitch_narrow: bool,
    pub encoders: EncoderMap<i8>,
}

/// The samples of one button in one bank.
#[derive(Clone, Copy, Debug, PartialEq, Eq)]
pub struct SampleStack {
    pub count: usize,
    pub mode: SamplePlaybackMode,
    pub order: SamplePlayOrder,
}

/// The second mix.
#[derive(Clone, Copy, Debug, PartialEq, Eq)]
pub struct SubMixes {
    pub enabled: bool,
    pub channels: SubMixMap<SubMix>,
    pub outputs: OutputMap<Mix>,
}

/// The voice effects.
#[derive(Clone, Copy, Debug, PartialEq, Eq)]
pub struct Effects {
    pub selected: EffectBankPresets,
    pub presets: PresetMap<PresetEffects>,
    pub preset_on: PresetMap<bool>,
    pub megaphone_on: bool,
    pub robot_on: bool,
    pub hardtune_on: bool,
    pub fx_on: bool,
}

/// The sampler.
#[derive(Clone, Copy, Debug, PartialEq, Eq)]
pub struct SamplerSettings {
    pub selected: SampleBank,
    pub bank_on: BankMap<bool>,
    pub on: SampleMap<bool>,
    pub blink: SampleMap<bool>,
    pub clear: bool,
    pub stacks: BankMap<SampleMap<SampleStack>>,
}

/// The animation of the lights.
#[derive(Clone, Copy, Debug, PartialEq, Eq)]
pub struct Animation {
    pub mode: AnimationMode,
    pub mod1: u8,
    pub mod2: u8,
    pub waterfall: WaterfallDirection,
}

/// The state of the mixer, as a profile keeps it.
#[derive(Clone, Copy, Debug, PartialEq, Eq)]
pub struct ProfileAdapter {
    pub faders: FaderMap<ChannelName>,
    pub mutes: FaderMap<MuteButton>,
    pub cough: CoughButton,
    pub mic_fader_id: u8,
    pub volumes: ChannelMap<u8>,
    pub router: InputMap<OutputMap<u16>>,
    pub monitor: OutputDevice,
    pub submix: SubMixes,
    pub swear_on: bool,
    pub effects: Effects,
    pub sampler: SamplerSettings,
    pub animation: Animation,
}

/// The fader that has this number; every number from three on stands for the last.
pub open spec fn fader_of(id: u8) -> FaderName {
    if id == 0 {
        FaderName::A
    } else if id == 1 {
        FaderName::B
    } else if id == 2 {
        FaderName::C
    } else {
        FaderName::D
    }
}

impl ProfileAdapter {
    // Routing

    /// Whether the table routes `input` to `output`.
    pub open spec fn routed(self, input: InputDevice, output: OutputDevice) -> bool {
        self.router.at(input).at(output) > 0
    }

    /// The row of the router for one input.
    pub open spec fn router_row(self, input: InputDevice) -> OutputMap<bool> {
        OutputMap {
            headphones: self.routed(input, OutputDevice::Headphones),
            broadcast_mix: self.routed(input, OutputDevice::BroadcastMix),
            line_out: self.routed(input, OutputDevice::LineOut),
            chat_mic: self.routed(input, OutputDevice::ChatMic),
            sampler: self.routed(input, OutputDevice::Sampler),
        }
    }

    /// Reads the outputs that an input is routed to.
    pub fn get_router(&self, input: InputDevice) -> (row: OutputMap<bool>)
        ensures
            row == self.router_row(input),
    {
        let levels = self.router.get(input);
        OutputMap {
            headphones: levels.headphones > 0,
            broadcast_mix: levels.broadcast_mix > 0,
            line_out: levels.line_out > 0,
            chat_mic: levels.chat_mic > 0,
            sampler: levels.sampler > 0,
        }
    }

    /// Reads the whole router, one row for each input.
    pub fn create_router(&self) -> (table: InputMap<OutputMap<bool>>)
        ensures
            forall|input: InputDevice| #[trigger] table.at(input) == self.router_row(input),
    {
        InputMap {
            microphone: self.get_router(InputDevice::Microphone),
            chat: self.get_router(InputDevice::Chat),
            music: self.get_router(InputDevice::Music),
            game: self.get_router(InputDevice::Game),
            console: self.get_router(InputDevice::Console),
            line_in: self.get_router(InputDevice::LineIn),
            system: self.get_router(InputDevice::System),
            samples: self.get_router(InputDevice::Samples),
        }
    }

    /// Reads the whole router as a table of inputs by outputs, in the order of their declaration.
    pub fn create_router_table(&self) -> (table: [[bool; 5]; 8])
        ensures
            forall|input: InputDevice, output: OutputDevice|
                #![trigger table@[input.index()]@[output.index()]]
                table@[input.index()]@[output.index()] == self.routed(input, output),
    {
        let mut table = [[false; 5]; 8];
        let inputs: Vec<InputDevice> = InputDevice::all();
        let mut i: usize = 0;
        while i < 8
            invariant
                inputs@.len() == 8,
                inputs@ == InputDevice::order(),
                i <= 8,
                forall|input: InputDevice| 0 <= input.index() < 8 && #[trigger] inputs@[input.index()] == input,
                forall|input: InputDevice, output: OutputDevice|
                    #![trigger table@[input.index()]@[output.index()]]
                    input.index() < i ==> table@[input.index()]@[output.index()] == self.routed(
                        input,
                        output,
                    ),
            decreases 8 - i,
        {
            let row = self.get_router(inputs[i]);
            table[i] = [row.headphones, row.broadcast_mix, row.line_out, row.chat_mic, row.sampler];
            assert forall|input: InputDevice, output: OutputDevice|
                #![trigger table@[input.index()]@[output.index()]]
                input.index() < i + 1 implies table@[input.index()]@[output.index()] == self.routed(
                input,
                output,
            ) by {
                if input.index() == i {
                    assert(inputs@[i as int] == input);
                }
            }
            i = i + 1;
        }
        table
    }

    /// The table in which `input` is, or is not, routed to `output`.
    pub open spec fn with_routing(
        self,
        input: InputDevice,
        output: OutputDevice,
        enabled: bool,
    ) -> ProfileAdapter {
        let level: u16 = if enabled {
            ROUTED
        } else {
            0
        };
        ProfileAdapter {
            router: self.router.with(input, self.router.at(input).with(output, level)),
            ..self
        }
    }

    /// Routes `input` to `output`, or takes the route away.
    pub fn set_routing(&mut self, input: InputDevice, output: OutputDevice, enabled: bool)
        ensures
            *final(self) == old(self).with_routing(input, output, enabled),
    {
        let mut level: u16 = ROUTED;
        if !enabled {
            level = 0;
        }
        let mut row = *self.router.get(input);
        row.set(output, level);
        self.router.set(input, row);
    }

    // Faders and volumes

    /// Reads the channel on a fader.
    pub fn get_fader_assignment(&self, fader: FaderName) -> (channel: ChannelName)
        ensures
            channel == self.faders.at(fader),
    {
        *self.faders.get(fader)
    }

    /// Puts a channel on a fader.
    pub fn set_fader_assignment(&mut self, fader: FaderName, channel: ChannelName)
        ensures
            *final(self) == (ProfileAdapter { faders: old(self).faders.with(fader, channel), ..*old(self) }),
    {
        self.faders.set(fader, channel);
    }

    /// The profile in which two faders, and their mute buttons, have changed places.
    pub open spec fn with_switched(self, one: FaderName, two: FaderName) -> ProfileAdapter {
        ProfileAdapter {
            faders: self.faders.with(one, self.faders.at(two)).with(two, self.faders.at(one)),
            mutes: self.mutes.with(one, self.mutes.at(two)).with(two, self.mutes.at(one)),
            ..self
        }
    }

    /// Lets two faders, and their mute buttons, change places.
    pub fn switch_fader_assignment(&mut self, fader_one: FaderName, fader_two: FaderName)
        ensures
            *final(self) == old(self).with_switched(fader_one, fader_two),
    {
        let channel_one = *self.faders.get(fader_one);
        let channel_two = *self.faders.get(fader_two);
        self.faders.set(fader_one, channel_two);
        self.faders.set(fader_two, channel_one);
        let mute_one = *self.mutes.get(fader_one);
        let mute_two = *self.mutes.get(fader_two);
        self.mutes.set(fader_one, mute_two);
        self.mutes.set(fader_two, mute_one);
    }

    /// The first fader that carries `channel`, in the order of the faders.
    pub open spec fn fader_with(self, channel: ChannelName) -> Option<FaderName> {
        if self.faders.a == channel {
            Some(FaderName::A)
        } else if self.faders.b == channel {
            Some(FaderName::B)
        } else if self.faders.c == channel {
            Some(FaderName::C)
        } else if self.faders.d == channel {
            Some(FaderName::D)
        } else {
            None
        }
    }

    /// Finds the first fader that carries a channel.
    pub fn get_fader_from_channel(&self, channel: ChannelName) -> (fader: Option<FaderName>)
        ensures
            fader == self.fader_with(channel),
    {
        if self.faders.a == channel {
            Some(FaderName::A)
        } else if self.faders.b == channel {
            Some(FaderName::B)
        } else if self.faders.c == channel {
            Some(FaderName::C)
        } else if self.faders.d == channel {
            Some(FaderName::D)
        } else {
            None
        }
    }

    /// Reads the volume of a channel.
    pub fn get_channel_volume(&self, channel: ChannelName) -> (volume: u8)
        ensures
            volume == self.volumes.at(channel),
    {
        *self.volumes.get(channel)
    }

    /// Reads the volume of every channel, in the order of their declaration.
    pub fn get_volumes(&self) -> (volumes: [u8; 11])
        ensures
            forall|channel: ChannelName| #[trigger]
                volumes@[channel.index()] == self.volumes.at(channel),
    {
        let mut volumes = [255u8; 11];
        let channels: Vec<ChannelName> = ChannelName::all();
        let mut i: usize = 0;
        while i < 11
            invariant
                channels@.len() == 11,
                i <= 11,
                forall|channel: ChannelName|
                    0 <= channel.index() < 11 && #[trigger] channels@[channel.index()] == channel,
                forall|channel: ChannelName|
                    channel.index() < i ==> #[trigger] volumes@[channel.index()] == self.volumes.at(
                        channel,
                    ),
            decreases 11 - i,
        {
            let channel = channels[i];
            volumes[i] = self.get_channel_volume(channel);
            assert forall|other: ChannelName| other.index() < i + 1 implies #[trigger]
                volumes@[other.index()] == self.volumes.at(other) by {
                assert(channels@[other.index()] == other);
            }
            i = i + 1;
        }
        volumes
    }

    /// Sets the volume of a channel.
    pub fn set_channel_volume(&mut self, channel: ChannelName, volume: u8)
        ensures
            *final(self) == (ProfileAdapter {
                volumes: old(self).volumes.with(channel, volume),
                ..*old(self)
            }),
    {
        self.volumes.set(channel, volume);
    }

    // Mute buttons

    /// Reads what the mute button of a fader silences.
    pub fn get_mute_button_behaviour(&self, fader: FaderName) -> (behaviour: MuteFunction)
        ensures
            behaviour == self.mutes.at(fader).function,
    {
        self.mutes.get(fader).function
    }

    /// Sets what the mute button of a fader silences.
    pub fn set_mute_button_behaviour(&mut self, fader: FaderName, behaviour: MuteFunction)
        ensures
            *final(self) == old(self).with_mute(
                fader,
                MuteButton { function: behaviour, ..old(self).mutes.at(fader) },
            ),
    {
        let mut button = *self.mutes.get(fader);
        button.function = behaviour;
        self.mutes.set(fader, button);
    }

    /// The profile with this mute button on a fader.
    pub open spec fn with_mute(self, fader: FaderName, button: MuteButton) -> ProfileAdapter {
        ProfileAdapter { mutes: self.mutes.with(fader, button), ..self }
    }

    /// Reads a mute button: whether it is on, whether it blinks, and what it silences.
    pub fn get_mute_button_state(&self, fader: FaderName) -> (state: (bool, bool, MuteFunction))
        ensures
            state == (
                self.mutes.at(fader).on,
                self.mutes.at(fader).blink,
                self.mutes.at(fader).function,
            ),
    {
        let button = self.mutes.get(fader);
        (button.on, button.blink, button.function)
    }

    /// Reads the volume that a fader had when it was muted.
    pub fn get_mute_button_previous_volume(&self, fader: FaderName) -> (volume: u8)
        ensures
            volume == self.mutes.at(fader).previous_volume,
    {
        self.mutes.get(fader).previous_volume
    }

    /// Keeps the volume that a fader has when it is muted.
    pub fn set_mute_button_previous_volume(&mut self, fader: FaderName, volume: u8)
        ensures
            *final(self) == old(self).with_mute(
                fader,
                MuteButton { previous_volume: volume, ..old(self).mutes.at(fader) },
            ),
    {
        let mut button = *self.mutes.get(fader);
        button.previous_volume = volume;
        self.mutes.set(fader, button);
    }

    /// Switches the light of a mute button.
    pub fn set_mute_button_on(&mut self, fader: FaderName, on: bool)
        ensures
            *final(self) == old(self).with_mute(
                fader,
                MuteButton { on, ..old(self).mutes.at(fader) },
            ),
    {
        let mut button = *self.mutes.get(fader);
        button.on = on;
        self.mutes.set(fader, button);
    }

    /// Switches the blinking of a mute button.
    pub fn set_mute_button_blink(&mut self, fader: FaderName, on: bool)
        ensures
            *final(self) == old(self).with_mute(
                fader,
                MuteButton { blink: on, ..old(self).mutes.at(fader) },
            ),
    {
        let mut button = *self.mutes.get(fader);
        button.blink = on;
        self.mutes.set(fader, button);
    }

    /// How far the channel on a fader is muted.
    pub open spec fn mute_state(self, fader: FaderName) -> MuteState {
        if self.mutes.at(fader).blink {
            MuteState::MutedToAll
        } else if self.mutes.at(fader).on {
            MuteState::MutedToX
        } else {
            MuteState::Unmuted
        }
    }

    /// Reads how far the channel on a fader is muted.
    pub fn get_ipc_mute_state(&self, fader: FaderName) -> (state: MuteState)
        ensures
            state == self.mute_state(fader),
    {
        let button = self.mutes.get(fader);
        if button.blink {
            MuteState::MutedToAll
        } else if button.on {
            MuteState::MutedToX
        } else {
            MuteState::Unmuted
        }
    }

    /// Whether a fader silences its channel everywhere.
    pub fn get_fader_mute_state(&self, fader: FaderName) -> (state: ChannelState)
        ensures
            state == (if self.mutes.at(fader).silences() {
                ChannelState::Muted
            } else {
                ChannelState::Unmuted
            }),
    {
        let button = self.mutes.get(fader);
        if button.blink || (button.on && button.function == MuteFunction::All) {
            ChannelState::Muted
        } else {
            ChannelState::Unmuted
        }
    }

    // The cough button

    /// Reads what the cough button silences.
    pub fn get_chat_mute_button_behaviour(&self) -> (behaviour: MuteFunction)
        ensures
            behaviour == self.cough.function,
    {
        self.cough.function
    }

    /// Sets what the cough button silences.
    pub fn set_chat_mute_button_behaviour(&mut self, behaviour: MuteFunction)
        ensures
            *final(self) == (ProfileAdapter {
                cough: CoughButton { function: behaviour, ..old(self).cough },
                ..*old(self)
            }),
    {
        self.cough.function = behaviour;
    }

    /// Lets the cough button act while it is held, or toggle.
    pub fn set_chat_mute_button_is_held(&mut self, is_hold: bool)
        ensures
            *final(self) == (ProfileAdapter {
                cough: CoughButton { is_toggle: !is_hold, ..old(self).cough },
                ..*old(self)
            }),
    {
        if is_hold {
            self.cough.is_toggle = false;
        } else {
            self.cough.is_toggle = true;
        }
    }

    /// Reads the cough button: whether it toggles, is on, blinks, and what it silences.
    pub fn get_mute_chat_button_state(&self) -> (state: (bool, bool, bool, MuteFunction))
        ensures
            state == (self.cough.is_toggle, self.cough.on, self.cough.blink, self.cough.function),
    {
        (self.cough.is_toggle, self.cough.on, self.cough.blink, self.cough.function)
    }

    /// Switches the light of the cough button.
    pub fn set_mute_chat_button_on(&mut self, on: bool)
        ensures
            *final(self) == (ProfileAdapter {
                cough: CoughButton { on, ..old(self).cough },
                ..*old(self)
            }),
    {
        self.cough.on = on;
    }

    /// Switches the blinking of the cough button.
    pub fn set_mute_chat_button_blink(&mut self, on: bool)
        ensures
            *final(self) == (ProfileAdapter {
                cough: CoughButton { blink: on, ..old(self).cough },
                ..*old(self)
            }),
    {
        self.cough.blink = on;
    }

    /// Reads whether the cough button blinks.
    pub fn get_mute_chat_button_blink(&self) -> (blink: bool)
        ensures
            blink == self.cough.blink,
    {
        self.cough.blink
    }

    /// Reads whether the cough button is lit.
    pub fn get_mute_chat_button_on(&self) -> (on: bool)
        ensures
            on == self.cough.on,
    {
        self.cough.on
    }

    /// Reads the whole cough button.
    pub fn get_cough_status(&self) -> (button: CoughButton)
        ensures
            button == self.cough,
    {
        self.cough
    }

    /// Reads the number of the fader that the microphone is on.
    pub fn get_mic_fader_id(&self) -> (id: u8)
        ensures
            id == self.mic_fader_id,
    {
        self.mic_fader_id
    }

    /// Keeps the fader that the microphone is on.
    pub fn set_mic_fader(&mut self, fader: FaderName)
        ensures
            *final(self) == (ProfileAdapter { mic_fader_id: fader.index() as u8, ..*old(self) }),
    {
        self.mic_fader_id = match fader {
            FaderName::A => 0,
            FaderName::B => 1,
            FaderName::C => 2,
            FaderName::D => 3,
        };
    }

    /// Keeps that the microphone is on no fader.
    pub fn clear_mic_fader(&mut self)
        ensures
            *final(self) == (ProfileAdapter { mic_fader_id: NO_MIC_FADER, ..*old(self) }),
    {
        self.mic_fader_id = NO_MIC_FADER;
    }

    /// Finds the fader that has a number.
    pub fn fader_from_id(&self, fader: u8) -> (name: FaderName)
        ensures
            name == fader_of(fader),
    {
        match fader {
            0 => FaderName::A,
            1 => FaderName::B,
            2 => FaderName::C,
            _ => FaderName::D,
        }
    }

    /// Whether the fader that the microphone is on silences it everywhere.
    pub open spec fn mic_silenced_by_fader(self) -> bool {
        self.mic_fader_id != NO_MIC_FADER && self.mutes.at(fader_of(self.mic_fader_id)).silences()
    }

    /// Reads whether the microphone is on a fader.
    pub fn is_mic_on_fader(&self) -> (on: bool)
        ensures
            on == (self.mic_fader_id != NO_MIC_FADER),
    {
        self.mic_fader_id != NO_MIC_FADER
    }

    /// Finds the fader that the microphone is on.
    pub fn get_mic_fader(&self) -> (fader: FaderName)
        ensures
            fader == fader_of(self.mic_fader_id),
    {
        self.fader_from_id(self.mic_fader_id)
    }

    // Effects

    /// Switches the light of the swear button.
    pub fn set_swear_button_on(&mut self, on: bool)
        ensures
            *final(self) == (ProfileAdapter { swear_on: on, ..*old(self) }),
    {
        self.swear_on = on;
    }

    /// The preset that is selected.
    pub open spec fn preset(self) -> PresetEffects {
        self.effects.presets.at(self.effects.selected)
    }

    /// The profile with this as the selected preset.
    pub open spec fn with_preset(self, preset: PresetEffects) -> ProfileAdapter {
        ProfileAdapter {
            effects: Effects {
                presets: self.effects.presets.with(self.effects.selected, preset),
                ..self.effects
            },
            ..self
        }
    }

    /// The profile in which `preset` is selected: its button is lit and that of the preset before it
    /// is not, and the effect buttons show what the preset switches on.
    pub open spec fn with_effect_bank(self, preset: EffectBankPresets) -> ProfileAdapter {
        let effects = self.effects;
        ProfileAdapter {
            effects: Effects {
                selected: preset,
                preset_on: effects.preset_on.with(effects.selected, false).with(preset, true),
                megaphone_on: effects.presets.at(preset).megaphone,
                robot_on: effects.presets.at(preset).robot,
                hardtune_on: effects.presets.at(preset).hardtune,
                ..effects
            },
            ..self
        }
    }

    /// Selects an effect preset.
    pub fn load_effect_bank(&mut self, preset: EffectBankPresets)
        ensures
            *final(self) == old(self).with_effect_bank(preset),
    {
        let current = self.effects.selected;
        self.effects.selected = preset;
        self.effects.preset_on.set(current, false);
        let effects = *self.effects.presets.get(preset);
        self.effects.robot_on = effects.robot;
        self.effects.megaphone_on = effects.megaphone;
        self.effects.hardtune_on = effects.hardtune;
        self.effects.preset_on.set(preset, true);
    }

    /// The profile in which the megaphone of the selected preset is switched.
    pub open spec fn with_megaphone(self, enabled: bool) -> ProfileAdapter {
        let effects = self.with_preset(PresetEffects { megaphone: enabled, ..self.preset() }).effects;
        ProfileAdapter { effects: Effects { megaphone_on: enabled, ..effects }, ..self }
    }

    /// Switches the megaphone of the selected preset.
    pub fn set_megaphone(&mut self, enabled: bool)
        ensures
            *final(self) == old(self).with_megaphone(enabled),
    {
        let mut preset = *self.effects.presets.get(self.effects.selected);
        preset.megaphone = enabled;
        self.effects.presets.set(self.effects.selected, preset);
        self.effects.megaphone_on = enabled;
    }

    /// Switches the megaphone of the selected preset to the other state.
    pub fn toggle_megaphone(&mut self)
        ensures
            *final(self) == old(self).with_megaphone(!old(self).preset().megaphone),
    {
        let enabled = !self.effects.presets.get(self.effects.selected).megaphone;
        self.set_megaphone(enabled);
    }

    /// The profile in which the robot of the selected preset is switched.
    pub open spec fn with_robot(self, enabled: bool) -> ProfileAdapter {
        let effects = self.with_preset(PresetEffects { robot: enabled, ..self.preset() }).effects;
        ProfileAdapter { effects: Effects { robot_on: enabled, ..effects }, ..self }
    }

    /// Switches the robot of the selected preset.
    pub fn set_robot(&mut self, enabled: bool)
        ensures
            *final(self) == old(self).with_robot(enabled),
    {
        let mut preset = *self.effects.presets.get(self.effects.selected);
        preset.robot = enabled;
        self.effects.presets.set(self.effects.selected, preset);
        self.effects.robot_on = enabled;
    }

    /// Switches the robot of the selected preset to the other state.
    pub fn toggle_robot(&mut self)
        ensures
            *final(self) == old(self).with_robot(!old(self).preset().robot),
    {
        let enabled = !self.effects.presets.get(self.effects.selected).robot;
        self.set_robot(enabled);
    }

    /// The profile in which hard tune of the selected preset is switched.
    pub open spec fn with_hardtune(self, enabled: bool) -> ProfileAdapter {
        let effects = self.with_preset(PresetEffects { hardtune: enabled, ..self.preset() }).effects;
        ProfileAdapter { effects: Effects { hardtune_on: enabled, ..effects }, ..self }
    }

    /// Switches hard tune of the selected preset.
    pub fn set_hardtune(&mut self, enabled: bool)
        ensures
            *final(self) == old(self).with_hardtune(enabled),
    {
        let mut preset = *self.effects.presets.get(self.effects.selected);
        preset.hardtune = enabled;
        self.effects.presets.set(self.effects.selected, preset);
        self.effects.hardtune_on = enabled;
    }

    /// Switches hard tune of the selected preset to the other state.
    pub fn toggle_hardtune(&mut self)
        ensures
            *final(self) == old(self).with_hardtune(!old(self).preset().hardtune),
    {
        let enabled = !self.effects.presets.get(self.effects.selected).hardtune;
        self.set_hardtune(enabled);
    }

    /// The profile in which all effects are switched.
    pub open spec fn with_fx(self, enabled: bool) -> ProfileAdapter {
        ProfileAdapter { effects: Effects { fx_on: enabled, ..self.effects }, ..self }
    }

    /// Switches all effects.
    pub fn set_effects(&mut self, enabled: bool)
        ensures
            *final(self) == old(self).with_fx(enabled),
    {
        self.effects.fx_on = enabled;
    }

    /// Switches all effects to the other state.
    pub fn toggle_effects(&mut self)
        ensures
            *final(self) == old(self).with_fx(!old(self).effects.fx_on),
    {
        self.effects.fx_on = !self.effects.fx_on;
    }

    /// The profile in which an encoder of the selected preset stands at `value`.
    pub open spec fn with_encoder(self, encoder: EncoderName, value: i8) -> ProfileAdapter {
        self.with_preset(
            PresetEffects { encoders: self.preset().encoders.with(encoder, value), ..self.preset() },
        )
    }

    /// Reads where an encoder of the selected preset stands.
    pub fn get_encoder_value(&self, encoder: EncoderName) -> (value: i8)
        ensures
            value == self.preset().encoders.at(encoder),
    {
        *self.effects.presets.get(self.effects.selected).encoders.get(encoder)
    }

    /// Keeps where an encoder of the selected preset stands.
    pub fn set_encoder_value(&mut self, encoder: EncoderName, value: i8)
        ensures
            *final(self) == old(self).with_encoder(encoder, value),
    {
        let mut preset = *self.effects.presets.get(self.effects.selected);
        preset.encoders.set(encoder, value);
        self.effects.presets.set(self.effects.selected, preset);
    }

    /// Reads where the pitch encoder stands.
    pub fn get_pitch_value(&self) -> (value: i8)
        ensures
            value == self.preset().encoders.pitch,
    {
        self.get_encoder_value(EncoderName::Pitch)
    }

    /// Keeps where the pitch encoder stands.
    pub fn set_pitch_value(&mut self, value: i8)
        ensures
            *final(self) == old(self).with_encoder(EncoderName::Pitch, value),
    {
        self.set_encoder_value(EncoderName::Pitch, value);
    }

    /// Reads where the gender encoder stands.
    pub fn get_gender_value(&self) -> (value: i8)
        ensures
            value == self.preset().encoders.gender,
    {
        self.get_encoder_value(EncoderName::Gender)
    }

    /// Keeps where the gender encoder stands.
    pub fn set_gender_value(&mut self, value: i8)
        ensures
            *final(self) == old(self).with_encoder(EncoderName::Gender, value),
    {
        self.set_encoder_value(EncoderName::Gender, value);
    }

    /// Reads where the reverb encoder stands.
    pub fn get_reverb_value(&self) -> (value: i8)
        ensures
            value == self.preset().encoders.reverb,
    {
        self.get_encoder_value(EncoderName::Reverb)
    }

    /// Keeps where the reverb encoder stands.
    pub fn set_reverb_value(&mut self, value: i8)
        ensures
            *final(self) == old(self).with_encoder(EncoderName::Reverb, value),
    {
        self.set_encoder_value(EncoderName::Reverb, value);
    }

    /// Reads where the echo encoder stands.
    pub fn get_echo_value(&self) -> (value: i8)
        ensures
            value == self.preset().encoders.echo,
    {
        self.get_encoder_value(EncoderName::Echo)
    }

    /// Keeps where the echo encoder stands.
    pub fn set_echo_value(&mut self, value: i8)
        ensures
            *final(self) == old(self).with_encoder(EncoderName::Echo, value),
    {
        self.set_encoder_value(EncoderName::Echo, value);
    }

    /// Whether hard tune follows every input; it does where no input is chosen.
    pub open spec fn hardtune_follows_all(self) -> bool {
        match self.preset().hardtune_source {
            Some(source) => source == HardTuneSource::All,
            None => true,
        }
    }

    /// The input that hard tune follows. Music stands in where it follows every input.
    pub open spec fn hardtune_input(self) -> InputDevice {
        match self.preset().hardtune_source {
            Some(HardTuneSource::Game) => InputDevice::Game,
            Some(HardTuneSource::LineIn) => InputDevice::LineIn,
            Some(HardTuneSource::System) => InputDevice::System,
            _ => InputDevice::Music,
        }
    }

    /// Reads whether hard tune follows every input.
    pub fn is_active_hardtune_source_all(&self) -> (all: bool)
        ensures
            all == self.hardtune_follows_all(),
    {
        if let Some(source) = self.effects.presets.get(self.effects.selected).hardtune_source {
            return source == HardTuneSource::All;
        }
        true
    }

    /// Finds the input that hard tune follows.
    pub fn get_active_hardtune_source(&self) -> (input: InputDevice)
        requires
            self.preset().hardtune_source is Some,
        ensures
            input == self.hardtune_input(),
    {
        match self.effects.presets.get(self.effects.selected).hardtune_source {
            Some(HardTuneSource::Game) => InputDevice::Game,
            Some(HardTuneSource::LineIn) => InputDevice::LineIn,
            Some(HardTuneSource::System) => InputDevice::System,
            _ => InputDevice::Music,
        }
    }

    /// The profile in which hard tune of the selected preset follows `source`.
    pub open spec fn with_hardtune_source(self, source: HardTuneSource) -> ProfileAdapter {
        self.with_preset(PresetEffects { hardtune_source: Some(source), ..self.preset() })
    }

    /// Lets hard tune of the selected preset follow `source`.
    pub fn set_hardtune_source(&mut self, source: HardTuneSource)
        ensures
            *final(self) == old(self).with_hardtune_source(source),
    {
        let mut preset = *self.effects.presets.get(self.effects.selected);
        preset.hardtune_source = Some(source);
        self.effects.presets.set(self.effects.selected, preset);
    }

    /// The source that hard tune follows, every input where none is chosen.
    pub open spec fn hardtune_source(self) -> HardTuneSource {
        match self.preset().hardtune_source {
            Some(source) => source,
            None => HardTuneSource::All,
        }
    }

    /// Reads the source that hard tune follows.
    pub fn get_hardtune_source(&self) -> (source: HardTuneSource)
        ensures
            source == self.hardtune_source(),
    {
        match self.effects.presets.get(self.effects.selected).hardtune_source {
            Some(source) => source,
            None => HardTuneSource::All,
        }
    }

    /// Reads whether hard tune is lit, whatever the effect switch says.
    pub fn is_hardtune_pitch_enabled(&self) -> (enabled: bool)
        ensures
            enabled == self.effects.hardtune_on,
    {
        self.effects.hardtune_on
    }

    /// Reads whether the pitch encoder of the selected preset has the narrow range.
    pub fn is_pitch_narrow(&self) -> (narrow: bool)
        ensures
            narrow == self.preset().pitch_narrow,
    {
        self.effects.presets.get(self.effects.selected).pitch_narrow
    }

    /// Reads whether effects are switched on.
    pub fn is_fx_enabled(&self) -> (enabled: bool)
        ensures
            enabled == self.effects.fx_on,
    {
        self.effects.fx_on
    }

    /// Reads whether the megaphone acts. With `ignore_fx` the effect switch does not matter.
    pub fn is_megaphone_enabled(&self, ignore_fx: bool) -> (enabled: bool)
        ensures
            enabled == ((ignore_fx || self.effects.fx_on) && self.effects.megaphone_on),
    {
        if !ignore_fx && !self.is_fx_enabled() {
            return false;
        }
        self.effects.megaphone_on
    }

    /// Reads whether the robot acts. With `ignore_fx` the effect switch does not matter.
    pub fn is_robot_enabled(&self, ignore_fx: bool) -> (enabled: bool)
        ensures
            enabled == ((ignore_fx || self.effects.fx_on) && self.effects.robot_on),
    {
        if !ignore_fx && !self.is_fx_enabled() {
            return false;
        }
        self.effects.robot_on
    }

    /// Reads whether hard tune acts. With `ignore_fx` the effect switch does not matter.
    pub fn is_hardtune_enabled(&self, ignore_fx: bool) -> (enabled: bool)
        ensures
            enabled == ((ignore_fx || self.effects.fx_on) && self.effects.hardtune_on),
    {
        if !ignore_fx && !self.is_fx_enabled() {
            return false;
        }
        self.effects.hardtune_on
    }

    // The sampler

    /// The profile in which `bank` is selected and lit, and the bank before it is not.
    pub open spec fn with_sample_bank(self, bank: SampleBank) -> ProfileAdapter {
        let sampler = self.sampler;
        ProfileAdapter {
            sampler: SamplerSettings {
                selected: bank,
                bank_on: sampler.bank_on.with(sampler.selected, false).with(bank, true),
                ..sampler
            },
            ..self
        }
    }

    /// Selects a bank of the sampler.
    pub fn load_sample_bank(&mut self, bank: SampleBank)
        ensures
            *final(self) == old(self).with_sample_bank(bank),
    {
        let current = self.sampler.selected;
        self.sampler.selected = bank;
        self.sampler.bank_on.set(current, false);
        self.sampler.bank_on.set(bank, true);
    }

    /// The samples of a button in the selected bank.
    pub open spec fn stack(self, button: SampleButtons) -> SampleStack {
        self.sampler.stacks.at(self.sampler.selected).at(button)
    }

    /// Reads whether a button has samples in the selected bank.
    pub fn current_sample_bank_has_samples(&self, button: SampleButtons) -> (has: bool)
        ensures
            has == (self.stack(button).count != 0),
    {
        if self.sampler.stacks.get(self.sampler.selected).get(button).count == 0 {
            return false;
        }
        true
    }

    /// The profile with these as the samples of a button in a bank.
    pub open spec fn with_stack(
        self,
        bank: SampleBank,
        button: SampleButtons,
        stack: SampleStack,
    ) -> ProfileAdapter {
        let stacks = self.sampler.stacks;
        ProfileAdapter {
            sampler: SamplerSettings {
                stacks: stacks.with(bank, stacks.at(bank).with(button, stack)),
                ..self.sampler
            },
            ..self
        }
    }

    /// Sets the samples of a button in a bank.
    pub fn set_stack(&mut self, bank: SampleBank, button: SampleButtons, stack: SampleStack)
        ensures
            *final(self) == old(self).with_stack(bank, button, stack),
    {
        let mut buttons = *self.sampler.stacks.get(bank);
        buttons.set(button, stack);
        self.sampler.stacks.set(bank, buttons);
    }

    /// The profile in which a button has no samples left in the selected bank.
    pub open spec fn without_samples(self, button: SampleButtons) -> ProfileAdapter {
        self.with_stack(
            self.sampler.selected,
            button,
            SampleStack { count: 0, ..self.stack(button) },
        )
    }

    /// Takes every sample of a button out of the selected bank.
    pub fn clear_all_samples(&mut self, button: SampleButtons)
        ensures
            *final(self) == old(self).without_samples(button),
    {
        let bank = self.sampler.selected;
        let mut stack = *self.sampler.stacks.get(bank).get(button);
        stack.count = 0;
        self.set_stack(bank, button, stack);
    }

    /// The profile in which a button has one more sample; the count stays at its limit.
    pub open spec fn with_sample_added(
        self,
        bank: SampleBank,
        button: SampleButtons,
    ) -> ProfileAdapter {
        let stack = self.sampler.stacks.at(bank).at(button);
        let count: usize = if stack.count < usize::MAX {
            (stack.count + 1) as usize
        } else {
            stack.count
        };
        self.with_stack(bank, button, SampleStack { count, ..stack })
    }

    /// Counts one more sample of a button.
    pub fn add_sample(&mut self, bank: SampleBank, button: SampleButtons)
        ensures
            *final(self) == old(self).with_sample_added(bank, button),
    {
        let mut stack = *self.sampler.stacks.get(bank).get(button);
        if stack.count < usize::MAX {
            stack.count = stack.count + 1;
        }
        self.set_stack(bank, button, stack);
    }

    /// Reads what pressing a button of the selected bank does.
    pub fn get_sample_playback_mode(&self, button: SampleButtons) -> (mode: SamplePlaybackMode)
        ensures
            mode == self.stack(button).mode,
    {
        self.sampler.stacks.get(self.sampler.selected).get(button).mode
    }

    /// Reads whether a sample button is lit.
    pub fn is_sample_active(&self, button: SampleButtons) -> (active: bool)
        ensures
            active == self.sampler.on.at(button),
    {
        *self.sampler.on.get(button)
    }

    /// The profile in which the light of a sample button is switched.
    pub open spec fn with_sample_on(self, button: SampleButtons, state: bool) -> ProfileAdapter {
        ProfileAdapter {
            sampler: SamplerSettings { on: self.sampler.on.with(button, state), ..self.sampler },
            ..self
        }
    }

    /// The profile in which the blinking of a sample button is switched.
    pub open spec fn with_sample_blink(self, button: SampleButtons, state: bool) -> ProfileAdapter {
        ProfileAdapter {
            sampler: SamplerSettings {
                blink: self.sampler.blink.with(button, state),
                ..self.sampler
            },
            ..self
        }
    }

    /// Switches the light of a sample button.
    pub fn set_sample_button_state(&mut self, button: SampleButtons, state: bool)
        ensures
            *final(self) == old(self).with_sample_on(button, state),
    {
        self.sampler.on.set(button, state);
    }

    /// Switches the blinking of a sample button.
    pub fn set_sample_button_blink(&mut self, button: SampleButtons, state: bool)
        ensures
            *final(self) == old(self).with_sample_blink(button, state),
    {
        self.sampler.blink.set(button, state);
    }

    // The second mix

    /// The volume of its own that a channel has in the second mix, if it has one.
    pub open spec fn submix_of(channel: ChannelName) -> Option<SubMixChannelName> {
        match channel {
            ChannelName::Mic => Some(SubMixChannelName::Mic),
            ChannelName::LineIn => Some(SubMixChannelName::LineIn),
            ChannelName::Console => Some(SubMixChannelName::Console),
            ChannelName::System => Some(SubMixChannelName::System),
            ChannelName::Game => Some(SubMixChannelName::Game),
            ChannelName::Chat => Some(SubMixChannelName::Chat),
            ChannelName::Sample => Some(SubMixChannelName::Sample),
            ChannelName::Music => Some(SubMixChannelName::Music),
            _ => None,
        }
    }

    /// Finds the place of a channel in the second mix.
    pub fn get_submix_from_channel(&self, channel: ChannelName) -> (mix: Option<SubMixChannelName>)
        ensures
            mix == ProfileAdapter::submix_of(channel),
    {
        match channel {
            ChannelName::Mic => Some(SubMixChannelName::Mic),
            ChannelName::LineIn => Some(SubMixChannelName::LineIn),
            ChannelName::Console => Some(SubMixChannelName::Console),
            ChannelName::System => Some(SubMixChannelName::System),
            ChannelName::Game => Some(SubMixChannelName::Game),
            ChannelName::Chat => Some(SubMixChannelName::Chat),
            ChannelName::Sample => Some(SubMixChannelName::Sample),
            ChannelName::Music => Some(SubMixChannelName::Music),
            _ => None,
        }
    }

    /// The profile with this as the place of a channel in the second mix.
    pub open spec fn with_submix(self, channel: SubMixChannelName, mix: SubMix) -> ProfileAdapter {
        ProfileAdapter {
            submix: SubMixes { channels: self.submix.channels.with(channel, mix), ..self.submix },
            ..self
        }
    }

    /// Sets the volume of a channel in the second mix.
    pub fn set_submix_volume(&mut self, channel: SubMixChannelName, volume: u8)
        ensures
            *final(self) == old(self).with_submix(
                channel,
                SubMix { volume, ..old(self).submix.channels.at(channel) },
            ),
    {
        let mut mix = *self.submix.channels.get(channel);
        mix.volume = volume;
        self.submix.channels.set(channel, mix);
    }

    /// Links the volume of a channel in the second mix to its main volume, or not.
    pub fn set_submix_linked(&mut self, channel: SubMixChannelName, linked: bool)
        ensures
            *final(self) == old(self).with_submix(
                channel,
                SubMix { linked, ..old(self).submix.channels.at(channel) },
            ),
    {
        let mut mix = *self.submix.channels.get(channel);
        mix.linked = linked;
        self.submix.channels.set(channel, mix);
    }
}

} // verus!
