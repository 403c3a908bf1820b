//! What clients see of a device.

use crate::command::{DisplayMode, GoXLRCommand};
use crate::device::state::{ButtonState, Mixer};
use crate::mic_profile::{
    display_mode, CompressorStatus, EqualiserMiniStatus, EqualiserStatus, MicGains, MicLists,
    MicProfileAdapter, NoiseGateStatus,
};
use crate::profile::{CoughButton, Effects, SamplerSettings, SubMixes};
use crate::types::{
    ButtonMap, Buttons, ChannelMap, ChannelName, DeviceType, FaderMap, FaderName, InputDevice,
    InputMap, MicrophoneType, MuteFunction, MuteState, OutputDevice, OutputMap,
};
use vstd::prelude::*;

verus! {

/// What clients see of a fader.
#[derive(Clone, Copy, Debug, PartialEq, Eq)]
pub struct FaderStatus {
    pub channel: ChannelName,
    pub mute_type: MuteFunction,
    pub mute_state: MuteState,
}

/// What clients see of the volumes.
#[derive(Clone, Copy, Debug, PartialEq, Eq)]
pub struct Levels {
    pub submix_supported: bool,
    pub output_monitor: OutputDevice,
    pub volumes: ChannelMap<u8>,
    /// Nothing where the firmware has no second mix, or it is not in use.
    pub submix: Option<SubMixes>,
    pub bleep: i8,
    pub deess: u8,
}

/// What clients see of the microphone.
#[derive(Clone, Copy, Debug, PartialEq, Eq)]
pub struct MicSettings<T> {
    pub mic_type: MicrophoneType,
    pub mic_gains: MicGains,
    pub noise_gate: NoiseGateStatus<T>,
    pub equaliser: EqualiserStatus,
    pub equaliser_mini: EqualiserMiniStatus,
    pub compressor: CompressorStatus<T>,
}

/// What clients see of the sampler.
#[derive(Debug, PartialEq, Eq)]
pub struct SamplerStatus {
    pub settings: SamplerSettings,
    /// How far the work on a sample is, while there is any.
    pub processing: Option<u8>,
    pub last_error: Option<String>,
    /// How much audio is kept before a recording.
    pub record_buffer: u16,
}

/// In which form the panels of the microphone are shown.
#[derive(Clone, Copy, Debug, PartialEq, Eq)]
pub struct Display {
    pub gate: DisplayMode,
    pub compressor: DisplayMode,
    pub equaliser: DisplayMode,
    pub equaliser_fine: DisplayMode,
}

/// What clients see of how the device behaves.
#[derive(Clone, Copy, Debug, PartialEq, Eq)]
pub struct BehaviourStatus {
    pub display: Display,
    pub mute_hold_duration: u16,
    pub vc_mute_also_mute_cm: bool,
    pub enable_monitor_with_fx: bool,
    pub lock_faders: bool,
}

/// What is kept for a device outside of its profiles, and the names of those.
#[derive(Debug)]
pub struct KeptStatus {
    pub shutdown_commands: Vec<GoXLRCommand>,
    /// How far the work on a sample is, where that is known.
    pub progress: Option<u8>,
    pub last_sample_error: Option<String>,
    /// How much audio is kept before a recording.
    pub sampler_pre_buffer: u16,
    pub profile_name: String,
    pub mic_profile_name: String,
}

/// What clients see of a device, beside its hardware, its lights and the screens over its faders.
#[derive(Debug)]
pub struct MixerStatus<T> {
    pub device_type: DeviceType,
    pub shutdown_commands: Vec<GoXLRCommand>,
    pub fader_status: FaderMap<FaderStatus>,
    pub cough_button: CoughButton,
    pub levels: Levels,
    pub router: InputMap<OutputMap<bool>>,
    pub mic_status: MicSettings<T>,
    pub animations_supported: bool,
    /// Nothing on the smaller device, which has no effects.
    pub effects: Option<Effects>,
    /// Nothing on the smaller device, which has no sampler.
    pub sampler: Option<SamplerStatus>,
    pub settings: BehaviourStatus,
    pub button_down: ButtonMap<bool>,
    pub profile_name: String,
    pub mic_profile_name: String,
}

/// Which buttons were pressed and not released.
#[verifier::opaque]
pub open spec fn pressed(states: ButtonMap<ButtonState>) -> ButtonMap<bool> {
    ButtonMap {
        fader1_mute: states.fader1_mute.press_time > 0,
        fader2_mute: states.fader2_mute.press_time > 0,
        fader3_mute: states.fader3_mute.press_time > 0,
        fader4_mute: states.fader4_mute.press_time > 0,
        bleep: states.bleep.press_time > 0,
        microphone_mute: states.microphone_mute.press_time > 0,
        effect_select1: states.effect_select1.press_time > 0,
        effect_select2: states.effect_select2.press_time > 0,
        effect_select3: states.effect_select3.press_time > 0,
        effect_select4: states.effect_select4.press_time > 0,
        effect_select5: states.effect_select5.press_time > 0,
        effect_select6: states.effect_select6.press_time > 0,
        effect_fx: states.effect_fx.press_time > 0,
        effect_megaphone: states.effect_megaphone.press_time > 0,
        effect_robot: states.effect_robot.press_time > 0,
        effect_hard_tune: states.effect_hard_tune.press_time > 0,
        sampler_select_a: states.sampler_select_a.press_time > 0,
        sampler_select_b: states.sampler_select_b.press_time > 0,
        sampler_select_c: states.sampler_select_c.press_time > 0,
        sampler_top_left: states.sampler_top_left.press_time > 0,
        sampler_top_right: states.sampler_top_right.press_time > 0,
        sampler_bottom_left: states.sampler_bottom_left.press_time > 0,
        sampler_bottom_right: states.sampler_bottom_right.press_time > 0,
        sampler_clear: states.sampler_clear.press_time > 0,
    }
}

/// Finds which buttons were pressed and not released.
fn find_pressed(states: &ButtonMap<ButtonState>) -> (down: ButtonMap<bool>)
    ensures
        down == pressed(*states),
{
    reveal(pressed);
    ButtonMap {
        fader1_mute: states.fader1_mute.press_time > 0,
        fader2_mute: states.fader2_mute.press_time > 0,
        fader3_mute: states.fader3_mute.press_time > 0,
        fader4_mute: states.fader4_mute.press_time > 0,
        bleep: states.bleep.press_time > 0,
        microphone_mute: states.microphone_mute.press_time > 0,
        effect_select1: states.effect_select1.press_time > 0,
        effect_select2: states.effect_select2.press_time > 0,
        effect_select3: states.effect_select3.press_time > 0,
        effect_select4: states.effect_select4.press_time > 0,
        effect_select5: states.effect_select5.press_time > 0,
        effect_select6: states.effect_select6.press_time > 0,
        effect_fx: states.effect_fx.press_time > 0,
        effect_megaphone: states.effect_megaphone.press_time > 0,
        effect_robot: states.effect_robot.press_time > 0,
        effect_hard_tune: states.effect_hard_tune.press_time > 0,
        sampler_select_a: states.sampler_select_a.press_time > 0,
        sampler_select_b: states.sampler_select_b.press_time > 0,
        sampler_select_c: states.sampler_select_c.press_time > 0,
        sampler_top_left: states.sampler_top_left.press_time > 0,
        sampler_top_right: states.sampler_top_right.press_time > 0,
        sampler_bottom_left: states.sampler_bottom_left.press_time > 0,
        sampler_bottom_right: states.sampler_bottom_right.press_time > 0,
        sampler_clear: states.sampler_clear.press_time > 0,
    }
}

/// A button was pressed and not released if it has a time.
proof fn lemma_pressed(states: ButtonMap<ButtonState>, button: Buttons)
    ensures
        pressed(states).at(button) == (states.at(button).press_time > 0),
{
    reveal(pressed);
}

impl Mixer {
    /// What clients see of a fader.
    pub open spec fn fader_state(self, fader: FaderName) -> FaderStatus {
        FaderStatus {
            channel: self.profile.faders.at(fader),
            mute_type: self.profile.mutes.at(fader).function,
            mute_state: self.profile.mute_state(fader),
        }
    }

    /// Finds what clients see of a fader.
    pub fn get_fader_state(&self, fader: FaderName) -> (status: FaderStatus)
        ensures
            status == self.fader_state(fader),
    {
        FaderStatus {
            channel: self.profile.get_fader_assignment(fader),
            mute_type: self.profile.get_mute_button_behaviour(fader),
            mute_state: self.profile.get_ipc_mute_state(fader),
        }
    }

    /// Whether clients see a button as pressed.
    pub open spec fn is_down(self, button: Buttons) -> bool {
        self.button_states.at(button).press_time > 0
    }

    /// Finds which buttons clients see as pressed.
    fn buttons_down(&self) -> (down: ButtonMap<bool>)
        ensures
            forall|button: Buttons| #[trigger] down.at(button) == self.is_down(button),
    {
        let down = find_pressed(&self.button_states);
        assert forall|button: Buttons| #[trigger] down.at(button) == self.is_down(button) by {
            lemma_pressed(self.button_states, button);
        }
        down
    }

    /// Finds what clients see of the device, given its microphone profile, the times and ratios that
    /// the device has, and what is kept beside.
    pub fn status<T: Copy>(
        &self,
        microphone: &MicProfileAdapter,
        lists: &MicLists<T>,
        kept: KeptStatus,
    ) -> (status: MixerStatus<T>)
        requires
            lists.cover(*microphone),
        ensures
            status.device_type == self.device_type,
            status.shutdown_commands == kept.shutdown_commands,
            status.profile_name == kept.profile_name,
            status.mic_profile_name == kept.mic_profile_name,
            status.levels.bleep == microphone.bleep,
            status.levels.deess == microphone.deess,
            status.mic_status == (MicSettings {
                mic_type: microphone.microphone(),
                mic_gains: microphone.gains,
                noise_gate: (NoiseGateStatus {
                    threshold: microphone.gate.threshold,
                    attack: lists.gate_times@[microphone.gate.attack as int],
                    release: lists.gate_times@[microphone.gate.release as int],
                    enabled: microphone.gate.enabled,
                    attenuation: microphone.gate.attenuation,
                }),
                equaliser: (EqualiserStatus {
                    gain: microphone.eq_gain,
                    frequency: microphone.eq_freq,
                }),
                equaliser_mini: (EqualiserMiniStatus {
                    gain: microphone.mini_gain,
                    frequency: microphone.mini_freq,
                }),
                compressor: (CompressorStatus {
                    threshold: microphone.compressor.threshold,
                    ratio: lists.ratios@[microphone.compressor.ratio as int],
                    attack: lists.attack_times@[microphone.compressor.attack as int],
                    release: lists.release_times@[microphone.compressor.release as int],
                    makeup_gain: microphone.compressor.makeup,
                }),
            }),
            forall|fader: FaderName| #[trigger]
                status.fader_status.at(fader) == self.fader_state(fader),
            status.cough_button == self.profile.cough,
            status.levels.submix_supported == self.supports_submixes(),
            status.levels.output_monitor == self.profile.monitor,
            status.levels.volumes == self.profile.volumes,
            status.levels.submix == (if self.supports_submixes() && self.profile.submix.enabled {
                Some(self.profile.submix)
            } else {
                None
            }),
            forall|input: InputDevice| #[trigger]
                status.router.at(input) == self.profile.router_row(input),
            status.animations_supported == self.supports_animations(),
            status.effects == (if self.device_type == DeviceType::Mini {
                None
            } else {
                Some(self.profile.effects)
            }),
            match status.sampler {
                None => self.device_type == DeviceType::Mini,
                Some(sampler) => {
                    &&& self.device_type != DeviceType::Mini
                    &&& sampler.settings == self.profile.sampler
                    &&& sampler.last_error == kept.last_sample_error
                    &&& sampler.record_buffer == kept.sampler_pre_buffer
                    &&& sampler.processing == (match self.sampler {
                        Some(handler) => if handler.calculating {
                            kept.progress
                        } else {
                            None
                        },
                        None => None,
                    })
                },
            },
            status.settings == (BehaviourStatus {
                display: (Display {
                    gate: display_mode(microphone.displays.gate_advanced),
                    compressor: display_mode(microphone.displays.comp_advanced),
                    equaliser: display_mode(microphone.displays.eq_advanced),
                    equaliser_fine: display_mode(microphone.displays.eq_fine_tune),
                }),
                mute_hold_duration: self.hold_time,
                vc_mute_also_mute_cm: self.vc_mute_also_mute_cm,
                enable_monitor_with_fx: self.monitor_with_fx,
                lock_faders: self.lock_faders,
            }),
            forall|button: Buttons| #[trigger]
                status.button_down.at(button) == self.is_down(button),
    {
        let is_mini = self.device_type == DeviceType::Mini;
        let submix_supported = self.device_supports_submixes();
        let submix = if submix_supported && self.profile.submix.enabled {
            Some(self.profile.submix)
        } else {
            None
        };
        let processing = match self.sampler {
            Some(handler) => {
                if handler.calculating {
                    kept.progress
                } else {
                    None
                }
            },
            None => None,
        };
        let effects = if is_mini {
            None
        } else {
            Some(self.profile.effects)
        };
        let sampler = if is_mini {
            None
        } else {
            Some(
                SamplerStatus {
                    settings: self.profile.sampler,
                    processing,
                    last_error: kept.last_sample_error,
                    record_buffer: kept.sampler_pre_buffer,
                },
            )
        };
        let fader_status = FaderMap {
            a: self.get_fader_state(FaderName::A),
            b: self.get_fader_state(FaderName::B),
            c: self.get_fader_state(FaderName::C),
            d: self.get_fader_state(FaderName::D),
        };
        let mic_status = MicSettings {
            mic_type: microphone.mic_type(),
            mic_gains: microphone.mic_gains(),
            noise_gate: microphone.noise_gate_ipc(lists),
            equaliser: microphone.equalizer_ipc(),
            equaliser_mini: microphone.equalizer_mini_ipc(),
            compressor: microphone.compressor_ipc(lists),
        };
        MixerStatus {
            device_type: self.device_type,
            shutdown_commands: kept.shutdown_commands,
            fader_status,
            cough_button: self.profile.get_cough_status(),
            levels: Levels {
                submix_supported,
                output_monitor: self.profile.monitor,
                volumes: self.profile.volumes,
                submix,
                bleep: microphone.bleep_level(),
                deess: microphone.get_deesser(),
            },
            router: self.profile.create_router(),
            mic_status,
            animations_supported: self.device_supports_animations(),
            effects,
            sampler,
            settings: BehaviourStatus {
                display: Display {
                    gate: microphone.get_gate_display_mode(),
                    compressor: microphone.get_compressor_display_mode(),
                    equaliser: microphone.get_eq_display_mode(),
                    equaliser_fine: microphone.get_eq_fine_display_mode(),
                },
                mute_hold_duration: self.hold_time,
                vc_mute_also_mute_cm: self.vc_mute_also_mute_cm,
                enable_monitor_with_fx: self.monitor_with_fx,
                lock_faders: self.lock_faders,
            },
            button_down: self.buttons_down(),
            profile_name: kept.profile_name,
            mic_profile_name: kept.mic_profile_name,
        }
    }
}

} // verus!
