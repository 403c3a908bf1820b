//! The microphone profile, the keys that its values are sent under, and the lights.

use goxlr_daemon::command::{DisplayMode, DisplayModeComponents, GoXLRCommand, SingleBits};
use goxlr_daemon::keys::{
    get_common_keys, get_full_keys, get_group_keys, EffectGroup, EffectKey, EqFrequencies,
    MicrophoneParamKey, MiniEqFrequencies,
};
use goxlr_daemon::lighting::{
    get_group_targets, get_lit_state, ButtonColourGroups, ButtonColourOffStyle,
    ButtonColourTargets, Colour, FaderDisplayStyle, Light, Lights,
};
use goxlr_daemon::mic_profile::{
    gate_attenuation_from_percent, Compressor, DisplayFlags, EqMap, MicGains, MicProfileAdapter,
    MiniEqMap, NoiseGate, StoreOutcome,
};
use goxlr_daemon::single::single_bits;
use goxlr_daemon::types::{ButtonStates, FaderName, MicrophoneType};

fn eq<T: Copy>(value: T) -> EqMap<T> {
    EqMap {
        hz_31: value,
        hz_63: value,
        hz_125: value,
        hz_250: value,
        hz_500: value,
        hz_1k: value,
        hz_2k: value,
        hz_4k: value,
        hz_8k: value,
        hz_16k: value,
    }
}

fn mini<T: Copy>(value: T) -> MiniEqMap<T> {
    MiniEqMap {
        hz_90: value,
        hz_250: value,
        hz_500: value,
        hz_1k: value,
        hz_3k: value,
        hz_8k: value,
    }
}

fn microphone() -> MicProfileAdapter {
    MicProfileAdapter {
        mic_type_id: 1,
        gains: MicGains { dynamic: 0x1234, condenser: 20, jack: 30 },
        gate: NoiseGate {
            threshold: -30,
            attack: 1,
            release: 19,
            enabled: true,
            attenuation: 100,
            mode: 2,
        },
        compressor: Compressor {
            threshold: 0,
            ratio: 9,
            attack: 1,
            release: 10,
            makeup: 0,
            select: 1,
        },
        eq_gain: eq(0),
        eq_freq: eq(SingleBits { bits: 31.5f32.to_bits() }),
        eq_freq_steps: eq(15),
        mini_gain: mini(3),
        mini_freq: mini(SingleBits { bits: 90f32.to_bits() }),
        bleep: -10,
        deess: 0,
        displays: DisplayFlags {
            gate_advanced: false,
            comp_advanced: false,
            eq_advanced: true,
            eq_fine_tune: false,
        },
    }
}

fn taken() -> StoreOutcome {
    StoreOutcome { set: Ok(()), gain: Ok(()), step: 0 }
}

#[test]
fn attenuation_is_that_of_single_precision() {
    let table: [i8; 26] = [
        -6, -7, -8, -9, -10, -11, -12, -13, -14, -15, -16, -17, -18, -19, -20, -21, -22, -23, -24,
        -25, -26, -27, -28, -30, -32, -61,
    ];
    for percent in 0..=255u8 {
        let expected = if percent > 99 {
            table[25]
        } else {
            table[(percent as f32 * 0.24) as usize]
        };
        assert_eq!(gate_attenuation_from_percent(percent), expected);
    }
    assert_eq!(gate_attenuation_from_percent(0), -6);
    assert_eq!(gate_attenuation_from_percent(50), -18);
    assert_eq!(gate_attenuation_from_percent(100), -61);
}

#[test]
fn whole_numbers_are_written_in_single_precision() {
    for value in -300..=300i32 {
        assert_eq!(single_bits(value), (value as f32).to_bits());
    }
    for value in -128..=127i32 {
        assert_eq!(single_bits(value * 65536), ((value * 65536) as f32).to_bits());
    }
    assert_eq!(single_bits(1), 0x3f80_0000);
    assert_eq!(single_bits(-2), 0xc000_0000);
}

#[test]
fn parameters_are_sent_low_byte_first() {
    let profile = microphone();
    assert_eq!(
        profile.get_param_value(MicrophoneParamKey::DynamicGain),
        [0, 0, 0x34, 0x12]
    );
    assert_eq!(
        profile.get_param_value(MicrophoneParamKey::GateThreshold),
        (-30f32).to_le_bytes()
    );
    assert_eq!(
        profile.get_param_value(MicrophoneParamKey::BleepLevel),
        (-10f32 * 65536.0).to_le_bytes()
    );
    assert_eq!(
        profile.get_param_value(MicrophoneParamKey::CompressorAttack),
        1f32.to_le_bytes()
    );
    assert_eq!(
        profile.get_param_value(MicrophoneParamKey::CompressorRatio),
        9f32.to_le_bytes()
    );
    assert_eq!(
        profile.get_param_value(MicrophoneParamKey::Equalizer90HzFrequency),
        90f32.to_le_bytes()
    );
    assert_eq!(profile.get_param_value(MicrophoneParamKey::MicType), [1, 0, 0, 0]);
}

#[test]
fn microphone_settings_are_kept() {
    let mut profile = microphone();
    assert_eq!(profile.mic_type(), MicrophoneType::Condenser);
    assert_eq!(profile.set_mic_type(MicrophoneType::Jack, Ok(())), Ok(()));
    assert_eq!(profile.mic_type(), MicrophoneType::Jack);
    assert_eq!(profile.set_mic_gain(MicrophoneType::Jack, 55, Ok(())), Ok(()));
    assert_eq!(profile.get_mic_gain(MicrophoneType::Jack), 55);
    assert_eq!(profile.get_mic_gain(MicrophoneType::Condenser), 20);
    assert_eq!(profile.get_eq_display_mode(), DisplayMode::Advanced);
    assert_eq!(
        profile.set_eq_gain(EqFrequencies::Equalizer1KHz, 4, Ok(())),
        Ok(EffectKey::Equalizer1KHzGain)
    );
    assert_eq!(profile.get_eq_gain(EqFrequencies::Equalizer1KHz), 4);
    assert_eq!(
        profile.set_mini_eq_gain(MiniEqFrequencies::Equalizer90Hz, -4, Ok(())),
        Ok(MicrophoneParamKey::Equalizer90HzGain)
    );
    assert_eq!(profile.get_mini_eq_gain(MiniEqFrequencies::Equalizer250Hz), 3);
}

#[test]
fn keys_are_sent_in_the_order_of_their_set() {
    assert_eq!(
        get_group_keys(EffectGroup::Pitch),
        vec![
            EffectKey::PitchAmount,
            EffectKey::PitchCharacter,
            EffectKey::PitchThreshold
        ]
    );
    assert_eq!(get_group_keys(EffectGroup::Reverb).len(), 12);
    assert_eq!(
        get_group_keys(EffectGroup::Gender),
        vec![EffectKey::GenderAmount]
    );
}

#[test]
fn keys_are_common_or_full() {
    let common = get_common_keys();
    let full = get_full_keys();
    for key in EffectKey::all() {
        assert_ne!(common.contains(&key), full.contains(&key));
    }
}

#[test]
fn lights_show_their_state() {
    assert_eq!(
        get_lit_state(true, true, ButtonColourOffStyle::Dimmed),
        ButtonStates::Flashing
    );
    assert_eq!(
        get_lit_state(true, false, ButtonColourOffStyle::Dimmed),
        ButtonStates::Colour1
    );
    assert_eq!(
        get_lit_state(false, false, ButtonColourOffStyle::DimmedColour2),
        ButtonStates::DimmedColour2
    );
    assert_eq!(
        get_group_targets(ButtonColourGroups::FaderMute),
        vec![
            ButtonColourTargets::Fader1Mute,
            ButtonColourTargets::Fader2Mute,
            ButtonColourTargets::Fader3Mute,
            ButtonColourTargets::Fader4Mute
        ]
    );
    assert_eq!(
        goxlr_daemon::lighting::profile_to_standard_fader_display(FaderDisplayStyle::GradientMeter),
        FaderDisplayStyle::Gradient
    );
}

#[test]
fn commands_are_stored_in_the_microphone_profile() {
    let mut profile = microphone();
    assert_eq!(profile.store(&GoXLRCommand::SetGateThreshold(-7), taken()), Ok(true));
    assert_eq!(profile.gate.threshold, -7);
    let command = GoXLRCommand::SetMicrophoneGain(MicrophoneType::Dynamic, 33);
    assert_eq!(profile.store(&command, taken()), Ok(true));
    assert_eq!(profile.mic_type(), MicrophoneType::Dynamic);
    assert_eq!(profile.gains, MicGains { dynamic: 33, condenser: 20, jack: 30 });
    let command = GoXLRCommand::SetElementDisplayMode(
        DisplayModeComponents::Equaliser,
        DisplayMode::Simple,
    );
    assert_eq!(profile.store(&command, taken()), Ok(true));
    assert!(!profile.displays.eq_advanced);
    let before = profile;
    assert_eq!(profile.store(&GoXLRCommand::SaveProfile, taken()), Ok(false));
    assert_eq!(profile, before);
}

#[test]
fn refused_values_are_not_stored() {
    let mut profile = microphone();
    let before = profile;
    let refused = || StoreOutcome { set: Err(String::from("too loud")), gain: Ok(()), step: 1 };
    for command in [
        GoXLRCommand::SetGateThreshold(90),
        GoXLRCommand::SetEqGain(EqFrequencies::Equalizer1KHz, 90),
        GoXLRCommand::SetMicrophoneGain(MicrophoneType::Jack, 90),
    ] {
        assert_eq!(profile.store(&command, refused()), Err(String::from("too loud")));
        assert_eq!(profile, before);
    }
    let command = GoXLRCommand::SetMicrophoneGain(MicrophoneType::Jack, 90);
    let outcome = StoreOutcome { set: Ok(()), gain: Err(String::from("no gain")), step: 0 };
    assert_eq!(profile.store(&command, outcome), Err(String::from("no gain")));
    assert_eq!(profile.mic_type(), MicrophoneType::Jack);
    assert_eq!(profile.gains, before.gains);
    assert_eq!(
        profile.set_bleep_level(-1, Err(String::from("no"))),
        Err(String::from("no"))
    );
    assert_eq!(profile.bleep_level(), before.bleep_level());
}

#[test]
fn only_the_gain_in_use_is_loaded() {
    let values = microphone().get_param_values();
    assert_eq!(values.len(), 24);
    assert!(values.iter().any(|(key, value)| {
        *key == MicrophoneParamKey::CondenserGain && *value == [0, 0, 20, 0]
    }));
    assert!(!values.iter().any(|(key, _)| {
        *key == MicrophoneParamKey::DynamicGain || *key == MicrophoneParamKey::JackGain
    }));
}

fn colour(value: u8) -> Colour {
    Colour { first: value, second: 0, third: 0, fourth: 0 }
}

fn lights() -> Lights {
    let light = Light {
        colour_one: colour(1),
        colour_two: colour(2),
        colour_three: colour(3),
        off_style: ButtonColourOffStyle::Dimmed,
        display: None,
    };
    Lights {
        fader1_mute: light,
        fader2_mute: light,
        fader3_mute: light,
        fader4_mute: light,
        bleep: light,
        microphone_mute: light,
        effect_select1: light,
        effect_select2: light,
        effect_select3: light,
        effect_select4: light,
        effect_select5: light,
        effect_select6: light,
        effect_fx: light,
        effect_megaphone: light,
        effect_robot: light,
        effect_hard_tune: light,
        sampler_select_a: light,
        sampler_select_b: light,
        sampler_select_c: light,
        sampler_top_left: light,
        sampler_top_right: light,
        sampler_bottom_left: light,
        sampler_bottom_right: light,
        sampler_clear: light,
        fade_meter1: light,
        fade_meter2: light,
        fade_meter3: light,
        fade_meter4: light,
        scribble1: light,
        scribble2: light,
        scribble3: light,
        scribble4: light,
        pitch_encoder: light,
        gender_encoder: light,
        reverb_encoder: light,
        echo_encoder: light,
        logo_x: light,
        global: light,
    }
}

#[test]
fn commands_are_stored_in_the_lights() {
    let mut changed = lights();
    let command = GoXLRCommand::SetButtonGroupColours(
        ButtonColourGroups::SampleBankSelector,
        String::from("AA0000"),
        None,
    );
    assert!(changed.store(&command, colour(9), colour(8)));
    assert_eq!(changed.sampler_select_b.colour_one, colour(9));
    assert_eq!(changed.sampler_select_b.colour_two, colour(2));
    assert_eq!(changed.sampler_top_left, lights().sampler_top_left);
    let command = GoXLRCommand::SetAllFaderDisplayStyle(FaderDisplayStyle::Meter);
    assert!(changed.store(&command, colour(0), colour(0)));
    assert!(changed.is_fader_meter(FaderName::C));
    assert!(!changed.is_fader_gradient(FaderName::C));
    assert_eq!(changed.scribble1, lights().scribble1);
    assert!(!changed.store(&GoXLRCommand::SaveProfile, colour(0), colour(0)));
    let before = changed;
    let command = GoXLRCommand::SetGlobalColour(String::from("AA0000"));
    assert!(!changed.store(&command, colour(9), colour(9)));
    assert_eq!(changed, before);
}
