//! The mixer logic on concrete devices.

use goxlr_daemon::command::{DisplayMode, GoXLRCommand, SingleBits};
use goxlr_daemon::device::commands::{get_load_end, CommandContext};
use goxlr_daemon::device::effects::SeenEncoders;
use goxlr_daemon::device::fader::is_near;
use goxlr_daemon::device::load::get_load_volume_order;
use goxlr_daemon::device::monitor::{monitor_inputs, FinishedGain};
use goxlr_daemon::device::sampler::recording_name;
use goxlr_daemon::device::speech::{announcement_text, get_amount_percent, signed_text};
use goxlr_daemon::device::state::{
    ButtonState, Device, DeviceError, Mixer, PauseUntil, SampleActivity, Sampler,
};
use goxlr_daemon::device::status::KeptStatus;
use goxlr_daemon::device::wire::apply_channel_routing;
use goxlr_daemon::keys::{EffectGroup, EffectKey, EqFrequencies};
use goxlr_daemon::lighting::ColourTargets;
use goxlr_daemon::mic_profile::{
    Compressor, DisplayFlags, EchoValues, EqMap, GenderValues, HardTuneValues, MegaphoneValues,
    MicGains, MicLists, MicProfileAdapter, MiniEqMap, NoiseGate, PitchValues, ReverbValues,
    RobotValues, StoreOutcome, VoiceValues,
};
use goxlr_daemon::plan::{
    Announcement, Change, HardTuneMark, MixerChange, MuteChange, Route, SamplerCall, Step, UsbCall,
};
use goxlr_daemon::profile::{
    Animation, CoughButton, Effects, MuteButton, PresetEffects, ProfileAdapter, SampleStack,
    SamplerSettings, SubMix, SubMixes,
};
use goxlr_daemon::types::{
    AnimationMode, BankMap, ButtonMap, Buttons, ChannelMap, ChannelName, ChannelState, DeviceType,
    EffectBankPresets, EncoderMap, EncoderName, FaderMap, FaderName, HardTuneSource, InputDevice,
    InputMap, Mix, MuteFunction, MuteState, OutputDevice, OutputMap, PresetMap, SampleBank,
    SampleButtons, SampleMap, SamplePlayOrder, SamplePlaybackMode, SubMixMap, WaterfallDirection,
};
use goxlr_daemon::version::VersionNumber;

fn profile() -> ProfileAdapter {
    ProfileAdapter {
        faders: FaderMap {
            a: ChannelName::Mic,
            b: ChannelName::Music,
            c: ChannelName::Chat,
            d: ChannelName::System,
        },
        mutes: FaderMap::fill(MuteButton {
            on: false,
            blink: false,
            function: MuteFunction::All,
            previous_volume: 0,
        }),
        cough: CoughButton {
            is_toggle: true,
            on: false,
            blink: false,
            function: MuteFunction::All,
        },
        mic_fader_id: 0,
        volumes: ChannelMap::fill(100),
        router: InputMap::fill(OutputMap::fill(0x2000)),
        monitor: OutputDevice::Headphones,
        submix: SubMixes {
            enabled: false,
            channels: SubMixMap::fill(SubMix { linked: false, volume: 50 }),
            outputs: OutputMap::fill(Mix::A),
        },
        swear_on: false,
        effects: Effects {
            selected: EffectBankPresets::Preset1,
            presets: PresetMap::fill(PresetEffects {
                megaphone: false,
                robot: false,
                hardtune: false,
                hardtune_source: Some(HardTuneSource::Music),
                pitch_narrow: false,
                encoders: EncoderMap::fill(0),
            }),
            preset_on: PresetMap {
                preset1: true,
                preset2: false,
                preset3: false,
                preset4: false,
                preset5: false,
                preset6: false,
            },
            megaphone_on: false,
            robot_on: false,
            hardtune_on: false,
            fx_on: false,
        },
        sampler: SamplerSettings {
            selected: SampleBank::A,
            bank_on: BankMap { a: true, b: false, c: false },
            on: SampleMap::fill(false),
            blink: SampleMap::fill(false),
            clear: false,
            stacks: BankMap::fill(SampleMap::fill(SampleStack {
                count: 0,
                mode: SamplePlaybackMode::PlayNext,
                order: SamplePlayOrder::Sequential,
            })),
        },
        animation: Animation {
            mode: AnimationMode::NoAnimation,
            mod1: 0,
            mod2: 0,
            waterfall: WaterfallDirection::Off,
        },
    }
}

fn mixer(device_type: DeviceType) -> Mixer {
    Mixer {
        device_type,
        firmware: VersionNumber(1, 4, Some(2), Some(107)),
        profile: profile(),
        sampler: Some(Sampler {
            activity: BankMap::fill(SampleMap::fill(SampleActivity::Idle)),
            calculating: false,
        }),
        last_buttons: ButtonMap::fill(false),
        button_states: ButtonMap::fill(ButtonState { press_time: 0, hold_handled: false }),
        fader_last_seen: FaderMap::fill(0),
        fader_pause_until: FaderMap::fill(PauseUntil { paused: false, until: 0 }),
        hold_time: 500,
        vc_mute_also_mute_cm: false,
        monitor_with_fx: false,
        lock_faders: false,
    }
}

fn full() -> Device {
    Device::new(mixer(DeviceType::Full))
}

fn context() -> CommandContext {
    CommandContext {
        profile_name: String::from("P"),
        mic_profile_name: String::from("M"),
        linked: 25,
        links: SubMixMap::fill(25),
        encoder: 12,
        sample_found: true,
    }
}

fn perform(device: &mut Device, command: GoXLRCommand) -> Result<(), DeviceError> {
    device.perform_command(command, &context())
}

#[test]
fn volume_is_kept_and_sent() {
    let mut device = full();
    perform(&mut device, GoXLRCommand::SetVolume(ChannelName::Game, 7)).unwrap();
    assert_eq!(*device.mixer().profile.volumes.get(ChannelName::Game), 7);
    assert_eq!(*device.mixer().profile.volumes.get(ChannelName::Chat), 100);
    assert!(device
        .plan()
        .iter()
        .any(|step| matches!(step, Step::Usb(UsbCall::SetVolume(ChannelName::Game, 7)))));
}

#[test]
fn linked_channel_follows() {
    let mut start = mixer(DeviceType::Full);
    start.profile.submix.enabled = true;
    start.profile.submix.channels.game.linked = true;
    let mut device = Device::new(start);
    perform(&mut device, GoXLRCommand::SetVolume(ChannelName::Game, 7)).unwrap();
    assert_eq!(device.mixer().profile.submix.channels.game.volume, 25);
    perform(&mut device, GoXLRCommand::SetVolume(ChannelName::Chat, 7)).unwrap();
    assert_eq!(device.mixer().profile.submix.channels.chat.volume, 50);
}

#[test]
fn mute_runs_the_fader_down_and_back() {
    let mut device = full();
    perform(
        &mut device,
        GoXLRCommand::SetFaderMuteState(FaderName::B, MuteState::MutedToAll),
    )
    .unwrap();
    let muted = *device.mixer();
    assert_eq!(*muted.profile.volumes.get(ChannelName::Music), 0);
    assert_eq!(muted.profile.mutes.b.previous_volume, 100);
    assert_eq!(muted.profile.get_ipc_mute_state(FaderName::B), MuteState::MutedToAll);
    assert!(device.plan().iter().any(|step| matches!(
        step,
        Step::Usb(UsbCall::SetChannelState(ChannelName::Music, ChannelState::Muted))
    )));
    perform(
        &mut device,
        GoXLRCommand::SetFaderMuteState(FaderName::B, MuteState::Unmuted),
    )
    .unwrap();
    assert_eq!(*device.mixer().profile.volumes.get(ChannelName::Music), 100);
    assert_eq!(
        device.mixer().profile.get_ipc_mute_state(FaderName::B),
        MuteState::Unmuted
    );
}

#[test]
fn smaller_device_keeps_its_volume() {
    let mut device = Device::new(mixer(DeviceType::Mini));
    perform(
        &mut device,
        GoXLRCommand::SetFaderMuteState(FaderName::B, MuteState::MutedToAll),
    )
    .unwrap();
    assert_eq!(*device.mixer().profile.volumes.get(ChannelName::Music), 100);
}

#[test]
fn partial_mute_leaves_the_volume() {
    let mut start = mixer(DeviceType::Full);
    start.profile.mutes.b.function = MuteFunction::ToStream;
    let mut device = Device::new(start);
    device.handle_fader_mute(FaderName::B, false).unwrap();
    let route = device.mixer().get_route(InputDevice::Music);
    assert!(!route.outputs.broadcast_mix);
    assert!(route.outputs.chat_mic);
    assert_eq!(*device.mixer().profile.volumes.get(ChannelName::Music), 100);
    device.handle_fader_mute(FaderName::B, false).unwrap();
    assert_eq!(*device.mixer(), start);
}

#[test]
fn muted_everywhere_cannot_be_muted_to_one_output() {
    let mut start = mixer(DeviceType::Full);
    start.profile.mutes.a.blink = true;
    let mut device = Device::new(start);
    assert_eq!(
        perform(
            &mut device,
            GoXLRCommand::SetFaderMuteState(FaderName::A, MuteState::MutedToX)
        ),
        Err(DeviceError::MutedToAll)
    );
}

#[test]
fn cough_button_silences_and_lets_through() {
    let mut device = full();
    let start = *device.mixer();
    device.handle_cough_mute(false, true, false, false);
    assert!(device.mixer().profile.cough.on);
    assert_eq!(
        device.mixer().get_route(InputDevice::Microphone).outputs,
        OutputMap::fill(false)
    );
    assert!(matches!(
        device.plan()[1],
        Step::Usb(UsbCall::SetChannelState(ChannelName::Mic, ChannelState::Muted))
    ));
    device.handle_cough_mute(false, true, false, false);
    assert_eq!(*device.mixer(), start);
}

#[test]
fn held_cough_button_has_no_lasting_state() {
    let mut start = mixer(DeviceType::Full);
    start.profile.cough.is_toggle = false;
    let mut device = Device::new(start);
    assert_eq!(
        perform(&mut device, GoXLRCommand::SetCoughMuteState(MuteState::MutedToAll)),
        Err(DeviceError::CoughInHoldMode)
    );
    device.handle_cough_mute(true, false, false, false);
    assert!(device.mixer().profile.cough.on);
    device.handle_cough_mute(false, true, false, false);
    assert!(!device.mixer().profile.cough.on);
}

#[test]
fn muted_chat_takes_the_microphone_with_it() {
    let mut start = mixer(DeviceType::Full);
    start.vc_mute_also_mute_cm = true;
    let mut device = Device::new(start);
    assert!(device.mixer().get_route(InputDevice::Microphone).outputs.chat_mic);
    device.handle_fader_mute(FaderName::C, false).unwrap();
    let route = device.mixer().get_route(InputDevice::Microphone);
    assert!(!route.outputs.chat_mic);
    assert!(route.outputs.broadcast_mix);
}

#[test]
fn routes_are_set_one_by_one() {
    let mut device = full();
    perform(
        &mut device,
        GoXLRCommand::SetRouter(InputDevice::Game, OutputDevice::LineOut, false),
    )
    .unwrap();
    let table = device.mixer().profile.create_router();
    assert!(!table.game.line_out);
    assert!(table.game.headphones);
    assert!(table.music.line_out);
}

#[test]
fn headphones_hear_the_monitored_output() {
    let mut start = mixer(DeviceType::Full);
    start.profile.monitor = OutputDevice::BroadcastMix;
    start.profile.router.game.broadcast_mix = 0;
    let device = Device::new(start);
    assert!(!device.mixer().get_route(InputDevice::Game).outputs.headphones);
    assert!(device.mixer().get_route(InputDevice::Music).outputs.headphones);
}

#[test]
fn channel_moves_between_faders() {
    let mut device = full();
    perform(&mut device, GoXLRCommand::SetFader(FaderName::A, ChannelName::Music)).unwrap();
    let faders = device.mixer().profile.faders;
    assert_eq!(faders.a, ChannelName::Music);
    assert_eq!(faders.b, ChannelName::Mic);
    assert_eq!(device.mixer().profile.get_mic_fader(), FaderName::B);
    perform(&mut device, GoXLRCommand::SetFader(FaderName::A, ChannelName::Mic)).unwrap();
    assert_eq!(*device.mixer(), mixer(DeviceType::Full));
    perform(&mut device, GoXLRCommand::SetFader(FaderName::C, ChannelName::Game)).unwrap();
    perform(&mut device, GoXLRCommand::SetFader(FaderName::D, ChannelName::Game)).unwrap();
    let faders = device.mixer().profile.faders;
    let carried = [faders.a, faders.b, faders.c, faders.d];
    assert_eq!(
        carried,
        [ChannelName::Mic, ChannelName::Music, ChannelName::System, ChannelName::Game]
    );
}

#[test]
fn paused_fader_waits_for_its_volume() {
    assert!(is_near(100, 105));
    assert!(!is_near(100, 106));
    assert!(is_near(2, 0));
    assert!(is_near(255, 250));
    let mut start = mixer(DeviceType::Full);
    start.fader_pause_until.a = PauseUntil { paused: true, until: 80 };
    let mut device = Device::new(start);
    let seen = FaderMap { a: 30, b: 100, c: 100, d: 100 };
    assert!(!device.update_volumes_to(seen, FaderMap::fill(0)));
    assert_eq!(*device.mixer().profile.volumes.get(ChannelName::Mic), 100);
    let seen = FaderMap { a: 78, b: 100, c: 100, d: 100 };
    assert!(device.update_volumes_to(seen, FaderMap::fill(0)));
    assert_eq!(*device.mixer().profile.volumes.get(ChannelName::Mic), 78);
    assert!(!device.mixer().fader_pause_until.a.paused);
}

#[test]
fn one_preset_is_lit() {
    let mut device = full();
    perform(
        &mut device,
        GoXLRCommand::SetActiveEffectPreset(EffectBankPresets::Preset4),
    )
    .unwrap();
    let lit = device.mixer().profile.effects.preset_on;
    assert!(lit.preset4);
    assert!(!lit.preset1);
}

#[test]
fn one_bank_is_lit() {
    let mut device = full();
    perform(&mut device, GoXLRCommand::SetActiveSamplerBank(SampleBank::C)).unwrap();
    assert_eq!(
        device.mixer().profile.sampler.bank_on,
        BankMap { a: false, b: false, c: true }
    );
}

#[test]
fn empty_sample_button_records() {
    let mut device = full();
    device.handle_sample_button_down(SampleButtons::TopLeft).unwrap();
    assert!(matches!(
        device.plan()[0],
        Step::Sampler(SamplerCall::Record { bank: SampleBank::A, button: SampleButtons::TopLeft })
    ));
    let mut mute = mixer(DeviceType::Full);
    mute.sampler = None;
    assert_eq!(
        Device::new(mute).handle_sample_button_down(SampleButtons::TopLeft),
        Err(DeviceError::NoAudioHandler)
    );
}

#[test]
fn cleared_button_loses_its_samples() {
    let mut start = mixer(DeviceType::Full);
    start.profile.sampler.clear = true;
    start.profile.sampler.stacks.a.top_left.count = 2;
    let mut device = Device::new(start);
    device.handle_sample_button_release(SampleButtons::TopLeft).unwrap();
    assert_eq!(device.mixer().profile.sampler.stacks.a.top_left.count, 0);
    assert!(!device.mixer().profile.sampler.clear);
}

#[test]
fn finished_gain_adds_a_sample() {
    let mut device = full();
    let gain = FinishedGain {
        bank: SampleBank::B,
        button: SampleButtons::TopRight,
        succeeded: true,
    };
    assert!(device.update_state(Some(gain), false, false));
    assert_eq!(device.mixer().profile.sampler.stacks.b.top_right.count, 1);
    assert!(!device.update_state(None, false, false));
    assert!(device.update_state(None, true, false));
    assert!(monitor_inputs(false, false, &vec![Buttons::Bleep], &vec![]));
    assert!(!monitor_inputs(false, false, &vec![], &vec![]));
}

#[test]
fn refused_commands_change_nothing() {
    let mut device = full();
    assert_eq!(
        perform(&mut device, GoXLRCommand::DeleteProfile(String::from("P"))),
        Err(DeviceError::ProfileInUse)
    );
    assert_eq!(
        perform(&mut device, GoXLRCommand::DeleteMicProfile(String::from("M"))),
        Err(DeviceError::ProfileInUse)
    );
    assert_eq!(
        perform(&mut device, GoXLRCommand::SetSamplerPreBufferDuration(30001)),
        Err(DeviceError::BufferTooLong)
    );
    assert!(device.plan().is_empty());
    assert_eq!(*device.mixer(), mixer(DeviceType::Full));
}

#[test]
fn old_firmware_has_no_animations() {
    let mut start = mixer(DeviceType::Full);
    start.firmware = VersionNumber(1, 3, Some(39), Some(0));
    let mut device = Device::new(start);
    assert_eq!(
        perform(&mut device, GoXLRCommand::SetAnimationMod1(1)),
        Err(DeviceError::AnimationsUnsupported)
    );
    let mut device = Device::new(mixer(DeviceType::Mini));
    assert_eq!(
        perform(&mut device, GoXLRCommand::SetAnimationMode(AnimationMode::Ripple)),
        Err(DeviceError::RippleUnsupported)
    );
}

#[test]
fn samples_are_added_one_at_a_time() {
    let add = || {
        GoXLRCommand::AddSample(SampleBank::A, SampleButtons::TopLeft, String::from("a.wav"))
    };
    let mut missing = context();
    missing.sample_found = false;
    assert_eq!(
        full().perform_command(add(), &missing),
        Err(DeviceError::SampleMissing)
    );
    let mut busy = mixer(DeviceType::Full);
    busy.sampler = Some(Sampler {
        activity: BankMap::fill(SampleMap::fill(SampleActivity::Idle)),
        calculating: true,
    });
    assert_eq!(
        Device::new(busy).perform_command(add(), &context()),
        Err(DeviceError::GainCalculationRunning)
    );
}

#[test]
fn plan_leads_from_its_start() {
    let mut device = full();
    let start = *device.start();
    device.handle_fader_mute(FaderName::A, false).unwrap();
    let reached = *device.mixer();
    let plan = device.take_plan();
    assert!(device.plan().is_empty());
    let mut replayed = start;
    replayed.replay(&plan, plan.len());
    assert_eq!(replayed, reached);
    device.rewind(start, &plan, 0);
    assert_eq!(*device.mixer(), start);
    assert!(plan.iter().any(|step| matches!(
        step,
        Step::Apply(Change::Mute(FaderName::A, MuteChange::On(true)))
    )));
}

#[test]
fn loud_outputs_are_turned_down_first() {
    let mut current = ChannelMap::fill(100);
    current.headphones = 200;
    let order = get_load_volume_order(&ChannelMap::fill(100), Some(current));
    assert_eq!(order[0], ChannelName::Headphones);
    assert_eq!(order[10], ChannelName::LineOut);
    assert_eq!(order.len(), 11);
    let order = get_load_volume_order(&ChannelMap::fill(100), None);
    assert_eq!(order[0], ChannelName::Mic);
}

#[test]
fn loading_a_profile_sends_its_volumes() {
    let mut device = full();
    device.apply_profile(None, &SubMixMap::fill(0));
    let sent: std::collections::HashSet<ChannelName> = device
        .plan()
        .iter()
        .filter_map(|step| match step {
            Step::Usb(UsbCall::SetVolume(channel, 100)) => Some(*channel),
            _ => None,
        })
        .collect();
    assert_eq!(sent.len(), 11);
    for fader in [FaderName::A, FaderName::B, FaderName::C, FaderName::D] {
        let channel = *device.mixer().profile.faders.get(fader);
        assert!(device.plan().iter().any(
            |step| matches!(step, Step::Usb(UsbCall::SetFader(f, c)) if *f == fader && *c == channel)
        ));
    }
}

#[test]
fn buttons_are_seen_pressed_held_and_released() {
    let mut device = full();
    let mut down = ButtonMap::fill(false);
    down.bleep = true;
    assert_eq!(device.mixer().newly_pressed(&down), vec![Buttons::Bleep]);
    device.button_pressed(Buttons::Bleep, 1000).unwrap();
    device.buttons_seen(down);
    assert!(device.mixer().profile.swear_on);
    assert!(device.mixer().newly_pressed(&down).is_empty());
    assert!(device.mixer().newly_held(1499).is_empty());
    assert_eq!(device.mixer().newly_held(1501), vec![Buttons::Bleep]);
    let up = ButtonMap::fill(false);
    assert_eq!(device.mixer().newly_released(&up), vec![Buttons::Bleep]);
    device.button_lifted(Buttons::Bleep).unwrap();
    device.button_released(Buttons::Bleep);
    assert!(!device.mixer().profile.swear_on);
}

fn microphone() -> MicProfileAdapter {
    let band = SingleBits { bits: 0 };
    MicProfileAdapter {
        mic_type_id: 1,
        gains: MicGains { dynamic: 10, condenser: 20, jack: 30 },
        gate: NoiseGate {
            threshold: -30,
            attack: 1,
            release: 2,
            enabled: true,
            attenuation: 100,
            mode: 2,
        },
        compressor: Compressor {
            threshold: 0,
            ratio: 1,
            attack: 1,
            release: 2,
            makeup: 0,
            select: 1,
        },
        eq_gain: bands(1),
        eq_freq: bands(band),
        eq_freq_steps: bands(15),
        mini_gain: mini_bands(3),
        mini_freq: mini_bands(band),
        bleep: -10,
        deess: 4,
        displays: DisplayFlags {
            gate_advanced: false,
            comp_advanced: false,
            eq_advanced: true,
            eq_fine_tune: false,
        },
    }
}

fn bands<T: Copy>(value: T) -> EqMap<T> {
    EqMap {
        hz_31: value,
        hz_63: value,
        hz_125: value,
        hz_250: value,
        hz_500: value,
        hz_1k: value,
        hz_2k: value,
        hz_4k: value,
        hz_8k: value,
        hz_16k: value,
    }
}

fn mini_bands<T: Copy>(value: T) -> MiniEqMap<T> {
    MiniEqMap {
        hz_90: value,
        hz_250: value,
        hz_500: value,
        hz_1k: value,
        hz_3k: value,
        hz_8k: value,
    }
}

fn voice() -> VoiceValues {
    VoiceValues {
        reverb: ReverbValues {
            amount: 0,
            decay: 0,
            early_level: 0,
            predelay: 0,
            low_color: 0,
            high_color: 0,
            high_factor: 0,
            diffuse: 0,
            mod_speed: 0,
            mod_depth: 0,
            reverb_type: 0,
        },
        echo: EchoValues {
            amount: 0,
            feedback: 0,
            tempo: 0,
            delay_l: 0,
            delay_r: 0,
            feedback_l: 0,
            xfb_l_to_r: 0,
            feedback_r: 0,
            xfb_r_to_l: 0,
            source: 0,
            div_l: 0,
            div_r: 0,
            filter_style: 0,
        },
        pitch: PitchValues {
            amount: 0,
            threshold: 0,
            character: 0,
        },
        gender: GenderValues {
            amount: 0,
        },
        megaphone: MegaphoneValues {
            amount: 0,
            post_gain: 0,
            style: 0,
            hp: 0,
            lp: 0,
            pre_gain: 0,
            dist_type: 0,
            presence_gain: 0,
            presence_fc: 0,
            presence_bw: 0,
            beatbox_enable: 0,
            filter_control: 0,
            filter: 0,
            drive_pot_gain_comp_mid: 0,
            drive_pot_gain_comp_max: 0,
        },
        hard_tune: HardTuneValues {
            amount: 0,
            scale: 0,
            pitch_amount: 0,
            rate: 0,
            window: 0,
        },
        robot: RobotValues {
            low_gain: 0,
            low_freq: 0,
            low_width: 0,
            mid_gain: 0,
            mid_freq: 0,
            mid_width: 0,
            hi_gain: 0,
            hi_freq: 0,
            hi_width: 0,
            waveform: 0,
            pulse_width: 0,
            threshold: 0,
            dry_mix: 0,
            style: 0,
        },
    }
}

#[test]
fn set_frequencies_are_sent() {
    let band = EqFrequencies::Equalizer2KHz;
    let value = SingleBits { bits: 2000f32.to_bits() };
    let mut microphone = microphone();
    let mut stored = microphone;
    let key = microphone.set_eq_freq(band, value, 171, Ok(())).unwrap();
    assert_eq!(key, EffectKey::Equalizer2KHzFrequency);
    assert_eq!(microphone.get_eq_freq(band), value);
    assert_eq!(microphone.get_effect_value(key, &profile(), &voice()), 171);
    let outcome = StoreOutcome { set: Ok(()), gain: Ok(()), step: 171 };
    assert_eq!(stored.store(&GoXLRCommand::SetEqFreq(band, value), outcome), Ok(true));
    assert_eq!(stored, microphone);
}

#[test]
fn lights_are_taken_before_new_colours_are_sent() {
    let colour = || String::from("AA0000");
    for command in [
        GoXLRCommand::SetGlobalColour(colour()),
        GoXLRCommand::SetSimpleColour(ColourTargets::LogoX, colour()),
        GoXLRCommand::SetEncoderColour(EncoderName::Echo, colour(), colour(), colour()),
    ] {
        let mut device = full();
        perform(&mut device, command).unwrap();
        let plan = device.plan();
        assert!(matches!(plan[0], Step::Store(_)));
        assert!(matches!(plan[1], Step::TakeLights));
        assert!(matches!(plan[2], Step::Usb(UsbCall::SendColourMap)));
    }
    let mut device = full();
    perform(&mut device, GoXLRCommand::SetAllFaderColours(colour(), colour())).unwrap();
    assert!(!device.plan().iter().any(|step| matches!(step, Step::TakeLights)));
}

#[test]
fn pitch_moves_where_its_calculated_position_does() {
    let mut device = full();
    let kept = device.mixer().profile.get_encoder_value(EncoderName::Pitch);
    let gender = device.mixer().profile.get_encoder_value(EncoderName::Gender);
    let seen = SeenEncoders {
        pitch_position: kept,
        gender,
        gender_changes: false,
        reverb: device.mixer().profile.get_encoder_value(EncoderName::Reverb),
        echo: device.mixer().profile.get_encoder_value(EncoderName::Echo),
    };
    assert!(!device.update_encoders_to(seen));
    assert!(device.plan().is_empty());
    assert!(device.update_encoders_to(SeenEncoders { gender: gender + 1, ..seen }));
    assert_eq!(device.plan().len(), 1);
    let moved = SeenEncoders { gender: gender + 1, pitch_position: kept + 12, ..seen };
    assert!(device.update_encoders_to(moved));
    assert_eq!(device.mixer().profile.get_encoder_value(EncoderName::Pitch), kept + 12);
    assert!(matches!(
        device.plan()[2],
        Step::Usb(UsbCall::SendEffects(EffectGroup::Key(EffectKey::PitchAmount)))
    ));
    assert!(matches!(
        device.plan()[3],
        Step::Say(Announcement::Encoder(EncoderName::Pitch))
    ));
}

#[test]
fn samples_are_looked_for_without_a_handler_too() {
    let mut device = full();
    perform(
        &mut device,
        GoXLRCommand::PlaySampleByIndex(SampleBank::B, SampleButtons::TopLeft, 3),
    )
    .unwrap();
    let plan = device.take_plan();
    assert!(matches!(
        plan[0],
        Step::Sampler(SamplerCall::FindIndex {
            bank: SampleBank::B,
            button: SampleButtons::TopLeft,
            index: 3
        })
    ));
    assert!(matches!(plan[1], Step::Sampler(SamplerCall::PlayFound { .. })));
    let mut silent = mixer(DeviceType::Full);
    silent.sampler = None;
    let mut device = Device::new(silent);
    perform(&mut device, GoXLRCommand::PlayNextSample(SampleBank::A, SampleButtons::TopLeft))
        .unwrap();
    let plan = device.take_plan();
    assert!(matches!(plan[0], Step::Sampler(SamplerCall::FindNext { .. })));
    assert!(matches!(plan[1], Step::Usb(UsbCall::SendButtonStates)));
    assert_eq!(plan.len(), 2);
}

#[test]
fn refusals_are_put_into_words() {
    assert_eq!(DeviceError::ProfileInUse.message(), "Unable to Remove Active Profile!");
    assert_eq!(DeviceError::SampleMissing.message(), "Sample Not Found");
}

#[test]
fn status_shows_the_device() {
    let device = full();
    let microphone = microphone();
    let lists = MicLists {
        gate_times: vec![10u16, 20, 30],
        ratios: vec![1, 2],
        attack_times: vec![0, 2],
        release_times: vec![0, 15, 25],
    };
    assert!(lists.covers(&microphone));
    let kept = || KeptStatus {
        shutdown_commands: vec![GoXLRCommand::SetMonitorWithFx(true)],
        progress: Some(30),
        last_sample_error: Some(String::from("bad")),
        sampler_pre_buffer: 7,
        profile_name: String::from("P"),
        mic_profile_name: String::from("M"),
    };
    let status = device.mixer().status(&microphone, &lists, kept());
    assert_eq!(status.mic_status.noise_gate.attack, 20);
    assert_eq!(status.mic_status.noise_gate.release, 30);
    assert_eq!(status.mic_status.compressor.ratio, 2);
    assert_eq!(status.mic_status.compressor.attack, 2);
    assert_eq!(status.mic_status.compressor.release, 25);
    assert_eq!(status.mic_status.equaliser.gain.hz_31, 1);
    assert_eq!(status.levels.bleep, -10);
    assert_eq!(status.levels.deess, 4);
    assert_eq!(status.settings.display.gate, DisplayMode::Simple);
    assert_eq!(status.settings.display.equaliser, DisplayMode::Advanced);
    assert_eq!(status.shutdown_commands, kept().shutdown_commands);
    assert_eq!(status.profile_name, "P");
    assert_eq!(status.mic_profile_name, "M");
    let sampler = status.sampler.unwrap();
    assert_eq!(sampler.last_error, Some(String::from("bad")));
    assert_eq!(sampler.record_buffer, 7);
    assert_eq!(sampler.processing, None);
    assert_eq!(status.fader_status.c.channel, ChannelName::Chat);
    assert_eq!(status.fader_status.c.mute_state, MuteState::Unmuted);
    assert!(status.levels.submix_supported);
    assert!(status.levels.submix.is_none());
    assert!(status.effects.is_some());
    let small = Device::new(mixer(DeviceType::Mini)).mixer().status(
        &microphone,
        &lists,
        kept(),
    );
    assert!(small.effects.is_none());
    assert!(small.sampler.is_none());
}

#[test]
fn routes_are_written_to_the_wire() {
    let route = Route {
        outputs: OutputMap {
            headphones: true,
            broadcast_mix: false,
            line_out: true,
            chat_mic: false,
            sampler: false,
        },
        hardtune: HardTuneMark::Hard,
    };
    let positions = OutputMap {
        headphones: 1,
        broadcast_mix: 5,
        line_out: 7,
        chat_mic: 3,
        sampler: 9,
    };
    let bytes = apply_channel_routing(&route, &positions, 15);
    let mut expected = [0u8; 22];
    expected[1] = 0x20;
    expected[7] = 0x20;
    expected[15] = 0x10;
    assert_eq!(bytes, expected);
}

#[test]
fn percentages_are_those_of_division_in_single_precision() {
    for amount in i16::MIN..=i16::MAX {
        let expected = 100 - ((amount as f32 / -36.) * 100.) as i32;
        assert_eq!(get_amount_percent(amount), expected);
    }
}

#[test]
fn announcements_are_worded() {
    assert_eq!(signed_text(-12), "-12");
    assert_eq!(signed_text(i32::MIN), "-2147483648");
    assert_eq!(
        announcement_text(Announcement::EffectBank(EffectBankPresets::Preset3), "Robot", 0),
        "Effects 3, Robot"
    );
    assert_eq!(
        announcement_text(
            Announcement::ChannelMuted(ChannelName::Chat, MuteFunction::ToPhones),
            "Chat",
            0
        ),
        "Chat Muted to Headphones"
    );
    assert_eq!(
        announcement_text(Announcement::Encoder(EncoderName::Echo), "", -18),
        "Echo 50 percent"
    );
    assert_eq!(
        announcement_text(Announcement::Encoder(EncoderName::Reverb), "", 9),
        "Reverb 125 percent"
    );
    assert_eq!(
        announcement_text(Announcement::Encoder(EncoderName::Pitch), "", -3),
        "Pitch -3"
    );
    assert_eq!(recording_name("2023-01-02T030405"), "Recording_2023-01-02T030405.wav");
}

#[test]
fn changes_apply_to_the_state() {
    let mut state = mixer(DeviceType::Full);
    state.apply(Change::Mixer(MixerChange::NoMicFader));
    assert!(!state.profile.is_mic_on_fader());
    state.apply(Change::Mixer(MixerChange::MicFader(FaderName::D)));
    assert_eq!(state.profile.get_mic_fader(), FaderName::D);
}

#[test]
fn gain_of_a_new_sample_is_asked_for() {
    let mut device = full();
    let command =
        GoXLRCommand::AddSample(SampleBank::B, SampleButtons::TopLeft, String::from("a.wav"));
    perform(&mut device, command).unwrap();
    match &device.plan()[0] {
        Step::CalculateGain(SampleBank::B, SampleButtons::TopLeft, file) => {
            assert_eq!(file, "a.wav")
        }
        other => panic!("{:?}", other),
    }
}

#[test]
fn new_profile_is_written_once_it_is_in_use() {
    let mut device = full();
    let command = GoXLRCommand::NewProfile(String::from("Stream"));
    let end = get_load_end(&command);
    perform(&mut device, command).unwrap();
    assert!(matches!(
        device.take_plan().last(),
        Some(Step::File(GoXLRCommand::NewProfile(_)))
    ));
    let mut quieter = profile();
    quieter.volumes.music = 10;
    device.profile_loaded(quieter, &SubMixMap::fill(0), end);
    assert_eq!(device.mixer().profile, quieter);
    let plan = device.plan();
    match &plan[plan.len() - 3] {
        Step::WriteProfile(name) => assert_eq!(name, "Stream"),
        other => panic!("{:?}", other),
    }
    assert!(matches!(plan[plan.len() - 2], Step::RememberProfile));
    assert!(matches!(plan[plan.len() - 1], Step::SaveSettings));
}

#[test]
fn loaded_profile_is_remembered_if_asked() {
    for (save, last) in [(true, true), (false, false)] {
        let command = GoXLRCommand::LoadProfile(String::from("P"), save);
        let mut device = full();
        device.profile_loaded(profile(), &SubMixMap::fill(0), get_load_end(&command));
        assert_eq!(matches!(device.plan().last(), Some(Step::SaveSettings)), last);
    }
}
