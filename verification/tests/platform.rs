//! What differs from one system to another, the tray, and the programs beside the daemon.

use goxlr_daemon::cli::LevelFilter;
use goxlr_daemon::events::EventTriggers;
use goxlr_daemon::files::BinaryPlace;
use goxlr_daemon::packet::PathTypes;
use goxlr_daemon::platform::headphone_eq::{
    apply_headphone_eq, candidate_preset_dirs, is_display_error, preset_name_for_serial,
    resolve_preset_path, LoadStep,
};
use goxlr_daemon::platform::linux::{
    check_alsa_split_conf, check_udev_rule, create_startup_link, get_startup_dir,
    has_split_conf_compat_markers, is_goxlr_usb_device, may_suspend, patch_split_conf_contents,
    set_startup_link, Findings, LinkAction, Warning,
};
use goxlr_daemon::platform::macos::{
    create_aggregate_device, find_all_existing_aggregates, get_goxlr_devices, is_own_aggregate,
    is_physical_goxlr_usb, set_autostart, startup_file, AutostartAction, AutostartError,
    CoreAudioDevice, Inputs, ListedDevice, ListedUid, ListingError, Outputs,
};
use goxlr_daemon::platform::windows::{PreflightError, RuntimeAction, RuntimeEvent};
use goxlr_daemon::platform::{
    bind_address, get_ui_app_path, get_ui_binary_name, linux, log_level, may_start, windows,
};
use goxlr_daemon::tools::{
    check_state, check_trial, count_validated, extract_file, initialize_device, on_slider_moved,
    on_spin_change, FileAction, FoundAction, TrialError, WakeStep,
};
use goxlr_daemon::tray::{
    alpha_mask, rgba_to_argb, tooltip, window_proc, TrayOption, WindowAction, WindowMessage,
};
use goxlr_daemon::tts::{check_active, speak_tts, SpeakAction, Tts};
use goxlr_daemon::types::DeviceType;

fn text(value: &str) -> String {
    String::from(value)
}

#[test]
fn rules_are_found_by_name_or_contents() {
    assert!(check_udev_rule("50-goxlr.rules", None));
    assert!(check_udev_rule("x.rules", Some("ATTRS{idVendor}==\"1220\"")));
    assert!(check_udev_rule("x.rules", Some("# for the GoXLR")));
    assert!(!check_udev_rule("x.rules", Some("ATTRS{idVendor}==\"0001\"")));
    assert!(!check_udev_rule("x.rules", None));
}

#[test]
fn usb_devices_are_known_by_their_numbers() {
    assert!(is_goxlr_usb_device(Some("1220\n"), Some(" 8fe0\n")));
    assert!(!is_goxlr_usb_device(Some("1220\n"), Some("8fd0")));
    assert!(!is_goxlr_usb_device(None, Some("8fe0")));
    assert!(!may_suspend(Some("on\n")));
    assert!(may_suspend(Some("auto")));
    assert!(!may_suspend(None));
}

#[test]
fn split_conf_is_patched() {
    let old = "a ${var:__dev} b ${var:__Device}";
    let new = "a ${var:-__dev} b ${var:-__Device}";
    assert_eq!(patch_split_conf_contents(old), new);
    assert!(has_split_conf_compat_markers(new));
    assert!(!has_split_conf_compat_markers(old));
    assert!(check_alsa_split_conf(Some(old)));
    assert!(!check_alsa_split_conf(Some(new)));
    assert!(!check_alsa_split_conf(Some("nothing")));
    assert_eq!(patch_split_conf_contents(new), new);
    let mixed = "${var:-__dev}${var:__dev}$${var:__Device}";
    let mended = patch_split_conf_contents(mixed);
    assert_eq!(mended, "${var:-__dev}${var:-__dev}$${var:-__Device}");
    assert_eq!(mended.len(), mixed.len() + 2);
    assert!(has_split_conf_compat_markers(&mended));
    assert!(!has_split_conf_compat_markers(&patch_split_conf_contents("${var:__dev}")));
}

#[test]
fn linux_only_warns() {
    let quiet = Findings {
        has_udev_rule: true,
        suspends: false,
        pipewire: true,
        wireplumber: true,
        audio_server: None,
        split_conf: false,
    };
    assert!(linux::perform_platform_preflight(quiet).is_empty());
    let noisy = Findings {
        has_udev_rule: false,
        suspends: true,
        pipewire: false,
        wireplumber: true,
        audio_server: Some(false),
        split_conf: true,
    };
    assert_eq!(
        linux::perform_platform_preflight(noisy),
        vec![
            Warning::NoUdevRule,
            Warning::PowerPolicy,
            Warning::AudioSession,
            Warning::AudioServer,
            Warning::SplitConf,
        ]
    );
}

#[test]
fn linux_starts_with_the_session() {
    assert_eq!(get_startup_dir(Some("/c"), Some("/h")), Some(text("/c/autostart")));
    assert_eq!(get_startup_dir(None, Some("/h")), Some(text("/h/.config/autostart")));
    assert_eq!(get_startup_dir(None, None), None);
    assert_eq!(get_startup_dir(Some(""), Some("/h")), Some(text("autostart")));
    assert_eq!(get_startup_dir(Some("/c/"), None), Some(text("/c/autostart")));
    assert_eq!(set_startup_link(Some(false), true, true), Some(LinkAction::Write));
    assert_eq!(set_startup_link(None, true, true), None);
    assert_eq!(set_startup_link(Some(true), false, true), None);
    assert_eq!(set_startup_link(Some(true), true, false), Some(LinkAction::Remove));
    assert_eq!(set_startup_link(Some(false), true, false), Some(LinkAction::Nothing));
    assert_eq!(set_startup_link(None, true, false), Some(LinkAction::Nothing));
    assert!(linux::has_autostart(Some(true)));
    assert!(!linux::has_autostart(None));
    let lines = create_startup_link("/d", "/d/x");
    assert_eq!(lines[3].value, "/d");
    assert_eq!(lines[4].key, "Exec");
    assert_eq!(lines[4].value, "/d/x");
}

#[test]
fn windows_refuses_to_start_twice() {
    assert_eq!(windows::perform_platform_preflight(true, 0, 1), Ok(()));
    assert_eq!(
        windows::perform_platform_preflight(false, 0, 1),
        Err(PreflightError::DriverMissing)
    );
    assert_eq!(
        windows::perform_platform_preflight(true, 1, 1),
        Err(PreflightError::OfficialAppRunning)
    );
    assert_eq!(
        windows::perform_platform_preflight(true, 0, 2),
        Err(PreflightError::AlreadyRunning)
    );
    assert_eq!(
        windows::get_startup_dir("%USERPROFILE%\\Start", "C:\\me"),
        "C:\\me\\Start"
    );
    assert!(matches!(
        windows::spawn_platform_runtime(RuntimeEvent::Tick(1)),
        RuntimeAction::NotifyAndEnd(EventTriggers::DevicesStopped)
    ));
}

#[test]
fn macos_devices_are_named() {
    let device = CoreAudioDevice {
        display_name: text("GoXLR"),
        uid: text("AppleUSBAudioEngine:TC-Helicon:GoXLR:1"),
    };
    let aggregate = create_aggregate_device("Stream Mix", &device);
    assert_eq!(aggregate.display_name, "Stream Mix (GoXLR)");
    assert_eq!(
        aggregate.uid,
        "GoXLR-Utility::Aggregate::AppleUSBAudioEngine:TC-Helicon:GoXLR:1::StreamMix"
    );
    assert!(is_own_aggregate(&aggregate.uid));
    assert!(!is_physical_goxlr_usb(true, &aggregate.uid));
    assert!(is_physical_goxlr_usb(true, &device.uid));
    assert!(!is_physical_goxlr_usb(false, &device.uid));
    assert!(!is_physical_goxlr_usb(true, "AppleUSBAudioEngine:TC-Helicon:GoXLR"));
    let own = find_all_existing_aggregates(Ok(vec![
        ListedUid { id: 7, uid: Some(aggregate.uid.clone()) },
        ListedUid { id: 8, uid: None },
        ListedUid { id: 9, uid: Some(device.uid.clone()) },
        ListedUid { id: 10, uid: Some(text("com.adecorp.goxlr.1")) },
    ]));
    assert_eq!(own, Ok(vec![7, 10]));
    assert_eq!(find_all_existing_aggregates(Err(ListingError::Size(1))), Err(ListingError::Size(1)));
    let listed = |id: u32, name: Option<String>, uid: Option<String>| ListedDevice {
        id,
        name,
        uid,
        usb: true,
    };
    let found = get_goxlr_devices(Ok(vec![
        listed(1, Some(aggregate.display_name), Some(aggregate.uid)),
        listed(2, None, Some(device.uid.clone())),
        listed(3, Some(text("GoXLR")), None),
        listed(0, Some(text("GoXLR")), Some(device.uid.clone())),
        listed(4, Some(device.display_name), Some(device.uid)),
    ]))
    .unwrap();
    assert_eq!(found.len(), 1);
    assert_eq!(found[0].display_name, "GoXLR");
    assert!(get_goxlr_devices(Ok(vec![])).unwrap().is_empty());
    assert!(matches!(get_goxlr_devices(Err(ListingError::Data(5))), Err(ListingError::Data(5))));
}

#[test]
fn macos_channels_lie_one_behind_the_other() {
    assert_eq!(Outputs::Chat.get_name(), "Chat");
    assert_eq!(Outputs::Sample.get_channels().right, 10);
    assert_eq!(Inputs::ChatMic.get_name(), "Chat Mic");
    assert_eq!(Inputs::Sampler.get_channels().left, 5);
}

#[test]
fn macos_autostart_is_set() {
    assert_eq!(set_autostart(None, true), Err(AutostartError::NoHome));
    assert_eq!(set_autostart(Some(true), true), Err(AutostartError::AlreadyPresent));
    assert_eq!(set_autostart(Some(true), false), Ok(AutostartAction::Remove));
    assert_eq!(set_autostart(Some(false), true), Ok(AutostartAction::Create));
    assert_eq!(startup_file("<a>{{BINARY_PATH}}</a>", "/x"), "<a>/x</a>");
}

#[test]
fn preset_names_are_safe() {
    assert_eq!(preset_name_for_serial("S/1 \u{e4}-_"), "GoXLR-HeadphoneEQ-S_1__-_");
}

#[test]
fn presets_go_where_there_is_a_directory() {
    assert_eq!(candidate_preset_dirs(Some("/h"))[1], "/h/.config/easyeffects/output");
    assert!(candidate_preset_dirs(None).is_empty());
    assert_eq!(candidate_preset_dirs(Some(""))[1], ".config/easyeffects/output");
    assert_eq!(candidate_preset_dirs(Some("/h/"))[0], "/h/.local/share/easyeffects/output");
    assert!(is_display_error("Cannot Open DISPLAY"));
    assert!(!is_display_error("no such file"));
    assert_eq!(
        resolve_preset_path("n", Some("/h"), &vec![false, true, true, false]),
        Some(text("/h/.config/easyeffects/output/n.json"))
    );
    assert_eq!(
        resolve_preset_path("n", Some("/h"), &vec![false; 4]),
        Some(text("/h/.local/share/easyeffects/output/n.json"))
    );
    assert_eq!(resolve_preset_path("n", None, &vec![]), None);
}

#[test]
fn loading_a_preset_is_given_up() {
    assert!(is_display_error("Cannot Open DISPLAY"));
    assert!(!is_display_error("other"));
    assert_eq!(apply_headphone_eq(0, None), LoadStep::Done);
    assert_eq!(apply_headphone_eq(0, Some("x")), LoadStep::StartAndRetry);
    assert_eq!(apply_headphone_eq(9, Some("x")), LoadStep::Retry);
    assert_eq!(apply_headphone_eq(10, Some("no Wayland")), LoadStep::LeaveUnloaded);
    assert_eq!(apply_headphone_eq(10, Some("x")), LoadStep::Fail);
}

#[test]
fn start_options_come_first() {
    assert_eq!(log_level(Some(LevelFilter::Off), LevelFilter::Info), LevelFilter::Off);
    assert_eq!(log_level(None, LevelFilter::Info), LevelFilter::Info);
    assert_eq!(bind_address(Some("::1"), true), "::1");
    assert_eq!(bind_address(None, true), "0.0.0.0");
    assert_eq!(bind_address(None, false), "localhost");
    assert!(!may_start(true, false));
    assert!(may_start(true, true));
    assert_eq!(get_ui_binary_name(true), "goxlr-utility-ui.exe");
    assert_eq!(get_ui_app_path(false, true, true), Some(BinaryPlace::OwnDirectory));
    assert_eq!(get_ui_app_path(false, false, false), None);
}

#[test]
fn menu_leads_to_events() {
    for tag in 0..8 {
        assert!(TrayOption::menu_item(tag).is_some());
    }
    assert!(TrayOption::menu_item(8).is_none());
    assert!(matches!(
        TrayOption::OpenPathLogs.run_tray(),
        EventTriggers::Open(PathTypes::Logs)
    ));
    assert_eq!(TrayOption::Configure.get_label(), "Configure GoXLR");
    assert!(matches!(
        window_proc(WindowMessage::MenuCommand(4), true),
        WindowAction::Send(EventTriggers::Stop(false))
    ));
    assert!(matches!(
        window_proc(WindowMessage::MenuCommand(12), true),
        WindowAction::Nothing
    ));
    assert!(matches!(
        window_proc(WindowMessage::Created, true),
        WindowAction::CreateIconAndMenu
    ));
    assert!(matches!(window_proc(WindowMessage::Created, false), WindowAction::CreateMenu));
    assert!(matches!(
        window_proc(WindowMessage::BarCreated, false),
        WindowAction::Nothing
    ));
}

#[test]
fn icons_are_converted() {
    assert_eq!(rgba_to_argb(&vec![1, 2, 3, 4, 5, 6, 7, 8]), vec![4, 1, 2, 3, 8, 5, 6, 7]);
    assert_eq!(alpha_mask(&vec![0, 0, 0, 255, 0, 0, 0, 0]), vec![0, 1]);
    let field = tooltip("GoXLR");
    assert_eq!(field[0], 'G' as u16);
    assert_eq!(field[4], 'R' as u16);
    assert_eq!(field[5], 0);
}

#[test]
fn speech_follows_the_settings() {
    assert_eq!(speak_tts(None, true), SpeakAction::Nothing);
    assert_eq!(speak_tts(Some(false), true), SpeakAction::Nothing);
    assert_eq!(speak_tts(Some(true), false), SpeakAction::CreateStopAndSpeak);
    assert_eq!(speak_tts(Some(true), true), SpeakAction::StopAndSpeak);
    assert!(check_active(Some(false), None));
    assert!(!check_active(Some(true), Some(true)));
    let voice = Tts::default().unwrap();
    assert_eq!(voice.is_speaking(), Ok(true));
    assert_eq!(voice.stop(), Ok(()));
    assert_eq!(voice.speak(text("hi"), true), Ok(()));
}

#[test]
fn sliders_show_percent() {
    assert_eq!(on_slider_moved(0), 0);
    assert_eq!(on_slider_moved(128), 51);
    assert_eq!(on_slider_moved(255), 101);
    assert_eq!(on_spin_change(0), 0);
    assert_eq!(on_spin_change(50), 127);
    assert_eq!(on_spin_change(100), 255);
}

#[test]
fn tools_ask_before_they_act() {
    let args = vec![text("tool"), text("I-AM-REALLY-SURE"), text("file")];
    assert_eq!(check_trial(&args, 1, "S", DeviceType::Full), Ok(()));
    assert_eq!(
        check_trial(&vec![text("tool")], 1, "S", DeviceType::Full),
        Err(TrialError::NotSure)
    );
    assert_eq!(check_trial(&args, 0, "S", DeviceType::Full), Err(TrialError::NoDevice));
    assert_eq!(check_trial(&args, 2, "S", DeviceType::Full), Err(TrialError::SeveralDevices));
    assert_eq!(check_trial(&args, 1, "", DeviceType::Full), Err(TrialError::NoSerial));
    assert_eq!(check_trial(&args, 1, "S", DeviceType::Mini), Err(TrialError::UntestedDevice));
    assert_eq!(extract_file(true, false), FileAction::Skip);
    assert_eq!(extract_file(true, true), FileAction::Replace);
    assert_eq!(extract_file(false, false), FileAction::Write);
}

#[test]
fn trial_counts_what_was_found_right() {
    assert_eq!(count_validated(0, 100, 40), Some((40, 60)));
    assert_eq!(count_validated(40, 60, 60), Some((100, 0)));
    assert_eq!(count_validated(40, 60, 61), None);
}

#[test]
fn sleeping_devices_are_woken() {
    assert_eq!(check_state(0x1220, 0x8fe0, true, true), FoundAction::Wake);
    assert_eq!(check_state(0x1220, 0x8fe4, true, false), FoundAction::Drain);
    assert_eq!(check_state(0x1220, 0x8fe4, false, false), FoundAction::Report);
    assert_eq!(check_state(0x1220, 1, true, true), FoundAction::Skip);
    let steps = initialize_device();
    assert_eq!(steps.len(), 6);
    assert_eq!(
        steps[3],
        WakeStep::WriteClass {
            request: 1,
            value: 0x0100,
            index: 0x2900,
            data: (0x80, 0xbb, 0, 0)
        }
    );
}
