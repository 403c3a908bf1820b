//! Firmware files and updates.

use goxlr_daemon::firmware_file::{
    get_firmware_name, get_firmware_version, load_firmware_file, FirmwareFileError, FirmwareInfo,
};
use goxlr_daemon::firmware_update::{
    check_download, check_firmware_versions, check_manifest, get_firmware_file, read_manifest,
    start_firmware_update, FirmwareError, FirmwareMessages, HardwareProgressResponse,
    ProgressResponse, Reply, Report, Start, Update, UpdateState, ValidateUploadChunkResponse,
};
use goxlr_daemon::types::DeviceType;
use goxlr_daemon::version::{version_newer_or_equal_to, VersionNumber};

fn header(name: &[u8]) -> Vec<u8> {
    let mut bytes = vec![0u8; 64];
    bytes[..name.len()].copy_from_slice(name);
    bytes[24..28].copy_from_slice(&0x1402u32.to_le_bytes());
    bytes[28..32].copy_from_slice(&107u32.to_le_bytes());
    bytes
}

#[test]
fn header_names_device_and_version() {
    let info = load_firmware_file(&header(b"GoXLR Firmware")).unwrap();
    assert_eq!(info.device_type, DeviceType::Full);
    assert_eq!(info.version, VersionNumber(1, 4, Some(2), Some(107)));
    let info = load_firmware_file(&header(b"GoXLR-Mini")).unwrap();
    assert_eq!(info.device_type, DeviceType::Mini);
}

#[test]
fn short_or_foreign_files_are_refused() {
    assert_eq!(load_firmware_file(&[0; 63]), Err(FirmwareFileError::TooShort));
    assert_eq!(get_firmware_version(&[0; 7]), Err(FirmwareFileError::NoVersion));
    assert_eq!(
        get_firmware_version(&[2, 20, 0, 0, 107, 0, 0, 0]),
        Ok(VersionNumber(1, 4, Some(2), Some(107)))
    );
    assert_eq!(
        load_firmware_file(&header(b"Something")),
        Err(FirmwareFileError::UnknownDevice)
    );
}

#[test]
fn name_ends_at_zero() {
    assert_eq!(get_firmware_name(b"ab\0cd"), "ab");
    assert_eq!(get_firmware_name(b"abcd"), "abcd");
    assert_eq!(get_firmware_name(&[b'a', 0xff]), "a\u{fffd}");
}

#[test]
fn versions_are_compared_part_by_part() {
    let newer = VersionNumber(1, 4, Some(2), Some(107));
    assert!(version_newer_or_equal_to(&newer, VersionNumber(1, 3, Some(40), Some(0))));
    assert!(version_newer_or_equal_to(&newer, newer));
    assert!(!version_newer_or_equal_to(&newer, VersionNumber(1, 4, Some(3), None)));
}

const MANIFEST: &str =
    "<manifest version=\"1.4.2.107\" miniVersion=\"1.3.0.50\" fwFullFileName=\"full.bin\"/>";

#[test]
fn manifest_names_file_and_version() {
    let entry = read_manifest(DeviceType::Full, MANIFEST).unwrap();
    assert_eq!(entry.version, "1.4.2.107");
    let version = VersionNumber(1, 4, Some(2), Some(107));
    assert_eq!(
        get_firmware_file(DeviceType::Full, entry, version),
        (String::from("full.bin"), version)
    );
}

#[test]
fn wrong_version_of_the_smaller_device_is_corrected() {
    let entry = read_manifest(DeviceType::Mini, MANIFEST).unwrap();
    assert_eq!(entry.version, "1.3.0.50");
    assert_eq!(
        get_firmware_file(DeviceType::Mini, entry, VersionNumber(1, 3, Some(0), Some(50))),
        (
            String::from("GoXLR_MINI_Firmware.bin"),
            VersionNumber(1, 3, Some(1), Some(50))
        )
    );
}

#[test]
fn broken_manifests_are_refused() {
    assert_eq!(
        read_manifest(DeviceType::Unknown, MANIFEST).err(),
        Some(FirmwareError::UnknownDevice)
    );
    assert_eq!(
        read_manifest(DeviceType::Full, "no xml").err(),
        Some(FirmwareError::NoManifest)
    );
    assert_eq!(
        read_manifest(DeviceType::Full, "<manifest/>").err(),
        Some(FirmwareError::NoVersion)
    );
    let deep = format!("<manifest version=\"1.0\">{}", "<a>".repeat(100000));
    assert_eq!(read_manifest(DeviceType::Full, &deep).err(), Some(FirmwareError::NoManifest));
    assert_eq!(check_firmware_versions(&deep), (None, None));
    let entity = "<!DOCTYPE a [<!ENTITY b \"c\">]><manifest version=\"1.0\"/>";
    assert!(!check_manifest(entity));
    assert_eq!(read_manifest(DeviceType::Full, entity).err(), Some(FirmwareError::NoManifest));
}

#[test]
fn nested_manifests_are_read() {
    let nested = format!(
        "<manifest version=\"1.0\">{}{}</manifest>",
        "<a>".repeat(99),
        "</a>".repeat(99)
    );
    assert!(check_manifest(&nested));
    assert_eq!(check_firmware_versions(&nested), (Some(String::from("1.0")), None));
}

#[test]
fn latest_versions_are_read() {
    assert_eq!(
        check_firmware_versions(MANIFEST),
        (Some(String::from("1.4.2.107")), Some(String::from("1.3.0.50")))
    );
    assert_eq!(check_firmware_versions("<a/>"), (None, None));
    assert_eq!(check_firmware_versions("?"), (None, None));
}

fn info() -> FirmwareInfo {
    FirmwareInfo {
        device_type: DeviceType::Full,
        version: VersionNumber(1, 4, Some(2), Some(107)),
    }
}

#[test]
fn update_pauses_unless_newer() {
    let older = VersionNumber(1, 3, Some(40), Some(0));
    let same = info().version;
    assert_eq!(
        start_firmware_update(info(), true, DeviceType::Full, older, false),
        Start::Proceed
    );
    assert_eq!(
        start_firmware_update(info(), true, DeviceType::Full, same, false),
        Start::Pause
    );
    assert_eq!(
        start_firmware_update(info(), true, DeviceType::Full, same, true),
        Start::Proceed
    );
    assert_eq!(
        start_firmware_update(info(), false, DeviceType::Full, older, false),
        Start::Refused(FirmwareError::FileMissing)
    );
    assert_eq!(
        start_firmware_update(info(), true, DeviceType::Mini, older, false),
        Start::Refused(FirmwareError::OtherDevice)
    );
}

#[test]
fn download_must_be_of_the_promised_version() {
    assert_eq!(check_download(info(), info().version), Ok(info()));
    assert_eq!(
        check_download(info(), VersionNumber(1, 4, Some(2), None)),
        Err(FirmwareError::OtherVersion)
    );
}

#[test]
fn update_runs_through_its_stages() {
    let firmware: Vec<u8> = (0..2500u32).map(|i| i as u8).collect();
    let mut update = Update::new(firmware.clone());
    let mut states = Vec::new();
    let mut received: Vec<u8> = Vec::new();
    let mut chunks = Vec::new();
    let mut validated: u32 = 0;
    while let Some(message) = update.message() {
        let reply = match message {
            FirmwareMessages::PollEraseNVR => Reply::Progress(ProgressResponse { progress: 255 }),
            FirmwareMessages::UploadFirmwareChunk(request) => {
                assert_eq!(request.total_byes_sent as usize, received.len());
                chunks.push(request.chunk.len());
                received.extend(request.chunk);
                Reply::Done
            }
            FirmwareMessages::ValidateUploadChunk(request) => {
                assert_eq!(request.processed_bytes, validated);
                assert_eq!(request.processed_bytes + request.remaining_bytes, 2500);
                validated += 1250;
                Reply::Validated(ValidateUploadChunkResponse { hash: 9, count: 1250 })
            }
            FirmwareMessages::PollHardwareVerify | FirmwareMessages::PollHardwareWrite => {
                Reply::Hardware(HardwareProgressResponse {
                    completed: true,
                    total_bytes: 1,
                    processed_bytes: 1,
                })
            }
            _ => Reply::Done,
        };
        for report in update.reply(reply, 50) {
            if let Report::State(state) = report {
                states.push(state);
            }
        }
    }
    assert_eq!(received, firmware);
    assert_eq!(chunks, vec![1012, 1012, 476]);
    assert_eq!(
        states,
        vec![
            UpdateState::ClearNVR,
            UpdateState::UploadFirmware,
            UpdateState::ValidateUpload,
            UpdateState::HardwareValidate,
            UpdateState::HardwareWrite,
            UpdateState::Complete,
        ]
    );
}

#[test]
fn failed_update_restarts_the_device() {
    let mut update = Update::new(vec![1, 2, 3]);
    let reports = update.reply(Reply::Failed(String::from("lost")), 0);
    assert!(matches!(reports[0], Report::State(UpdateState::Failed)));
    match &reports[1] {
        Report::Error(text) => assert_eq!(text, "lost"),
        other => panic!("{:?}", other),
    }
    assert!(matches!(update.message(), Some(FirmwareMessages::RebootGoXLR)));
    assert!(update.reply(Reply::Done, 0).is_empty());
    assert!(update.message().is_none());
}

#[test]
fn too_many_validated_bytes_fail_the_update() {
    let mut update = Update::new(vec![1, 2, 3]);
    update.reply(Reply::Done, 0);
    update.reply(Reply::Done, 0);
    update.reply(Reply::Progress(ProgressResponse { progress: 255 }), 100);
    update.reply(Reply::Done, 100);
    let reports = update.reply(
        Reply::Validated(ValidateUploadChunkResponse { hash: 0, count: 4 }),
        0,
    );
    match &reports[1] {
        Report::Error(text) => assert_eq!(text, "Error Validating Firmware, Length Mismatch"),
        other => panic!("{:?}", other),
    }
}

#[test]
fn percentage_is_reported_where_it_changed() {
    let mut update = Update::new(vec![1]);
    update.reply(Reply::Done, 0);
    update.reply(Reply::Done, 0);
    let first = update.reply(Reply::Progress(ProgressResponse { progress: 10 }), 3);
    assert!(matches!(first[0], Report::Percent(3)));
    assert!(update
        .reply(Reply::Progress(ProgressResponse { progress: 11 }), 3)
        .is_empty());
}
