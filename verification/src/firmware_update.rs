//! How a device is brought to another firmware: which file is taken, and in which order the device
//! is told what.

use crate::firmware_file::FirmwareInfo;
use crate::text::{chars_of, count, count_char, has_part, text_has_part};
use crate::types::DeviceType;
use crate::version::{version_newer_or_equal_to, VersionNumber};
use vstd::prelude::*;
use vstd::string::*;
use xmltree::Element;

verus! {

/// The answer to the question how far erasing is; it ends with 255.
#[derive(Clone, Copy, Debug, PartialEq, Eq, Structural)]
pub struct ProgressResponse {
    pub progress: u8,
}

/// A part of the firmware that is sent to the device.
#[derive(Debug)]
pub struct UploadFirmwareChunkRequest {
    pub total_byes_sent: u64,
    pub chunk: Vec<u8>,
}

/// The question whether a part of the firmware arrived.
#[derive(Clone, Copy, Debug, PartialEq, Eq, Structural)]
pub struct ValidateUploadChunkRequest {
    pub processed_bytes: u32,
    pub hash_in: u32,
    pub remaining_bytes: u32,
}

/// How many bytes were looked at, and the hash up to there.
#[derive(Clone, Copy, Debug, PartialEq, Eq, Structural)]
pub struct ValidateUploadChunkResponse {
    pub hash: u32,
    pub count: u32,
}

/// How far the device is with a task of its own.
#[derive(Clone, Copy, Debug, PartialEq, Eq, Structural)]
pub struct HardwareProgressResponse {
    pub completed: bool,
    pub total_bytes: u32,
    pub processed_bytes: u32,
}

/// What a device is told during an update.
#[derive(Debug)]
pub enum FirmwareMessages {
    EnterDFUMode,
    BeginEraseNVR,
    PollEraseNVR,
    UploadFirmwareChunk(UploadFirmwareChunkRequest),
    ValidateUploadChunk(ValidateUploadChunkRequest),
    BeginHardwareVerify,
    PollHardwareVerify,
    BeginHardwareWrite,
    PollHardwareWrite,
    RebootGoXLR,
}

/// What the device answers.
#[derive(Debug)]
pub enum Reply {
    Done,
    Progress(ProgressResponse),
    Validated(ValidateUploadChunkResponse),
    Hardware(HardwareProgressResponse),
    Failed(String),
}

/// The state of an update, as clients see it.
#[derive(Clone, Copy, Debug, PartialEq, Eq, Structural)]
pub enum UpdateState {
    Starting,
    Manifest,
    Download,
    Pause,
    ClearNVR,
    UploadFirmware,
    ValidateUpload,
    HardwareValidate,
    HardwareWrite,
    Complete,
    Failed,
}

/// News of an update.
#[derive(Debug)]
pub enum Report {
    State(UpdateState),
    Percent(u8),
    Error(String),
}

/// Where an update stands: what the device is told next.
#[derive(Clone, Copy, Debug, PartialEq, Eq, Structural)]
pub enum Stage {
    EnterDfu,
    BeginErase,
    PollErase,
    /// So many bytes were sent.
    Upload(u32),
    /// So many bytes were looked at, with this hash.
    Validate(u32, u32),
    BeginVerify,
    PollVerify,
    BeginWrite,
    PollWrite,
    Reboot,
    Finished,
}

/// The most bytes of firmware that fit into one message.
pub const CHUNK_SIZE: u32 = 1012;

/// The end of the part that begins at `sent`.
pub open spec fn chunk_end(sent: int, length: int) -> int {
    if sent + CHUNK_SIZE <= length {
        sent + CHUNK_SIZE
    } else {
        length
    }
}

/// The part of the firmware that begins at `sent`.
pub open spec fn chunk_at(firmware: Seq<u8>, sent: int) -> Seq<u8> {
    firmware.subrange(sent, chunk_end(sent, firmware.len() as int))
}

/// All parts from `sent` on, one behind the other.
pub open spec fn chunks_from(firmware: Seq<u8>, sent: int) -> Seq<u8>
    decreases firmware.len() - sent,
{
    if 0 <= sent < firmware.len() {
        chunk_at(firmware, sent) + chunks_from(firmware, chunk_end(sent, firmware.len() as int))
    } else {
        Seq::empty()
    }
}

/// The parts that are sent make up the firmware: nothing is left out, and nothing is sent twice.
pub proof fn chunks_make_up_firmware(firmware: Seq<u8>, sent: int)
    requires
        0 <= sent <= firmware.len(),
    ensures
        chunks_from(firmware, sent) == firmware.skip(sent),
        sent == 0 ==> chunks_from(firmware, sent) == firmware,
    decreases firmware.len() - sent,
{
    if sent < firmware.len() {
        chunks_make_up_firmware(firmware, chunk_end(sent, firmware.len() as int));
    }
    assert(chunks_from(firmware, sent) =~= firmware.skip(sent));
    assert(firmware.skip(0) =~= firmware);
}

/// What the device is told at a stage.
pub open spec fn message_is(stage: Stage, firmware: Seq<u8>, message: Option<FirmwareMessages>) -> bool {
    match stage {
        Stage::EnterDfu => message == Some(FirmwareMessages::EnterDFUMode),
        Stage::BeginErase => message == Some(FirmwareMessages::BeginEraseNVR),
        Stage::PollErase => message == Some(FirmwareMessages::PollEraseNVR),
        Stage::Upload(sent) => message matches Some(
            FirmwareMessages::UploadFirmwareChunk(request),
        ) && request.total_byes_sent == sent && request.chunk@ == chunk_at(firmware, sent as int),
        Stage::Validate(processed, hash) => message matches Some(
            FirmwareMessages::ValidateUploadChunk(request),
        ) && request.processed_bytes == processed && request.hash_in == hash
            && request.remaining_bytes == firmware.len() - processed,
        Stage::BeginVerify => message == Some(FirmwareMessages::BeginHardwareVerify),
        Stage::PollVerify => message == Some(FirmwareMessages::PollHardwareVerify),
        Stage::BeginWrite => message == Some(FirmwareMessages::BeginHardwareWrite),
        Stage::PollWrite => message == Some(FirmwareMessages::PollHardwareWrite),
        Stage::Reboot => message == Some(FirmwareMessages::RebootGoXLR),
        Stage::Finished => message is None,
    }
}

/// What an answer leads to: the next stage, the percentage that clients know, and the news.
#[verifier::ext_equal]
pub struct Outcome {
    pub stage: Stage,
    pub percent: u8,
    pub reports: Seq<Report>,
}

/// News of a percentage, where it changed.
pub open spec fn percent_news(known: u8, percent: u8) -> Seq<Report> {
    if percent != known {
        seq![Report::Percent(percent)]
    } else {
        Seq::empty()
    }
}

/// The begin of the device's own check.
pub open spec fn start_verify() -> Outcome {
    Outcome {
        stage: Stage::BeginVerify,
        percent: 0,
        reports: seq![Report::State(UpdateState::HardwareValidate)],
    }
}

/// The begin of the check of what arrived. There is nothing to check of an empty firmware.
pub open spec fn start_validate(length: int) -> Outcome {
    if length == 0 {
        Outcome {
            reports: seq![Report::State(UpdateState::ValidateUpload)] + start_verify().reports,
            ..start_verify()
        }
    } else {
        Outcome {
            stage: Stage::Validate(0, 0),
            percent: 0,
            reports: seq![Report::State(UpdateState::ValidateUpload)],
        }
    }
}

/// The begin of the upload. There is nothing to upload of an empty firmware.
pub open spec fn start_upload(length: int) -> Outcome {
    if length == 0 {
        Outcome {
            reports: seq![Report::State(UpdateState::UploadFirmware)] + start_validate(
                length,
            ).reports,
            ..start_validate(length)
        }
    } else {
        Outcome {
            stage: Stage::Upload(0),
            percent: 0,
            reports: seq![Report::State(UpdateState::UploadFirmware)],
        }
    }
}

/// An update that failed: clients learn why, and the device is restarted.
pub open spec fn failed(error: String) -> Outcome {
    Outcome {
        stage: Stage::Reboot,
        percent: 0,
        reports: seq![Report::State(UpdateState::Failed), Report::Error(error)],
    }
}

/// `next` with news before its own.
pub open spec fn behind(news: Seq<Report>, next: Outcome) -> Outcome {
    Outcome { reports: news + next.reports, ..next }
}

/// Whether an answer is one that the stage asks for.
pub open spec fn fits(stage: Stage, reply: Reply) -> bool {
    match stage {
        Stage::PollErase => reply is Progress || reply is Failed,
        Stage::Validate(_, _) => reply is Validated || reply is Failed,
        Stage::PollVerify | Stage::PollWrite => reply is Hardware || reply is Failed,
        Stage::Finished => false,
        _ => reply is Done || reply is Failed,
    }
}

/// Whether an answer leads to an outcome. `known` is the percentage that clients know, and `percent`
/// the one that goes with the answer.
pub open spec fn leads_to(
    stage: Stage,
    length: int,
    known: u8,
    reply: Reply,
    percent: u8,
    next: Outcome,
) -> bool {
    match reply {
        Reply::Failed(error) => if stage == Stage::Reboot {
            next == (Outcome { stage: Stage::Finished, percent: known, reports: Seq::empty() })
        } else {
            next == failed(error)
        },
        Reply::Done => match stage {
            Stage::EnterDfu => next == (Outcome {
                stage: Stage::BeginErase,
                percent: 0,
                reports: seq![Report::State(UpdateState::ClearNVR)],
            }),
            Stage::BeginErase => next == (Outcome {
                stage: Stage::PollErase,
                percent: known,
                reports: Seq::empty(),
            }),
            Stage::Upload(sent) => if chunk_end(sent as int, length) == length {
                next == behind(percent_news(known, percent), start_validate(length))
            } else {
                next == (Outcome {
                    stage: Stage::Upload(chunk_end(sent as int, length) as u32),
                    percent,
                    reports: percent_news(known, percent),
                })
            },
            Stage::BeginVerify => next == (Outcome {
                stage: Stage::PollVerify,
                percent: known,
                reports: Seq::empty(),
            }),
            Stage::BeginWrite => next == (Outcome {
                stage: Stage::PollWrite,
                percent: known,
                reports: Seq::empty(),
            }),
            _ => next == (Outcome { stage: Stage::Finished, percent: known, reports: Seq::empty() }),
        },
        Reply::Progress(response) => if response.progress == 255 {
            next == behind(
                percent_news(known, percent) + seq![Report::Percent(100)],
                start_upload(length),
            )
        } else {
            next == (Outcome {
                stage: Stage::PollErase,
                percent,
                reports: percent_news(known, percent),
            })
        },
        Reply::Validated(response) => match stage {
            Stage::Validate(processed, _) => if processed + response.count > length {
                exists|error: String|
                    error@ == "Error Validating Firmware, Length Mismatch"@ && next == #[trigger] failed(
                        error,
                    )
            } else if processed + response.count == length {
                next == behind(percent_news(known, percent), start_verify())
            } else {
                next == (Outcome {
                    stage: Stage::Validate((processed + response.count) as u32, response.hash),
                    percent,
                    reports: percent_news(known, percent),
                })
            },
            _ => true,
        },
        Reply::Hardware(response) => if !response.completed {
            next == (Outcome { stage, percent, reports: percent_news(known, percent) })
        } else if stage == Stage::PollVerify {
            next == (Outcome {
                stage: Stage::BeginWrite,
                percent: 0,
                reports: percent_news(known, percent) + seq![
                    Report::State(UpdateState::HardwareWrite),
                ],
            })
        } else {
            next == (Outcome {
                stage: Stage::Reboot,
                percent: 0,
                reports: percent_news(known, percent) + seq![Report::State(UpdateState::Complete)],
            })
        },
    }
}

/// An update of one device.
#[derive(Debug)]
pub struct Update {
    firmware: Vec<u8>,
    stage: Stage,
    percent: u8,
}

impl Update {
    /// The firmware that the device is brought to.
    pub closed spec fn firmware(self) -> Seq<u8> {
        self.firmware@
    }

    /// Where the update stands.
    pub closed spec fn stage(self) -> Stage {
        self.stage
    }

    /// The percentage that clients know.
    pub closed spec fn percent(self) -> u8 {
        self.percent
    }

    /// What is sent and looked at lies within the firmware.
    pub open spec fn wf(self) -> bool {
        &&& self.firmware().len() <= u32::MAX
        &&& match self.stage() {
            Stage::Upload(sent) => sent < self.firmware().len(),
            Stage::Validate(processed, _) => processed < self.firmware().len(),
            _ => true,
        }
    }

    /// Begins an update.
    pub fn new(firmware: Vec<u8>) -> (update: Update)
        requires
            firmware@.len() <= u32::MAX,
        ensures
            update.wf(),
            update.firmware() == firmware@,
            update.stage() == Stage::EnterDfu,
            update.percent() == 0,
    {
        Update { firmware, stage: Stage::EnterDfu, percent: 0 }
    }

    /// Says what the device is told next.
    pub fn message(&self) -> (message: Option<FirmwareMessages>)
        requires
            self.wf(),
        ensures
            message_is(self.stage(), self.firmware(), message),
    {
        match self.stage {
            Stage::EnterDfu => Some(FirmwareMessages::EnterDFUMode),
            Stage::BeginErase => Some(FirmwareMessages::BeginEraseNVR),
            Stage::PollErase => Some(FirmwareMessages::PollEraseNVR),
            Stage::Upload(sent) => {
                let end: usize = self.chunk_end(sent) as usize;
                let mut chunk: Vec<u8> = Vec::new();
                let mut i: usize = sent as usize;
                while i < end
                    invariant
                        sent <= i <= end <= self.firmware@.len(),
                        chunk@ == self.firmware@.subrange(sent as int, i as int),
                    decreases end - i,
                {
                    chunk.push(self.firmware[i]);
                    assert(self.firmware@.subrange(sent as int, i + 1) =~= self.firmware@.subrange(
                        sent as int,
                        i as int,
                    ).push(self.firmware@[i as int]));
                    i = i + 1;
                }
                Some(
                    FirmwareMessages::UploadFirmwareChunk(
                        UploadFirmwareChunkRequest { total_byes_sent: sent as u64, chunk },
                    ),
                )
            },
            Stage::Validate(processed_bytes, hash_in) => {
                let remaining_bytes: u32 = self.firmware.len() as u32 - processed_bytes;
                Some(
                    FirmwareMessages::ValidateUploadChunk(
                        ValidateUploadChunkRequest { processed_bytes, hash_in, remaining_bytes },
                    ),
                )
            },
            Stage::BeginVerify => Some(FirmwareMessages::BeginHardwareVerify),
            Stage::PollVerify => Some(FirmwareMessages::PollHardwareVerify),
            Stage::BeginWrite => Some(FirmwareMessages::BeginHardwareWrite),
            Stage::PollWrite => Some(FirmwareMessages::PollHardwareWrite),
            Stage::Reboot => Some(FirmwareMessages::RebootGoXLR),
            Stage::Finished => None,
        }
    }

    /// Finds the end of the part that begins at `sent`.
    fn chunk_end(&self, sent: u32) -> (end: u32)
        requires
            self.wf(),
            sent < self.firmware().len(),
        ensures
            end == chunk_end(sent as int, self.firmware().len() as int),
    {
        let length: u32 = self.firmware.len() as u32;
        if length - sent >= CHUNK_SIZE {
            sent + CHUNK_SIZE
        } else {
            length
        }
    }

    /// Takes note of a percentage, and reports it where it changed.
    fn note_percent(&mut self, percent: u8, reports: &mut Vec<Report>)
        ensures
            final(self).firmware() == old(self).firmware(),
            final(self).stage() == old(self).stage(),
            final(self).percent() == percent,
            final(reports)@ == old(reports)@ + percent_news(old(self).percent(), percent),
    {
        if percent != self.percent {
            self.percent = percent;
            reports.push(Report::Percent(percent));
        }
        assert(reports@ =~= old(reports)@ + percent_news(old(self).percent(), percent));
    }

    /// Moves to a stage of which clients are told.
    fn enter(&mut self, stage: Stage, state: UpdateState, reports: &mut Vec<Report>)
        ensures
            final(self).firmware() == old(self).firmware(),
            final(self).stage() == stage,
            final(self).percent() == 0,
            final(reports)@ == old(reports)@.push(Report::State(state)),
    {
        self.stage = stage;
        self.percent = 0;
        reports.push(Report::State(state));
    }

    /// Begins to check what arrived.
    fn enter_validate(&mut self, reports: &mut Vec<Report>)
        ensures
            final(self).firmware() == old(self).firmware(),
            final(self).stage() == start_validate(old(self).firmware().len() as int).stage,
            final(self).percent() == 0,
            final(reports)@ == old(reports)@ + start_validate(
                old(self).firmware().len() as int,
            ).reports,
    {
        self.enter(Stage::Validate(0, 0), UpdateState::ValidateUpload, reports);
        if self.firmware.len() == 0 {
            self.enter(Stage::BeginVerify, UpdateState::HardwareValidate, reports);
        }
        assert(reports@ =~= old(reports)@ + start_validate(
            old(self).firmware().len() as int,
        ).reports);
    }

    /// Finds whether an answer is of the kind that the device was asked for.
    pub fn suits(&self, reply: &Reply) -> (suits: bool)
        ensures
            suits == fits(self.stage(), *reply),
    {
        match reply {
            Reply::Failed(_) => !matches!(self.stage, Stage::Finished),
            Reply::Progress(_) => matches!(self.stage, Stage::PollErase),
            Reply::Validated(_) => matches!(self.stage, Stage::Validate(_, _)),
            Reply::Hardware(_) => matches!(self.stage, Stage::PollVerify | Stage::PollWrite),
            Reply::Done => !matches!(
                self.stage,
                Stage::PollErase | Stage::Validate(_, _) | Stage::PollVerify | Stage::PollWrite
                    | Stage::Finished
            ),
        }
    }

    /// Takes the answer of the device to what it was told. `percent` is the percentage that goes with
    /// the answer.
    pub fn reply(&mut self, reply: Reply, percent: u8) -> (reports: Vec<Report>)
        requires
            old(self).wf(),
            fits(old(self).stage(), reply),
        ensures
            final(self).wf(),
            final(self).firmware() == old(self).firmware(),
            leads_to(
                old(self).stage(),
                old(self).firmware().len() as int,
                old(self).percent(),
                reply,
                percent,
                (Outcome {
                    stage: final(self).stage(),
                    percent: final(self).percent(),
                    reports: reports@,
                }),
            ),
    {
        let ghost before = *self;
        let mut reports: Vec<Report> = Vec::new();
        match reply {
            Reply::Failed(error) => {
                if let Stage::Reboot = self.stage {
                    self.stage = Stage::Finished;
                    return reports;
                }
                self.fail(error, &mut reports);
            },
            Reply::Done => match self.stage {
                Stage::EnterDfu => {
                    self.enter(Stage::BeginErase, UpdateState::ClearNVR, &mut reports);
                    assert(reports@ =~= seq![Report::State(UpdateState::ClearNVR)]);
                },
                Stage::BeginErase => {
                    self.stage = Stage::PollErase;
                },
                Stage::Upload(sent) => {
                    let end: u32 = self.chunk_end(sent);
                    self.note_percent(percent, &mut reports);
                    if end as usize == self.firmware.len() {
                        self.enter_validate(&mut reports);
                        assert(reports@ =~= percent_news(before.percent(), percent)
                            + start_validate(before.firmware().len() as int).reports);
                    } else {
                        self.stage = Stage::Upload(end);
                        assert(reports@ =~= percent_news(before.percent(), percent));
                    }
                },
                Stage::BeginVerify => {
                    self.stage = Stage::PollVerify;
                },
                Stage::BeginWrite => {
                    self.stage = Stage::PollWrite;
                },
                _ => {
                    self.stage = Stage::Finished;
                },
            },
            Reply::Progress(response) => {
                self.note_percent(percent, &mut reports);
                if response.progress == 255 {
                    reports.push(Report::Percent(100));
                    self.enter(Stage::Upload(0), UpdateState::UploadFirmware, &mut reports);
                    if self.firmware.len() == 0 {
                        self.enter_validate(&mut reports);
                    }
                    assert(reports@ =~= percent_news(before.percent(), percent) + seq![
                        Report::Percent(100),
                    ] + start_upload(before.firmware().len() as int).reports);
                } else {
                    assert(reports@ =~= percent_news(before.percent(), percent));
                }
            },
            Reply::Validated(response) => {
                if let Stage::Validate(processed, _) = self.stage {
                    let length: u32 = self.firmware.len() as u32;
                    if response.count > length - processed {
                        let error = "Error Validating Firmware, Length Mismatch".to_owned();
                        self.fail(error, &mut reports);
                        assert(reports@ =~= failed(error).reports);
                        return reports;
                    }
                    self.note_percent(percent, &mut reports);
                    if processed + response.count == length {
                        self.enter(Stage::BeginVerify, UpdateState::HardwareValidate, &mut reports);
                        assert(reports@ =~= percent_news(before.percent(), percent)
                            + start_verify().reports);
                    } else {
                        self.stage = Stage::Validate(processed + response.count, response.hash);
                        assert(reports@ =~= percent_news(before.percent(), percent));
                    }
                }
            },
            Reply::Hardware(response) => {
                self.note_percent(percent, &mut reports);
                if response.completed {
                    if let Stage::PollVerify = self.stage {
                        self.enter(Stage::BeginWrite, UpdateState::HardwareWrite, &mut reports);
                        assert(reports@ =~= percent_news(before.percent(), percent) + seq![
                            Report::State(UpdateState::HardwareWrite),
                        ]);
                    } else {
                        self.enter(Stage::Reboot, UpdateState::Complete, &mut reports);
                        assert(reports@ =~= percent_news(before.percent(), percent) + seq![
                            Report::State(UpdateState::Complete),
                        ]);
                    }
                } else {
                    assert(reports@ =~= percent_news(before.percent(), percent));
                }
            },
        }
        reports
    }

    /// Gives up: clients learn why, and the device is restarted.
    fn fail(&mut self, error: String, reports: &mut Vec<Report>)
        requires
            old(reports)@.len() == 0,
        ensures
            final(self).firmware() == old(self).firmware(),
            final(self).stage() == Stage::Reboot,
            final(self).percent() == 0,
            final(reports)@ == failed(error).reports,
    {
        self.enter(Stage::Reboot, UpdateState::Failed, reports);
        reports.push(Report::Error(error));
        assert(reports@ =~= failed(error).reports);
    }
}

/// Whatever goes wrong before the device is restarted, it is restarted, and clients learn of it.
pub proof fn failure_restarts_device(
    stage: Stage,
    length: int,
    known: u8,
    error: String,
    percent: u8,
    next: Outcome,
)
    requires
        stage != Stage::Reboot,
        leads_to(stage, length, known, Reply::Failed(error), percent, next),
    ensures
        next.stage == Stage::Reboot,
        next.reports == seq![Report::State(UpdateState::Failed), Report::Error(error)],
{
}

/// An update is reported complete only by the device itself, at the end of writing.
pub proof fn complete_only_after_write(
    stage: Stage,
    length: int,
    known: u8,
    reply: Reply,
    percent: u8,
    next: Outcome,
)
    requires
        length >= 0,
        fits(stage, reply),
        leads_to(stage, length, known, reply, percent, next),
        next.reports.contains(Report::State(UpdateState::Complete)),
    ensures
        stage == Stage::PollWrite,
        reply matches Reply::Hardware(response) && response.completed,
{
}

/// Why an update cannot be made.
#[derive(Clone, Copy, Debug, PartialEq, Eq, Structural)]
pub enum FirmwareError {
    UnknownDevice,
    NoManifest,
    NoVersion,
    FileMissing,
    OtherDevice,
    OtherVersion,
}

/// The attributes of a manifest that name the file and the version for a device.
pub open spec fn manifest_keys(device_type: DeviceType) -> Option<(Seq<char>, Seq<char>)> {
    match device_type {
        DeviceType::Full => Some(("fwFullFileName"@, "version"@)),
        DeviceType::Mini => Some(("fwMiniFileName"@, "miniVersion"@)),
        DeviceType::Unknown => None,
    }
}

/// The file that is taken where the manifest names none.
pub open spec fn usual_file(device_type: DeviceType) -> Seq<char> {
    if device_type == DeviceType::Full {
        "GoXLR_Firmware.bin"@
    } else {
        "GoXLR_MINI_Firmware.bin"@
    }
}

/// The value of an attribute of the outermost element of a text in XML: none where the attribute is
/// missing, an error where the text is no XML.
pub uninterp spec fn root_attribute(text: Seq<char>, name: Seq<char>) -> Result<Option<Seq<char>>, ()>;

/// The value of an attribute, as a text.
pub open spec fn attribute_view(value: Result<Option<String>, ()>) -> Result<Option<Seq<char>>, ()> {
    match value {
        Ok(Some(value)) => Ok(Some(value@)),
        Ok(None) => Ok(None),
        Err(()) => Err(()),
    }
}

/// The most tags in a manifest. Reading one calls itself for each element in an element.
pub const MOST_TAGS: usize = 200;

/// Whether a text is small enough to be read as a manifest: it has few tags, and declares no parts
/// that stand for further tags.
pub open spec fn is_small_manifest(text: Seq<char>) -> bool {
    count(text, '<') <= MOST_TAGS && !has_part(text, "<!ENTITY"@)
}

/// Finds whether a text is small enough to be read as a manifest.
pub fn check_manifest(text: &str) -> (small: bool)
    ensures
        small == is_small_manifest(text@),
{
    count_char(&chars_of(text), '<') <= MOST_TAGS && !text_has_part(text, "<!ENTITY")
}

/// `xmltree::Element::parse` reads a text in XML; the attributes of the outermost element are in its
/// field `attributes`. The function calls itself for each element in an element, so only a text with
/// few tags is handed to it.
#[verifier::external_body]
fn read_root_attribute(text: &str, name: &str) -> (value: Result<Option<String>, ()>)
    requires
        is_small_manifest(text@),
    ensures
        attribute_view(value) == root_attribute(text@, name@),
{
    match Element::parse(text.as_bytes()) {
        Ok(root) => Ok(root.attributes.get(name).cloned()),
        Err(_) => Err(()),
    }
}

/// What a manifest says of a device: the file, where it names one, and the text of the version.
#[derive(Debug)]
pub struct ManifestEntry {
    pub file: Option<String>,
    pub version: String,
}

/// What a text says under the name of an attribute, read as a manifest. A text that is too large is
/// no manifest.
pub open spec fn manifest_value(text: Seq<char>, name: Seq<char>) -> Result<Option<Seq<char>>, ()> {
    if is_small_manifest(text) {
        root_attribute(text, name)
    } else {
        Err(())
    }
}

/// Reads what a manifest says of a device. A text that is too large is no manifest.
pub fn read_manifest(device_type: DeviceType, manifest: &str) -> (entry: Result<
    ManifestEntry,
    FirmwareError,
>)
    ensures
        match manifest_keys(device_type) {
            None => entry == Err::<ManifestEntry, _>(FirmwareError::UnknownDevice),
            Some(keys) => match manifest_value(manifest@, keys.1) {
                Err(()) => entry == Err::<ManifestEntry, _>(FirmwareError::NoManifest),
                Ok(None) => entry == Err::<ManifestEntry, _>(FirmwareError::NoVersion),
                Ok(Some(version)) => entry matches Ok(entry) && entry.version@ == version && (
                match manifest_value(manifest@, keys.0) {
                    Ok(Some(file)) => entry.file matches Some(name) && name@ == file,
                    _ => entry.file is None,
                }),
            },
        },
{
    let (file_key, version_key) = match device_type {
        DeviceType::Full => ("fwFullFileName", "version"),
        DeviceType::Mini => ("fwMiniFileName", "miniVersion"),
        DeviceType::Unknown => return Err(FirmwareError::UnknownDevice),
    };
    if !check_manifest(manifest) {
        return Err(FirmwareError::NoManifest);
    }
    let version = match read_root_attribute(manifest, version_key) {
        Err(()) => return Err(FirmwareError::NoManifest),
        Ok(None) => return Err(FirmwareError::NoVersion),
        Ok(Some(version)) => version,
    };
    let file = match read_root_attribute(manifest, file_key) {
        Ok(file) => file,
        Err(()) => None,
    };
    Ok(ManifestEntry { file, version })
}

/// Reads the texts of the latest versions in a manifest: that of the larger and that of the smaller
/// device. There are none in a text that is no manifest, or too large to be one.
pub fn check_firmware_versions(manifest: &str) -> (versions: (Option<String>, Option<String>))
    ensures
        attribute_view(Ok(versions.0)) == (match manifest_value(manifest@, "version"@) {
            Ok(version) => Ok::<Option<Seq<char>>, ()>(version),
            Err(()) => Ok(None),
        }),
        attribute_view(Ok(versions.1)) == (match manifest_value(manifest@, "miniVersion"@) {
            Ok(version) => Ok::<Option<Seq<char>>, ()>(version),
            Err(()) => Ok(None),
        }),
{
    if !check_manifest(manifest) {
        return (None, None);
    }
    let full = match read_root_attribute(manifest, "version") {
        Ok(version) => version,
        Err(()) => None,
    };
    let mini = match read_root_attribute(manifest, "miniVersion") {
        Ok(version) => version,
        Err(()) => None,
    };
    (full, mini)
}

/// The version that a manifest means. One version of the smaller device stands wrong in it.
pub open spec fn corrected_version(device_type: DeviceType, reported: VersionNumber) -> VersionNumber {
    if device_type == DeviceType::Mini && reported == VersionNumber(1, 3, Some(0), Some(50)) {
        VersionNumber(1, 3, Some(1), Some(50))
    } else {
        reported
    }
}

/// Finds the version that a manifest means.
pub fn correct_version(device_type: DeviceType, reported: VersionNumber) -> (version: VersionNumber)
    ensures
        version == corrected_version(device_type, reported),
{
    if device_type == DeviceType::Mini && reported.0 == 1 && reported.1 == 3 && reported.2 == Some(
        0u32,
    ) && reported.3 == Some(50u32) {
        return VersionNumber(1, 3, Some(1), Some(50));
    }
    reported
}

/// Finds the file to take, and the version to expect in it. `reported` is the version in the entry.
pub fn get_firmware_file(device_type: DeviceType, entry: ManifestEntry, reported: VersionNumber) -> (choice:
    (String, VersionNumber))
    requires
        device_type != DeviceType::Unknown,
    ensures
        choice.0@ == (match entry.file {
            Some(file) => file@,
            None => usual_file(device_type),
        }),
        choice.1 == corrected_version(device_type, reported),
{
    let version = correct_version(device_type, reported);
    let file = match entry.file {
        Some(file) => file,
        None => {
            if device_type == DeviceType::Full {
                "GoXLR_Firmware.bin".to_owned()
            } else {
                "GoXLR_MINI_Firmware.bin".to_owned()
            }
        },
    };
    (file, version)
}

/// Checks that a file that was fetched is of the version that the manifest promised.
pub fn check_download(info: FirmwareInfo, expected: VersionNumber) -> (checked: Result<
    FirmwareInfo,
    FirmwareError,
>)
    ensures
        info.version == expected ==> checked == Ok::<_, FirmwareError>(info),
        info.version != expected ==> checked == Err::<FirmwareInfo, _>(FirmwareError::OtherVersion),
{
    if info.version.0 == expected.0 && info.version.1 == expected.1 && info.version.2 == expected.2
        && info.version.3 == expected.3 {
        return Ok(info);
    }
    Err(FirmwareError::OtherVersion)
}

/// How an update begins.
#[derive(Clone, Copy, Debug, PartialEq, Eq, Structural)]
pub enum Start {
    Refused(FirmwareError),
    /// The user has to agree: the device has this version or a later one.
    Pause,
    Proceed,
}

/// Decides how an update with a file begins. `exists` says whether the file is there.
pub fn start_firmware_update(
    info: FirmwareInfo,
    exists: bool,
    device_type: DeviceType,
    current: VersionNumber,
    force: bool,
) -> (start: Start)
    ensures
        start == (if !exists {
            Start::Refused(FirmwareError::FileMissing)
        } else if info.device_type != device_type {
            Start::Refused(FirmwareError::OtherDevice)
        } else if !force && current.at_least(info.version) {
            Start::Pause
        } else {
            Start::Proceed
        }),
{
    if !exists {
        return Start::Refused(FirmwareError::FileMissing);
    }
    if info.device_type != device_type {
        return Start::Refused(FirmwareError::OtherDevice);
    }
    if !force && version_newer_or_equal_to(&current, info.version) {
        return Start::Pause;
    }
    Start::Proceed
}

} // verus!
