//! What the header of a firmware file says.

use crate::bytes::{read_little_endian_u32, u32_of};
use crate::types::DeviceType;
use crate::version::VersionNumber;
use vstd::prelude::*;
use vstd::string::*;
use vstd::utf8::*;

verus! {

/// What is wrong with a firmware file.
#[derive(Clone, Copy, Debug, PartialEq, Eq, Structural)]
pub enum FirmwareFileError {
    TooShort,
    UnknownDevice,
    NoVersion,
}

/// The device that a firmware is for, and its version.
#[derive(Clone, Copy, Debug, PartialEq, Eq)]
pub struct FirmwareInfo {
    pub device_type: DeviceType,
    pub version: VersionNumber,
}

/// The length of the header.
pub const HEADER: usize = 64;

/// The text that bytes stand for, with a mark in the place of each part that stands for none.
pub uninterp spec fn lossy_text(bytes: Seq<u8>) -> Seq<char>;

/// `String::from_utf8_lossy` keeps bytes that are text as they are, and puts a mark in the place of
/// every other part.
#[verifier::external_body]
fn text_from_bytes(bytes: &[u8]) -> (text: String)
    ensures
        text@ == lossy_text(bytes@),
        valid_utf8(bytes@) ==> text@ == decode_utf8(bytes@),
{
    String::from_utf8_lossy(bytes).into_owned()
}

/// The bytes before the first zero.
pub open spec fn before_zero(bytes: Seq<u8>) -> Seq<u8>
    decreases bytes.len(),
{
    if bytes.len() == 0 || bytes[0] == 0 {
        Seq::empty()
    } else {
        seq![bytes[0]] + before_zero(bytes.skip(1))
    }
}

/// The bytes before the first zero are those up to a place with no zero before it and one on it, or
/// all of them.
proof fn lemma_before_zero(bytes: Seq<u8>, end: int)
    requires
        0 <= end <= bytes.len(),
        forall|i: int| 0 <= i < end ==> #[trigger] bytes[i] != 0,
        end < bytes.len() ==> bytes[end] == 0,
    ensures
        before_zero(bytes) == bytes.take(end),
    decreases end,
{
    if end > 0 {
        assert forall|i: int| 0 <= i < end - 1 implies #[trigger] bytes.skip(1)[i] != 0 by {
            assert(bytes.skip(1)[i] == bytes[i + 1]);
        }
        lemma_before_zero(bytes.skip(1), end - 1);
        assert(bytes[0] != 0);
        assert(bytes.take(end) =~= seq![bytes[0]] + bytes.skip(1).take(end - 1));
    } else {
        assert(bytes.take(0) =~= Seq::empty());
    }
}

/// Reads the name in a header: the bytes before the first zero.
pub fn get_firmware_name(src: &[u8]) -> (name: String)
    ensures
        name@ == lossy_text(before_zero(src@)),
        valid_utf8(before_zero(src@)) ==> name@ == decode_utf8(before_zero(src@)),
{
    let mut end: usize = 0;
    let mut bytes: Vec<u8> = Vec::new();
    while end < src.len() && src[end] != 0
        invariant
            end <= src@.len(),
            bytes@ == src@.take(end as int),
            forall|i: int| 0 <= i < end ==> #[trigger] src@[i] != 0,
        decreases src@.len() - end,
    {
        bytes.push(src[end]);
        assert(src@.take(end + 1) =~= src@.take(end as int).push(src@[end as int]));
        end = end + 1;
    }
    proof {
        lemma_before_zero(src@, end as int);
    }
    text_from_bytes(bytes.as_slice())
}

/// The version that two packed numbers stand for.
pub open spec fn unpacked_version(packed: int, build: int) -> VersionNumber {
    VersionNumber(
        (packed / 4096) as u32,
        (packed / 256 % 16) as u32,
        Some((packed % 256) as u32),
        Some(build as u32),
    )
}

/// Reads the version in a header: a packed number, and the number of the build.
pub fn get_firmware_version(src: &[u8]) -> (version: Result<VersionNumber, FirmwareFileError>)
    ensures
        version == (if src@.len() < 8 {
            Err(FirmwareFileError::NoVersion)
        } else {
            Ok(unpacked_version(u32_of(src@), u32_of(src@.skip(4))))
        }),
{
    if src.len() < 8 {
        return Err(FirmwareFileError::NoVersion);
    }
    let packed: u32 = read_little_endian_u32(src);
    let build: u32 = read_little_endian_u32(vstd::slice::slice_subrange(src, 4, src.len()));
    assert(src@.subrange(4, src@.len() as int) =~= src@.skip(4));
    assert(packed >> 12 == packed / 4096 && (packed >> 8) & 0xf == packed / 256 % 16 && packed
        & 0xff == packed % 256) by (bit_vector);
    Ok(VersionNumber(packed >> 12, (packed >> 8) & 0xf, Some(packed & 0xff), Some(build)))
}

/// The device that a name in a header stands for.
pub open spec fn device_of_name(name: Seq<char>) -> Option<DeviceType> {
    if name == "GoXLR Firmware"@ {
        Some(DeviceType::Full)
    } else if name == "GoXLR-Mini"@ {
        Some(DeviceType::Mini)
    } else {
        None
    }
}

/// Finds the device that a name in a header stands for.
pub fn firmware_device(name: &str) -> (device: Option<DeviceType>)
    ensures
        device == device_of_name(name@),
{
    if crate::text::same_text(name, "GoXLR Firmware") {
        Some(DeviceType::Full)
    } else if crate::text::same_text(name, "GoXLR-Mini") {
        Some(DeviceType::Mini)
    } else {
        None
    }
}

/// Reads the header of a firmware file.
pub fn load_firmware_file(firmware: &[u8]) -> (info: Result<FirmwareInfo, FirmwareFileError>)
    ensures
        firmware@.len() < HEADER ==> info == Err::<FirmwareInfo, _>(FirmwareFileError::TooShort),
        firmware@.len() >= HEADER ==> match device_of_name(
            lossy_text(before_zero(firmware@.subrange(0, 16))),
        ) {
            None => info == Err::<FirmwareInfo, _>(FirmwareFileError::UnknownDevice),
            Some(device_type) => info == Ok::<_, FirmwareFileError>(
                (FirmwareInfo {
                    device_type,
                    version: unpacked_version(
                        u32_of(firmware@.subrange(24, 32)),
                        u32_of(firmware@.subrange(28, 32)),
                    ),
                }),
            ),
        },
{
    if firmware.len() < HEADER {
        return Err(FirmwareFileError::TooShort);
    }
    let name = get_firmware_name(vstd::slice::slice_subrange(firmware, 0, 16));
    let device_type = match firmware_device(name.as_str()) {
        Some(device_type) => device_type,
        None => return Err(FirmwareFileError::UnknownDevice),
    };
    let version = match get_firmware_version(vstd::slice::slice_subrange(firmware, 24, 32)) {
        Ok(version) => version,
        Err(error) => return Err(error),
    };
    assert(firmware@.subrange(24, 32).skip(4) =~= firmware@.subrange(28, 32));
    Ok(FirmwareInfo { device_type, version })
}

/// A header says for which device its firmware is: the name of one device is not that of another.
pub proof fn device_names_differ()
    ensures
        "GoXLR Firmware"@ != "GoXLR-Mini"@,
        device_of_name("GoXLR Firmware"@) == Some(DeviceType::Full),
        device_of_name("GoXLR-Mini"@) == Some(DeviceType::Mini),
{
    reveal_strlit("GoXLR Firmware");
    reveal_strlit("GoXLR-Mini");
    assert("GoXLR Firmware"@[5] != "GoXLR-Mini"@[5]);
}

} // verus!
