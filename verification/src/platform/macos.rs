//! macOS: the devices that the system puts together out of the channels of one, and how the daemon
//! starts with the session.

use crate::text::{
    begins_with, chars_of, has_part, joined, replace_all, replaced, same_chars, split_chars,
    split_on, text_begins_with, text_has_part,
};
use vstd::prelude::*;
use vstd::string::*;

verus! {

/// Two channels that make up a stereo signal.
#[derive(Clone, Copy, Debug, PartialEq, Eq, Structural)]
pub struct StereoChannels {
    pub left: u32,
    pub right: u32,
}

/// What programs play on.
#[derive(Clone, Copy, Debug, PartialEq, Eq, Structural)]
pub enum Outputs {
    System,
    Game,
    Chat,
    Music,
    Sample,
}

/// What programs record from.
#[derive(Clone, Copy, Debug, PartialEq, Eq, Structural)]
pub enum Inputs {
    StreamMix,
    ChatMic,
    Sampler,
}

impl Outputs {
    /// The place of this output.
    pub open spec fn index(self) -> int {
        match self {
            Outputs::System => 0,
            Outputs::Game => 1,
            Outputs::Chat => 2,
            Outputs::Music => 3,
            Outputs::Sample => 4,
        }
    }

    /// The name of this output.
    pub open spec fn name(self) -> Seq<char> {
        match self {
            Outputs::System => "System"@,
            Outputs::Game => "Game"@,
            Outputs::Chat => "Chat"@,
            Outputs::Music => "Music"@,
            Outputs::Sample => "Sample"@,
        }
    }

    /// Names this output.
    pub fn get_name(&self) -> (name: String)
        ensures
            name@ == self.name(),
    {
        match self {
            Outputs::System => "System".to_owned(),
            Outputs::Game => "Game".to_owned(),
            Outputs::Chat => "Chat".to_owned(),
            Outputs::Music => "Music".to_owned(),
            Outputs::Sample => "Sample".to_owned(),
        }
    }

    /// Gives the channels of this output: the outputs lie one behind the other.
    pub fn get_channels(&self) -> (channels: StereoChannels)
        ensures
            channels.left == 2 * self.index() + 1,
            channels.right == 2 * self.index() + 2,
    {
        match self {
            Outputs::System => StereoChannels { left: 1, right: 2 },
            Outputs::Game => StereoChannels { left: 3, right: 4 },
            Outputs::Chat => StereoChannels { left: 5, right: 6 },
            Outputs::Music => StereoChannels { left: 7, right: 8 },
            Outputs::Sample => StereoChannels { left: 9, right: 10 },
        }
    }
}

impl Inputs {
    /// The place of this input.
    pub open spec fn index(self) -> int {
        match self {
            Inputs::StreamMix => 0,
            Inputs::ChatMic => 1,
            Inputs::Sampler => 2,
        }
    }

    /// The name of this input.
    pub open spec fn name(self) -> Seq<char> {
        match self {
            Inputs::StreamMix => "Stream Mix"@,
            Inputs::ChatMic => "Chat Mic"@,
            Inputs::Sampler => "Sampler"@,
        }
    }

    /// Names this input.
    pub fn get_name(&self) -> (name: String)
        ensures
            name@ == self.name(),
    {
        match self {
            Inputs::StreamMix => "Stream Mix".to_owned(),
            Inputs::ChatMic => "Chat Mic".to_owned(),
            Inputs::Sampler => "Sampler".to_owned(),
        }
    }

    /// Gives the channels of this input: the inputs lie one behind the other.
    pub fn get_channels(&self) -> (channels: StereoChannels)
        ensures
            channels.left == 2 * self.index() + 1,
            channels.right == 2 * self.index() + 2,
    {
        match self {
            Inputs::StreamMix => StereoChannels { left: 1, right: 2 },
            Inputs::ChatMic => StereoChannels { left: 3, right: 4 },
            Inputs::Sampler => StereoChannels { left: 5, right: 6 },
        }
    }
}

/// A device as the system knows it.
#[derive(Debug)]
pub struct CoreAudioDevice {
    pub display_name: String,
    pub uid: String,
}

/// The number under which the system lists no device at all.
pub const UNKNOWN_DEVICE: u32 = 0;

/// What the system says of a device that it lists. A text is missing where it could not be read.
#[derive(Debug)]
pub struct ListedDevice {
    pub id: u32,
    pub name: Option<String>,
    pub uid: Option<String>,
    /// Whether it is known to be on the bus.
    pub usb: bool,
}

/// Why the system does not list its devices, with the number that it gives.
#[derive(Clone, Copy, Debug, PartialEq, Eq, Structural)]
pub enum ListingError {
    Size(i32),
    Data(i32),
}

/// The identifier of the device that is put together for a channel.
pub open spec fn aggregate_uid(uid: Seq<char>, channel: Seq<char>) -> Seq<char> {
    "GoXLR-Utility::Aggregate"@ + "::"@ + uid + "::"@ + replaced(channel, " "@, Seq::empty())
}

/// The name of the device that is put together for a channel.
pub open spec fn aggregate_name(display_name: Seq<char>, channel: Seq<char>) -> Seq<char> {
    channel + " ("@ + display_name + ")"@
}

/// Names the device that is put together for a channel, for the system and for the user.
pub fn create_aggregate_device(channel: &str, device: &CoreAudioDevice) -> (aggregate:
    CoreAudioDevice)
    ensures
        aggregate.uid@ == aggregate_uid(device.uid@, channel@),
        aggregate.display_name@ == aggregate_name(device.display_name@, channel@),
{
    proof {
        reveal_strlit(" ");
        reveal_strlit("");
    }
    let mut uid = joined("GoXLR-Utility::Aggregate", "::");
    uid.append(device.uid.as_str());
    uid.append("::");
    let plain = replace_all(channel, " ", "");
    assert(""@ =~= Seq::<char>::empty());
    uid.append(plain.as_str());
    let mut display_name = joined(channel, " (");
    display_name.append(device.display_name.as_str());
    display_name.append(")");
    CoreAudioDevice { display_name, uid }
}

/// Whether a device was put together by the daemon, now or in earlier times.
pub open spec fn own_aggregate(uid: Seq<char>) -> bool {
    begins_with(uid, "GoXLR-Utility::Aggregate"@) || begins_with(uid, "com.adecorp.goxlr"@)
}

/// Finds whether a device was put together by the daemon.
pub fn is_own_aggregate(uid: &str) -> (own: bool)
    ensures
        own == own_aggregate(uid@),
{
    text_begins_with(uid, "GoXLR-Utility::Aggregate") || text_begins_with(uid, "com.adecorp.goxlr")
}

/// A device that the system lists, with its identifier where that could be read.
#[derive(Debug)]
pub struct ListedUid {
    pub id: u32,
    pub uid: Option<String>,
}

/// The numbers of the devices that the daemon put together, among those that the system lists.
pub open spec fn own_aggregates(listed: Seq<ListedUid>) -> Seq<u32>
    decreases listed.len(),
{
    if listed.len() == 0 {
        Seq::empty()
    } else {
        let before = own_aggregates(listed.drop_last());
        if listed.last().uid matches Some(uid) && own_aggregate(uid@) {
            before.push(listed.last().id)
        } else {
            before
        }
    }
}

/// Lists the devices that the daemon put together, among those that the system lists. It fails only
/// where the system gives no list.
pub fn find_all_existing_aggregates(listing: Result<Vec<ListedUid>, ListingError>) -> (found: Result<
    Vec<u32>,
    ListingError,
>)
    ensures
        match listing {
            Ok(listed) => found matches Ok(found) && found@ == own_aggregates(listed@),
            Err(error) => found == Err::<Vec<u32>, ListingError>(error),
        },
{
    let listed = match listing {
        Ok(listed) => listed,
        Err(error) => return Err(error),
    };
    let mut found: Vec<u32> = Vec::new();
    let mut i: usize = 0;
    assert(listed@.take(0) =~= Seq::empty());
    while i < listed.len()
        invariant
            i <= listed@.len(),
            found@ == own_aggregates(listed@.take(i as int)),
        decreases listed@.len() - i,
    {
        assert(listed@.take(i + 1).drop_last() =~= listed@.take(i as int));
        assert(listed@.take(i + 1).last() == listed@[i as int]);
        if let Some(uid) = &listed[i].uid {
            if is_own_aggregate(uid.as_str()) {
                found.push(listed[i].id);
            }
        }
        i = i + 1;
    }
    assert(listed@.take(i as int) =~= listed@);
    Ok(found)
}

/// Whether a device is one that is plugged in.
pub open spec fn physical(usb: bool, uid: Seq<char>) -> bool {
    &&& usb
    &&& !has_part(uid, "::"@)
    &&& begins_with(uid, "AppleUSBAudioEngine:"@)
    &&& split_on(uid, ':').len() >= 4
    &&& split_on(uid, ':')[1] == "TC-Helicon"@
    &&& split_on(uid, ':')[2] == "GoXLR"@
}

/// Finds whether a device is one that is plugged in.
pub fn is_physical_goxlr_usb(usb: bool, uid: &str) -> (is: bool)
    ensures
        is == physical(usb, uid@),
{
    if !usb || text_has_part(uid, "::") || !text_begins_with(uid, "AppleUSBAudioEngine:") {
        return false;
    }
    let parts = split_chars(&chars_of(uid), ':');
    if parts.len() < 4 {
        return false;
    }
    let vendor = chars_of("TC-Helicon");
    let product = chars_of("GoXLR");
    assert(parts@[1]@ == split_on(uid@, ':')[1]);
    assert(parts@[2]@ == split_on(uid@, ':')[2]);
    same_chars(&parts[1], &vendor) && same_chars(&parts[2], &product)
}

/// The name and the identifier of a device that is plugged in; nothing where it is none, or one of
/// the two could not be read.
pub open spec fn physical_device(listed: ListedDevice) -> Option<(Seq<char>, Seq<char>)> {
    match (listed.name, listed.uid) {
        (Some(name), Some(uid)) => if listed.id != UNKNOWN_DEVICE && physical(listed.usb, uid@) {
            Some((name@, uid@))
        } else {
            None
        },
        _ => None,
    }
}

/// The devices that are plugged in, among those that the system lists.
pub open spec fn physical_devices(listed: Seq<ListedDevice>) -> Seq<(Seq<char>, Seq<char>)>
    decreases listed.len(),
{
    if listed.len() == 0 {
        Seq::empty()
    } else {
        let before = physical_devices(listed.drop_last());
        match physical_device(listed.last()) {
            Some(device) => before.push(device),
            None => before,
        }
    }
}

/// The names and identifiers of some devices.
pub open spec fn device_texts(devices: Seq<CoreAudioDevice>) -> Seq<(Seq<char>, Seq<char>)> {
    Seq::new(devices.len(), |i: int| (devices[i].display_name@, devices[i].uid@))
}

/// Lists the devices that are plugged in, among those that the system lists. It fails only where the
/// system gives no list.
pub fn get_goxlr_devices(listing: Result<Vec<ListedDevice>, ListingError>) -> (devices: Result<
    Vec<CoreAudioDevice>,
    ListingError,
>)
    ensures
        match listing {
            Ok(listed) => devices matches Ok(devices) && device_texts(devices@)
                == physical_devices(listed@),
            Err(error) => devices == Err::<Vec<CoreAudioDevice>, ListingError>(error),
        },
{
    let listed = match listing {
        Ok(listed) => listed,
        Err(error) => return Err(error),
    };
    let mut devices: Vec<CoreAudioDevice> = Vec::new();
    let mut i: usize = 0;
    assert(listed@.take(0) =~= Seq::empty());
    assert(device_texts(devices@) =~= Seq::empty());
    while i < listed.len()
        invariant
            i <= listed@.len(),
            device_texts(devices@) == physical_devices(listed@.take(i as int)),
        decreases listed@.len() - i,
    {
        assert(listed@.take(i + 1).drop_last() =~= listed@.take(i as int));
        assert(listed@.take(i + 1).last() == listed@[i as int]);
        let entry = &listed[i];
        i = i + 1;
        let name = match &entry.name {
            Some(name) => name,
            None => continue,
        };
        let uid = match &entry.uid {
            Some(uid) => uid,
            None => continue,
        };
        if entry.id != UNKNOWN_DEVICE && is_physical_goxlr_usb(entry.usb, uid.as_str()) {
            let ghost before = devices@;
            devices.push(CoreAudioDevice { display_name: name.clone(), uid: uid.clone() });
            assert(device_texts(devices@) =~= device_texts(before).push((name@, uid@)));
        }
    }
    assert(listed@.take(i as int) =~= listed@);
    Ok(devices)
}

/// A device that the daemon put together is not taken for one that is plugged in, whatever it was put
/// together of.
pub proof fn aggregate_is_not_physical(usb: bool, uid: Seq<char>, channel: Seq<char>)
    ensures
        !physical(usb, aggregate_uid(uid, channel)),
        own_aggregate(aggregate_uid(uid, channel)),
{
    reveal_strlit("GoXLR-Utility::Aggregate");
    reveal_strlit("::");
    let whole = aggregate_uid(uid, channel);
    let prefix = "GoXLR-Utility::Aggregate"@;
    assert(whole.take(prefix.len() as int) =~= prefix);
    assert(whole.skip(13).take(2) =~= "::"@);
    assert(begins_with(whole.skip(13), "::"@));
}

/// What is done to start the daemon with the session, or not to.
#[derive(Clone, Copy, Debug, PartialEq, Eq, Structural)]
pub enum AutostartAction {
    Remove,
    Create,
}

/// Why starting with the session cannot be set.
#[derive(Clone, Copy, Debug, PartialEq, Eq, Structural)]
pub enum AutostartError {
    NoHome,
    AlreadyPresent,
}

/// Decides what is done to start the daemon with the session, or not to. `file` says whether its file
/// is there; nothing where the user has no directory. Without the file it is written either way.
pub fn set_autostart(file: Option<bool>, enabled: bool) -> (action: Result<
    AutostartAction,
    AutostartError,
>)
    ensures
        action == (match file {
            None => Err::<AutostartAction, _>(AutostartError::NoHome),
            Some(exists) => if exists && !enabled {
                Ok(AutostartAction::Remove)
            } else if exists {
                Err(AutostartError::AlreadyPresent)
            } else {
                Ok(AutostartAction::Create)
            },
        }),
{
    match file {
        None => Err(AutostartError::NoHome),
        Some(exists) => {
            if exists && !enabled {
                Ok(AutostartAction::Remove)
            } else if exists {
                Err(AutostartError::AlreadyPresent)
            } else {
                Ok(AutostartAction::Create)
            }
        },
    }
}

/// Writes the file that starts a program with the session.
pub fn startup_file(template: &str, executable: &str) -> (text: String)
    ensures
        text@ == replaced(template@, "{{BINARY_PATH}}"@, executable@),
{
    proof {
        reveal_strlit("{{BINARY_PATH}}");
    }
    replace_all(template, "{{BINARY_PATH}}", executable)
}

} // verus!
