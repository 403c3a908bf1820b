//! The icon in the tray, its menu, and the hidden window behind it.

use crate::events::EventTriggers;
use crate::packet::PathTypes;
use vstd::prelude::*;
use vstd::string::*;

verus! {

/// What the menu of the tray offered in earlier times.
#[derive(Clone, Copy, Debug, PartialEq, Eq, Structural)]
pub enum Message {
    Open,
    Exit,
}

/// Finds the address that a message opens.
pub fn start_event_handler(message: Message) -> (address: Option<String>)
    ensures
        match message {
            Message::Open => address matches Some(address) && address@ == "http://localhost:14564/"@,
            Message::Exit => address is None,
        },
{
    match message {
        Message::Open => Some("http://localhost:14564/".to_owned()),
        Message::Exit => None,
    }
}

/// What the menu offers.
#[derive(Clone, Copy, Debug, PartialEq, Eq, Structural)]
pub enum TrayOption {
    Configure,
    OpenPathProfiles,
    OpenPathMicProfiles,
    OpenPathPresets,
    OpenPathSamples,
    OpenPathIcons,
    OpenPathLogs,
    Quit,
}

impl TrayOption {
    /// The place of this option.
    pub open spec fn index(self) -> int {
        match self {
            TrayOption::Configure => 0,
            TrayOption::OpenPathProfiles => 1,
            TrayOption::OpenPathMicProfiles => 2,
            TrayOption::OpenPathPresets => 3,
            TrayOption::OpenPathSamples => 4,
            TrayOption::OpenPathIcons => 5,
            TrayOption::OpenPathLogs => 6,
            TrayOption::Quit => 7,
        }
    }

    /// What the user reads.
    pub open spec fn label(self) -> Seq<char> {
        match self {
            TrayOption::Configure => "Configure GoXLR"@,
            TrayOption::OpenPathProfiles => "Profiles"@,
            TrayOption::OpenPathMicProfiles => "Mic Profiles"@,
            TrayOption::OpenPathPresets => "Presets"@,
            TrayOption::OpenPathSamples => "Samples"@,
            TrayOption::OpenPathIcons => "Icons"@,
            TrayOption::OpenPathLogs => "Logs"@,
            TrayOption::Quit => "Quit"@,
        }
    }

    /// What choosing this option leads to.
    pub open spec fn event(self) -> EventTriggers {
        match self {
            TrayOption::Configure => EventTriggers::Activate,
            TrayOption::OpenPathProfiles => EventTriggers::Open(PathTypes::Profiles),
            TrayOption::OpenPathMicProfiles => EventTriggers::Open(PathTypes::MicProfiles),
            TrayOption::OpenPathPresets => EventTriggers::Open(PathTypes::Presets),
            TrayOption::OpenPathSamples => EventTriggers::Open(PathTypes::Samples),
            TrayOption::OpenPathIcons => EventTriggers::Open(PathTypes::Icons),
            TrayOption::OpenPathLogs => EventTriggers::Open(PathTypes::Logs),
            TrayOption::Quit => EventTriggers::Stop(false),
        }
    }

    /// Says what the user reads.
    pub fn get_label(&self) -> (label: String)
        ensures
            label@ == self.label(),
    {
        match self {
            TrayOption::Configure => "Configure GoXLR".to_owned(),
            TrayOption::OpenPathProfiles => "Profiles".to_owned(),
            TrayOption::OpenPathMicProfiles => "Mic Profiles".to_owned(),
            TrayOption::OpenPathPresets => "Presets".to_owned(),
            TrayOption::OpenPathSamples => "Samples".to_owned(),
            TrayOption::OpenPathIcons => "Icons".to_owned(),
            TrayOption::OpenPathLogs => "Logs".to_owned(),
            TrayOption::Quit => "Quit".to_owned(),
        }
    }

    /// Finds what choosing this option leads to.
    pub fn run_tray(self) -> (event: EventTriggers)
        ensures
            event == self.event(),
    {
        match self {
            TrayOption::Configure => EventTriggers::Activate,
            TrayOption::OpenPathProfiles => EventTriggers::Open(PathTypes::Profiles),
            TrayOption::OpenPathMicProfiles => EventTriggers::Open(PathTypes::MicProfiles),
            TrayOption::OpenPathPresets => EventTriggers::Open(PathTypes::Presets),
            TrayOption::OpenPathSamples => EventTriggers::Open(PathTypes::Samples),
            TrayOption::OpenPathIcons => EventTriggers::Open(PathTypes::Icons),
            TrayOption::OpenPathLogs => EventTriggers::Open(PathTypes::Logs),
            TrayOption::Quit => EventTriggers::Stop(false),
        }
    }

    /// Finds the option at a place.
    pub fn menu_item(tag: usize) -> (option: Option<TrayOption>)
        ensures
            match option {
                Some(option) => option.index() == tag,
                None => tag >= 8,
            },
    {
        match tag {
            0 => Some(TrayOption::Configure),
            1 => Some(TrayOption::OpenPathProfiles),
            2 => Some(TrayOption::OpenPathMicProfiles),
            3 => Some(TrayOption::OpenPathPresets),
            4 => Some(TrayOption::OpenPathSamples),
            5 => Some(TrayOption::OpenPathIcons),
            6 => Some(TrayOption::OpenPathLogs),
            7 => Some(TrayOption::Quit),
            _ => None,
        }
    }
}

/// An option is found again by its place: no two share one.
pub proof fn options_have_places(a: TrayOption, b: TrayOption)
    requires
        a.index() == b.index(),
    ensures
        a == b,
        0 <= a.index() < 8,
{
}

/// The option under a number of the menu on Windows, where separators have numbers too.
pub open spec fn numbered_option(id: u32) -> Option<TrayOption> {
    match id {
        0 => Some(TrayOption::Configure),
        4 => Some(TrayOption::Quit),
        10 => Some(TrayOption::OpenPathProfiles),
        11 => Some(TrayOption::OpenPathMicProfiles),
        13 => Some(TrayOption::OpenPathPresets),
        14 => Some(TrayOption::OpenPathSamples),
        15 => Some(TrayOption::OpenPathIcons),
        17 => Some(TrayOption::OpenPathLogs),
        _ => None,
    }
}

/// Finds the option under a number of the menu on Windows.
pub fn menu_command(id: u32) -> (option: Option<TrayOption>)
    ensures
        option == numbered_option(id),
{
    match id {
        0 => Some(TrayOption::Configure),
        4 => Some(TrayOption::Quit),
        10 => Some(TrayOption::OpenPathProfiles),
        11 => Some(TrayOption::OpenPathMicProfiles),
        13 => Some(TrayOption::OpenPathPresets),
        14 => Some(TrayOption::OpenPathSamples),
        15 => Some(TrayOption::OpenPathIcons),
        17 => Some(TrayOption::OpenPathLogs),
        _ => None,
    }
}

/// Finds what a click on the icon leads to. On macOS a click opens the menu by itself.
pub fn left_click(macos: bool) -> (event: Option<EventTriggers>)
    ensures
        event == (if macos {
            None
        } else {
            Some(EventTriggers::Activate)
        }),
{
    if macos {
        None
    } else {
        Some(EventTriggers::Activate)
    }
}

/// A message to the hidden window.
#[derive(Clone, Copy, Debug, PartialEq, Eq, Structural)]
pub enum WindowMessage {
    Created,
    MenuCommand(u32),
    /// A button was released over the icon: the left one or the right one. The flag says whether the
    /// place of the pointer is known.
    ButtonUp(bool, bool),
    Destroyed,
    CloseAsked,
    /// The session is about to end.
    QueryEndSession,
    EndSession,
    Suspend,
    Resume,
    /// The bar with the icons was made anew.
    BarCreated,
    Other,
}

/// What is done about a message.
#[derive(Debug)]
pub enum WindowAction {
    Nothing,
    CreateIconAndMenu,
    CreateMenu,
    CreateIcon,
    DestroyIcon,
    ShowMenu,
    Send(EventTriggers),
    /// The event is sent, and the system is told that the message was dealt with.
    SendAndKeep(EventTriggers),
    /// The system is told that the message was dealt with.
    Keep,
    /// The event is sent, and the end of the daemon waited for.
    SendAndWaitForEnd(EventTriggers),
    /// The event is sent, and the answer waited for, but not for long.
    SendAndWaitBriefly(EventTriggers),
}

/// What is done about a message, given whether the icon is shown.
pub open spec fn window_action(message: WindowMessage, show_tray: bool) -> WindowAction {
    match message {
        WindowMessage::Created => if show_tray {
            WindowAction::CreateIconAndMenu
        } else {
            WindowAction::CreateMenu
        },
        WindowMessage::MenuCommand(id) => match numbered_option(id) {
            Some(option) => WindowAction::Send(option.event()),
            None => WindowAction::Nothing,
        },
        WindowMessage::ButtonUp(left, known) => if !known {
            WindowAction::Keep
        } else if left {
            WindowAction::Send(EventTriggers::Activate)
        } else {
            WindowAction::ShowMenu
        },
        WindowMessage::Destroyed => if show_tray {
            WindowAction::DestroyIcon
        } else {
            WindowAction::Nothing
        },
        WindowMessage::CloseAsked => WindowAction::SendAndKeep(EventTriggers::Stop(false)),
        WindowMessage::QueryEndSession => WindowAction::SendAndWaitForEnd(
            EventTriggers::Stop(false),
        ),
        WindowMessage::EndSession => WindowAction::Nothing,
        WindowMessage::Suspend => WindowAction::SendAndWaitBriefly(EventTriggers::Sleep),
        WindowMessage::Resume => WindowAction::Send(EventTriggers::Wake),
        WindowMessage::BarCreated => if show_tray {
            WindowAction::CreateIcon
        } else {
            WindowAction::Nothing
        },
        WindowMessage::Other => WindowAction::Nothing,
    }
}

/// Decides what is done about a message to the hidden window.
pub fn window_proc(message: WindowMessage, show_tray: bool) -> (action: WindowAction)
    ensures
        action == window_action(message, show_tray),
{
    match message {
        WindowMessage::Created => {
            if show_tray {
                WindowAction::CreateIconAndMenu
            } else {
                WindowAction::CreateMenu
            }
        },
        WindowMessage::MenuCommand(id) => match menu_command(id) {
            Some(option) => WindowAction::Send(option.run_tray()),
            None => WindowAction::Nothing,
        },
        WindowMessage::ButtonUp(left, known) => {
            if !known {
                WindowAction::Keep
            } else if left {
                WindowAction::Send(EventTriggers::Activate)
            } else {
                WindowAction::ShowMenu
            }
        },
        WindowMessage::Destroyed => {
            if show_tray {
                WindowAction::DestroyIcon
            } else {
                WindowAction::Nothing
            }
        },
        WindowMessage::CloseAsked => WindowAction::SendAndKeep(EventTriggers::Stop(false)),
        WindowMessage::QueryEndSession => WindowAction::SendAndWaitForEnd(
            EventTriggers::Stop(false),
        ),
        WindowMessage::EndSession => WindowAction::Nothing,
        WindowMessage::Suspend => WindowAction::SendAndWaitBriefly(EventTriggers::Sleep),
        WindowMessage::Resume => WindowAction::Send(EventTriggers::Wake),
        WindowMessage::BarCreated => {
            if show_tray {
                WindowAction::CreateIcon
            } else {
                WindowAction::Nothing
            }
        },
        WindowMessage::Other => WindowAction::Nothing,
    }
}

/// How often an answer is looked for before the system goes to sleep, five milliseconds apart.
pub const SLEEP_LOOKS: u32 = 200;

/// Decides whether to look for an answer again after so many looks.
pub fn keep_waiting(looks: u32) -> (again: bool)
    ensures
        again == (looks <= SLEEP_LOOKS),
{
    looks <= SLEEP_LOOKS
}

/// The text that is shown over the icon, in a field of fixed length.
pub fn tooltip(msg: &str) -> (field: [u16; 128])
    requires
        msg.spec_bytes().len() <= 128,
    ensures
        forall|i: int|
            0 <= i < 128 ==> #[trigger] field@[i] == (if i < msg.spec_bytes().len() {
                msg.spec_bytes()[i] as u16
            } else {
                0
            }),
{
    let mut field: [u16; 128] = [0;128];
    let message = msg.as_bytes();
    let mut i: usize = 0;
    while i < message.len()
        invariant
            i <= message@.len() <= 128,
            message@ == msg.spec_bytes(),
            forall|j: int|
                0 <= j < 128 ==> #[trigger] field@[j] == (if j < i {
                    message@[j] as u16
                } else {
                    0
                }),
        decreases message@.len() - i,
    {
        field[i] = message[i] as u16;
        i = i + 1;
    }
    field
}

/// The pixels with the opacity in front, where it was behind the colours.
pub open spec fn turned(pixels: Seq<u8>) -> Seq<u8> {
    Seq::new(
        pixels.len(),
        |i: int|
            if i % 4 == 0 {
                pixels[i + 3]
            } else {
                pixels[i - 1]
            },
    )
}

/// Puts the opacity of each pixel in front of its colours.
pub fn rgba_to_argb(input: &Vec<u8>) -> (moved: Vec<u8>)
    requires
        input@.len() % 4 == 0,
    ensures
        moved@ == turned(input@),
{
    let mut moved: Vec<u8> = Vec::new();
    let mut i: usize = 0;
    while i < input.len()
        invariant
            i <= input@.len(),
            i % 4 == 0,
            input@.len() % 4 == 0,
            moved@ == turned(input@).take(i as int),
        decreases input@.len() - i,
    {
        moved.push(input[i + 3]);
        moved.push(input[i]);
        moved.push(input[i + 1]);
        moved.push(input[i + 2]);
        assert(moved@ =~= turned(input@).take(i + 4));
        i = i + 4;
    }
    assert(turned(input@).take(i as int) =~= turned(input@));
    moved
}

/// The mask of the pixels: for each one more than its opacity, which is nothing for a full one.
pub open spec fn mask_of(pixels: Seq<u8>) -> Seq<u8> {
    Seq::new(
        (pixels.len() / 4) as nat,
        |i: int|
            if pixels[4 * i + 3] == 255 {
                0u8
            } else {
                (pixels[4 * i + 3] + 1) as u8
            },
    )
}

/// Makes the mask of the pixels of an icon.
pub fn alpha_mask(rgba: &Vec<u8>) -> (mask: Vec<u8>)
    requires
        rgba@.len() % 4 == 0,
    ensures
        mask@ == mask_of(rgba@),
{
    let mut mask: Vec<u8> = Vec::new();
    let mut i: usize = 0;
    while i < rgba.len()
        invariant
            i <= rgba@.len(),
            i % 4 == 0,
            rgba@.len() % 4 == 0,
            mask@ == mask_of(rgba@).take(i as int / 4),
        decreases rgba@.len() - i,
    {
        mask.push(rgba[i + 3].wrapping_sub(255));
        assert(mask@ =~= mask_of(rgba@).take((i + 4) as int / 4));
        i = i + 4;
    }
    assert(mask_of(rgba@).take(i as int / 4) =~= mask_of(rgba@));
    mask
}

} // verus!
