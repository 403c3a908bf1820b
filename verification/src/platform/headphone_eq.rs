//! The equaliser for headphones, which another program runs.

use crate::text::{has_part, join_path, joined, path_joined, push_char, text_has_part, texts};
use vstd::prelude::*;
use vstd::string::*;

verus! {

/// Names the program that runs the equaliser.
pub fn backend_name() -> (name: String)
    ensures
        name@ == "EasyEffects"@,
{
    "EasyEffects".to_owned()
}

/// A character as it stands in the name of a preset.
pub open spec fn safe_char(c: char) -> char {
    if ('a' <= c <= 'z') || ('A' <= c <= 'Z') || ('0' <= c <= '9') || c == '-' || c == '_' {
        c
    } else {
        '_'
    }
}

/// The name of the preset for a device.
pub open spec fn preset_name(serial: Seq<char>) -> Seq<char> {
    "GoXLR-HeadphoneEQ-"@ + serial.map_values(|c: char| safe_char(c))
}

/// Names the preset for a device. Characters that do not belong into the name of a file give way.
pub fn preset_name_for_serial(serial: &str) -> (name: String)
    ensures
        name@ == preset_name(serial@),
{
    let mut name = "GoXLR-HeadphoneEQ-".to_owned();
    let count: usize = serial.unicode_len();
    let mut i: usize = 0;
    assert(name@ =~= "GoXLR-HeadphoneEQ-"@ + serial@.take(0).map_values(|c: char| safe_char(c)));
    while i < count
        invariant
            i <= count,
            count == serial@.len(),
            name@ == "GoXLR-HeadphoneEQ-"@ + serial@.take(i as int).map_values(
                |c: char| safe_char(c),
            ),
        decreases count - i,
    {
        let c = serial.get_char(i);
        let kept = if ('a' <= c && c <= 'z') || ('A' <= c && c <= 'Z') || ('0' <= c && c <= '9')
            || c == '-' || c == '_' {
            c
        } else {
            '_'
        };
        push_char(&mut name, kept);
        assert(serial@.take(i + 1).map_values(|c: char| safe_char(c)) =~= serial@.take(
            i as int,
        ).map_values(|c: char| safe_char(c)).push(safe_char(serial@[i as int])));
        assert(name@ =~= "GoXLR-HeadphoneEQ-"@ + serial@.take(i + 1).map_values(
            |c: char| safe_char(c),
        ));
        i = i + 1;
    }
    assert(serial@.take(i as int) =~= serial@);
    name
}

/// The directories below that of the user in which presets may be, the usual one first.
pub open spec fn preset_dirs() -> Seq<Seq<char>> {
    seq![
        ".local/share/easyeffects/output"@,
        ".config/easyeffects/output"@,
        ".var/app/com.github.wwmm.easyeffects/data/easyeffects/output"@,
        ".var/app/com.github.wwmm.easyeffects/config/easyeffects/output"@,
    ]
}

/// Lists the directories in which presets may be. There are none without a directory of the user.
pub fn candidate_preset_dirs(home: Option<&str>) -> (dirs: Vec<String>)
    ensures
        match home {
            Some(home) => texts(dirs@) == preset_dirs().map_values(
                |dir: Seq<char>| path_joined(home@, dir),
            ),
            None => dirs@.len() == 0,
        },
{
    let mut dirs: Vec<String> = Vec::new();
    if let Some(home) = home {
        dirs.push(join_path(home, ".local/share/easyeffects/output"));
        dirs.push(join_path(home, ".config/easyeffects/output"));
        dirs.push(join_path(home, ".var/app/com.github.wwmm.easyeffects/data/easyeffects/output"));
        dirs.push(join_path(home, ".var/app/com.github.wwmm.easyeffects/config/easyeffects/output"));
        assert(texts(dirs@) =~= preset_dirs().map_values(
            |dir: Seq<char>| path_joined(home@, dir),
        ));
    }
    dirs
}

/// Names the directory for presets where none is there; nothing without a directory of the user.
pub fn default_preset_dir(home: Option<&str>) -> (dir: Option<String>)
    ensures
        match home {
            Some(home) => dir matches Some(dir) && dir@ == path_joined(
                home@,
                ".local/share/easyeffects/output"@,
            ),
            None => dir is None,
        },
{
    match home {
        Some(home) => Some(join_path(home, ".local/share/easyeffects/output")),
        None => None,
    }
}

/// The place of the first directory that is there.
pub open spec fn first_there(exists: Seq<bool>, i: int) -> Option<int>
    decreases exists.len() - i,
{
    if i < 0 || i >= exists.len() {
        None
    } else if exists[i] {
        Some(i)
    } else {
        first_there(exists, i + 1)
    }
}

/// Finds the file of a preset: in the first directory that is there, or else in the usual one.
/// `exists` says which of the directories are there.
pub fn resolve_preset_path(name: &str, home: Option<&str>, exists: &Vec<bool>) -> (path: Option<
    String,
>)
    requires
        exists@.len() == (if home is Some {
            preset_dirs().len()
        } else {
            0
        }),
    ensures
        match home {
            None => path is None,
            Some(home) => path matches Some(path) && path@ == path_joined(
                path_joined(
                    home@,
                    preset_dirs()[match first_there(exists@, 0) {
                        Some(i) => i,
                        None => 0,
                    }],
                ),
                name@ + ".json"@,
            ),
        },
{
    let dirs = candidate_preset_dirs(home);
    assert(texts(dirs@).len() == dirs@.len());
    let mut i: usize = 0;
    while i < dirs.len() && !exists[i]
        invariant
            i <= dirs@.len(),
            dirs@.len() == exists@.len(),
            first_there(exists@, 0) == first_there(exists@, i as int),
        decreases dirs@.len() - i,
    {
        i = i + 1;
    }
    let directory = if i < dirs.len() {
        assert(texts(dirs@)[i as int] == dirs@[i as int]@);
        dirs[i].clone()
    } else {
        match default_preset_dir(home) {
            Some(directory) => directory,
            None => return None,
        }
    };
    let file = joined(name, ".json");
    Some(join_path(directory.as_str(), file.as_str()))
}

/// A character in lower case, where it is a plain letter.
pub open spec fn ascii_lower(c: char) -> char {
    if 'A' <= c <= 'Z' {
        "abcdefghijklmnopqrstuvwxyz"@[c as u32 - 'A' as u32]
    } else {
        c
    }
}

/// A text in lower case, as far as its letters are plain.
pub open spec fn ascii_lowercase(text: Seq<char>) -> Seq<char> {
    text.map_values(|c: char| ascii_lower(c))
}

/// Puts the letters from A to Z into lower case, and keeps all else.
fn to_ascii_lowercase(text: &str) -> (lower: String)
    ensures
        lower@ == ascii_lowercase(text@),
{
    proof {
        reveal_strlit("abcdefghijklmnopqrstuvwxyz");
    }
    let mut lower = String::new();
    let count: usize = text.unicode_len();
    let mut i: usize = 0;
    while i < count
        invariant
            i <= count,
            count == text@.len(),
            "abcdefghijklmnopqrstuvwxyz"@.len() == 26,
            lower@ == ascii_lowercase(text@).take(i as int),
        decreases count - i,
    {
        let c: char = text.get_char(i);
        if 'A' <= c && c <= 'Z' {
            let place: usize = (c as u32 - 'A' as u32) as usize;
            push_char(&mut lower, "abcdefghijklmnopqrstuvwxyz".get_char(place));
        } else {
            push_char(&mut lower, c);
        }
        assert(ascii_lowercase(text@).take(i + 1) =~= ascii_lowercase(text@).take(i as int).push(
            ascii_lower(text@[i as int]),
        ));
        i = i + 1;
    }
    assert(ascii_lowercase(text@).take(i as int) =~= ascii_lowercase(text@));
    lower
}

/// Whether a message says that there is no session in which the program could run.
pub open spec fn display_error(message: Seq<char>) -> bool {
    let text = ascii_lowercase(message);
    ||| has_part(text, "failed to open display"@)
    ||| has_part(text, "cannot open display"@)
    ||| has_part(text, "wayland"@)
    ||| has_part(text, "xdg_runtime_dir"@)
    ||| has_part(text, "session bus"@)
    ||| has_part(text, "dbus"@)
    ||| has_part(text, "pipewire"@)
    ||| has_part(text, "pulse"@)
}

/// Finds whether a message says that there is no session in which the program could run.
pub fn is_display_error(message: &str) -> (is: bool)
    ensures
        is == display_error(message@),
{
    let text = to_ascii_lowercase(message);
    text_has_part(text.as_str(), "failed to open display") || text_has_part(
        text.as_str(),
        "cannot open display",
    ) || text_has_part(text.as_str(), "wayland") || text_has_part(
        text.as_str(),
        "xdg_runtime_dir",
    ) || text_has_part(text.as_str(), "session bus") || text_has_part(text.as_str(), "dbus")
        || text_has_part(text.as_str(), "pipewire") || text_has_part(text.as_str(), "pulse")
}

/// How often loading a preset is tried again.
pub const RETRIES: u32 = 10;

/// What is done after a try to load a preset.
#[derive(Clone, Copy, Debug, PartialEq, Eq, Structural)]
pub enum LoadStep {
    Done,
    /// The program is started, and loading is tried again.
    StartAndRetry,
    Retry,
    /// The preset is written, but nobody can load it now.
    LeaveUnloaded,
    Fail,
}

/// What is done after try number `attempt`, the first being 0. `error` is what went wrong.
pub open spec fn load_step(attempt: u32, error: Option<Seq<char>>) -> LoadStep {
    match error {
        None => LoadStep::Done,
        Some(error) => if attempt == 0 {
            LoadStep::StartAndRetry
        } else if attempt < RETRIES {
            LoadStep::Retry
        } else if display_error(error) {
            LoadStep::LeaveUnloaded
        } else {
            LoadStep::Fail
        },
    }
}

/// Decides what is done after a try to load a preset.
pub fn apply_headphone_eq(attempt: u32, error: Option<&str>) -> (step: LoadStep)
    ensures
        step == load_step(
            attempt,
            match error {
                Some(error) => Some(error@),
                None => None,
            },
        ),
{
    let error = match error {
        Some(error) => error,
        None => return LoadStep::Done,
    };
    if attempt == 0 {
        LoadStep::StartAndRetry
    } else if attempt < RETRIES {
        LoadStep::Retry
    } else if is_display_error(error) {
        LoadStep::LeaveUnloaded
    } else {
        LoadStep::Fail
    }
}

/// Loading a preset is given up in the end: after the last try there is no other.
pub proof fn loading_ends(attempt: u32, error: Option<Seq<char>>)
    requires
        attempt >= RETRIES,
    ensures
        load_step(attempt, error) != LoadStep::Retry,
        load_step(attempt, error) != LoadStep::StartAndRetry,
{
}

} // verus!
