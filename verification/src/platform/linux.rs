//! Linux: what is worth a warning before the start, and how the daemon starts with the session.

use crate::files::to_lowercase;
use crate::files::lowercase;
use crate::text::{
    begins_with, chars_of, differ, has_part, is_variable, join_path, joined, occurrences,
    path_joined, replace_all, replaced, replacing_adds_length, replacing_keeps_count,
    replacing_nothing, replacing_variables, same_text, str_of, text_begins_with, text_has_part,
    text_of, trim_chars, trimmed,
};
use vstd::prelude::*;
use vstd::string::*;

verus! {

/// Whether a file with rules for devices is about the devices of the daemon.
pub open spec fn is_goxlr_rule(name: Seq<char>, contents: Option<Seq<char>>) -> bool {
    ||| has_part(name, "goxlr"@)
    ||| contents matches Some(contents) && (has_part(contents, "1220"@) || has_part(
        lowercase(contents),
        "goxlr"@,
    ))
}

/// Finds whether a file with rules for devices is about the devices of the daemon, by its name or by
/// its contents, where those can be read.
pub fn check_udev_rule(name: &str, contents: Option<&str>) -> (found: bool)
    ensures
        found == is_goxlr_rule(
            name@,
            match contents {
                Some(contents) => Some(contents@),
                None => None,
            },
        ),
{
    if text_has_part(name, "goxlr") {
        return true;
    }
    match contents {
        Some(contents) => text_has_part(contents, "1220") || text_has_part(
            to_lowercase(contents).as_str(),
            "goxlr",
        ),
        None => false,
    }
}

/// Finds whether there is a rule for the devices of the daemon, given what each file says.
pub fn check_udev_rules(files: &Vec<bool>) -> (found: bool)
    ensures
        found == files@.contains(true),
{
    let mut i: usize = 0;
    while i < files.len()
        invariant
            i <= files@.len(),
            forall|j: int| 0 <= j < i ==> !#[trigger] files@[j],
        decreases files@.len() - i,
    {
        if files[i] {
            assert(files@[i as int] == true);
            return true;
        }
        i = i + 1;
    }
    false
}

/// The text without the white space at either end.
fn read_trimmed(text: &str) -> (result: String)
    ensures
        result@ == trimmed(text@),
{
    text_of(trim_chars(&chars_of(text)).as_slice())
}

/// Whether the files that the system keeps for a device on the bus say that the daemon drives it.
pub open spec fn drives(vendor: Option<Seq<char>>, product: Option<Seq<char>>) -> bool {
    &&& vendor matches Some(vendor) && trimmed(vendor) == "1220"@
    &&& product matches Some(product) && begins_with(trimmed(product), "8fe"@)
}

/// Finds whether the daemon drives a device on the bus. `vendor` and `product` are the contents of
/// the files that the system keeps for it.
pub fn is_goxlr_usb_device(vendor: Option<&str>, product: Option<&str>) -> (drives_it: bool)
    ensures
        drives_it == drives(str_of(vendor), str_of(product)),
{
    let vendor = match vendor {
        Some(vendor) => read_trimmed(vendor),
        None => return false,
    };
    let product = match product {
        Some(product) => read_trimmed(product),
        None => return false,
    };
    same_text(vendor.as_str(), "1220") && text_begins_with(product.as_str(), "8fe")
}

/// Finds whether the system may put a device to sleep on its own. `control` is the contents of the
/// file that says so, where it can be read.
pub fn may_suspend(control: Option<&str>) -> (may: bool)
    ensures
        may == (control matches Some(control) && trimmed(control@) != "on"@),
{
    match control {
        Some(control) => !same_text(read_trimmed(control).as_str(), "on"),
        None => false,
    }
}

/// Whether the audio configuration asks for its variables in the way that newer systems need.
pub open spec fn has_markers(contents: Seq<char>) -> bool {
    has_part(contents, "${var:-__dev}"@) && has_part(contents, "${var:-__Device}"@)
}

/// Finds whether the audio configuration asks for its variables in the way that newer systems need.
pub fn has_split_conf_compat_markers(contents: &str) -> (has: bool)
    ensures
        has == has_markers(contents@),
{
    text_has_part(contents, "${var:-__dev}") && text_has_part(contents, "${var:-__Device}")
}

/// The audio configuration as newer systems need it.
pub open spec fn patched(contents: Seq<char>) -> Seq<char> {
    replaced(
        replaced(contents, "${var:__dev}"@, "${var:-__dev}"@),
        "${var:__Device}"@,
        "${var:-__Device}"@,
    )
}

/// Writes the audio configuration as newer systems need it.
pub fn patch_split_conf_contents(contents: &str) -> (result: String)
    ensures
        result@ == patched(contents@),
{
    proof {
        reveal_strlit("${var:__dev}");
        reveal_strlit("${var:__Device}");
    }
    let first = replace_all(contents, "${var:__dev}", "${var:-__dev}");
    replace_all(first.as_str(), "${var:__Device}", "${var:-__Device}")
}

/// The four forms of the variables each begin with the only dollar sign in them, and differ.
proof fn lemma_markers()
    ensures
        is_variable("${var:__dev}"@),
        is_variable("${var:-__dev}"@),
        is_variable("${var:__Device}"@),
        is_variable("${var:-__Device}"@),
        differ("${var:__dev}"@, "${var:-__dev}"@),
        differ("${var:__dev}"@, "${var:__Device}"@),
        differ("${var:__dev}"@, "${var:-__Device}"@),
        differ("${var:-__dev}"@, "${var:__dev}"@),
        differ("${var:-__dev}"@, "${var:__Device}"@),
        differ("${var:-__dev}"@, "${var:-__Device}"@),
        differ("${var:__Device}"@, "${var:__dev}"@),
        differ("${var:__Device}"@, "${var:-__dev}"@),
        differ("${var:__Device}"@, "${var:-__Device}"@),
        differ("${var:-__Device}"@, "${var:__dev}"@),
        differ("${var:-__Device}"@, "${var:-__dev}"@),
        differ("${var:-__Device}"@, "${var:__Device}"@),
        "${var:-__dev}"@.len() == "${var:__dev}"@.len() + 1,
        "${var:-__Device}"@.len() == "${var:__Device}"@.len() + 1,
{
    reveal_strlit("${var:__dev}");
    reveal_strlit("${var:-__dev}");
    reveal_strlit("${var:__Device}");
    reveal_strlit("${var:-__Device}");
    assert("${var:__dev}"@[6] == '_' && "${var:__dev}"@[8] == 'd');
    assert("${var:-__dev}"@[6] == '-' && "${var:-__dev}"@[9] == 'd');
    assert("${var:__Device}"@[6] == '_' && "${var:__Device}"@[8] == 'D');
    assert("${var:-__Device}"@[6] == '-' && "${var:-__Device}"@[9] == 'D');
}

/// No variable in the old form is left in a mended configuration.
pub proof fn nothing_old_is_left(contents: Seq<char>)
    ensures
        !has_part(patched(contents), "${var:__dev}"@),
        !has_part(patched(contents), "${var:__Device}"@),
{
    lemma_markers();
    let first = replaced(contents, "${var:__dev}"@, "${var:-__dev}"@);
    replacing_variables(contents, "${var:__dev}"@, "${var:-__dev}"@, "${var:__dev}"@);
    replacing_variables(first, "${var:__Device}"@, "${var:-__Device}"@, "${var:__dev}"@);
    replacing_variables(first, "${var:__Device}"@, "${var:-__Device}"@, "${var:__Device}"@);
}

/// A configuration without variables in the old form is not changed.
pub proof fn new_form_is_kept(contents: Seq<char>)
    requires
        !has_part(contents, "${var:__dev}"@),
        !has_part(contents, "${var:__Device}"@),
    ensures
        patched(contents) == contents,
{
    lemma_markers();
    replacing_nothing(contents, "${var:__dev}"@, "${var:-__dev}"@);
    replacing_nothing(contents, "${var:__Device}"@, "${var:-__Device}"@);
}

/// Mending a configuration twice is mending it once.
pub proof fn mending_twice_is_mending_once(contents: Seq<char>)
    ensures
        patched(patched(contents)) == patched(contents),
{
    nothing_old_is_left(contents);
    new_form_is_kept(patched(contents));
}

/// A mended configuration is longer by one character for every variable in the old form.
pub proof fn mending_adds_one_each(contents: Seq<char>)
    ensures
        patched(contents).len() == contents.len() + occurrences(contents, "${var:__dev}"@)
            + occurrences(contents, "${var:__Device}"@),
{
    lemma_markers();
    let first = replaced(contents, "${var:__dev}"@, "${var:-__dev}"@);
    replacing_adds_length(contents, "${var:__dev}"@, "${var:-__dev}"@);
    replacing_adds_length(first, "${var:__Device}"@, "${var:-__Device}"@);
    replacing_keeps_count(contents, "${var:__dev}"@, "${var:-__dev}"@, "${var:__Device}"@);
    let devs = occurrences(contents, "${var:__dev}"@) as int;
    let devices = occurrences(first, "${var:__Device}"@) as int;
    let one = "${var:-__dev}"@.len() - "${var:__dev}"@.len();
    let other = "${var:-__Device}"@.len() - "${var:__Device}"@.len();
    assert(devs * one == devs && devices * other == devices) by (nonlinear_arith)
        requires
            one == 1,
            other == 1,
    ;
}

/// A mended configuration has what newer systems need if each variable stood in it in either form,
/// and so never loses it.
pub proof fn mending_brings_markers(contents: Seq<char>)
    ensures
        has_markers(patched(contents)) <==> (has_part(contents, "${var:__dev}"@) || has_part(
            contents,
            "${var:-__dev}"@,
        )) && (has_part(contents, "${var:__Device}"@) || has_part(contents, "${var:-__Device}"@)),
        has_markers(contents) ==> has_markers(patched(contents)),
{
    lemma_markers();
    let first = replaced(contents, "${var:__dev}"@, "${var:-__dev}"@);
    replacing_variables(contents, "${var:__dev}"@, "${var:-__dev}"@, "${var:-__dev}"@);
    replacing_variables(contents, "${var:__dev}"@, "${var:-__dev}"@, "${var:__Device}"@);
    replacing_variables(contents, "${var:__dev}"@, "${var:-__dev}"@, "${var:-__Device}"@);
    replacing_variables(first, "${var:__Device}"@, "${var:-__Device}"@, "${var:-__dev}"@);
    replacing_variables(first, "${var:__Device}"@, "${var:-__Device}"@, "${var:-__Device}"@);
}

/// Finds whether the user is warned of the audio configuration: it lacks what newer systems need, and
/// could be mended.
pub fn check_alsa_split_conf(contents: Option<&str>) -> (warn: bool)
    ensures
        warn == (contents matches Some(contents) && !has_markers(contents@) && patched(contents@)
            != contents@),
{
    match contents {
        Some(contents) => {
            if has_split_conf_compat_markers(contents) {
                return false;
            }
            let mended = patch_split_conf_contents(contents);
            !same_text(mended.as_str(), contents)
        },
        None => false,
    }
}

/// What the checks before the start found.
#[derive(Clone, Copy, Debug, PartialEq, Eq, Structural)]
pub struct Findings {
    pub has_udev_rule: bool,
    pub suspends: bool,
    pub pipewire: bool,
    pub wireplumber: bool,
    /// Whether the audio server answers; nothing where it could not be asked.
    pub audio_server: Option<bool>,
    pub split_conf: bool,
}

/// Something that the user is warned of.
#[derive(Clone, Copy, Debug, PartialEq, Eq, Structural)]
pub enum Warning {
    NoUdevRule,
    PowerPolicy,
    AudioSession,
    AudioServer,
    SplitConf,
}

/// The warning, where there is reason for it.
pub open spec fn warning_if(reason: bool, warning: Warning) -> Seq<Warning> {
    if reason {
        seq![warning]
    } else {
        Seq::empty()
    }
}

/// Lists what the user is warned of before the start. Nothing of it keeps the daemon from starting.
pub fn perform_platform_preflight(findings: Findings) -> (warnings: Vec<Warning>)
    ensures
        warnings@ == warning_if(!findings.has_udev_rule, Warning::NoUdevRule) + warning_if(
            findings.suspends,
            Warning::PowerPolicy,
        ) + warning_if(!(findings.pipewire && findings.wireplumber), Warning::AudioSession)
            + warning_if(findings.audio_server == Some(false), Warning::AudioServer) + warning_if(
            findings.split_conf,
            Warning::SplitConf,
        ),
{
    let mut warnings: Vec<Warning> = Vec::new();
    if !findings.has_udev_rule {
        warnings.push(Warning::NoUdevRule);
    }
    if findings.suspends {
        warnings.push(Warning::PowerPolicy);
    }
    if !(findings.pipewire && findings.wireplumber) {
        warnings.push(Warning::AudioSession);
    }
    if let Some(false) = findings.audio_server {
        warnings.push(Warning::AudioServer);
    }
    if findings.split_conf {
        warnings.push(Warning::SplitConf);
    }
    assert(warnings@ =~= warning_if(!findings.has_udev_rule, Warning::NoUdevRule) + warning_if(
        findings.suspends,
        Warning::PowerPolicy,
    ) + warning_if(!(findings.pipewire && findings.wireplumber), Warning::AudioSession)
        + warning_if(findings.audio_server == Some(false), Warning::AudioServer) + warning_if(
        findings.split_conf,
        Warning::SplitConf,
    ));
    warnings
}

/// Finds whether the daemon starts with the session. `file` says whether its file is in the directory
/// of the programs that do; nothing where there is no such directory.
pub fn has_autostart(file: Option<bool>) -> (has: bool)
    ensures
        has == (file == Some(true)),
{
    match file {
        Some(there) => there,
        None => false,
    }
}

/// What is done about the file that starts the daemon with the session.
#[derive(Clone, Copy, Debug, PartialEq, Eq, Structural)]
pub enum LinkAction {
    Nothing,
    Write,
    Remove,
}

/// Whether the file is there once something was done about it. `file` is as for `has_autostart`.
pub open spec fn file_after(file: Option<bool>, action: LinkAction) -> Option<bool> {
    match (file, action) {
        (Some(_), LinkAction::Write) => Some(true),
        (Some(_), LinkAction::Remove) => Some(false),
        _ => file,
    }
}

/// What is done to have the daemon start with the session; nothing where that cannot be had. `file`
/// is as for `has_autostart`, and `program` says whether the directory of the program is known.
pub open spec fn creation(file: Option<bool>, program: bool) -> Option<LinkAction> {
    if file is Some && program {
        Some(LinkAction::Write)
    } else {
        None
    }
}

/// What is done to have the daemon not start with the session. `file` is as for `has_autostart`.
pub open spec fn removal(file: Option<bool>) -> LinkAction {
    if file == Some(true) {
        LinkAction::Remove
    } else {
        LinkAction::Nothing
    }
}

/// Decides what is done to have the daemon start with the session, or not to.
pub fn set_startup_link(file: Option<bool>, program: bool, enabled: bool) -> (action: Option<
    LinkAction,
>)
    ensures
        action == (if enabled {
            creation(file, program)
        } else {
            Some(removal(file))
        }),
{
    if enabled {
        if file.is_some() && program {
            return Some(LinkAction::Write);
        }
        return None;
    }
    if let Some(true) = file {
        return Some(LinkAction::Remove);
    }
    Some(LinkAction::Nothing)
}

/// The daemon starts with the session once that was asked for and done, and does not once the
/// opposite was. Without a directory the first cannot be had, and the second needs nothing.
pub proof fn autostart_follows_what_was_asked(file: Option<bool>, program: bool)
    ensures
        creation(file, program) matches Some(action) ==> file_after(file, action) == Some(true),
        file_after(file, removal(file)) != Some(true),
        file is None ==> creation(file, program) is None && removal(file) == LinkAction::Nothing,
{
}

/// Finds the directory of the programs that start with the session, by the variables that say where
/// configurations are.
pub fn get_startup_dir(config_home: Option<&str>, home: Option<&str>) -> (directory: Option<String>)
    ensures
        match config_home {
            Some(path) => directory matches Some(directory) && directory@ == path_joined(
                path@,
                "autostart"@,
            ),
            None => match home {
                Some(path) => directory matches Some(directory) && directory@ == path_joined(
                    path@ + "/.config"@,
                    "autostart"@,
                ),
                None => directory is None,
            },
        },
{
    if let Some(path) = config_home {
        return Some(join_path(path, "autostart"));
    }
    if let Some(path) = home {
        let config = joined(path, "/.config");
        return Some(join_path(config.as_str(), "autostart"));
    }
    None
}

/// A line of the file that starts the daemon with the session.
#[derive(Debug)]
pub struct DesktopLine {
    pub key: String,
    pub value: String,
}

/// The texts of a line.
pub open spec fn line_of(line: DesktopLine) -> (Seq<char>, Seq<char>) {
    (line.key@, line.value@)
}

/// Makes a line.
fn desktop_line(key: &str, value: &str) -> (line: DesktopLine)
    ensures
        line_of(line) == (key@, value@),
{
    DesktopLine { key: key.to_owned(), value: value.to_owned() }
}

/// Lists the lines of the file that starts the daemon with the session, for a program and the
/// directory that it is in.
pub fn create_startup_link(directory: &str, executable: &str) -> (lines: Vec<DesktopLine>)
    ensures
        lines@.map_values(|line: DesktopLine| line_of(line)) == seq![
            ("Type"@, "Application"@),
            ("Name"@, "GoXLR Utility"@),
            ("Comment"@, "A Tool for Configuring a GoXLR"@),
            ("Path"@, directory@),
            ("Exec"@, executable@),
            ("Terminal"@, "false"@),
        ],
{
    let mut lines: Vec<DesktopLine> = Vec::new();
    lines.push(desktop_line("Type", "Application"));
    lines.push(desktop_line("Name", "GoXLR Utility"));
    lines.push(desktop_line("Comment", "A Tool for Configuring a GoXLR"));
    lines.push(desktop_line("Path", directory));
    lines.push(desktop_line("Exec", executable));
    lines.push(desktop_line("Terminal", "false"));
    assert(lines@.map_values(|line: DesktopLine| line_of(line)) =~= seq![
        ("Type"@, "Application"@),
        ("Name"@, "GoXLR Utility"@),
        ("Comment"@, "A Tool for Configuring a GoXLR"@),
        ("Path"@, directory@),
        ("Exec"@, executable@),
        ("Terminal"@, "false"@),
    ]);
    lines
}

/// What is done about a signal of the session that it goes to sleep or wakes.
#[derive(Clone, Copy, Debug, PartialEq, Eq, Structural)]
pub enum SleepAction {
    /// The devices are put to sleep, and then the session is let go.
    SleepAndRelease,
    /// The devices are woken, and then the session is held for the next time.
    WakeAndHold,
}

/// Finds what is done about a signal of the session.
pub fn prepare_for_sleep(sleep: bool) -> (action: SleepAction)
    ensures
        action == (if sleep {
            SleepAction::SleepAndRelease
        } else {
            SleepAction::WakeAndHold
        }),
{
    if sleep {
        SleepAction::SleepAndRelease
    } else {
        SleepAction::WakeAndHold
    }
}

} // verus!
