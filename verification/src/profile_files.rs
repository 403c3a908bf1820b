//! The files in which profiles are kept.

use crate::text::{joined, replace_all, replaced, same_text};
use vstd::prelude::*;
use vstd::string::*;

verus! {

/// The name of the profile that is always there.
pub open spec fn default_name() -> Seq<char> {
    "DEFAULT"@
}

/// Where a profile is taken from.
#[derive(Clone, Copy, Debug, PartialEq, Eq, Structural)]
pub enum ProfileSource {
    /// The directory at this place of the list.
    Directory(usize),
    /// The profile that the daemon brings.
    Embedded,
    Missing,
}

/// Decides where the profile of a name is taken from: the first directory that has it, or the one
/// that the daemon brings. `found` says which directories have it.
pub fn from_named(name: &str, found: &Vec<bool>) -> (source: ProfileSource)
    ensures
        match source {
            ProfileSource::Directory(i) => {
                &&& i < found@.len()
                &&& found@[i as int]
                &&& forall|j: int| 0 <= j < i ==> !#[trigger] found@[j]
            },
            ProfileSource::Embedded => !found@.contains(true) && name@ == default_name(),
            ProfileSource::Missing => !found@.contains(true) && name@ != default_name(),
        },
{
    let mut i: usize = 0;
    while i < found.len()
        invariant
            i <= found@.len(),
            forall|j: int| 0 <= j < i ==> !#[trigger] found@[j],
        decreases found@.len() - i,
    {
        if found[i] {
            return ProfileSource::Directory(i);
        }
        i = i + 1;
    }
    if same_text(name, "DEFAULT") {
        ProfileSource::Embedded
    } else {
        ProfileSource::Missing
    }
}

/// Decides where a profile is taken from at the start of a device: one that is missing, or cannot be
/// read, gives way to the one that the daemon brings. `readable` says whether the file can be read.
pub fn from_named_or_default(name: Option<&str>, found: &Vec<bool>, readable: bool) -> (source:
    ProfileSource)
    ensures
        match source {
            ProfileSource::Directory(i) => {
                &&& name is Some
                &&& readable
                &&& i < found@.len()
                &&& found@[i as int]
                &&& forall|j: int| 0 <= j < i ==> !#[trigger] found@[j]
            },
            ProfileSource::Embedded => name is None || !found@.contains(true) || !readable,
            ProfileSource::Missing => false,
        },
{
    let name = match name {
        Some(name) => name,
        None => return ProfileSource::Embedded,
    };
    match from_named(name, found) {
        ProfileSource::Directory(i) => {
            if readable {
                ProfileSource::Directory(i)
            } else {
                ProfileSource::Embedded
            }
        },
        _ => ProfileSource::Embedded,
    }
}

/// Names the file of a profile.
pub fn profile_file(name: &str) -> (file: String)
    ensures
        file@ == name@ + ".goxlr"@,
{
    joined(name, ".goxlr")
}

/// Names the file of a microphone profile.
pub fn mic_profile_file(name: &str) -> (file: String)
    ensures
        file@ == name@ + ".goxlrMicProfile"@,
{
    joined(name, ".goxlrMicProfile")
}

/// Names the preset that is written for an effect preset, whose own name may hold blanks.
pub fn preset_name(name: &str) -> (kept: String)
    ensures
        kept@ == replaced(name@, " "@, "_"@),
{
    proof {
        reveal_strlit(" ");
    }
    replace_all(name, " ", "_")
}

/// Decides whether a profile may be written: not over another, unless that was asked for.
pub fn write_profile(overwrite: bool, exists: bool) -> (may: bool)
    ensures
        may == (overwrite || !exists),
{
    overwrite || !exists
}

} // verus!
