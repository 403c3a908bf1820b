//! What the daemon says aloud.

use vstd::prelude::*;

verus! {

/// What went wrong with speaking.
#[derive(Clone, Copy, Debug, PartialEq, Eq, Structural)]
pub enum TtsError {
    Unavailable,
}

/// A voice that says nothing, for a daemon that was built without one.
#[derive(Clone, Copy, Debug, PartialEq, Eq, Structural)]
pub struct Tts {}

impl Tts {
    /// The voice is always there.
    pub fn default() -> (tts: Result<Tts, TtsError>)
        ensures
            tts is Ok,
    {
        Ok(Tts {  })
    }

    /// There is nothing to stop.
    pub fn stop(&self) -> (result: Result<(), TtsError>)
        ensures
            result is Ok,
    {
        Ok(())
    }

    /// The voice counts as busy.
    pub fn is_speaking(&self) -> (speaking: Result<bool, TtsError>)
        ensures
            speaking == Ok::<bool, TtsError>(true),
    {
        Ok(true)
    }

    /// Says nothing.
    pub fn speak(&self, _text: String, _interrupt: bool) -> (result: Result<(), TtsError>)
        ensures
            result is Ok,
    {
        Ok(())
    }
}

/// What is done to say something.
#[derive(Clone, Copy, Debug, PartialEq, Eq, Structural)]
pub enum SpeakAction {
    Nothing,
    /// What is being said is cut off, and the message said.
    StopAndSpeak,
    /// The same, once a voice was made.
    CreateStopAndSpeak,
}

/// Decides what is done to say something. `enabled` says whether the user wants it; nothing where
/// the daemon cannot speak. `has_voice` says whether there is a voice already.
pub fn speak_tts(enabled: Option<bool>, has_voice: bool) -> (action: SpeakAction)
    ensures
        action == (if enabled != Some(true) {
            SpeakAction::Nothing
        } else if has_voice {
            SpeakAction::StopAndSpeak
        } else {
            SpeakAction::CreateStopAndSpeak
        }),
{
    match enabled {
        Some(true) => {
            if has_voice {
                SpeakAction::StopAndSpeak
            } else {
                SpeakAction::CreateStopAndSpeak
            }
        },
        _ => SpeakAction::Nothing,
    }
}

/// Decides whether a voice is given up: speaking was switched off, or it has nothing to say.
/// `speaking` is nothing where the voice does not tell.
pub fn check_active(enabled: Option<bool>, speaking: Option<bool>) -> (give_up: bool)
    ensures
        give_up == (enabled == Some(false) || speaking == Some(false)),
{
    if let Some(false) = enabled {
        return true;
    }
    if let Some(false) = speaking {
        return true;
    }
    false
}

} // verus!
