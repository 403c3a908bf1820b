//! The words of the announcements.

use crate::plan::Announcement;
use crate::text::{decimal, decimal_text, joined};
use crate::types::{EffectBankPresets, EncoderName, MuteFunction};
use vstd::prelude::*;
use vstd::string::*;

verus! {

/// How a switch is called.
pub open spec fn state_name(on: bool) -> Seq<char> {
    if on {
        "On"@
    } else {
        "Off"@
    }
}

/// Says how a switch is called.
pub fn tts_bool_to_state(on: bool) -> (name: String)
    ensures
        name@ == state_name(on),
{
    if on {
        "On".to_owned()
    } else {
        "Off".to_owned()
    }
}

/// What is added to say where a channel is muted.
pub open spec fn target_name(target: MuteFunction) -> Seq<char> {
    match target {
        MuteFunction::All => ""@,
        MuteFunction::ToStream => " to Stream"@,
        MuteFunction::ToVoiceChat => " to Voice Chat"@,
        MuteFunction::ToPhones => " to Headphones"@,
        MuteFunction::ToLineOut => " to Line Out"@,
    }
}

/// Says where a channel is muted.
pub fn tts_target(target: MuteFunction) -> (name: String)
    ensures
        name@ == target_name(target),
{
    match target {
        MuteFunction::All => "".to_owned(),
        MuteFunction::ToStream => " to Stream".to_owned(),
        MuteFunction::ToVoiceChat => " to Voice Chat".to_owned(),
        MuteFunction::ToPhones => " to Headphones".to_owned(),
        MuteFunction::ToLineOut => " to Line Out".to_owned(),
    }
}

/// A number with its sign.
pub open spec fn signed(n: int) -> Seq<char> {
    if n < 0 {
        "-"@ + decimal((-n) as nat)
    } else {
        decimal(n as nat)
    }
}

/// Writes a number with its sign.
pub fn signed_text(n: i32) -> (text: String)
    ensures
        text@ == signed(n as int),
{
    if n < 0 {
        let size: i64 = 0 - (n as i64);
        joined("-", decimal_text(size as u64).as_str())
    } else {
        decimal_text(n as u64)
    }
}

/// The percentage that an amount stands for: none at -36, and all at 0. A part of a percent is counted
/// towards 0 on the side that the amount lies on.
pub open spec fn amount_percent(amount: int) -> int {
    if amount <= 0 {
        100 - 100 * (-amount) / 36
    } else {
        100 + 100 * amount / 36
    }
}

/// Works out the percentage that an amount stands for.
pub fn get_amount_percent(amount: i16) -> (percent: i32)
    ensures
        percent == amount_percent(amount as int),
        -36 <= amount <= 0 ==> 0 <= percent <= 100,
{
    let wide: i32 = amount as i32;
    if wide <= 0 {
        100 - 100 * (0 - wide) / 36
    } else {
        100 + 100 * wide / 36
    }
}

/// The number of a preset, as users count.
pub open spec fn preset_number(preset: EffectBankPresets) -> nat {
    (preset.index() + 1) as nat
}

/// The words of an announcement. `name` is what the channel, the bank or the preset is called, and
/// `value` what an encoder was turned to.
pub open spec fn words(announcement: Announcement, name: Seq<char>, value: int) -> Seq<char> {
    match announcement {
        Announcement::MicMuted(function) => "Mic Muted"@ + target_name(function),
        Announcement::MicUnmuted => "Mic Unmuted"@,
        Announcement::ChannelMuted(_, function) => name + " Muted"@ + target_name(function),
        Announcement::ChannelUnmuted(_) => name + " unmuted"@,
        Announcement::SampleBank(_) => "Sample "@ + name,
        Announcement::SampleClear(on) => "Sample Clear "@ + state_name(on),
        Announcement::EffectBank(preset) => "Effects "@ + decimal(preset_number(preset)) + ", "@
            + name,
        Announcement::Megaphone(on) => "Megaphone "@ + state_name(on),
        Announcement::Robot(on) => "Robot "@ + state_name(on),
        Announcement::HardTune(on) => "Hard tune "@ + state_name(on),
        Announcement::Effects(on) => "Effects "@ + state_name(on),
        Announcement::Encoder(encoder) => match encoder {
            EncoderName::Pitch => "Pitch "@ + signed(value),
            EncoderName::Gender => "Gender "@ + signed(value),
            EncoderName::Reverb => "Reverb "@ + signed(amount_percent(value)) + " percent"@,
            EncoderName::Echo => "Echo "@ + signed(amount_percent(value)) + " percent"@,
        },
    }
}

/// Puts an announcement into words.
pub fn announcement_text(announcement: Announcement, name: &str, value: i16) -> (text: String)
    ensures
        text@ == words(announcement, name@, value as int),
{
    match announcement {
        Announcement::MicMuted(function) => joined("Mic Muted", tts_target(function).as_str()),
        Announcement::MicUnmuted => "Mic Unmuted".to_owned(),
        Announcement::ChannelMuted(_, function) => {
            let muted = joined(name, " Muted");
            joined(muted.as_str(), tts_target(function).as_str())
        },
        Announcement::ChannelUnmuted(_) => joined(name, " unmuted"),
        Announcement::SampleBank(_) => joined("Sample ", name),
        Announcement::SampleClear(on) => joined("Sample Clear ", tts_bool_to_state(on).as_str()),
        Announcement::EffectBank(preset) => {
            let number: u64 = match preset {
                EffectBankPresets::Preset1 => 1,
                EffectBankPresets::Preset2 => 2,
                EffectBankPresets::Preset3 => 3,
                EffectBankPresets::Preset4 => 4,
                EffectBankPresets::Preset5 => 5,
                EffectBankPresets::Preset6 => 6,
            };
            let mut text = joined("Effects ", decimal_text(number).as_str());
            text.append(", ");
            text.append(name);
            text
        },
        Announcement::Megaphone(on) => joined("Megaphone ", tts_bool_to_state(on).as_str()),
        Announcement::Robot(on) => joined("Robot ", tts_bool_to_state(on).as_str()),
        Announcement::HardTune(on) => joined("Hard tune ", tts_bool_to_state(on).as_str()),
        Announcement::Effects(on) => joined("Effects ", tts_bool_to_state(on).as_str()),
        Announcement::Encoder(encoder) => match encoder {
            EncoderName::Pitch => joined("Pitch ", signed_text(value as i32).as_str()),
            EncoderName::Gender => joined("Gender ", signed_text(value as i32).as_str()),
            EncoderName::Reverb => {
                let percent: i32 = get_amount_percent(value);
                let text = joined("Reverb ", signed_text(percent).as_str());
                joined(text.as_str(), " percent")
            },
            EncoderName::Echo => {
                let percent: i32 = get_amount_percent(value);
                let text = joined("Echo ", signed_text(percent).as_str());
                joined(text.as_str(), " percent")
            },
        },
    }
}

} // verus!
