//! What the lights of the buttons and the clients are shown.

use crate::device::mute_laws::{mute_button_toggles, unmuting_puts_the_button_out};
use crate::device::state::{Draft, Mixer};
use crate::lighting::{button_state, Lights};
use crate::profile::ProfileAdapter;
use crate::types::{
    ButtonStates, Buttons, EffectBankPresets, FaderName, MuteState, SampleBank,
    SampleButtons,
};
use vstd::prelude::*;

verus! {

/// Whether a light shows neither its first colour nor flashes.
pub open spec fn is_out(state: ButtonStates) -> bool {
    state == ButtonStates::DimmedColour1 || state == ButtonStates::Colour2 || state
        == ButtonStates::DimmedColour2
}

/// The mute button under a fader.
pub open spec fn button_under(fader: FaderName) -> Buttons {
    match fader {
        FaderName::A => Buttons::Fader1Mute,
        FaderName::B => Buttons::Fader2Mute,
        FaderName::C => Buttons::Fader3Mute,
        FaderName::D => Buttons::Fader4Mute,
    }
}

/// The button under a fader goes out when the fader is unmuted, flashes when the button was held, and
/// shows its first colour after a short press of an unlit button.
pub proof fn mute_is_shown_under_its_fader(lights: Lights, draft: Draft, fader: FaderName)
    ensures
        ({
            let button = draft.mixer.profile.mutes.at(fader);
            let shown = |after: Draft| button_state(lights, after.mixer.profile, button_under(fader));
            &&& is_out(shown(draft.unmuted(fader)))
            &&& shown(draft.fader_mute(fader, true)) == ButtonStates::Flashing
            &&& !button.on && !button.blink ==> shown(draft.fader_mute(fader, false))
                == ButtonStates::Colour1
            &&& button.on ==> is_out(shown(draft.fader_mute(fader, false)))
        }),
{
    unmuting_puts_the_button_out(draft, fader);
    mute_button_toggles(draft, fader);
}

/// The button of an effect shows its first colour exactly while the effect is on, and that of all
/// effects while they are.
pub proof fn switched_effect_is_shown(lights: Lights, profile: ProfileAdapter, on: bool)
    ensures
        button_state(lights, profile.with_megaphone(on), Buttons::EffectMegaphone)
            == ButtonStates::Colour1 <==> on,
        button_state(lights, profile.with_robot(on), Buttons::EffectRobot) == ButtonStates::Colour1
            <==> on,
        button_state(lights, profile.with_hardtune(on), Buttons::EffectHardTune)
            == ButtonStates::Colour1 <==> on,
        button_state(lights, profile.with_fx(on), Buttons::EffectFx) == ButtonStates::Colour1
            <==> on,
        !on ==> is_out(button_state(lights, profile.with_megaphone(on), Buttons::EffectMegaphone)),
        !on ==> is_out(button_state(lights, profile.with_robot(on), Buttons::EffectRobot)),
        !on ==> is_out(button_state(lights, profile.with_hardtune(on), Buttons::EffectHardTune)),
        !on ==> is_out(button_state(lights, profile.with_fx(on), Buttons::EffectFx)),
{
}

/// The button of the preset or bank that is selected shows its first colour.
pub proof fn selection_is_shown(lights: Lights, profile: ProfileAdapter)
    ensures
        button_state(
            lights,
            profile.with_effect_bank(EffectBankPresets::Preset1),
            Buttons::EffectSelect1,
        ) == ButtonStates::Colour1,
        button_state(
            lights,
            profile.with_effect_bank(EffectBankPresets::Preset2),
            Buttons::EffectSelect2,
        ) == ButtonStates::Colour1,
        button_state(
            lights,
            profile.with_effect_bank(EffectBankPresets::Preset3),
            Buttons::EffectSelect3,
        ) == ButtonStates::Colour1,
        button_state(
            lights,
            profile.with_effect_bank(EffectBankPresets::Preset4),
            Buttons::EffectSelect4,
        ) == ButtonStates::Colour1,
        button_state(
            lights,
            profile.with_effect_bank(EffectBankPresets::Preset5),
            Buttons::EffectSelect5,
        ) == ButtonStates::Colour1,
        button_state(
            lights,
            profile.with_effect_bank(EffectBankPresets::Preset6),
            Buttons::EffectSelect6,
        ) == ButtonStates::Colour1,
        button_state(
            lights,
            profile.with_sample_bank(SampleBank::A),
            Buttons::SamplerSelectA,
        ) == ButtonStates::Colour1,
        button_state(
            lights,
            profile.with_sample_bank(SampleBank::B),
            Buttons::SamplerSelectB,
        ) == ButtonStates::Colour1,
        button_state(
            lights,
            profile.with_sample_bank(SampleBank::C),
            Buttons::SamplerSelectC,
        ) == ButtonStates::Colour1,
{
}

/// The physical button of a place in the sampler.
pub open spec fn button_at(place: SampleButtons) -> Buttons {
    match place {
        SampleButtons::TopLeft => Buttons::SamplerTopLeft,
        SampleButtons::TopRight => Buttons::SamplerTopRight,
        SampleButtons::BottomLeft => Buttons::SamplerBottomLeft,
        SampleButtons::BottomRight => Buttons::SamplerBottomRight,
    }
}

/// A sample button that blinks flashes, one that is lit and does not blink shows its first colour, and
/// one that is neither is out.
pub proof fn sample_buttons_are_shown(
    lights: Lights,
    profile: ProfileAdapter,
    place: SampleButtons,
    on: bool,
    blink: bool,
)
    ensures
        ({
            let shown = button_state(
                lights,
                profile.with_sample_on(place, on).with_sample_blink(place, blink),
                button_at(place),
            );
            &&& blink ==> shown == ButtonStates::Flashing
            &&& !blink && on ==> shown == ButtonStates::Colour1
            &&& !blink && !on ==> is_out(shown)
        }),
{
}

/// Clients see a fader as unmuted exactly if its button is neither lit nor blinks, as muted everywhere
/// if it blinks, and as muted to what its button mutes if it is lit and does not blink. They see the
/// channel that it carries and what its button mutes.
pub proof fn clients_see_the_mute_state(mixer: Mixer, fader: FaderName)
    ensures
        ({
            let button = mixer.profile.mutes.at(fader);
            let seen = mixer.fader_state(fader);
            &&& seen.channel == mixer.profile.faders.at(fader)
            &&& seen.mute_type == button.function
            &&& seen.mute_state == MuteState::Unmuted <==> !button.on && !button.blink
            &&& seen.mute_state == MuteState::MutedToAll <==> button.blink
            &&& seen.mute_state == MuteState::MutedToX <==> button.on && !button.blink
        }),
{
}

} // verus!
