//! The colours of the lights.

use crate::command::GoXLRCommand;
use crate::profile::ProfileAdapter;
use crate::types::{ButtonStates, Buttons, FaderName, SampleButtons};
use vstd::prelude::*;

verus! {

/// A light whose colours a profile sets.
#[derive(Clone, Copy, Debug, PartialEq, Eq, Hash, Structural)]
pub enum ColourTargets {
    Fader1Mute,
    Fader2Mute,
    Fader3Mute,
    Fader4Mute,
    Bleep,
    MicrophoneMute,
    EffectSelect1,
    EffectSelect2,
    EffectSelect3,
    EffectSelect4,
    EffectSelect5,
    EffectSelect6,
    EffectFx,
    EffectMegaphone,
    EffectRobot,
    EffectHardTune,
    SamplerSelectA,
    SamplerSelectB,
    SamplerSelectC,
    SamplerTopLeft,
    SamplerTopRight,
    SamplerBottomLeft,
    SamplerBottomRight,
    SamplerClear,
    FadeMeter1,
    FadeMeter2,
    FadeMeter3,
    FadeMeter4,
    Scribble1,
    Scribble2,
    Scribble3,
    Scribble4,
    PitchEncoder,
    GenderEncoder,
    ReverbEncoder,
    EchoEncoder,
    LogoX,
    Global,
}

/// A button whose colours a client sets.
#[derive(Clone, Copy, Debug, PartialEq, Eq, Hash, Structural)]
pub enum ButtonColourTargets {
    Fader1Mute,
    Fader2Mute,
    Fader3Mute,
    Fader4Mute,
    Bleep,
    Cough,
    EffectSelect1,
    EffectSelect2,
    EffectSelect3,
    EffectSelect4,
    EffectSelect5,
    EffectSelect6,
    EffectFx,
    EffectMegaphone,
    EffectRobot,
    EffectHardTune,
    SamplerSelectA,
    SamplerSelectB,
    SamplerSelectC,
    SamplerTopLeft,
    SamplerTopRight,
    SamplerBottomLeft,
    SamplerBottomRight,
    SamplerClear,
}

impl ButtonColourTargets {
    /// Every button, in the order of declaration.
    pub open spec fn order() -> Seq<ButtonColourTargets> {
        seq![
            ButtonColourTargets::Fader1Mute,
            ButtonColourTargets::Fader2Mute,
            ButtonColourTargets::Fader3Mute,
            ButtonColourTargets::Fader4Mute,
            ButtonColourTargets::Bleep,
            ButtonColourTargets::Cough,
            ButtonColourTargets::EffectSelect1,
            ButtonColourTargets::EffectSelect2,
            ButtonColourTargets::EffectSelect3,
            ButtonColourTargets::EffectSelect4,
            ButtonColourTargets::EffectSelect5,
            ButtonColourTargets::EffectSelect6,
            ButtonColourTargets::EffectFx,
            ButtonColourTargets::EffectMegaphone,
            ButtonColourTargets::EffectRobot,
            ButtonColourTargets::EffectHardTune,
            ButtonColourTargets::SamplerSelectA,
            ButtonColourTargets::SamplerSelectB,
            ButtonColourTargets::SamplerSelectC,
            ButtonColourTargets::SamplerTopLeft,
            ButtonColourTargets::SamplerTopRight,
            ButtonColourTargets::SamplerBottomLeft,
            ButtonColourTargets::SamplerBottomRight,
            ButtonColourTargets::SamplerClear,
        ]
    }

    /// Lists every button once, in the order of declaration.
    pub fn all() -> (list: Vec<ButtonColourTargets>)
        ensures
            list@ == ButtonColourTargets::order(),
    {
        let list: Vec<ButtonColourTargets> = vec![
            ButtonColourTargets::Fader1Mute,
            ButtonColourTargets::Fader2Mute,
            ButtonColourTargets::Fader3Mute,
            ButtonColourTargets::Fader4Mute,
            ButtonColourTargets::Bleep,
            ButtonColourTargets::Cough,
            ButtonColourTargets::EffectSelect1,
            ButtonColourTargets::EffectSelect2,
            ButtonColourTargets::EffectSelect3,
            ButtonColourTargets::EffectSelect4,
            ButtonColourTargets::EffectSelect5,
            ButtonColourTargets::EffectSelect6,
            ButtonColourTargets::EffectFx,
            ButtonColourTargets::EffectMegaphone,
            ButtonColourTargets::EffectRobot,
            ButtonColourTargets::EffectHardTune,
            ButtonColourTargets::SamplerSelectA,
            ButtonColourTargets::SamplerSelectB,
            ButtonColourTargets::SamplerSelectC,
            ButtonColourTargets::SamplerTopLeft,
            ButtonColourTargets::SamplerTopRight,
            ButtonColourTargets::SamplerBottomLeft,
            ButtonColourTargets::SamplerBottomRight,
            ButtonColourTargets::SamplerClear,
        ];
        assert(list@ =~= ButtonColourTargets::order());
        list
    }
}

/// Buttons whose colours are set together.
#[derive(Clone, Copy, Debug, PartialEq, Eq, Hash, Structural)]
pub enum ButtonColourGroups {
    FaderMute,
    EffectSelector,
    SampleBankSelector,
    SamplerButtons,
}

/// How a button is lit while it is off.
#[derive(Clone, Copy, Debug, PartialEq, Eq, Hash, Structural)]
pub enum ButtonColourOffStyle {
    Dimmed,
    Colour2,
    DimmedColour2,
}

/// How the light of a fader shows its level.
#[derive(Clone, Copy, Debug, PartialEq, Eq, Hash, Structural)]
pub enum FaderDisplayStyle {
    TwoColour,
    Gradient,
    Meter,
    GradientMeter,
}

/// A colour: the four bytes that the device takes, in their order.
#[derive(Clone, Copy, Debug, PartialEq, Eq, Structural)]
pub struct Colour {
    pub first: u8,
    pub second: u8,
    pub third: u8,
    pub fourth: u8,
}

impl Colour {
    /// No light at all.
    pub open spec fn dark() -> Colour {
        Colour { first: 0, second: 0, third: 0, fourth: 0 }
    }

    /// The bytes that the device takes.
    pub open spec fn bytes(self) -> Seq<u8> {
        seq![self.first, self.second, self.third, self.fourth]
    }
}

/// The colours and the style of one light.
#[derive(Clone, Copy, Debug, PartialEq, Eq)]
pub struct Light {
    pub colour_one: Colour,
    pub colour_two: Colour,
    pub colour_three: Colour,
    pub off_style: ButtonColourOffStyle,
    pub display: Option<FaderDisplayStyle>,
}

impl Light {
    /// The colour with a number.
    pub open spec fn colour(self, index: int) -> Colour {
        if index == 0 {
            self.colour_one
        } else if index == 1 {
            self.colour_two
        } else {
            self.colour_three
        }
    }

    /// Reads the colour with a number.
    pub fn get_colour(&self, index: usize) -> (colour: Colour)
        requires
            index < 3,
        ensures
            colour == self.colour(index as int),
    {
        if index == 0 {
            self.colour_one
        } else if index == 1 {
            self.colour_two
        } else {
            self.colour_three
        }
    }

    /// The light with its first colour, and its second if there is one, replaced.
    pub open spec fn recoloured(self, one: Colour, two: Option<Colour>) -> Light {
        Light {
            colour_one: one,
            colour_two: match two {
                Some(colour) => colour,
                None => self.colour_two,
            },
            ..self
        }
    }
}

/// The lights of a profile.
#[derive(Clone, Copy, Debug, PartialEq, Eq)]
pub struct Lights {
    pub fader1_mute: Light,
    pub fader2_mute: Light,
    pub fader3_mute: Light,
    pub fader4_mute: Light,
    pub bleep: Light,
    pub microphone_mute: Light,
    pub effect_select1: Light,
    pub effect_select2: Light,
    pub effect_select3: Light,
    pub effect_select4: Light,
    pub effect_select5: Light,
    pub effect_select6: Light,
    pub effect_fx: Light,
    pub effect_megaphone: Light,
    pub effect_robot: Light,
    pub effect_hard_tune: Light,
    pub sampler_select_a: Light,
    pub sampler_select_b: Light,
    pub sampler_select_c: Light,
    pub sampler_top_left: Light,
    pub sampler_top_right: Light,
    pub sampler_bottom_left: Light,
    pub sampler_bottom_right: Light,
    pub sampler_clear: Light,
    pub fade_meter1: Light,
    pub fade_meter2: Light,
    pub fade_meter3: Light,
    pub fade_meter4: Light,
    pub scribble1: Light,
    pub scribble2: Light,
    pub scribble3: Light,
    pub scribble4: Light,
    pub pitch_encoder: Light,
    pub gender_encoder: Light,
    pub reverb_encoder: Light,
    pub echo_encoder: Light,
    pub logo_x: Light,
    pub global: Light,
}

impl Lights {
    /// The light of a target.
    pub open spec fn at(self, target: ColourTargets) -> Light {
        match target {
            ColourTargets::Fader1Mute => self.fader1_mute,
            ColourTargets::Fader2Mute => self.fader2_mute,
            ColourTargets::Fader3Mute => self.fader3_mute,
            ColourTargets::Fader4Mute => self.fader4_mute,
            ColourTargets::Bleep => self.bleep,
            ColourTargets::MicrophoneMute => self.microphone_mute,
            ColourTargets::EffectSelect1 => self.effect_select1,
            ColourTargets::EffectSelect2 => self.effect_select2,
            ColourTargets::EffectSelect3 => self.effect_select3,
            ColourTargets::EffectSelect4 => self.effect_select4,
            ColourTargets::EffectSelect5 => self.effect_select5,
            ColourTargets::EffectSelect6 => self.effect_select6,
            ColourTargets::EffectFx => self.effect_fx,
            ColourTargets::EffectMegaphone => self.effect_megaphone,
            ColourTargets::EffectRobot => self.effect_robot,
            ColourTargets::EffectHardTune => self.effect_hard_tune,
            ColourTargets::SamplerSelectA => self.sampler_select_a,
            ColourTargets::SamplerSelectB => self.sampler_select_b,
            ColourTargets::SamplerSelectC => self.sampler_select_c,
            ColourTargets::SamplerTopLeft => self.sampler_top_left,
            ColourTargets::SamplerTopRight => self.sampler_top_right,
            ColourTargets::SamplerBottomLeft => self.sampler_bottom_left,
            ColourTargets::SamplerBottomRight => self.sampler_bottom_right,
            ColourTargets::SamplerClear => self.sampler_clear,
            ColourTargets::FadeMeter1 => self.fade_meter1,
            ColourTargets::FadeMeter2 => self.fade_meter2,
            ColourTargets::FadeMeter3 => self.fade_meter3,
            ColourTargets::FadeMeter4 => self.fade_meter4,
            ColourTargets::Scribble1 => self.scribble1,
            ColourTargets::Scribble2 => self.scribble2,
            ColourTargets::Scribble3 => self.scribble3,
            ColourTargets::Scribble4 => self.scribble4,
            ColourTargets::PitchEncoder => self.pitch_encoder,
            ColourTargets::GenderEncoder => self.gender_encoder,
            ColourTargets::ReverbEncoder => self.reverb_encoder,
            ColourTargets::EchoEncoder => self.echo_encoder,
            ColourTargets::LogoX => self.logo_x,
            ColourTargets::Global => self.global,
        }
    }

    /// These lights with one replaced.
    pub open spec fn with(self, target: ColourTargets, light: Light) -> Lights {
        match target {
            ColourTargets::Fader1Mute => Lights { fader1_mute: light, ..self },
            ColourTargets::Fader2Mute => Lights { fader2_mute: light, ..self },
            ColourTargets::Fader3Mute => Lights { fader3_mute: light, ..self },
            ColourTargets::Fader4Mute => Lights { fader4_mute: light, ..self },
            ColourTargets::Bleep => Lights { bleep: light, ..self },
            ColourTargets::MicrophoneMute => Lights { microphone_mute: light, ..self },
            ColourTargets::EffectSelect1 => Lights { effect_select1: light, ..self },
            ColourTargets::EffectSelect2 => Lights { effect_select2: light, ..self },
            ColourTargets::EffectSelect3 => Lights { effect_select3: light, ..self },
            ColourTargets::EffectSelect4 => Lights { effect_select4: light, ..self },
            ColourTargets::EffectSelect5 => Lights { effect_select5: light, ..self },
            ColourTargets::EffectSelect6 => Lights { effect_select6: light, ..self },
            ColourTargets::EffectFx => Lights { effect_fx: light, ..self },
            ColourTargets::EffectMegaphone => Lights { effect_megaphone: light, ..self },
            ColourTargets::EffectRobot => Lights { effect_robot: light, ..self },
            ColourTargets::EffectHardTune => Lights { effect_hard_tune: light, ..self },
            ColourTargets::SamplerSelectA => Lights { sampler_select_a: light, ..self },
            ColourTargets::SamplerSelectB => Lights { sampler_select_b: light, ..self },
            ColourTargets::SamplerSelectC => Lights { sampler_select_c: light, ..self },
            ColourTargets::SamplerTopLeft => Lights { sampler_top_left: light, ..self },
            ColourTargets::SamplerTopRight => Lights { sampler_top_right: light, ..self },
            ColourTargets::SamplerBottomLeft => Lights { sampler_bottom_left: light, ..self },
            ColourTargets::SamplerBottomRight => Lights { sampler_bottom_right: light, ..self },
            ColourTargets::SamplerClear => Lights { sampler_clear: light, ..self },
            ColourTargets::FadeMeter1 => Lights { fade_meter1: light, ..self },
            ColourTargets::FadeMeter2 => Lights { fade_meter2: light, ..self },
            ColourTargets::FadeMeter3 => Lights { fade_meter3: light, ..self },
            ColourTargets::FadeMeter4 => Lights { fade_meter4: light, ..self },
            ColourTargets::Scribble1 => Lights { scribble1: light, ..self },
            ColourTargets::Scribble2 => Lights { scribble2: light, ..self },
            ColourTargets::Scribble3 => Lights { scribble3: light, ..self },
            ColourTargets::Scribble4 => Lights { scribble4: light, ..self },
            ColourTargets::PitchEncoder => Lights { pitch_encoder: light, ..self },
            ColourTargets::GenderEncoder => Lights { gender_encoder: light, ..self },
            ColourTargets::ReverbEncoder => Lights { reverb_encoder: light, ..self },
            ColourTargets::EchoEncoder => Lights { echo_encoder: light, ..self },
            ColourTargets::LogoX => Lights { logo_x: light, ..self },
            ColourTargets::Global => Lights { global: light, ..self },
        }
    }

    /// Borrows the light of a target.
    pub fn get_profile_colour_map(&self, target: ColourTargets) -> (light: &Light)
        ensures
            *light == self.at(target),
    {
        match target {
            ColourTargets::Fader1Mute => &self.fader1_mute,
            ColourTargets::Fader2Mute => &self.fader2_mute,
            ColourTargets::Fader3Mute => &self.fader3_mute,
            ColourTargets::Fader4Mute => &self.fader4_mute,
            ColourTargets::Bleep => &self.bleep,
            ColourTargets::MicrophoneMute => &self.microphone_mute,
            ColourTargets::EffectSelect1 => &self.effect_select1,
            ColourTargets::EffectSelect2 => &self.effect_select2,
            ColourTargets::EffectSelect3 => &self.effect_select3,
            ColourTargets::EffectSelect4 => &self.effect_select4,
            ColourTargets::EffectSelect5 => &self.effect_select5,
            ColourTargets::EffectSelect6 => &self.effect_select6,
            ColourTargets::EffectFx => &self.effect_fx,
            ColourTargets::EffectMegaphone => &self.effect_megaphone,
            ColourTargets::EffectRobot => &self.effect_robot,
            ColourTargets::EffectHardTune => &self.effect_hard_tune,
            ColourTargets::SamplerSelectA => &self.sampler_select_a,
            ColourTargets::SamplerSelectB => &self.sampler_select_b,
            ColourTargets::SamplerSelectC => &self.sampler_select_c,
            ColourTargets::SamplerTopLeft => &self.sampler_top_left,
            ColourTargets::SamplerTopRight => &self.sampler_top_right,
            ColourTargets::SamplerBottomLeft => &self.sampler_bottom_left,
            ColourTargets::SamplerBottomRight => &self.sampler_bottom_right,
            ColourTargets::SamplerClear => &self.sampler_clear,
            ColourTargets::FadeMeter1 => &self.fade_meter1,
            ColourTargets::FadeMeter2 => &self.fade_meter2,
            ColourTargets::FadeMeter3 => &self.fade_meter3,
            ColourTargets::FadeMeter4 => &self.fade_meter4,
            ColourTargets::Scribble1 => &self.scribble1,
            ColourTargets::Scribble2 => &self.scribble2,
            ColourTargets::Scribble3 => &self.scribble3,
            ColourTargets::Scribble4 => &self.scribble4,
            ColourTargets::PitchEncoder => &self.pitch_encoder,
            ColourTargets::GenderEncoder => &self.gender_encoder,
            ColourTargets::ReverbEncoder => &self.reverb_encoder,
            ColourTargets::EchoEncoder => &self.echo_encoder,
            ColourTargets::LogoX => &self.logo_x,
            ColourTargets::Global => &self.global,
        }
    }

    /// Replaces the light of a target.
    pub fn set_light(&mut self, target: ColourTargets, light: Light)
        ensures
            *final(self) == old(self).with(target, light),
            forall|other: ColourTargets| #[trigger]
                final(self).at(other) == (if other == target {
                    light
                } else {
                    old(self).at(other)
                }),
    {
        match target {
            ColourTargets::Fader1Mute => self.fader1_mute = light,
            ColourTargets::Fader2Mute => self.fader2_mute = light,
            ColourTargets::Fader3Mute => self.fader3_mute = light,
            ColourTargets::Fader4Mute => self.fader4_mute = light,
            ColourTargets::Bleep => self.bleep = light,
            ColourTargets::MicrophoneMute => self.microphone_mute = light,
            ColourTargets::EffectSelect1 => self.effect_select1 = light,
            ColourTargets::EffectSelect2 => self.effect_select2 = light,
            ColourTargets::EffectSelect3 => self.effect_select3 = light,
            ColourTargets::EffectSelect4 => self.effect_select4 = light,
            ColourTargets::EffectSelect5 => self.effect_select5 = light,
            ColourTargets::EffectSelect6 => self.effect_select6 = light,
            ColourTargets::EffectFx => self.effect_fx = light,
            ColourTargets::EffectMegaphone => self.effect_megaphone = light,
            ColourTargets::EffectRobot => self.effect_robot = light,
            ColourTargets::EffectHardTune => self.effect_hard_tune = light,
            ColourTargets::SamplerSelectA => self.sampler_select_a = light,
            ColourTargets::SamplerSelectB => self.sampler_select_b = light,
            ColourTargets::SamplerSelectC => self.sampler_select_c = light,
            ColourTargets::SamplerTopLeft => self.sampler_top_left = light,
            ColourTargets::SamplerTopRight => self.sampler_top_right = light,
            ColourTargets::SamplerBottomLeft => self.sampler_bottom_left = light,
            ColourTargets::SamplerBottomRight => self.sampler_bottom_right = light,
            ColourTargets::SamplerClear => self.sampler_clear = light,
            ColourTargets::FadeMeter1 => self.fade_meter1 = light,
            ColourTargets::FadeMeter2 => self.fade_meter2 = light,
            ColourTargets::FadeMeter3 => self.fade_meter3 = light,
            ColourTargets::FadeMeter4 => self.fade_meter4 = light,
            ColourTargets::Scribble1 => self.scribble1 = light,
            ColourTargets::Scribble2 => self.scribble2 = light,
            ColourTargets::Scribble3 => self.scribble3 = light,
            ColourTargets::Scribble4 => self.scribble4 = light,
            ColourTargets::PitchEncoder => self.pitch_encoder = light,
            ColourTargets::GenderEncoder => self.gender_encoder = light,
            ColourTargets::ReverbEncoder => self.reverb_encoder = light,
            ColourTargets::EchoEncoder => self.echo_encoder = light,
            ColourTargets::LogoX => self.logo_x = light,
            ColourTargets::Global => self.global = light,
        }
    }
}

/// The light of a physical button.
pub open spec fn button_light(button: Buttons) -> ColourTargets {
    match button {
        Buttons::Fader1Mute => ColourTargets::Fader1Mute,
        Buttons::Fader2Mute => ColourTargets::Fader2Mute,
        Buttons::Fader3Mute => ColourTargets::Fader3Mute,
        Buttons::Fader4Mute => ColourTargets::Fader4Mute,
        Buttons::Bleep => ColourTargets::Bleep,
        Buttons::MicrophoneMute => ColourTargets::MicrophoneMute,
        Buttons::EffectSelect1 => ColourTargets::EffectSelect1,
        Buttons::EffectSelect2 => ColourTargets::EffectSelect2,
        Buttons::EffectSelect3 => ColourTargets::EffectSelect3,
        Buttons::EffectSelect4 => ColourTargets::EffectSelect4,
        Buttons::EffectSelect5 => ColourTargets::EffectSelect5,
        Buttons::EffectSelect6 => ColourTargets::EffectSelect6,
        Buttons::EffectFx => ColourTargets::EffectFx,
        Buttons::EffectMegaphone => ColourTargets::EffectMegaphone,
        Buttons::EffectRobot => ColourTargets::EffectRobot,
        Buttons::EffectHardTune => ColourTargets::EffectHardTune,
        Buttons::SamplerSelectA => ColourTargets::SamplerSelectA,
        Buttons::SamplerSelectB => ColourTargets::SamplerSelectB,
        Buttons::SamplerSelectC => ColourTargets::SamplerSelectC,
        Buttons::SamplerTopLeft => ColourTargets::SamplerTopLeft,
        Buttons::SamplerTopRight => ColourTargets::SamplerTopRight,
        Buttons::SamplerBottomLeft => ColourTargets::SamplerBottomLeft,
        Buttons::SamplerBottomRight => ColourTargets::SamplerBottomRight,
        Buttons::SamplerClear => ColourTargets::SamplerClear,
    }
}

/// Finds the light of a physical button.
pub fn map_button_to_colour_target(button: Buttons) -> (light: ColourTargets)
    ensures
        light == button_light(button),
{
    match button {
        Buttons::Fader1Mute => ColourTargets::Fader1Mute,
        Buttons::Fader2Mute => ColourTargets::Fader2Mute,
        Buttons::Fader3Mute => ColourTargets::Fader3Mute,
        Buttons::Fader4Mute => ColourTargets::Fader4Mute,
        Buttons::Bleep => ColourTargets::Bleep,
        Buttons::MicrophoneMute => ColourTargets::MicrophoneMute,
        Buttons::EffectSelect1 => ColourTargets::EffectSelect1,
        Buttons::EffectSelect2 => ColourTargets::EffectSelect2,
        Buttons::EffectSelect3 => ColourTargets::EffectSelect3,
        Buttons::EffectSelect4 => ColourTargets::EffectSelect4,
        Buttons::EffectSelect5 => ColourTargets::EffectSelect5,
        Buttons::EffectSelect6 => ColourTargets::EffectSelect6,
        Buttons::EffectFx => ColourTargets::EffectFx,
        Buttons::EffectMegaphone => ColourTargets::EffectMegaphone,
        Buttons::EffectRobot => ColourTargets::EffectRobot,
        Buttons::EffectHardTune => ColourTargets::EffectHardTune,
        Buttons::SamplerSelectA => ColourTargets::SamplerSelectA,
        Buttons::SamplerSelectB => ColourTargets::SamplerSelectB,
        Buttons::SamplerSelectC => ColourTargets::SamplerSelectC,
        Buttons::SamplerTopLeft => ColourTargets::SamplerTopLeft,
        Buttons::SamplerTopRight => ColourTargets::SamplerTopRight,
        Buttons::SamplerBottomLeft => ColourTargets::SamplerBottomLeft,
        Buttons::SamplerBottomRight => ColourTargets::SamplerBottomRight,
        Buttons::SamplerClear => ColourTargets::SamplerClear,
    }
}

/// The light of a button that a client names.
pub open spec fn target_light(target: ButtonColourTargets) -> ColourTargets {
    match target {
        ButtonColourTargets::Fader1Mute => ColourTargets::Fader1Mute,
        ButtonColourTargets::Fader2Mute => ColourTargets::Fader2Mute,
        ButtonColourTargets::Fader3Mute => ColourTargets::Fader3Mute,
        ButtonColourTargets::Fader4Mute => ColourTargets::Fader4Mute,
        ButtonColourTargets::Bleep => ColourTargets::Bleep,
        ButtonColourTargets::Cough => ColourTargets::MicrophoneMute,
        ButtonColourTargets::EffectSelect1 => ColourTargets::EffectSelect1,
        ButtonColourTargets::EffectSelect2 => ColourTargets::EffectSelect2,
        ButtonColourTargets::EffectSelect3 => ColourTargets::EffectSelect3,
        ButtonColourTargets::EffectSelect4 => ColourTargets::EffectSelect4,
        ButtonColourTargets::EffectSelect5 => ColourTargets::EffectSelect5,
        ButtonColourTargets::EffectSelect6 => ColourTargets::EffectSelect6,
        ButtonColourTargets::EffectFx => ColourTargets::EffectFx,
        ButtonColourTargets::EffectMegaphone => ColourTargets::EffectMegaphone,
        ButtonColourTargets::EffectRobot => ColourTargets::EffectRobot,
        ButtonColourTargets::EffectHardTune => ColourTargets::EffectHardTune,
        ButtonColourTargets::SamplerSelectA => ColourTargets::SamplerSelectA,
        ButtonColourTargets::SamplerSelectB => ColourTargets::SamplerSelectB,
        ButtonColourTargets::SamplerSelectC => ColourTargets::SamplerSelectC,
        ButtonColourTargets::SamplerTopLeft => ColourTargets::SamplerTopLeft,
        ButtonColourTargets::SamplerTopRight => ColourTargets::SamplerTopRight,
        ButtonColourTargets::SamplerBottomLeft => ColourTargets::SamplerBottomLeft,
        ButtonColourTargets::SamplerBottomRight => ColourTargets::SamplerBottomRight,
        ButtonColourTargets::SamplerClear => ColourTargets::SamplerClear,
    }
}

/// Finds the light of a button that a client names.
pub fn standard_to_colour_target(target: ButtonColourTargets) -> (light: ColourTargets)
    ensures
        light == target_light(target),
{
    match target {
        ButtonColourTargets::Fader1Mute => ColourTargets::Fader1Mute,
        ButtonColourTargets::Fader2Mute => ColourTargets::Fader2Mute,
        ButtonColourTargets::Fader3Mute => ColourTargets::Fader3Mute,
        ButtonColourTargets::Fader4Mute => ColourTargets::Fader4Mute,
        ButtonColourTargets::Bleep => ColourTargets::Bleep,
        ButtonColourTargets::Cough => ColourTargets::MicrophoneMute,
        ButtonColourTargets::EffectSelect1 => ColourTargets::EffectSelect1,
        ButtonColourTargets::EffectSelect2 => ColourTargets::EffectSelect2,
        ButtonColourTargets::EffectSelect3 => ColourTargets::EffectSelect3,
        ButtonColourTargets::EffectSelect4 => ColourTargets::EffectSelect4,
        ButtonColourTargets::EffectSelect5 => ColourTargets::EffectSelect5,
        ButtonColourTargets::EffectSelect6 => ColourTargets::EffectSelect6,
        ButtonColourTargets::EffectFx => ColourTargets::EffectFx,
        ButtonColourTargets::EffectMegaphone => ColourTargets::EffectMegaphone,
        ButtonColourTargets::EffectRobot => ColourTargets::EffectRobot,
        ButtonColourTargets::EffectHardTune => ColourTargets::EffectHardTune,
        ButtonColourTargets::SamplerSelectA => ColourTargets::SamplerSelectA,
        ButtonColourTargets::SamplerSelectB => ColourTargets::SamplerSelectB,
        ButtonColourTargets::SamplerSelectC => ColourTargets::SamplerSelectC,
        ButtonColourTargets::SamplerTopLeft => ColourTargets::SamplerTopLeft,
        ButtonColourTargets::SamplerTopRight => ColourTargets::SamplerTopRight,
        ButtonColourTargets::SamplerBottomLeft => ColourTargets::SamplerBottomLeft,
        ButtonColourTargets::SamplerBottomRight => ColourTargets::SamplerBottomRight,
        ButtonColourTargets::SamplerClear => ColourTargets::SamplerClear,
    }
}

/// The light of a fader.
pub open spec fn fader_light(fader: FaderName) -> ColourTargets {
    match fader {
        FaderName::A => ColourTargets::FadeMeter1,
        FaderName::B => ColourTargets::FadeMeter2,
        FaderName::C => ColourTargets::FadeMeter3,
        FaderName::D => ColourTargets::FadeMeter4,
    }
}

/// Finds the light of a fader.
pub fn map_fader_to_colour_target(fader: FaderName) -> (light: ColourTargets)
    ensures
        light == fader_light(fader),
{
    match fader {
        FaderName::A => ColourTargets::FadeMeter1,
        FaderName::B => ColourTargets::FadeMeter2,
        FaderName::C => ColourTargets::FadeMeter3,
        FaderName::D => ColourTargets::FadeMeter4,
    }
}

/// The buttons of a group.
pub open spec fn group_targets(group: ButtonColourGroups) -> Seq<ButtonColourTargets> {
    match group {
        ButtonColourGroups::FaderMute => seq![
            ButtonColourTargets::Fader1Mute,
            ButtonColourTargets::Fader2Mute,
            ButtonColourTargets::Fader3Mute,
            ButtonColourTargets::Fader4Mute,
        ],
        ButtonColourGroups::EffectSelector => seq![
            ButtonColourTargets::EffectSelect1,
            ButtonColourTargets::EffectSelect2,
            ButtonColourTargets::EffectSelect3,
            ButtonColourTargets::EffectSelect4,
            ButtonColourTargets::EffectSelect5,
            ButtonColourTargets::EffectSelect6,
        ],
        ButtonColourGroups::SampleBankSelector => seq![
            ButtonColourTargets::SamplerSelectA,
            ButtonColourTargets::SamplerSelectB,
            ButtonColourTargets::SamplerSelectC,
        ],
        ButtonColourGroups::SamplerButtons => seq![
            ButtonColourTargets::SamplerTopLeft,
            ButtonColourTargets::SamplerTopRight,
            ButtonColourTargets::SamplerBottomLeft,
            ButtonColourTargets::SamplerBottomRight,
            ButtonColourTargets::SamplerClear,
        ],
    }
}

/// Lists the buttons of a group.
pub fn get_group_targets(group: ButtonColourGroups) -> (targets: Vec<ButtonColourTargets>)
    ensures
        targets@ == group_targets(group),
{
    let targets: Vec<ButtonColourTargets> = match group {
        ButtonColourGroups::FaderMute => vec![
            ButtonColourTargets::Fader1Mute,
            ButtonColourTargets::Fader2Mute,
            ButtonColourTargets::Fader3Mute,
            ButtonColourTargets::Fader4Mute,
        ],
        ButtonColourGroups::EffectSelector => vec![
            ButtonColourTargets::EffectSelect1,
            ButtonColourTargets::EffectSelect2,
            ButtonColourTargets::EffectSelect3,
            ButtonColourTargets::EffectSelect4,
            ButtonColourTargets::EffectSelect5,
            ButtonColourTargets::EffectSelect6,
        ],
        ButtonColourGroups::SampleBankSelector => vec![
            ButtonColourTargets::SamplerSelectA,
            ButtonColourTargets::SamplerSelectB,
            ButtonColourTargets::SamplerSelectC,
        ],
        ButtonColourGroups::SamplerButtons => vec![
            ButtonColourTargets::SamplerTopLeft,
            ButtonColourTargets::SamplerTopRight,
            ButtonColourTargets::SamplerBottomLeft,
            ButtonColourTargets::SamplerBottomRight,
            ButtonColourTargets::SamplerClear,
        ],
    };
    assert(targets@ =~= group_targets(group));
    targets
}

/// The buttons of the small model.
pub open spec fn mini_targets() -> Seq<ButtonColourTargets> {
    seq![
        ButtonColourTargets::Fader1Mute,
        ButtonColourTargets::Fader2Mute,
        ButtonColourTargets::Fader3Mute,
        ButtonColourTargets::Fader4Mute,
        ButtonColourTargets::Bleep,
        ButtonColourTargets::Cough,
    ]
}

/// Lists the buttons of the small model.
pub fn get_mini_colour_targets() -> (targets: Vec<ButtonColourTargets>)
    ensures
        targets@ == mini_targets(),
{
    let targets: Vec<ButtonColourTargets> = vec![
        ButtonColourTargets::Fader1Mute,
        ButtonColourTargets::Fader2Mute,
        ButtonColourTargets::Fader3Mute,
        ButtonColourTargets::Fader4Mute,
        ButtonColourTargets::Bleep,
        ButtonColourTargets::Cough,
    ];
    assert(targets@ =~= mini_targets());
    targets
}

/// The style that clients are told of. They are not told that a gradient also shows the level.
pub open spec fn reported_style(style: FaderDisplayStyle) -> FaderDisplayStyle {
    if style == FaderDisplayStyle::GradientMeter {
        FaderDisplayStyle::Gradient
    } else {
        style
    }
}

/// Finds the style that clients are told of.
pub fn profile_to_standard_fader_display(style: FaderDisplayStyle) -> (reported: FaderDisplayStyle)
    ensures
        reported == reported_style(style),
{
    match style {
        FaderDisplayStyle::TwoColour => FaderDisplayStyle::TwoColour,
        FaderDisplayStyle::Gradient => FaderDisplayStyle::Gradient,
        FaderDisplayStyle::Meter => FaderDisplayStyle::Meter,
        FaderDisplayStyle::GradientMeter => FaderDisplayStyle::Gradient,
    }
}

/// A button as clients are told of it.
#[derive(Clone, Copy, Debug, PartialEq, Eq)]
pub struct ButtonLighting {
    pub target: ButtonColourTargets,
    pub off_style: ButtonColourOffStyle,
    pub colour_one: Colour,
    pub colour_two: Colour,
}

/// A fader as clients are told of it.
#[derive(Clone, Copy, Debug, PartialEq, Eq)]
pub struct FaderLighting {
    pub style: FaderDisplayStyle,
    pub colour_one: Colour,
    pub colour_two: Colour,
}

/// Four bytes of the colour map, and the colour that they show.
#[derive(Clone, Copy, Debug, PartialEq, Eq)]
pub struct ColourSlot {
    pub target: ColourTargets,
    pub index: usize,
    pub position: usize,
}

/// The length of the colour map.
pub const COLOUR_MAP_LEN: usize = 520;

/// The length of the colour map of old firmware, which takes only the start of it.
pub const SHORT_COLOUR_MAP_LEN: usize = 328;

impl ColourSlot {
    /// The slot lies in the map, and shows a colour that lights have.
    pub open spec fn fits(self) -> bool {
        self.index < 3 && self.position + 4 <= COLOUR_MAP_LEN
    }
}

/// The sample button whose light this is.
pub open spec fn sampler_light(target: ColourTargets) -> Option<SampleButtons> {
    match target {
        ColourTargets::SamplerTopLeft => Some(SampleButtons::TopLeft),
        ColourTargets::SamplerTopRight => Some(SampleButtons::TopRight),
        ColourTargets::SamplerBottomLeft => Some(SampleButtons::BottomLeft),
        ColourTargets::SamplerBottomRight => Some(SampleButtons::BottomRight),
        _ => None,
    }
}

/// Finds the sample button whose light this is.
fn find_sampler_light(target: ColourTargets) -> (button: Option<SampleButtons>)
    ensures
        button == sampler_light(target),
{
    match target {
        ColourTargets::SamplerTopLeft => Some(SampleButtons::TopLeft),
        ColourTargets::SamplerTopRight => Some(SampleButtons::TopRight),
        ColourTargets::SamplerBottomLeft => Some(SampleButtons::BottomLeft),
        ColourTargets::SamplerBottomRight => Some(SampleButtons::BottomRight),
        _ => None,
    }
}

/// The colour that a slot shows. The first colour of a sample button without samples is dark.
pub open spec fn slot_colour(lights: Lights, profile: ProfileAdapter, slot: ColourSlot) -> Colour {
    match sampler_light(slot.target) {
        Some(button) if slot.index == 0 && profile.stack(button).count == 0 => Colour::dark(),
        _ => lights.at(slot.target).colour(slot.index as int),
    }
}

/// A map with four bytes replaced.
pub open spec fn overlaid(map: Seq<u8>, position: int, colour: Colour) -> Seq<u8> {
    map.update(position, colour.first).update(position + 1, colour.second).update(
        position + 2,
        colour.third,
    ).update(position + 3, colour.fourth)
}

/// The colour map: all dark, but for the slots, of which a later one covers an earlier one.
pub open spec fn colour_map(
    lights: Lights,
    profile: ProfileAdapter,
    slots: Seq<ColourSlot>,
) -> Seq<u8>
    decreases slots.len(),
{
    if slots.len() == 0 {
        Seq::new(COLOUR_MAP_LEN as nat, |i: int| 0u8)
    } else {
        overlaid(
            colour_map(lights, profile, slots.drop_last()),
            slots.last().position as int,
            slot_colour(lights, profile, slots.last()),
        )
    }
}

impl Lights {
    /// Finds the colour that a slot shows.
    fn get_slot_colour(&self, profile: &ProfileAdapter, slot: &ColourSlot) -> (colour: Colour)
        requires
            slot.fits(),
        ensures
            colour == slot_colour(*self, *profile, *slot),
    {
        if slot.index == 0 {
            if let Some(button) = find_sampler_light(slot.target) {
                if !profile.current_sample_bank_has_samples(button) {
                    return Colour { first: 0, second: 0, third: 0, fourth: 0 };
                }
            }
        }
        self.get_profile_colour_map(slot.target).get_colour(slot.index)
    }

    /// Builds the colour map. `slots` says where the firmware has each colour.
    pub fn get_colour_map(&self, profile: &ProfileAdapter, slots: &Vec<ColourSlot>) -> (map: Vec<u8>)
        requires
            forall|i: int| 0 <= i < slots@.len() ==> (#[trigger] slots@[i]).fits(),
        ensures
            map@ == colour_map(*self, *profile, slots@),
            map@.len() == COLOUR_MAP_LEN,
    {
        let mut map: Vec<u8> = vec![0u8; 520];
        let mut i: usize = 0;
        assert(map@ =~= colour_map(*self, *profile, slots@.take(0)));
        while i < slots.len()
            invariant
                i <= slots.len(),
                map@.len() == COLOUR_MAP_LEN,
                forall|j: int| 0 <= j < slots@.len() ==> (#[trigger] slots@[j]).fits(),
                map@ == colour_map(*self, *profile, slots@.take(i as int)),
            decreases slots.len() - i,
        {
            let slot = slots[i];
            let colour = self.get_slot_colour(profile, &slot);
            map[slot.position] = colour.first;
            map[slot.position + 1] = colour.second;
            map[slot.position + 2] = colour.third;
            map[slot.position + 3] = colour.fourth;
            proof {
                assert(slots@.take(i + 1).drop_last() =~= slots@.take(i as int));
                assert(slots@.take(i + 1).last() == slot);
            }
            i = i + 1;
        }
        assert(slots@.take(i as int) =~= slots@);
        map
    }

    /// Builds the colour map that the firmware takes: old firmware, which has no animations, takes
    /// only the start of it.
    pub fn load_colour_map(
        &self,
        profile: &ProfileAdapter,
        slots: &Vec<ColourSlot>,
        animations: bool,
    ) -> (map: Vec<u8>)
        requires
            forall|i: int| 0 <= i < slots@.len() ==> (#[trigger] slots@[i]).fits(),
        ensures
            map@ == (if animations {
                colour_map(*self, *profile, slots@)
            } else {
                colour_map(*self, *profile, slots@).take(SHORT_COLOUR_MAP_LEN as int)
            }),
    {
        let mut map = self.get_colour_map(profile, slots);
        if !animations {
            map.truncate(SHORT_COLOUR_MAP_LEN);
        }
        map
    }

    /// Sets the colours of a button.
    pub fn set_button_colours(
        &mut self,
        target: ButtonColourTargets,
        colour_one: Colour,
        colour_two: Option<Colour>,
    )
        ensures
            *final(self) == old(self).with(
                target_light(target),
                old(self).at(target_light(target)).recoloured(colour_one, colour_two),
            ),
            forall|other: ColourTargets| #[trigger]
                final(self).at(other) == (if other == target_light(target) {
                    old(self).at(other).recoloured(colour_one, colour_two)
                } else {
                    old(self).at(other)
                }),
    {
        let light_target = standard_to_colour_target(target);
        let mut light = *self.get_profile_colour_map(light_target);
        light.colour_one = colour_one;
        if let Some(colour) = colour_two {
            light.colour_two = colour;
        }
        self.set_light(light_target, light);
    }

    /// Sets how a button is lit while it is off.
    pub fn set_button_off_style(
        &mut self,
        target: ButtonColourTargets,
        off_style: ButtonColourOffStyle,
    )
        ensures
            *final(self) == old(self).with(
                target_light(target),
                (Light { off_style, ..old(self).at(target_light(target)) }),
            ),
            forall|other: ColourTargets| #[trigger]
                final(self).at(other) == (if other == target_light(target) {
                    (Light { off_style, ..old(self).at(other) })
                } else {
                    old(self).at(other)
                }),
    {
        let light_target = standard_to_colour_target(target);
        let mut light = *self.get_profile_colour_map(light_target);
        light.off_style = off_style;
        self.set_light(light_target, light);
    }

    /// Sets the colours of every button of a group, and of no other light.
    pub fn set_group_button_colours(
        &mut self,
        group: ButtonColourGroups,
        colour_one: Colour,
        colour_two: Option<Colour>,
    )
        ensures
            forall|light: ColourTargets| #[trigger]
                final(self).at(light) == (if in_group(group, light) {
                    old(self).at(light).recoloured(colour_one, colour_two)
                } else {
                    old(self).at(light)
                }),
    {
        let targets = get_group_targets(group);
        let mut i: usize = 0;
        while i < targets.len()
            invariant
                i <= targets.len(),
                forall|light: ColourTargets| #[trigger]
                    self.at(light) == (if lights_of(targets@.take(i as int), light) {
                        old(self).at(light).recoloured(colour_one, colour_two)
                    } else {
                        old(self).at(light)
                    }),
            decreases targets.len() - i,
        {
            proof {
                lemma_lights_of_next(targets@, i as int);
            }
            self.set_button_colours(targets[i], colour_one, colour_two);
            i = i + 1;
        }
        assert(targets@.take(i as int) =~= targets@);
    }

    /// Sets how every button of a group is lit while it is off, and of no other light.
    pub fn set_group_button_off_style(
        &mut self,
        group: ButtonColourGroups,
        off_style: ButtonColourOffStyle,
    )
        ensures
            forall|light: ColourTargets| #[trigger]
                final(self).at(light) == (if in_group(group, light) {
                    (Light { off_style, ..old(self).at(light) })
                } else {
                    old(self).at(light)
                }),
    {
        let targets = get_group_targets(group);
        let mut i: usize = 0;
        while i < targets.len()
            invariant
                i <= targets.len(),
                forall|light: ColourTargets| #[trigger]
                    self.at(light) == (if lights_of(targets@.take(i as int), light) {
                        (Light { off_style, ..old(self).at(light) })
                    } else {
                        old(self).at(light)
                    }),
            decreases targets.len() - i,
        {
            proof {
                lemma_lights_of_next(targets@, i as int);
            }
            self.set_button_off_style(targets[i], off_style);
            i = i + 1;
        }
        assert(targets@.take(i as int) =~= targets@);
    }

    /// Sets the two colours of a fader.
    pub fn set_fader_colours(&mut self, fader: FaderName, top: Colour, bottom: Colour)
        ensures
            *final(self) == old(self).with(
                fader_light(fader),
                old(self).at(fader_light(fader)).recoloured(top, Some(bottom)),
            ),
            forall|other: ColourTargets| #[trigger]
                final(self).at(other) == (if other == fader_light(fader) {
                    old(self).at(other).recoloured(top, Some(bottom))
                } else {
                    old(self).at(other)
                }),
    {
        let target = map_fader_to_colour_target(fader);
        let mut light = *self.get_profile_colour_map(target);
        light.colour_one = top;
        light.colour_two = bottom;
        self.set_light(target, light);
    }

    /// Sets how a fader shows its level.
    pub fn set_fader_display(&mut self, fader: FaderName, display: FaderDisplayStyle)
        ensures
            *final(self) == old(self).with(
                fader_light(fader),
                (Light { display: Some(display), ..old(self).at(fader_light(fader)) }),
            ),
            forall|other: ColourTargets| #[trigger]
                final(self).at(other) == (if other == fader_light(fader) {
                    (Light { display: Some(display), ..old(self).at(other) })
                } else {
                    old(self).at(other)
                }),
    {
        let target = map_fader_to_colour_target(fader);
        let mut light = *self.get_profile_colour_map(target);
        light.display = Some(display);
        self.set_light(target, light);
    }

    /// Whether a fader shows a gradient.
    pub fn is_fader_gradient(&self, fader: FaderName) -> (gradient: bool)
        ensures
            gradient == (self.at(fader_light(fader)).display == Some(FaderDisplayStyle::Gradient)
                || self.at(fader_light(fader)).display == Some(FaderDisplayStyle::GradientMeter)),
    {
        match self.get_profile_colour_map(map_fader_to_colour_target(fader)).display {
            Some(FaderDisplayStyle::Gradient) | Some(FaderDisplayStyle::GradientMeter) => true,
            _ => false,
        }
    }

    /// Whether a fader shows the level of its channel.
    pub fn is_fader_meter(&self, fader: FaderName) -> (meter: bool)
        ensures
            meter == (self.at(fader_light(fader)).display == Some(FaderDisplayStyle::Meter)
                || self.at(fader_light(fader)).display == Some(FaderDisplayStyle::GradientMeter)),
    {
        match self.get_profile_colour_map(map_fader_to_colour_target(fader)).display {
            Some(FaderDisplayStyle::Meter) | Some(FaderDisplayStyle::GradientMeter) => true,
            _ => false,
        }
    }

    /// The fader as clients are told of it. A fader without a style shows two colours.
    pub open spec fn fader_lighting(self, fader: FaderName) -> FaderLighting {
        let light = self.at(fader_light(fader));
        FaderLighting {
            style: match light.display {
                Some(style) => reported_style(style),
                None => FaderDisplayStyle::TwoColour,
            },
            colour_one: light.colour_one,
            colour_two: light.colour_two,
        }
    }

    /// Describes a fader to clients.
    pub fn get_fader_lighting(&self, fader: FaderName) -> (lighting: FaderLighting)
        ensures
            lighting == self.fader_lighting(fader),
    {
        let light = self.get_profile_colour_map(map_fader_to_colour_target(fader));
        let style = match light.display {
            Some(style) => profile_to_standard_fader_display(style),
            None => FaderDisplayStyle::TwoColour,
        };
        FaderLighting { style, colour_one: light.colour_one, colour_two: light.colour_two }
    }

    /// The button as clients are told of it.
    pub open spec fn button_lighting(self, target: ButtonColourTargets) -> ButtonLighting {
        let light = self.at(target_light(target));
        ButtonLighting {
            target,
            off_style: light.off_style,
            colour_one: light.colour_one,
            colour_two: light.colour_two,
        }
    }

    /// Describes the buttons to clients: those of the small model, or all of them.
    pub fn get_lighting_ipc(&self, is_device_mini: bool) -> (buttons: Vec<ButtonLighting>)
        ensures
            buttons@ == (if is_device_mini {
                mini_targets()
            } else {
                ButtonColourTargets::order()
            }).map_values(|target: ButtonColourTargets| self.button_lighting(target)),
    {
        let targets = if is_device_mini {
            get_mini_colour_targets()
        } else {
            ButtonColourTargets::all()
        };
        let mut buttons: Vec<ButtonLighting> = Vec::new();
        let mut i: usize = 0;
        while i < targets.len()
            invariant
                i <= targets.len(),
                buttons@.len() == i,
                forall|j: int|
                    0 <= j < i ==> #[trigger] buttons@[j] == self.button_lighting(targets@[j]),
            decreases targets.len() - i,
        {
            let target = targets[i];
            let light = self.get_profile_colour_map(standard_to_colour_target(target));
            buttons.push(
                ButtonLighting {
                    target,
                    off_style: light.off_style,
                    colour_one: light.colour_one,
                    colour_two: light.colour_two,
                },
            );
            i = i + 1;
        }
        assert(buttons@ =~= targets@.map_values(
            |target: ButtonColourTargets| self.button_lighting(target),
        ));
        buttons
    }
}

/// Whether one of these buttons has this light.
pub open spec fn lights_of(targets: Seq<ButtonColourTargets>, light: ColourTargets) -> bool {
    exists|i: int| 0 <= i < targets.len() && target_light(#[trigger] targets[i]) == light
}

/// Whether a light belongs to a button of a group.
pub open spec fn in_group(group: ButtonColourGroups, light: ColourTargets) -> bool {
    lights_of(group_targets(group), light)
}

/// One more button has one more light.
proof fn lemma_lights_of_next(targets: Seq<ButtonColourTargets>, count: int)
    requires
        0 <= count < targets.len(),
    ensures
        forall|light: ColourTargets| #[trigger]
            lights_of(targets.take(count + 1), light) <==> lights_of(targets.take(count), light)
                || light == target_light(targets[count]),
{
    assert forall|light: ColourTargets| #[trigger]
        lights_of(targets.take(count + 1), light) <==> lights_of(targets.take(count), light)
            || light == target_light(targets[count]) by {
        if lights_of(targets.take(count + 1), light) {
            let i = choose|i: int|
                0 <= i < count + 1 && target_light(#[trigger] targets.take(count + 1)[i]) == light;
            if i < count {
                assert(targets.take(count)[i] == targets[i]);
            }
        }
        if lights_of(targets.take(count), light) {
            let i = choose|i: int|
                0 <= i < count && target_light(#[trigger] targets.take(count)[i]) == light;
            assert(targets.take(count + 1)[i] == targets[i]);
        }
        assert(targets.take(count + 1)[count] == targets[count]);
    }
}

/// How a light that blinks, is on, or is off shows.
pub open spec fn lit_state(on: bool, blink: bool, off_style: ButtonColourOffStyle) -> ButtonStates {
    if blink {
        ButtonStates::Flashing
    } else if on {
        ButtonStates::Colour1
    } else {
        match off_style {
            ButtonColourOffStyle::Dimmed => ButtonStates::DimmedColour1,
            ButtonColourOffStyle::Colour2 => ButtonStates::Colour2,
            ButtonColourOffStyle::DimmedColour2 => ButtonStates::DimmedColour2,
        }
    }
}

/// Finds how a light shows.
pub fn get_lit_state(on: bool, blink: bool, off_style: ButtonColourOffStyle) -> (state: ButtonStates)
    ensures
        state == lit_state(on, blink, off_style),
{
    if blink {
        return ButtonStates::Flashing;
    }
    if on {
        return ButtonStates::Colour1;
    }
    match off_style {
        ButtonColourOffStyle::Dimmed => ButtonStates::DimmedColour1,
        ButtonColourOffStyle::Colour2 => ButtonStates::Colour2,
        ButtonColourOffStyle::DimmedColour2 => ButtonStates::DimmedColour2,
    }
}

/// Whether a button is on, and whether it blinks.
pub open spec fn button_flags(profile: ProfileAdapter, button: Buttons) -> (bool, bool) {
    let (effects, sampler) = (profile.effects, profile.sampler);
    match button {
        Buttons::Fader1Mute => (profile.mutes.a.on, profile.mutes.a.blink),
        Buttons::Fader2Mute => (profile.mutes.b.on, profile.mutes.b.blink),
        Buttons::Fader3Mute => (profile.mutes.c.on, profile.mutes.c.blink),
        Buttons::Fader4Mute => (profile.mutes.d.on, profile.mutes.d.blink),
        Buttons::Bleep => (profile.swear_on, false),
        Buttons::MicrophoneMute => (profile.cough.on, profile.cough.blink),
        Buttons::EffectSelect1 => (effects.preset_on.preset1, false),
        Buttons::EffectSelect2 => (effects.preset_on.preset2, false),
        Buttons::EffectSelect3 => (effects.preset_on.preset3, false),
        Buttons::EffectSelect4 => (effects.preset_on.preset4, false),
        Buttons::EffectSelect5 => (effects.preset_on.preset5, false),
        Buttons::EffectSelect6 => (effects.preset_on.preset6, false),
        Buttons::EffectFx => (effects.fx_on, false),
        Buttons::EffectMegaphone => (effects.megaphone_on, false),
        Buttons::EffectRobot => (effects.robot_on, false),
        Buttons::EffectHardTune => (effects.hardtune_on, false),
        Buttons::SamplerSelectA => (sampler.bank_on.a, false),
        Buttons::SamplerSelectB => (sampler.bank_on.b, false),
        Buttons::SamplerSelectC => (sampler.bank_on.c, false),
        Buttons::SamplerTopLeft => (sampler.on.top_left, sampler.blink.top_left),
        Buttons::SamplerTopRight => (sampler.on.top_right, sampler.blink.top_right),
        Buttons::SamplerBottomLeft => (sampler.on.bottom_left, sampler.blink.bottom_left),
        Buttons::SamplerBottomRight => (sampler.on.bottom_right, sampler.blink.bottom_right),
        Buttons::SamplerClear => (false, sampler.clear),
    }
}

/// How a button shows.
pub open spec fn button_state(
    lights: Lights,
    profile: ProfileAdapter,
    button: Buttons,
) -> ButtonStates {
    let (on, blink) = button_flags(profile, button);
    lit_state(on, blink, lights.at(button_light(button)).off_style)
}

/// Finds whether a button is on, and whether it blinks.
fn get_button_flags(profile: &ProfileAdapter, button: Buttons) -> (flags: (bool, bool))
    ensures
        flags == button_flags(*profile, button),
{
    let effects = &profile.effects;
    let sampler = &profile.sampler;
    match button {
        Buttons::Fader1Mute => (profile.mutes.a.on, profile.mutes.a.blink),
        Buttons::Fader2Mute => (profile.mutes.b.on, profile.mutes.b.blink),
        Buttons::Fader3Mute => (profile.mutes.c.on, profile.mutes.c.blink),
        Buttons::Fader4Mute => (profile.mutes.d.on, profile.mutes.d.blink),
        Buttons::Bleep => (profile.swear_on, false),
        Buttons::MicrophoneMute => (profile.cough.on, profile.cough.blink),
        Buttons::EffectSelect1 => (effects.preset_on.preset1, false),
        Buttons::EffectSelect2 => (effects.preset_on.preset2, false),
        Buttons::EffectSelect3 => (effects.preset_on.preset3, false),
        Buttons::EffectSelect4 => (effects.preset_on.preset4, false),
        Buttons::EffectSelect5 => (effects.preset_on.preset5, false),
        Buttons::EffectSelect6 => (effects.preset_on.preset6, false),
        Buttons::EffectFx => (effects.fx_on, false),
        Buttons::EffectMegaphone => (effects.megaphone_on, false),
        Buttons::EffectRobot => (effects.robot_on, false),
        Buttons::EffectHardTune => (effects.hardtune_on, false),
        Buttons::SamplerSelectA => (sampler.bank_on.a, false),
        Buttons::SamplerSelectB => (sampler.bank_on.b, false),
        Buttons::SamplerSelectC => (sampler.bank_on.c, false),
        Buttons::SamplerTopLeft => (sampler.on.top_left, sampler.blink.top_left),
        Buttons::SamplerTopRight => (sampler.on.top_right, sampler.blink.top_right),
        Buttons::SamplerBottomLeft => (sampler.on.bottom_left, sampler.blink.bottom_left),
        Buttons::SamplerBottomRight => (sampler.on.bottom_right, sampler.blink.bottom_right),
        Buttons::SamplerClear => (false, sampler.clear),
    }
}

impl Lights {
    /// Finds how a button shows.
    pub fn get_button_colour_state(&self, profile: &ProfileAdapter, button: Buttons) -> (state:
        ButtonStates)
        ensures
            state == button_state(*self, *profile, button),
    {
        let (on, blink) = get_button_flags(profile, button);
        let light = self.get_profile_colour_map(map_button_to_colour_target(button));
        get_lit_state(on, blink, light.off_style)
    }

    /// Finds how the cough button shows.
    pub fn get_mute_chat_button_colour_state(&self, profile: &ProfileAdapter) -> (state:
        ButtonStates)
        ensures
            state == button_state(*self, *profile, Buttons::MicrophoneMute),
    {
        get_lit_state(
            profile.get_mute_chat_button_on(),
            profile.get_mute_chat_button_blink(),
            self.microphone_mute.off_style,
        )
    }

    /// Finds how every button shows, in the order of the buttons.
    pub fn create_button_states(&self, profile: &ProfileAdapter) -> (states: Vec<ButtonStates>)
        ensures
            states@ == Buttons::order().map_values(
                |button: Buttons| button_state(*self, *profile, button),
            ),
    {
        let buttons = Buttons::all();
        let mut states: Vec<ButtonStates> = Vec::new();
        let mut i: usize = 0;
        while i < buttons.len()
            invariant
                i <= buttons.len(),
                buttons@ == Buttons::order(),
                states@.len() == i,
                forall|j: int|
                    0 <= j < i ==> #[trigger] states@[j] == button_state(
                        *self,
                        *profile,
                        buttons@[j],
                    ),
            decreases buttons.len() - i,
        {
            let state = if buttons[i] == Buttons::MicrophoneMute {
                self.get_mute_chat_button_colour_state(profile)
            } else {
                self.get_button_colour_state(profile, buttons[i])
            };
            states.push(state);
            i = i + 1;
        }
        assert(states@ =~= Buttons::order().map_values(
            |button: Buttons| button_state(*self, *profile, button),
        ));
        states
    }
}

/// Writing a slot changes no byte outside it.
proof fn lemma_overlaid(map: Seq<u8>, position: int, colour: Colour)
    requires
        0 <= position,
        position + 4 <= map.len(),
    ensures
        overlaid(map, position, colour).len() == map.len(),
        overlaid(map, position, colour).subrange(position, position + 4) == colour.bytes(),
        forall|i: int|
            0 <= i < map.len() && !(position <= i < position + 4) ==> #[trigger] overlaid(
                map,
                position,
                colour,
            )[i] == map[i],
{
    assert(overlaid(map, position, colour).subrange(position, position + 4) =~= colour.bytes());
}

/// Where no two slots share a byte, each slot of the colour map shows its colour.
pub proof fn colour_map_shows_slots(
    lights: Lights,
    profile: ProfileAdapter,
    slots: Seq<ColourSlot>,
    k: int,
)
    requires
        forall|i: int| 0 <= i < slots.len() ==> (#[trigger] slots[i]).fits(),
        forall|i: int, j: int|
            0 <= i < j < slots.len() ==> (#[trigger] slots[i]).position + 4 <= (
            #[trigger] slots[j]).position || slots[j].position + 4 <= slots[i].position,
        0 <= k < slots.len(),
    ensures
        colour_map(lights, profile, slots).len() == COLOUR_MAP_LEN,
        colour_map(lights, profile, slots).subrange(
            slots[k].position as int,
            slots[k].position + 4,
        ) == slot_colour(lights, profile, slots[k]).bytes(),
    decreases slots.len(),
{
    let rest = slots.drop_last();
    let before = colour_map(lights, profile, rest);
    let after = colour_map(lights, profile, slots);
    lemma_colour_map_len(lights, profile, rest);
    lemma_overlaid(
        before,
        slots.last().position as int,
        slot_colour(lights, profile, slots.last()),
    );
    if k < rest.len() {
        colour_map_shows_slots(lights, profile, rest, k);
        let p = slots[k].position as int;
        assert(rest[k] == slots[k]);
        assert(slots[slots.len() - 1] == slots.last());
        assert(after.subrange(p, p + 4) =~= before.subrange(p, p + 4));
    }
}

/// The colour map has its length.
proof fn lemma_colour_map_len(lights: Lights, profile: ProfileAdapter, slots: Seq<ColourSlot>)
    requires
        forall|i: int| 0 <= i < slots.len() ==> (#[trigger] slots[i]).fits(),
    ensures
        colour_map(lights, profile, slots).len() == COLOUR_MAP_LEN,
    decreases slots.len(),
{
    if slots.len() > 0 {
        assert(slots[slots.len() - 1].fits());
        lemma_colour_map_len(lights, profile, slots.drop_last());
    }
}

/// Whether a light is that of a fader.
pub open spec fn is_fader_light(light: ColourTargets) -> bool {
    light == ColourTargets::FadeMeter1 || light == ColourTargets::FadeMeter2 || light
        == ColourTargets::FadeMeter3 || light == ColourTargets::FadeMeter4
}

/// Whether the lights that a command changes are known from the command alone. The profile works out
/// those of the other commands about colours, and the lights are taken anew from it.
pub open spec fn is_light_command(command: &GoXLRCommand) -> bool {
    match command {
        GoXLRCommand::SetFaderDisplayStyle(_, _) => true,
        GoXLRCommand::SetFaderColours(_, _, _) => true,
        GoXLRCommand::SetAllFaderColours(_, _) => true,
        GoXLRCommand::SetAllFaderDisplayStyle(_) => true,
        GoXLRCommand::SetButtonColours(_, _, _) => true,
        GoXLRCommand::SetButtonOffStyle(_, _) => true,
        GoXLRCommand::SetButtonGroupColours(_, _, _) => true,
        GoXLRCommand::SetButtonGroupOffStyle(_, _) => true,
        _ => false,
    }
}

/// A light once a command was stored. `one` and `two` are the colours that the command names.
pub open spec fn light_after(
    light: Light,
    target: ColourTargets,
    command: &GoXLRCommand,
    one: Colour,
    two: Colour,
) -> Light {
    match command {
        GoXLRCommand::SetFaderDisplayStyle(fader, display) => if target == fader_light(*fader) {
            Light { display: Some(*display), ..light }
        } else {
            light
        },
        GoXLRCommand::SetFaderColours(fader, _, _) => if target == fader_light(*fader) {
            light.recoloured(one, Some(two))
        } else {
            light
        },
        GoXLRCommand::SetAllFaderColours(_, _) => if is_fader_light(target) {
            light.recoloured(one, Some(two))
        } else {
            light
        },
        GoXLRCommand::SetAllFaderDisplayStyle(display) => if is_fader_light(target) {
            Light { display: Some(*display), ..light }
        } else {
            light
        },
        GoXLRCommand::SetButtonColours(button, _, second) => if target == target_light(*button) {
            light.recoloured(
                one,
                if second is Some {
                    Some(two)
                } else {
                    None
                },
            )
        } else {
            light
        },
        GoXLRCommand::SetButtonOffStyle(button, off_style) => if target == target_light(*button) {
            Light { off_style: *off_style, ..light }
        } else {
            light
        },
        GoXLRCommand::SetButtonGroupColours(group, _, second) => if in_group(*group, target) {
            light.recoloured(
                one,
                if second is Some {
                    Some(two)
                } else {
                    None
                },
            )
        } else {
            light
        },
        GoXLRCommand::SetButtonGroupOffStyle(group, off_style) => if in_group(*group, target) {
            Light { off_style: *off_style, ..light }
        } else {
            light
        },
        _ => light,
    }
}

impl Lights {
    /// Writes what a command carries into the lights. `one` and `two` are the colours that the
    /// command names; a command without a second colour leaves `two` unused. Says whether the lights
    /// that the command changes are known from it: the others keep what they had, and are taken anew
    /// from the profile.
    pub fn store(&mut self, command: &GoXLRCommand, one: Colour, two: Colour) -> (stored: bool)
        ensures
            stored == is_light_command(command),
            forall|target: ColourTargets| #[trigger]
                final(self).at(target) == light_after(
                    old(self).at(target),
                    target,
                    command,
                    one,
                    two,
                ),
    {
        match command {
            GoXLRCommand::SetFaderDisplayStyle(fader, display) => {
                self.set_fader_display(*fader, *display);
                true
            },
            GoXLRCommand::SetFaderColours(fader, _, _) => {
                self.set_fader_colours(*fader, one, two);
                true
            },
            GoXLRCommand::SetAllFaderColours(_, _) => {
                self.set_fader_colours(FaderName::A, one, two);
                self.set_fader_colours(FaderName::B, one, two);
                self.set_fader_colours(FaderName::C, one, two);
                self.set_fader_colours(FaderName::D, one, two);
                true
            },
            GoXLRCommand::SetAllFaderDisplayStyle(display) => {
                self.set_fader_display(FaderName::A, *display);
                self.set_fader_display(FaderName::B, *display);
                self.set_fader_display(FaderName::C, *display);
                self.set_fader_display(FaderName::D, *display);
                true
            },
            GoXLRCommand::SetButtonColours(button, _, second) => {
                let colour = if second.is_some() {
                    Some(two)
                } else {
                    None
                };
                self.set_button_colours(*button, one, colour);
                true
            },
            GoXLRCommand::SetButtonOffStyle(button, off_style) => {
                self.set_button_off_style(*button, *off_style);
                true
            },
            GoXLRCommand::SetButtonGroupColours(group, _, second) => {
                let colour = if second.is_some() {
                    Some(two)
                } else {
                    None
                };
                self.set_group_button_colours(*group, one, colour);
                true
            },
            GoXLRCommand::SetButtonGroupOffStyle(group, off_style) => {
                self.set_group_button_off_style(*group, *off_style);
                true
            },
            _ => false,
        }
    }
}

} // verus!
