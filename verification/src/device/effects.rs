//! The voice effects and the encoders.

use crate::device::state::{Device, Draft};
use crate::keys::{EffectGroup, EffectKey};
use crate::plan::{Announcement, Change, UsbCall, VoiceChange};
use crate::types::{DeviceType, EffectBankPresets, EncoderName, InputDevice};
use vstd::prelude::*;

verus! {

/// Where the encoders were seen.
#[derive(Clone, Copy, Debug, PartialEq, Eq)]
pub struct SeenEncoders {
    /// The position that the profile calculates from where the pitch encoder stands. With hard tune
    /// the profile knows fewer positions than the encoder.
    pub pitch_position: i8,
    pub gender: i8,
    /// Whether the amount of gender differs there. Not every position has an amount of its own.
    pub gender_changes: bool,
    pub reverb: i8,
    pub echo: i8,
}

impl Draft {
    /// An encoder is moved to where the selected preset has it.
    #[verifier::opaque]
    pub open spec fn encoder_sent(self, encoder: EncoderName) -> Draft {
        self.usb(UsbCall::SetEncoder(encoder, self.mixer.profile.preset().encoders.at(encoder)))
    }

    /// Every encoder is moved to where the selected preset has it.
    #[verifier::opaque]
    pub open spec fn encoders_sent(self) -> Draft {
        self.encoder_sent(EncoderName::Pitch)
            .encoder_sent(EncoderName::Echo)
            .encoder_sent(EncoderName::Gender)
            .encoder_sent(EncoderName::Reverb)
    }

    /// The mode of the pitch encoder is sent to a device that has one.
    #[verifier::opaque]
    pub open spec fn pitch_mode_sent(self) -> Draft {
        let effects = self.mixer.profile.effects;
        self.usb_if(
            self.mixer.device_type == DeviceType::Full,
            UsbCall::SetPitchMode {
                hardtune_acts: effects.fx_on && effects.hardtune_on,
                hardtune_lit: effects.hardtune_on,
                preset: effects.selected,
            },
        )
    }

    /// An effect preset is selected.
    #[verifier::opaque]
    pub open spec fn effect_bank_loaded(self, preset: EffectBankPresets) -> Draft {
        self.say(Announcement::EffectBank(preset))
            .set(Change::Voice(VoiceChange::Bank(preset)))
            .encoders_sent()
            .pitch_mode_sent()
            .effects(EffectGroup::Full)
    }

    /// The megaphone is switched.
    #[verifier::opaque]
    pub open spec fn megaphone_set(self, enabled: bool) -> Draft {
        self.say(Announcement::Megaphone(enabled))
            .set(Change::Voice(VoiceChange::Megaphone(enabled)))
            .effect(EffectKey::MegaphoneEnabled)
    }

    /// The robot is switched.
    #[verifier::opaque]
    pub open spec fn robot_set(self, enabled: bool) -> Draft {
        self.say(Announcement::Robot(enabled))
            .set(Change::Voice(VoiceChange::Robot(enabled)))
            .effect(EffectKey::RobotEnabled)
    }

    /// Hard tune is switched. Its range of the pitch encoder differs, so that encoder is sent anew.
    #[verifier::opaque]
    pub open spec fn hardtune_set(self, enabled: bool) -> Draft {
        let switched = self.say(Announcement::HardTune(enabled))
            .set(Change::Voice(VoiceChange::HardTune(enabled)))
            .effect(EffectKey::HardTuneEnabled)
            .pitch_mode_sent();
        let pitch = switched.mixer.profile.preset().encoders.pitch;
        switched.encoder_sent(EncoderName::Pitch)
            .set(Change::Voice(VoiceChange::Encoder(EncoderName::Pitch, pitch)))
            .effect(EffectKey::PitchAmount)
    }

    /// All effects are switched. What is heard of the microphone may depend on them.
    #[verifier::opaque]
    pub open spec fn effects_set(self, enabled: bool) -> Draft {
        self.say(Announcement::Effects(enabled))
            .set(Change::Voice(VoiceChange::Effects(enabled)))
            .effects(EffectGroup::Switches)
            .route(InputDevice::Microphone)
    }

    /// An encoder was seen at a position, and the effect that it controls is sent where `sends`
    /// holds.
    #[verifier::opaque]
    pub open spec fn encoder_moved(
        self,
        encoder: EncoderName,
        value: i8,
        key: EffectKey,
        sends: bool,
    ) -> Draft {
        if self.mixer.profile.preset().encoders.at(encoder) == value {
            self
        } else {
            let kept = self.set(Change::Voice(VoiceChange::Encoder(encoder, value)));
            if sends {
                kept.effect(key).say(Announcement::Encoder(encoder))
            } else {
                kept
            }
        }
    }

    /// The encoders were seen. Whether the pitch encoder moved is told by the position that the profile
    /// calculates for it.
    #[verifier::opaque]
    pub open spec fn encoders_moved(self, seen: SeenEncoders) -> Draft {
        self.encoder_moved(EncoderName::Pitch, seen.pitch_position, EffectKey::PitchAmount, true)
            .encoder_moved(
            EncoderName::Gender,
            seen.gender,
            EffectKey::GenderAmount,
            seen.gender_changes,
        ).encoder_moved(EncoderName::Reverb, seen.reverb, EffectKey::ReverbAmount, true)
            .encoder_moved(EncoderName::Echo, seen.echo, EffectKey::EchoAmount, true)
    }

    /// The effect settings that only some models know are sent.
    #[verifier::opaque]
    pub open spec fn voice_fx_applied(self) -> Draft {
        if self.mixer.device_type == DeviceType::Mini {
            self
        } else {
            self.effects(EffectGroup::Full).pitch_mode_sent().encoders_sent()
        }
    }

    /// Whether the encoders, seen one after the other, stand elsewhere than the profile has them.
    pub open spec fn encoders_change(self, seen: SeenEncoders) -> bool {
        let pitch = self.encoder_moved(
            EncoderName::Pitch,
            seen.pitch_position,
            EffectKey::PitchAmount,
            true,
        );
        let gender = pitch.encoder_moved(
            EncoderName::Gender,
            seen.gender,
            EffectKey::GenderAmount,
            seen.gender_changes,
        );
        let reverb = gender.encoder_moved(
            EncoderName::Reverb,
            seen.reverb,
            EffectKey::ReverbAmount,
            true,
        );
        ||| self.mixer.profile.preset().encoders.pitch != seen.pitch_position
        ||| pitch.mixer.profile.preset().encoders.gender != seen.gender
        ||| gender.mixer.profile.preset().encoders.reverb != seen.reverb
        ||| reverb.mixer.profile.preset().encoders.echo != seen.echo
    }
}

impl Device {
    /// Moves an encoder to where the selected preset has it.
    fn send_encoder(&mut self, encoder: EncoderName)
        ensures
            final(self)@ == old(self)@.encoder_sent(encoder),
            old(self)@.consistent() ==> final(self)@.consistent(),
    {
        reveal(Draft::encoder_sent);
        let value: i8 = self.mixer().profile.get_encoder_value(encoder);
        self.usb(UsbCall::SetEncoder(encoder, value));
    }

    /// Moves every encoder to where the selected preset has it.
    pub fn load_encoder_effects(&mut self)
        ensures
            final(self)@ == old(self)@.encoders_sent(),
            old(self)@.consistent() ==> final(self)@.consistent(),
    {
        reveal(Draft::encoders_sent);
        self.send_encoder(EncoderName::Pitch);
        self.send_encoder(EncoderName::Echo);
        self.send_encoder(EncoderName::Gender);
        self.send_encoder(EncoderName::Reverb);
    }

    /// Sends the mode of the pitch encoder.
    pub fn set_pitch_mode(&mut self)
        ensures
            final(self)@ == old(self)@.pitch_mode_sent(),
            old(self)@.consistent() ==> final(self)@.consistent(),
    {
        reveal(Draft::pitch_mode_sent);
        let hardtune_acts = self.mixer().profile.is_hardtune_enabled(false);
        let hardtune_lit = self.mixer().profile.is_hardtune_pitch_enabled();
        let preset = self.mixer().profile.effects.selected;
        self.usb_if(
            self.mixer().device_type == DeviceType::Full,
            UsbCall::SetPitchMode { hardtune_acts, hardtune_lit, preset },
        );
    }

    /// Selects an effect preset.
    pub fn load_effect_bank(&mut self, preset: EffectBankPresets)
        ensures
            final(self)@ == old(self)@.effect_bank_loaded(preset),
            old(self)@.consistent() ==> final(self)@.consistent(),
    {
        reveal(Draft::effect_bank_loaded);
        self.say(Announcement::EffectBank(preset));
        self.set(Change::Voice(VoiceChange::Bank(preset)));
        self.load_encoder_effects();
        self.set_pitch_mode();
        self.effects(EffectGroup::Full);
    }

    /// Switches the megaphone.
    pub fn set_megaphone(&mut self, enabled: bool)
        ensures
            final(self)@ == old(self)@.megaphone_set(enabled),
            old(self)@.consistent() ==> final(self)@.consistent(),
    {
        reveal(Draft::megaphone_set);
        self.say(Announcement::Megaphone(enabled));
        self.set(Change::Voice(VoiceChange::Megaphone(enabled)));
        self.effect(EffectKey::MegaphoneEnabled);
    }

    /// Switches the robot.
    pub fn set_robot(&mut self, enabled: bool)
        ensures
            final(self)@ == old(self)@.robot_set(enabled),
            old(self)@.consistent() ==> final(self)@.consistent(),
    {
        reveal(Draft::robot_set);
        self.say(Announcement::Robot(enabled));
        self.set(Change::Voice(VoiceChange::Robot(enabled)));
        self.effect(EffectKey::RobotEnabled);
    }

    /// Switches hard tune.
    pub fn set_hardtune(&mut self, enabled: bool)
        ensures
            final(self)@ == old(self)@.hardtune_set(enabled),
            old(self)@.consistent() ==> final(self)@.consistent(),
    {
        reveal(Draft::hardtune_set);
        self.say(Announcement::HardTune(enabled));
        self.set(Change::Voice(VoiceChange::HardTune(enabled)));
        self.effect(EffectKey::HardTuneEnabled);
        self.set_pitch_mode();
        let pitch: i8 = self.mixer().profile.get_pitch_value();
        self.send_encoder(EncoderName::Pitch);
        self.set(Change::Voice(VoiceChange::Encoder(EncoderName::Pitch, pitch)));
        self.effect(EffectKey::PitchAmount);
    }

    /// Switches all effects.
    pub fn set_effects(&mut self, enabled: bool)
        ensures
            final(self)@ == old(self)@.effects_set(enabled),
            old(self)@.consistent() ==> final(self)@.consistent(),
    {
        reveal(Draft::effects_set);
        self.say(Announcement::Effects(enabled));
        self.set(Change::Voice(VoiceChange::Effects(enabled)));
        self.effects(EffectGroup::Switches);
        self.apply_routing(InputDevice::Microphone);
    }

    /// Acts on one encoder that was seen at a position. Gives whether it moved.
    fn update_encoder_to(
        &mut self,
        encoder: EncoderName,
        value: i8,
        key: EffectKey,
        sends: bool,
    ) -> (changed: bool)
        ensures
            final(self)@ == old(self)@.encoder_moved(encoder, value, key, sends),
            changed == (old(self)@.mixer.profile.preset().encoders.at(encoder) != value),
            old(self)@.consistent() ==> final(self)@.consistent(),
    {
        reveal(Draft::encoder_moved);
        if value == self.mixer().profile.get_encoder_value(encoder) {
            return false;
        }
        self.set(Change::Voice(VoiceChange::Encoder(encoder, value)));
        if sends {
            self.effect(key);
            self.say(Announcement::Encoder(encoder));
        }
        true
    }

    /// Acts on the encoders, which were seen. Gives whether one moved.
    pub fn update_encoders_to(&mut self, seen: SeenEncoders) -> (changed: bool)
        ensures
            final(self)@ == old(self)@.encoders_moved(seen),
            changed == old(self)@.encoders_change(seen),
            old(self)@.consistent() ==> final(self)@.consistent(),
    {
        reveal(Draft::encoders_moved);
        let pitch = self.update_encoder_to(
            EncoderName::Pitch,
            seen.pitch_position,
            EffectKey::PitchAmount,
            true,
        );
        let gender = self.update_encoder_to(
            EncoderName::Gender,
            seen.gender,
            EffectKey::GenderAmount,
            seen.gender_changes,
        );
        let reverb = self.update_encoder_to(
            EncoderName::Reverb,
            seen.reverb,
            EffectKey::ReverbAmount,
            true,
        );
        let echo = self.update_encoder_to(
            EncoderName::Echo,
            seen.echo,
            EffectKey::EchoAmount,
            true,
        );
        pitch || gender || reverb || echo
    }

    /// Sends the effect settings that only some models know.
    pub fn apply_voice_fx(&mut self)
        ensures
            final(self)@ == old(self)@.voice_fx_applied(),
            old(self)@.consistent() ==> final(self)@.consistent(),
    {
        reveal(Draft::voice_fx_applied);
        if self.mixer().device_type == DeviceType::Mini {
            return ;
        }
        self.effects(EffectGroup::Full);
        self.set_pitch_mode();
        self.load_encoder_effects();
    }
}

} // verus!
