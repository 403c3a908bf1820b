//! What holds of a device over several actions.

use crate::device::fader::is_main_output;
use crate::device::state::{mute_changed, Draft, Mixer};
use crate::plan::{Change, CoughChange, MixerChange, MuteChange, UsbCall};
use crate::profile::{CoughButton, MuteButton, ProfileAdapter};
use crate::types::{
    ChannelName, DeviceType, EffectBankPresets, FaderName, InputDevice, MuteFunction, OutputDevice,
    SampleBank,
};
use vstd::prelude::*;

verus! {

/// A route that is set is there, one that is taken away is gone, and no other route changes.
pub proof fn routing_is_apart(
    profile: ProfileAdapter,
    input: InputDevice,
    output: OutputDevice,
    enabled: bool,
    other_input: InputDevice,
    other_output: OutputDevice,
)
    ensures
        profile.with_routing(input, output, enabled).routed(input, output) == enabled,
        (input, output) != (other_input, other_output) ==> profile.with_routing(
            input,
            output,
            enabled,
        ).routed(other_input, other_output) == profile.routed(other_input, other_output),
{
}

/// Two faders that change places twice are where they were.
pub proof fn switching_twice_changes_nothing(profile: ProfileAdapter, one: FaderName, two: FaderName)
    ensures
        profile.with_switched(one, two).with_switched(one, two) == profile,
{
}

/// A channel that is on some fader stays on one when two faders change places.
pub proof fn switching_loses_no_channel(
    profile: ProfileAdapter,
    one: FaderName,
    two: FaderName,
    fader: FaderName,
)
    ensures
        exists|other: FaderName| #[trigger]
            profile.with_switched(one, two).faders.at(other) == profile.faders.at(fader),
{
    let other = if fader == one {
        two
    } else if fader == two {
        one
    } else {
        fader
    };
    assert(profile.with_switched(one, two).faders.at(other) == profile.faders.at(fader));
}

/// Whether no two faders carry the same channel.
pub open spec fn faders_differ(profile: ProfileAdapter) -> bool {
    forall|one: FaderName, two: FaderName|
        one != two ==> #[trigger] profile.faders.at(one) != #[trigger] profile.faders.at(two)
}

/// A change of a mute button leaves the faders.
proof fn lemma_mute_keeps_faders(mixer: Mixer, fader: FaderName, change: MuteChange)
    ensures
        mixer.changed(Change::Mute(fader, change)).profile.faders == mixer.profile.faders,
{
    reveal(Mixer::changed);
}

/// What a change of the faders leaves of them.
proof fn lemma_changed_faders(mixer: Mixer, change: MixerChange)
    ensures
        mixer.changed(Change::Mixer(change)).profile.faders == (match change {
            MixerChange::FaderAssignment(fader, channel) => mixer.profile.faders.with(
                fader,
                channel,
            ),
            MixerChange::SwitchFaders(one, two) => mixer.profile.with_switched(one, two).faders,
            _ => mixer.profile.faders,
        }),
{
    reveal(Mixer::changed);
}

/// What undoing a mute leaves of the faders: all of them.
proof fn lemma_unmuting_keeps_faders(draft: Draft, fader: FaderName)
    ensures
        draft.unmuted(fader).mixer.profile.faders == draft.mixer.profile.faders,
{
    let button = draft.mixer.profile.mutes.at(fader);
    let channel = draft.mixer.profile.faders.at(fader);
    let off = Change::Mute(fader, MuteChange::On(false));
    let still = Change::Mute(fader, MuteChange::Blink(false));
    let unlit = draft.set(off).set(still);
    lemma_set(draft, true, off);
    lemma_mute_keeps_faders(draft.mixer, fader, MuteChange::On(false));
    lemma_set(draft.set(off), true, still);
    lemma_mute_keeps_faders(draft.set(off).mixer, fader, MuteChange::Blink(false));
    lemma_restored(unlit, fader, channel);
    lemma_changed_faders(
        unlit.mixer,
        MixerChange::Volume(channel, unlit.mixer.profile.mutes.at(fader).previous_volume),
    );
    assert(draft.unmuted(fader).mixer == (if !button.on && !button.blink {
        draft.mixer
    } else if button.blink || button.function == MuteFunction::All {
        unlit.unsilenced(fader, channel).mixer
    } else {
        unlit.mixer
    })) by {
        reveal(Draft::unmuted);
        reveal(Draft::then_do);
        reveal(Draft::route);
        reveal(Draft::route_if);
        reveal(Draft::route_channel_if);
    }
}

/// What is sent leaves the state as it is.
proof fn lemma_sent(draft: Draft, condition: bool, call: UsbCall)
    ensures
        draft.usb(call).mixer == draft.mixer,
        draft.usb_if(condition, call).mixer == draft.mixer,
{
    reveal(Draft::then_do);
    reveal(Draft::usb_if);
}

/// A volume that is sent leaves the state as it is.
proof fn lemma_volume_sent(draft: Draft, condition: bool, channel: ChannelName)
    ensures
        draft.send_volume_if(condition, channel).mixer == draft.mixer,
{
    reveal(Draft::send_volume_if);
    lemma_sent(
        draft,
        condition,
        UsbCall::SetVolume(channel, draft.mixer.profile.volumes.at(channel)),
    );
}

/// The faders after one was told again of its channel.
proof fn lemma_kept_faders(draft: Draft, fader: FaderName, channel: ChannelName)
    ensures
        draft.fader_kept(fader, channel).mixer.profile.faders == draft.mixer.profile.faders,
{
    reveal(Draft::fader_kept);
    let change = MixerChange::MicFader(fader);
    let told = draft.set_if(channel == ChannelName::Mic, Change::Mixer(change));
    lemma_set(draft, channel == ChannelName::Mic, Change::Mixer(change));
    lemma_changed_faders(draft.mixer, change);
    lemma_sent(told, !is_main_output(channel), UsbCall::SetFader(fader, channel));
}

/// The faders after a channel took the place of another.
proof fn lemma_replaced_faders(draft: Draft, fader: FaderName, channel: ChannelName)
    ensures
        draft.fader_replaced(fader, channel).mixer.profile.faders == draft.mixer.profile.faders.with(
            fader,
            channel,
        ),
{
    reveal(Draft::fader_replaced);
    let existing = draft.mixer.profile.faders.at(fader);
    let unmuted = draft.unmuted(fader);
    lemma_unmuting_keeps_faders(draft, fader);
    let gone = MixerChange::NoMicFader;
    let left = unmuted.set_if(existing == ChannelName::Mic, Change::Mixer(gone));
    lemma_set(unmuted, existing == ChannelName::Mic, Change::Mixer(gone));
    lemma_changed_faders(unmuted.mixer, gone);
    let change = MixerChange::FaderAssignment(fader, channel);
    let put = left.set(Change::Mixer(change));
    lemma_set(left, true, Change::Mixer(change));
    lemma_changed_faders(left.mixer, change);
    let told = put.usb(UsbCall::SetFader(fader, channel));
    lemma_sent(put, true, UsbCall::SetFader(fader, channel));
    let once = told.send_volume_if(true, existing);
    lemma_volume_sent(told, true, existing);
    let twice = once.send_volume_if(is_main_output(channel), channel);
    lemma_volume_sent(once, is_main_output(channel), channel);
    lemma_sent(twice, true, UsbCall::SendButtonStates);
}

/// The faders after two of them changed places.
proof fn lemma_switched_faders(draft: Draft, fader: FaderName, other: FaderName)
    ensures
        draft.faders_switched(fader, other).mixer.profile.faders == draft.mixer.profile.with_switched(
            fader,
            other,
        ).faders,
{
    reveal(Draft::faders_switched);
    let existing = draft.mixer.profile.faders.at(fader);
    let channel = draft.mixer.profile.faders.at(other);
    let change = MixerChange::SwitchFaders(fader, other);
    let switched = draft.set(Change::Mixer(change));
    lemma_set(draft, true, Change::Mixer(change));
    lemma_changed_faders(draft.mixer, change);
    let here = MixerChange::MicFader(fader);
    let one = switched.set_if(channel == ChannelName::Mic, Change::Mixer(here));
    lemma_set(switched, channel == ChannelName::Mic, Change::Mixer(here));
    lemma_changed_faders(switched.mixer, here);
    let there = MixerChange::MicFader(other);
    let two = one.set_if(existing == ChannelName::Mic, Change::Mixer(there));
    lemma_set(one, existing == ChannelName::Mic, Change::Mixer(there));
    lemma_changed_faders(one.mixer, there);
    let first = two.usb(UsbCall::SetFader(fader, channel));
    lemma_sent(two, true, UsbCall::SetFader(fader, channel));
    let both = first.usb(UsbCall::SetFader(other, existing));
    lemma_sent(first, true, UsbCall::SetFader(other, existing));
    let loud = both.send_volume_if(is_main_output(channel), channel);
    lemma_volume_sent(both, is_main_output(channel), channel);
    let louder = loud.send_volume_if(is_main_output(existing), existing);
    lemma_volume_sent(loud, is_main_output(existing), existing);
    let shown = louder.usb(UsbCall::SendScribble(fader));
    lemma_sent(louder, true, UsbCall::SendScribble(fader));
    let shown_both = shown.usb(UsbCall::SendScribble(other));
    lemma_sent(shown, true, UsbCall::SendScribble(other));
    lemma_sent(shown_both, true, UsbCall::SendButtonStates);
}

/// Putting a channel on a fader keeps the channels of the four faders different: a channel that another
/// fader carries changes places with the one that was there.
pub proof fn faders_stay_different(draft: Draft, fader: FaderName, channel: ChannelName)
    requires
        faders_differ(draft.mixer.profile),
    ensures
        faders_differ(draft.fader_set(fader, channel).mixer.profile),
        draft.fader_set(fader, channel).mixer.profile.faders.at(fader) == channel,
{
    let before = draft.mixer.profile.faders;
    assert(before.a != before.b && before.a != before.c && before.a != before.d && before.b
        != before.c && before.b != before.d && before.c != before.d) by {
        assert(before.at(FaderName::A) != before.at(FaderName::B));
        assert(before.at(FaderName::A) != before.at(FaderName::C));
        assert(before.at(FaderName::A) != before.at(FaderName::D));
        assert(before.at(FaderName::B) != before.at(FaderName::C));
        assert(before.at(FaderName::B) != before.at(FaderName::D));
        assert(before.at(FaderName::C) != before.at(FaderName::D));
    }
    assert(draft.fader_set(fader, channel) == (if channel == before.at(fader) {
        draft.fader_kept(fader, channel)
    } else {
        match draft.mixer.other_fader(fader, channel) {
            None => draft.fader_replaced(fader, channel),
            Some(other) => draft.faders_switched(fader, other),
        }
    })) by {
        reveal(Draft::fader_set);
    }
    if channel == before.at(fader) {
        lemma_kept_faders(draft, fader, channel);
    } else {
        match draft.mixer.other_fader(fader, channel) {
            None => {
                lemma_replaced_faders(draft, fader, channel);
            },
            Some(other) => {
                lemma_switched_faders(draft, fader, other);
            },
        }
    }
}

/// Whether exactly the button of the selected preset is lit.
pub open spec fn selected_preset_lit(profile: ProfileAdapter) -> bool {
    forall|preset: EffectBankPresets| #[trigger]
        profile.effects.preset_on.at(preset) == (preset == profile.effects.selected)
}

/// Selecting presets keeps exactly the button of the selected one lit.
pub proof fn one_preset_stays_lit(profile: ProfileAdapter, preset: EffectBankPresets)
    requires
        selected_preset_lit(profile),
    ensures
        selected_preset_lit(profile.with_effect_bank(preset)),
        profile.with_effect_bank(preset).effects.selected == preset,
{
    let after = profile.with_effect_bank(preset);
    assert forall|other: EffectBankPresets| #[trigger]
        after.effects.preset_on.at(other) == (other == after.effects.selected) by {
        assert(profile.effects.preset_on.at(other) == (other == profile.effects.selected));
    }
}

/// Whether exactly the button of the selected sample bank is lit.
pub open spec fn selected_bank_lit(profile: ProfileAdapter) -> bool {
    forall|bank: SampleBank| #[trigger]
        profile.sampler.bank_on.at(bank) == (bank == profile.sampler.selected)
}

/// Selecting sample banks keeps exactly the button of the selected one lit.
pub proof fn one_bank_stays_lit(profile: ProfileAdapter, bank: SampleBank)
    requires
        selected_bank_lit(profile),
    ensures
        selected_bank_lit(profile.with_sample_bank(bank)),
        profile.with_sample_bank(bank).sampler.selected == bank,
{
    let after = profile.with_sample_bank(bank);
    assert forall|other: SampleBank| #[trigger]
        after.sampler.bank_on.at(other) == (other == after.sampler.selected) by {
        assert(profile.sampler.bank_on.at(other) == (other == profile.sampler.selected));
    }
}

/// A microphone that a fader or the cough button silences everywhere reaches no output.
pub proof fn silenced_mic_reaches_nothing(mixer: Mixer, fader: FaderName, output: OutputDevice)
    requires
        mixer.profile.cough.silences() || (mixer.profile.faders.at(fader) == ChannelName::Mic
            && mixer.profile.mutes.at(fader).silences()),
    ensures
        !mixer.reaches(InputDevice::Microphone, output),
{
    assert forall|out: OutputDevice| mixer.blocked(InputDevice::Microphone, out) by {
        if !mixer.profile.cough.silences() {
            assert(mixer.fader_blocks(fader, ChannelName::Mic, out));
        }
    }
    assert(mixer.blocked(InputDevice::Microphone, output));
    assert(mixer.blocked(InputDevice::Microphone, mixer.profile.monitor));
}

/// With nothing muted and no monitoring, an input reaches what the router says, and the headphones
/// get what the monitored output gets.
pub proof fn unmuted_input_follows_router(mixer: Mixer, input: InputDevice, output: OutputDevice)
    requires
        !mixer.profile.cough.on,
        !mixer.profile.cough.blink,
        forall|fader: FaderName|
            !(#[trigger] mixer.profile.mutes.at(fader)).on && !mixer.profile.mutes.at(fader).blink,
        !mixer.monitor_with_fx,
    ensures
        mixer.reaches(input, output) == mixer.profile.routed(
            input,
            if output == OutputDevice::Headphones {
                mixer.profile.monitor
            } else {
                output
            },
        ),
{
    assert forall|fader: FaderName, channel: ChannelName, out: OutputDevice| !#[trigger] mixer.fader_blocks(
        fader,
        channel,
        out,
    ) by {
        let button = mixer.profile.mutes.at(fader);
        assert(!button.on && !button.blink);
    }
    assert forall|fader: FaderName| !(#[trigger] mixer.profile.mutes.at(fader)).silences() by {
        assert(!mixer.profile.mutes.at(fader).on);
    }
}

/// A device with another mute button on a fader, and another volume of a channel.
#[verifier::opaque]
pub open spec fn remuted(
    mixer: Mixer,
    fader: FaderName,
    button: MuteButton,
    channel: ChannelName,
    volume: u8,
) -> Mixer {
    Mixer {
        profile: ProfileAdapter {
            mutes: mixer.profile.mutes.with(fader, button),
            volumes: mixer.profile.volumes.with(channel, volume),
            ..mixer.profile
        },
        ..mixer
    }
}

/// A device has its own mute button and its own volume.
proof fn lemma_remuted_self(mixer: Mixer, fader: FaderName, channel: ChannelName)
    ensures
        mixer == remuted(
            mixer,
            fader,
            mixer.profile.mutes.at(fader),
            channel,
            mixer.profile.volumes.at(channel),
        ),
{
    reveal(remuted);
    assert(mixer.profile.mutes.with(fader, mixer.profile.mutes.at(fader)) == mixer.profile.mutes);
    assert(mixer.profile.volumes.with(channel, mixer.profile.volumes.at(channel))
        == mixer.profile.volumes);
}

/// What a device with another mute button and another volume has.
proof fn lemma_remuted_has(
    mixer: Mixer,
    fader: FaderName,
    button: MuteButton,
    channel: ChannelName,
    volume: u8,
)
    ensures
        ({
            let after = remuted(mixer, fader, button, channel, volume);
            &&& after.profile.mutes.at(fader) == button
            &&& after.profile.volumes.at(channel) == volume
            &&& after.profile.faders == mixer.profile.faders
            &&& after.device_type == mixer.device_type
            &&& after.faders_move() == mixer.faders_move()
        }),
{
    reveal(remuted);
}

/// A change of the mute button of a device with another mute button.
proof fn lemma_remuted_mute(
    mixer: Mixer,
    fader: FaderName,
    button: MuteButton,
    channel: ChannelName,
    volume: u8,
    change: MuteChange,
)
    ensures
        remuted(mixer, fader, button, channel, volume).changed(Change::Mute(fader, change))
            == remuted(mixer, fader, mute_changed(button, change), channel, volume),
{
    reveal(remuted);
    reveal(Mixer::changed);
    let new = mute_changed(button, change);
    assert(mixer.profile.mutes.with(fader, button).at(fader) == button);
    assert(mixer.profile.mutes.with(fader, button).with(fader, new) == mixer.profile.mutes.with(
        fader,
        new,
    ));
}

/// A change of the volume of a device with another volume.
proof fn lemma_remuted_volume(
    mixer: Mixer,
    fader: FaderName,
    button: MuteButton,
    channel: ChannelName,
    volume: u8,
    new: u8,
)
    ensures
        remuted(mixer, fader, button, channel, volume).changed(
            Change::Mixer(MixerChange::Volume(channel, new)),
        ) == remuted(mixer, fader, button, channel, new),
{
    reveal(remuted);
    reveal(Mixer::changed);
    assert(mixer.profile.volumes.with(channel, volume).with(channel, new)
        == mixer.profile.volumes.with(channel, new));
}

/// A change changes the state.
proof fn lemma_set(draft: Draft, condition: bool, change: Change)
    ensures
        draft.set(change).mixer == draft.mixer.changed(change),
        draft.set_if(condition, change).mixer == (if condition {
            draft.mixer.changed(change)
        } else {
            draft.mixer
        }),
{
    reveal(Draft::then_do);
    reveal(Draft::set_if);
}

/// The state after the channel on a fader was set to muted.
proof fn lemma_silenced(draft: Draft, fader: FaderName)
    ensures
        draft.fader_silenced(fader).mixer == ({
            let kept = if draft.mixer.device_type != DeviceType::Mini {
                draft.mixer.changed(
                    Change::Mute(
                        fader,
                        MuteChange::PreviousVolume(
                            draft.mixer.profile.volumes.at(draft.mixer.profile.faders.at(fader)),
                        ),
                    ),
                )
            } else {
                draft.mixer
            };
            kept.changed(Change::Mute(fader, MuteChange::On(true)))
        }),
{
    reveal(Draft::fader_silenced);
    reveal(Draft::then_do);
    reveal(Draft::set_if);
    reveal(Draft::usb_if);
}

/// The state after the channel on a fader was silenced everywhere.
proof fn lemma_muted(draft: Draft, fader: FaderName, blink: bool)
    requires
        !draft.mixer.profile.mutes.at(fader).on,
        !draft.mixer.profile.mutes.at(fader).blink,
    ensures
        draft.muted_to_all(fader, blink).mixer == ({
            let silenced = draft.fader_silenced(fader).mixer;
            let blinking = if blink {
                silenced.changed(Change::Mute(fader, MuteChange::Blink(true)))
            } else {
                silenced
            };
            if draft.mixer.faders_move() {
                blinking.changed(
                    Change::Mixer(MixerChange::Volume(draft.mixer.profile.faders.at(fader), 0)),
                )
            } else {
                blinking
            }
        }),
{
    reveal(Draft::muted_to_all);
    reveal(Draft::then_do);
    reveal(Draft::set_if);
    reveal(Draft::usb_if);
    reveal(Draft::route);
    reveal(Draft::route_if);
}

/// The state after a fader that moves returned to where it stood.
proof fn lemma_restored(draft: Draft, fader: FaderName, channel: ChannelName)
    ensures
        draft.unsilenced(fader, channel).mixer == (if draft.mixer.faders_move() {
            draft.mixer.changed(
                Change::Mixer(
                    MixerChange::Volume(channel, draft.mixer.profile.mutes.at(fader).previous_volume),
                ),
            )
        } else {
            draft.mixer
        }),
{
    reveal(Draft::unsilenced);
    reveal(Draft::let_through);
    reveal(Draft::volume_restored);
    reveal(Draft::then_do);
    reveal(Draft::usb_if);
    reveal(Draft::route);
    reveal(Draft::route_if);
}

/// The state after a mute of a fader was undone.
proof fn lemma_unmuted(draft: Draft, fader: FaderName)
    requires
        draft.mixer.profile.mutes.at(fader).on,
    ensures
        draft.unmuted(fader).mixer == ({
            let button = draft.mixer.profile.mutes.at(fader);
            let unlit = draft.set(Change::Mute(fader, MuteChange::On(false))).set(
                Change::Mute(fader, MuteChange::Blink(false)),
            );
            if button.blink || button.function == MuteFunction::All {
                unlit.unsilenced(fader, draft.mixer.profile.faders.at(fader)).mixer
            } else {
                unlit.mixer
            }
        }),
{
    reveal(Draft::unmuted);
    reveal(Draft::then_do);
    reveal(Draft::route);
    reveal(Draft::route_if);
    reveal(Draft::route_channel_if);
}

/// A channel that is muted everywhere and let through again has the volume that it had, and its
/// button is dark. Nothing but the volume that the button keeps differs.
pub proof fn muting_restores_volume(draft: Draft, fader: FaderName, blink: bool)
    requires
        !draft.mixer.profile.mutes.at(fader).on,
        !draft.mixer.profile.mutes.at(fader).blink,
        blink || draft.mixer.profile.mutes.at(fader).function == MuteFunction::All,
    ensures
        draft.muted_to_all(fader, blink).unmuted(fader).mixer == remuted(
            draft.mixer,
            fader,
            MuteButton {
                previous_volume: if draft.mixer.device_type != DeviceType::Mini {
                    draft.mixer.profile.volumes.at(draft.mixer.profile.faders.at(fader))
                } else {
                    draft.mixer.profile.mutes.at(fader).previous_volume
                },
                ..draft.mixer.profile.mutes.at(fader)
            },
            draft.mixer.profile.faders.at(fader),
            draft.mixer.profile.volumes.at(draft.mixer.profile.faders.at(fader)),
        ),
{
    let mixer = draft.mixer;
    let channel = mixer.profile.faders.at(fader);
    let volume = mixer.profile.volumes.at(channel);
    let button = mixer.profile.mutes.at(fader);
    let kept = if mixer.device_type != DeviceType::Mini {
        MuteButton { previous_volume: volume, ..button }
    } else {
        button
    };
    lemma_remuted_self(mixer, fader, channel);
    lemma_silenced(draft, fader);
    lemma_remuted_mute(
        mixer,
        fader,
        button,
        channel,
        volume,
        MuteChange::PreviousVolume(volume),
    );
    lemma_remuted_mute(mixer, fader, kept, channel, volume, MuteChange::On(true));
    let lit = MuteButton { on: true, ..kept };
    lemma_remuted_mute(mixer, fader, lit, channel, volume, MuteChange::Blink(true));
    let shown = MuteButton { on: true, blink, ..kept };
    assert(blink ==> shown == (MuteButton { blink: true, ..lit }));
    assert(!blink ==> shown == lit);
    lemma_remuted_volume(mixer, fader, shown, channel, volume, 0);
    lemma_muted(draft, fader, blink);
    let level: u8 = if mixer.faders_move() {
        0
    } else {
        volume
    };
    let muted = draft.muted_to_all(fader, blink);
    assert(muted.mixer == remuted(mixer, fader, shown, channel, level));
    lemma_remuted_has(mixer, fader, shown, channel, level);
    lemma_unmuted(muted, fader);
    let off = Change::Mute(fader, MuteChange::On(false));
    let still = Change::Mute(fader, MuteChange::Blink(false));
    lemma_set(muted, true, off);
    lemma_set(muted.set(off), true, still);
    lemma_remuted_mute(mixer, fader, shown, channel, level, MuteChange::On(false));
    let dark = MuteButton { on: false, ..shown };
    lemma_remuted_mute(mixer, fader, dark, channel, level, MuteChange::Blink(false));
    assert(kept == (MuteButton { blink: false, ..dark }));
    let unlit = muted.set(off).set(still);
    assert(unlit.mixer == remuted(mixer, fader, kept, channel, level));
    lemma_remuted_has(mixer, fader, kept, channel, level);
    lemma_restored(unlit, fader, channel);
    lemma_remuted_volume(mixer, fader, kept, channel, level, volume);
}

/// A channel that is kept from one output and let through again leaves the device as it was.
pub proof fn partial_mute_leaves_no_trace(draft: Draft, fader: FaderName)
    requires
        !draft.mixer.profile.mutes.at(fader).on,
        !draft.mixer.profile.mutes.at(fader).blink,
        draft.mixer.profile.mutes.at(fader).function != MuteFunction::All,
    ensures
        draft.muted_to_x(fader).unmuted(fader).mixer == draft.mixer,
{
    let mixer = draft.mixer;
    let channel = mixer.profile.faders.at(fader);
    let volume = mixer.profile.volumes.at(channel);
    let button = mixer.profile.mutes.at(fader);
    lemma_remuted_self(mixer, fader, channel);
    let muted = draft.muted_to_x(fader);
    assert(muted.mixer == mixer.changed(Change::Mute(fader, MuteChange::On(true)))) by {
        reveal(Draft::muted_to_x);
        reveal(Draft::then_do);
        reveal(Draft::route);
        reveal(Draft::route_if);
        reveal(Draft::route_channel_if);
    }
    lemma_remuted_mute(mixer, fader, button, channel, volume, MuteChange::On(true));
    let lit = MuteButton { on: true, ..button };
    lemma_remuted_has(mixer, fader, lit, channel, volume);
    lemma_unmuted(muted, fader);
    let off = Change::Mute(fader, MuteChange::On(false));
    let still = Change::Mute(fader, MuteChange::Blink(false));
    lemma_set(muted, true, off);
    lemma_set(muted.set(off), true, still);
    lemma_remuted_mute(mixer, fader, lit, channel, volume, MuteChange::On(false));
    let dark = MuteButton { on: false, ..lit };
    assert(dark == button);
    lemma_remuted_mute(mixer, fader, dark, channel, volume, MuteChange::Blink(false));
    assert((MuteButton { blink: false, ..dark }) == button);
}

/// A cough button that acts while it is down leaves the device as it was when it is let go.
pub proof fn coughing_leaves_no_trace(draft: Draft, held_called: bool)
    requires
        !draft.mixer.profile.cough.is_toggle,
        !draft.mixer.profile.cough.on,
    ensures
        draft.cough_mute(true, false, false, false).cough_mute(
            false,
            true,
            false,
            held_called,
        ).mixer == draft.mixer,
{
    let mixer = draft.mixer;
    let pressed = draft.cough_mute(true, false, false, false);
    assert(pressed.mixer == mixer.changed(Change::Cough(CoughChange::On(true)))) by {
        reveal(Draft::cough_mute);
        reveal(Draft::cough_on);
        reveal(Draft::mic_state);
        reveal(Draft::mic_state_if);
        reveal(Draft::then_do);
        reveal(Draft::route);
    }
    assert(pressed.mixer.profile.cough == (CoughButton { on: true, ..mixer.profile.cough })) by {
        reveal(Mixer::changed);
    }
    let released = pressed.cough_mute(false, true, false, held_called);
    assert(released.mixer == pressed.mixer.changed(Change::Cough(CoughChange::On(false)))) by {
        reveal(Draft::cough_mute);
        reveal(Draft::cough_off);
        reveal(Draft::mic_state);
        reveal(Draft::mic_state_if);
        reveal(Draft::set_if);
        reveal(Draft::then_do);
        reveal(Draft::route);
    }
    reveal(Mixer::changed);
    assert((CoughButton { on: false, ..pressed.mixer.profile.cough }) == mixer.profile.cough);
}

} // verus!
