//! What muting and letting through comes to, in the words of the buttons and of what is heard.

use crate::device::laws::faders_differ;
use crate::device::state::{cough_changed, mute_changed, Draft, Mixer};
use crate::device::told::{
    cough_after_change, last_state, mixer_after_step, state_after_step, told_state,
};
use crate::plan::{Announcement, Change, CoughChange, MixerChange, MuteChange, Step, UsbCall};
use crate::profile::{CoughButton, MuteButton, ProfileAdapter};
use crate::types::{
    ChannelMap, ChannelName, ChannelState, DeviceType, FaderName, InputDevice, MuteFunction,
};
use vstd::prelude::*;

verus! {

/// Whether a fader carries a channel whose button is lit for a mute everywhere.
pub open spec fn lit_everywhere(profile: ProfileAdapter, channel: ChannelName) -> bool {
    let lit = |button: MuteButton| button.blink || (button.on && button.function == MuteFunction::All);
    ||| profile.faders.a == channel && lit(profile.mutes.a)
    ||| profile.faders.b == channel && lit(profile.mutes.b)
    ||| profile.faders.c == channel && lit(profile.mutes.c)
    ||| profile.faders.d == channel && lit(profile.mutes.d)
}

/// Whether the cough button is lit for a mute everywhere.
pub open spec fn coughing(profile: ProfileAdapter) -> bool {
    profile.cough.blink || (profile.cough.on && profile.cough.function == MuteFunction::All)
}

/// Whether the buttons show a channel as muted everywhere.
pub open spec fn shown_muted(profile: ProfileAdapter, channel: ChannelName) -> bool {
    lit_everywhere(profile, channel) || (channel == ChannelName::Mic && coughing(profile))
}

/// Whether the profile knows which fader carries the microphone.
pub open spec fn mic_fader_known(profile: ProfileAdapter) -> bool {
    &&& profile.faders.a == ChannelName::Mic <==> profile.mic_fader_id == 0
    &&& profile.faders.b == ChannelName::Mic <==> profile.mic_fader_id == 1
    &&& profile.faders.c == ChannelName::Mic <==> profile.mic_fader_id == 2
    &&& profile.faders.d == ChannelName::Mic <==> profile.mic_fader_id == 3
    &&& profile.mic_fader_id <= 4
}

/// Whether a profile is such as the device keeps it: no channel is on two faders, the fader of the
/// microphone is known, and a cough button that acts only while it is held does not blink.
pub open spec fn is_kept(profile: ProfileAdapter) -> bool {
    &&& faders_differ(profile)
    &&& mic_fader_known(profile)
    &&& !profile.cough.is_toggle ==> !profile.cough.blink
}

/// Whether the device plays exactly the channels that the buttons do not show as muted everywhere.
/// `before` is what it was told before the plan.
pub open spec fn states_in_line(draft: Draft, before: ChannelMap<ChannelState>) -> bool {
    forall|channel: ChannelName| #[trigger]
        told_state(draft.steps, channel, before.at(channel)) == (if shown_muted(
            draft.mixer.profile,
            channel,
        ) {
            ChannelState::Muted
        } else {
            ChannelState::Unmuted
        })
}

/// What letting a channel through tells of the state of a channel.
proof fn lemma_let_through_told(draft: Draft, channel: ChannelName, other: ChannelName)
    ensures
        last_state(draft.let_through(channel).steps, other) == (if other == channel && (channel
            != ChannelName::Mic || !coughing(draft.mixer.profile)) {
            Some(ChannelState::Unmuted)
        } else {
            last_state(draft.steps, other)
        }),
        draft.let_through(channel).mixer == draft.mixer,
{
    broadcast use {state_after_step, mixer_after_step};

    reveal(Draft::let_through);
}

/// Restoring a volume tells nothing of the state of a channel.
proof fn lemma_restoring_tells_no_state(
    draft: Draft,
    fader: FaderName,
    channel: ChannelName,
    other: ChannelName,
)
    ensures
        last_state(draft.volume_restored(fader, channel).steps, other) == last_state(
            draft.steps,
            other,
        ),
{
    broadcast use state_after_step;

    reveal(Draft::volume_restored);
    reveal(Draft::usb_if);
}

/// Sending routes tells nothing of the state of a channel, and changes nothing.
proof fn lemma_routing_tells_no_state(
    draft: Draft,
    condition: bool,
    input: InputDevice,
    channel: ChannelName,
    other: ChannelName,
)
    ensures
        last_state(draft.route(input).steps, other) == last_state(draft.steps, other),
        last_state(draft.route_if(condition, input).steps, other) == last_state(draft.steps, other),
        last_state(draft.route_channel_if(condition, channel).steps, other) == last_state(
            draft.steps,
            other,
        ),
        draft.route(input).mixer == draft.mixer,
        draft.route_if(condition, input).mixer == draft.mixer,
        draft.route_channel_if(condition, channel).mixer == draft.mixer,
{
    broadcast use {state_after_step, mixer_after_step};

    reveal(Draft::route);
    reveal(Draft::route_if);
    reveal(Draft::route_channel_if);
}

/// What undoing a mute everywhere tells of the state of a channel.
proof fn lemma_unsilenced_told(
    draft: Draft,
    fader: FaderName,
    channel: ChannelName,
    other: ChannelName,
)
    ensures
        last_state(draft.unsilenced(fader, channel).steps, other) == (if other == channel && (channel
            != ChannelName::Mic || !coughing(draft.mixer.profile)) {
            Some(ChannelState::Unmuted)
        } else {
            last_state(draft.steps, other)
        }),
{
    reveal(Draft::unsilenced);
    let through = draft.let_through(channel);
    lemma_let_through_told(draft, channel, other);
    let restored = through.volume_restored(fader, channel);
    lemma_restoring_tells_no_state(through, fader, channel, other);
    lemma_routing_tells_no_state(
        restored,
        channel == ChannelName::Chat || channel == ChannelName::Mic,
        InputDevice::Microphone,
        channel,
        other,
    );
}

/// What unmuting a fader tells of the state of a channel.
proof fn lemma_unmuted_told(draft: Draft, fader: FaderName, other: ChannelName)
    ensures
        last_state(draft.unmuted(fader).steps, other) == ({
            let button = draft.mixer.profile.mutes.at(fader);
            let channel = draft.mixer.profile.faders.at(fader);
            if other == channel && (button.blink || (button.on && button.function
                == MuteFunction::All)) && (channel != ChannelName::Mic || !coughing(
                draft.mixer.profile,
            )) {
                Some(ChannelState::Unmuted)
            } else {
                last_state(draft.steps, other)
            }
        }),
{
    reveal(Draft::unmuted);
    let button = draft.mixer.profile.mutes.at(fader);
    let channel = draft.mixer.profile.faders.at(fader);
    let off = Step::Apply(Change::Mute(fader, MuteChange::On(false)));
    let still = Step::Apply(Change::Mute(fader, MuteChange::Blink(false)));
    let dark = draft.then_do(off);
    let unlit = dark.then_do(still);
    mixer_after_step(draft, off);
    mixer_after_step(dark, still);
    cough_after_change(draft.mixer, Change::Mute(fader, MuteChange::On(false)));
    cough_after_change(dark.mixer, Change::Mute(fader, MuteChange::Blink(false)));
    state_after_step(draft, off, other);
    state_after_step(dark, still, other);
    lemma_unsilenced_told(unlit, fader, channel, other);
    let restored = if button.blink || button.function == MuteFunction::All {
        unlit.unsilenced(fader, channel)
    } else {
        unlit
    };
    let partial = button.function != MuteFunction::All;
    lemma_routing_tells_no_state(restored, partial, InputDevice::Microphone, channel, other);
    let routed = restored.route_channel_if(partial, channel);
    let words = Step::Say(Announcement::ChannelUnmuted(channel));
    state_after_step(routed, words, other);
    state_after_step(routed.then_do(words), Step::Usb(UsbCall::SendButtonStates), other);
}

/// A channel that was muted everywhere is heard again once its fader is unmuted, unless it is the
/// microphone and the cough button mutes it. The button goes dark.
pub proof fn unmuted_channel_is_heard(draft: Draft, fader: FaderName)
    requires
        draft.mixer.profile.mutes.at(fader).blink || (draft.mixer.profile.mutes.at(fader).on
            && draft.mixer.profile.mutes.at(fader).function == MuteFunction::All),
        draft.mixer.profile.faders.at(fader) != ChannelName::Mic || !coughing(draft.mixer.profile),
    ensures
        last_state(draft.unmuted(fader).steps, draft.mixer.profile.faders.at(fader)) == Some(
            ChannelState::Unmuted,
        ),
{
    let channel = draft.mixer.profile.faders.at(fader);
    lemma_unmuted_told(draft, fader, channel);
}

/// What a profile keeps of buttons and faders.
pub open spec fn same_buttons(one: ProfileAdapter, two: ProfileAdapter) -> bool {
    &&& one.faders == two.faders
    &&& one.mutes == two.mutes
    &&& one.cough == two.cough
    &&& one.mic_fader_id == two.mic_fader_id
}

/// A change of a mute button leaves everything else of the buttons and faders.
proof fn lemma_mute_change(mixer: Mixer, fader: FaderName, change: MuteChange)
    ensures
        ({
            let after = mixer.changed(Change::Mute(fader, change));
            &&& after.profile.faders == mixer.profile.faders
            &&& after.profile.mutes == mixer.profile.mutes.with(
                fader,
                mute_changed(mixer.profile.mutes.at(fader), change),
            )
            &&& after.profile.cough == mixer.profile.cough
            &&& after.profile.mic_fader_id == mixer.profile.mic_fader_id
            &&& after.profile.volumes == mixer.profile.volumes
            &&& after.device_type == mixer.device_type
            &&& after.firmware == mixer.firmware
            &&& after.lock_faders == mixer.lock_faders
        }),
{
    reveal(Mixer::changed);
}

/// A change of the cough button leaves everything else of the buttons and faders.
proof fn lemma_cough_change(mixer: Mixer, change: CoughChange)
    ensures
        ({
            let after = mixer.changed(Change::Cough(change));
            &&& after.profile.faders == mixer.profile.faders
            &&& after.profile.mutes == mixer.profile.mutes
            &&& after.profile.cough == cough_changed(mixer.profile.cough, change)
            &&& after.profile.mic_fader_id == mixer.profile.mic_fader_id
        }),
{
    reveal(Mixer::changed);
}

/// A change of a volume leaves the buttons and faders.
proof fn lemma_volume_change(mixer: Mixer, channel: ChannelName, volume: u8)
    ensures
        same_buttons(
            mixer.changed(Change::Mixer(MixerChange::Volume(channel, volume))).profile,
            mixer.profile,
        ),
        mixer.changed(Change::Mixer(MixerChange::Volume(channel, volume))).profile.volumes
            == mixer.profile.volumes.with(channel, volume),
{
    reveal(Mixer::changed);
}

/// Restoring a volume leaves the buttons and faders.
proof fn lemma_restoring_keeps_buttons(draft: Draft, fader: FaderName, channel: ChannelName)
    ensures
        same_buttons(draft.volume_restored(fader, channel).mixer.profile, draft.mixer.profile),
{
    broadcast use mixer_after_step;

    reveal(Draft::volume_restored);
    reveal(Draft::usb_if);
    lemma_volume_change(draft.mixer, channel, draft.mixer.profile.mutes.at(fader).previous_volume);
}

/// Undoing a mute everywhere leaves the buttons and faders.
proof fn lemma_unsilencing_keeps_buttons(draft: Draft, fader: FaderName, channel: ChannelName)
    ensures
        same_buttons(draft.unsilenced(fader, channel).mixer.profile, draft.mixer.profile),
{
    reveal(Draft::unsilenced);
    lemma_let_through_told(draft, channel, channel);
    let through = draft.let_through(channel);
    lemma_restoring_keeps_buttons(through, fader, channel);
    lemma_routing_tells_no_state(
        through.volume_restored(fader, channel),
        channel == ChannelName::Chat || channel == ChannelName::Mic,
        InputDevice::Microphone,
        channel,
        channel,
    );
}

/// Unmuting a fader puts its button out, and leaves the other buttons and the faders.
pub proof fn unmuting_puts_the_button_out(draft: Draft, fader: FaderName)
    ensures
        draft.unmuted(fader).mixer.profile.mutes == draft.mixer.profile.mutes.with(
            fader,
            MuteButton { on: false, blink: false, ..draft.mixer.profile.mutes.at(fader) },
        ),
        draft.unmuted(fader).mixer.profile.faders == draft.mixer.profile.faders,
        draft.unmuted(fader).mixer.profile.cough == draft.mixer.profile.cough,
        draft.unmuted(fader).mixer.profile.mic_fader_id == draft.mixer.profile.mic_fader_id,
{
    reveal(Draft::unmuted);
    let button = draft.mixer.profile.mutes.at(fader);
    let channel = draft.mixer.profile.faders.at(fader);
    let off = Step::Apply(Change::Mute(fader, MuteChange::On(false)));
    let still = Step::Apply(Change::Mute(fader, MuteChange::Blink(false)));
    let dark = draft.then_do(off);
    let unlit = dark.then_do(still);
    mixer_after_step(draft, off);
    mixer_after_step(dark, still);
    lemma_mute_change(draft.mixer, fader, MuteChange::On(false));
    lemma_mute_change(dark.mixer, fader, MuteChange::Blink(false));
    lemma_unsilencing_keeps_buttons(unlit, fader, channel);
    let restored = if button.blink || button.function == MuteFunction::All {
        unlit.unsilenced(fader, channel)
    } else {
        unlit
    };
    let partial = button.function != MuteFunction::All;
    lemma_routing_tells_no_state(restored, partial, InputDevice::Microphone, channel, channel);
    let routed = restored.route_channel_if(partial, channel);
    let words = Step::Say(Announcement::ChannelUnmuted(channel));
    mixer_after_step(routed, words);
    mixer_after_step(routed.then_do(words), Step::Usb(UsbCall::SendButtonStates));
}

/// A change tells nothing of the state of a channel.
proof fn lemma_set_if_told(draft: Draft, condition: bool, change: Change, other: ChannelName)
    ensures
        last_state(draft.set(change).steps, other) == last_state(draft.steps, other),
        draft.set(change).mixer == draft.mixer.changed(change),
        last_state(draft.set_if(condition, change).steps, other) == last_state(draft.steps, other),
        draft.set_if(condition, change).mixer == (if condition {
            draft.mixer.changed(change)
        } else {
            draft.mixer
        }),
{
    reveal(Draft::set_if);
    mixer_after_step(draft, Step::Apply(change));
    state_after_step(draft, Step::Apply(change), other);
}

/// What a call tells of the state of a channel.
proof fn lemma_usb_if_told(draft: Draft, condition: bool, call: UsbCall, other: ChannelName)
    ensures
        !(call is SetChannelState) ==> last_state(draft.usb(call).steps, other) == last_state(
            draft.steps,
            other,
        ),
        draft.usb(call).mixer == draft.mixer,
        !(call is SetChannelState) ==> last_state(draft.usb_if(condition, call).steps, other)
            == last_state(draft.steps, other),
        draft.usb_if(condition, call).mixer == draft.mixer,
{
    reveal(Draft::usb_if);
    mixer_after_step(draft, Step::Usb(call));
    state_after_step(draft, Step::Usb(call), other);
}

/// What silencing the channel on a fader tells of the state of a channel, and does to the buttons.
proof fn lemma_silenced_told(draft: Draft, fader: FaderName, other: ChannelName)
    ensures
        last_state(draft.fader_silenced(fader).steps, other) == (if other
            == draft.mixer.profile.faders.at(fader) {
            Some(ChannelState::Muted)
        } else {
            last_state(draft.steps, other)
        }),
        draft.fader_silenced(fader).mixer.profile.faders == draft.mixer.profile.faders,
        draft.fader_silenced(fader).mixer.profile.cough == draft.mixer.profile.cough,
        draft.fader_silenced(fader).mixer.profile.mic_fader_id == draft.mixer.profile.mic_fader_id,
        ({
            let button = draft.mixer.profile.mutes.at(fader);
            let after = draft.fader_silenced(fader).mixer.profile.mutes.at(fader);
            &&& after.on
            &&& after.blink == button.blink
            &&& after.function == button.function
            &&& draft.fader_silenced(fader).mixer.profile.mutes == draft.mixer.profile.mutes.with(
                fader,
                after,
            )
        }),
{
    broadcast use {state_after_step, mixer_after_step};

    reveal(Draft::fader_silenced);
    reveal(Draft::set_if);
    reveal(Draft::usb_if);
    let mixer = draft.mixer;
    let channel = mixer.profile.faders.at(fader);
    let previous = MuteChange::PreviousVolume(mixer.profile.volumes.at(channel));
    let kept = draft.set_if(mixer.device_type != DeviceType::Mini, Change::Mute(fader, previous));
    lemma_mute_change(mixer, fader, previous);
    let down = kept.usb_if(mixer.faders_move(), UsbCall::SetVolume(channel, 0));
    assert(down.mixer == kept.mixer);
    let told = down.usb(UsbCall::SetChannelState(channel, ChannelState::Muted));
    assert(told.mixer == kept.mixer);
    lemma_mute_change(kept.mixer, fader, MuteChange::On(true));
}

/// What muting the channel on a fader everywhere tells of the state of a channel, and does to the
/// buttons.
proof fn lemma_muted_to_all_told(draft: Draft, fader: FaderName, blink: bool, other: ChannelName)
    ensures
        last_state(draft.muted_to_all(fader, blink).steps, other) == ({
            let button = draft.mixer.profile.mutes.at(fader);
            if other == draft.mixer.profile.faders.at(fader) && !button.blink && !(button.on
                && button.function == MuteFunction::All) {
                Some(ChannelState::Muted)
            } else {
                last_state(draft.steps, other)
            }
        }),
        draft.muted_to_all(fader, blink).mixer.profile.faders == draft.mixer.profile.faders,
        draft.muted_to_all(fader, blink).mixer.profile.cough == draft.mixer.profile.cough,
        draft.muted_to_all(fader, blink).mixer.profile.mic_fader_id
            == draft.mixer.profile.mic_fader_id,
        ({
            let button = draft.mixer.profile.mutes.at(fader);
            let after = draft.muted_to_all(fader, blink).mixer.profile.mutes.at(fader);
            &&& after.on == (button.on || !button.blink)
            &&& after.blink == (button.blink || blink)
            &&& after.function == button.function
            &&& draft.muted_to_all(fader, blink).mixer.profile.mutes == draft.mixer.profile.mutes.with(
                fader,
                after,
            )
        }),
{
    let mixer = draft.mixer;
    let button = mixer.profile.mutes.at(fader);
    let channel = mixer.profile.faders.at(fader);
    let moves = mixer.faders_move();
    let silenced = if button.on && button.function == MuteFunction::All {
        draft
    } else {
        draft.fader_silenced(fader)
    };
    let words = Step::Say(Announcement::ChannelMuted(channel, MuteFunction::All));
    let said = silenced.then_do(words);
    let lit = said.set_if(blink, Change::Mute(fader, MuteChange::Blink(true)));
    let low = lit.set_if(moves, Change::Mixer(MixerChange::Volume(channel, 0)));
    let coloured = low.usb_if(!moves, UsbCall::SendColourMap);
    let near = channel == ChannelName::Chat || channel == ChannelName::Mic;
    let routed = coloured.route_if(near, InputDevice::Microphone);
    let last = Step::Usb(UsbCall::SendButtonStates);
    assert(draft.muted_to_all(fader, blink) == if button.blink {
        draft
    } else {
        routed.then_do(last)
    }) by {
        reveal(Draft::muted_to_all);
    }
    if !button.blink {
        lemma_silenced_told(draft, fader, other);
        mixer_after_step(silenced, words);
        state_after_step(silenced, words, other);
        lemma_set_if_told(said, blink, Change::Mute(fader, MuteChange::Blink(true)), other);
        lemma_mute_change(said.mixer, fader, MuteChange::Blink(true));
        lemma_set_if_told(lit, moves, Change::Mixer(MixerChange::Volume(channel, 0)), other);
        lemma_volume_change(lit.mixer, channel, 0);
        lemma_usb_if_told(low, !moves, UsbCall::SendColourMap, other);
        lemma_routing_tells_no_state(coloured, near, InputDevice::Microphone, channel, other);
        mixer_after_step(routed, last);
        state_after_step(routed, last, other);
    }
}

/// What keeping the channel on a fader from one output tells of the state of a channel, and does to
/// the buttons.
proof fn lemma_muted_to_x_told(draft: Draft, fader: FaderName, other: ChannelName)
    ensures
        last_state(draft.muted_to_x(fader).steps, other) == ({
            let button = draft.mixer.profile.mutes.at(fader);
            if other == draft.mixer.profile.faders.at(fader) && !button.blink && !button.on
                && button.function == MuteFunction::All {
                Some(ChannelState::Muted)
            } else {
                last_state(draft.steps, other)
            }
        }),
        draft.muted_to_x(fader).mixer.profile.faders == draft.mixer.profile.faders,
        draft.muted_to_x(fader).mixer.profile.cough == draft.mixer.profile.cough,
        draft.muted_to_x(fader).mixer.profile.mic_fader_id == draft.mixer.profile.mic_fader_id,
        ({
            let button = draft.mixer.profile.mutes.at(fader);
            let after = draft.muted_to_x(fader).mixer.profile.mutes.at(fader);
            &&& after.on == (button.on || !button.blink)
            &&& after.blink == button.blink
            &&& after.function == button.function
            &&& draft.muted_to_x(fader).mixer.profile.mutes == draft.mixer.profile.mutes.with(
                fader,
                after,
            )
        }),
{
    broadcast use {state_after_step, mixer_after_step};

    reveal(Draft::muted_to_x);
    let button = draft.mixer.profile.mutes.at(fader);
    let channel = draft.mixer.profile.faders.at(fader);
    lemma_muted_to_all_told(draft, fader, false, other);
    let said = draft.say(Announcement::ChannelMuted(channel, button.function));
    assert(said.mixer == draft.mixer);
    let lit = said.set(Change::Mute(fader, MuteChange::On(true)));
    lemma_mute_change(said.mixer, fader, MuteChange::On(true));
    lemma_routing_tells_no_state(lit, true, InputDevice::Microphone, channel, other);
}

/// What telling the state of the microphone tells of the state of a channel.
proof fn lemma_mic_state_told(draft: Draft, condition: bool, state: ChannelState, other: ChannelName)
    ensures
        last_state(draft.mic_state(state).steps, other) == (if other == ChannelName::Mic {
            Some(state)
        } else {
            last_state(draft.steps, other)
        }),
        draft.mic_state(state).mixer == draft.mixer,
        last_state(draft.mic_state_if(condition, state).steps, other) == (if condition && other
            == ChannelName::Mic {
            Some(state)
        } else {
            last_state(draft.steps, other)
        }),
        draft.mic_state_if(condition, state).mixer == draft.mixer,
{
    broadcast use {state_after_step, mixer_after_step};

    reveal(Draft::mic_state);
    reveal(Draft::mic_state_if);
}

/// What words tell of the state of a channel: nothing.
proof fn lemma_say_told(draft: Draft, announcement: Announcement, other: ChannelName)
    ensures
        last_state(draft.say(announcement).steps, other) == last_state(draft.steps, other),
        draft.say(announcement).mixer == draft.mixer,
{
    mixer_after_step(draft, Step::Say(announcement));
    state_after_step(draft, Step::Say(announcement), other);
}

/// What lighting the cough button tells of the state of a channel, and does to the buttons.
proof fn lemma_cough_on_told(draft: Draft, other: ChannelName)
    ensures
        last_state(draft.cough_on().steps, other) == (if other == ChannelName::Mic
            && draft.mixer.profile.cough.function == MuteFunction::All {
            Some(ChannelState::Muted)
        } else {
            last_state(draft.steps, other)
        }),
        draft.cough_on().mixer.profile.faders == draft.mixer.profile.faders,
        draft.cough_on().mixer.profile.mutes == draft.mixer.profile.mutes,
        draft.cough_on().mixer.profile.mic_fader_id == draft.mixer.profile.mic_fader_id,
        draft.cough_on().mixer.profile.cough == (CoughButton {
            on: true,
            ..draft.mixer.profile.cough
        }),
{
    reveal(Draft::cough_on);
    let function = draft.mixer.profile.cough.function;
    let everywhere = function == MuteFunction::All;
    let lit = draft.set(Change::Cough(CoughChange::On(true)));
    lemma_set_if_told(draft, true, Change::Cough(CoughChange::On(true)), other);
    lemma_cough_change(draft.mixer, CoughChange::On(true));
    let told = lit.mic_state_if(everywhere, ChannelState::Muted);
    lemma_mic_state_told(lit, everywhere, ChannelState::Muted, other);
    let said = told.say(Announcement::MicMuted(function));
    lemma_say_told(told, Announcement::MicMuted(function), other);
    lemma_routing_tells_no_state(said, true, InputDevice::Microphone, ChannelName::Mic, other);
}

/// What holding the cough button tells of the state of a channel, and does to the buttons.
proof fn lemma_cough_held_told(draft: Draft, other: ChannelName)
    ensures
        last_state(draft.cough_held().steps, other) == (if other == ChannelName::Mic {
            Some(ChannelState::Muted)
        } else {
            last_state(draft.steps, other)
        }),
        draft.cough_held().mixer.profile.faders == draft.mixer.profile.faders,
        draft.cough_held().mixer.profile.mutes == draft.mixer.profile.mutes,
        draft.cough_held().mixer.profile.mic_fader_id == draft.mixer.profile.mic_fader_id,
        draft.cough_held().mixer.profile.cough == (CoughButton {
            on: true,
            blink: true,
            ..draft.mixer.profile.cough
        }),
{
    reveal(Draft::cough_held);
    let lit = draft.set(Change::Cough(CoughChange::On(true)));
    lemma_set_if_told(draft, true, Change::Cough(CoughChange::On(true)), other);
    lemma_cough_change(draft.mixer, CoughChange::On(true));
    let blinks = lit.set(Change::Cough(CoughChange::Blink(true)));
    lemma_set_if_told(lit, true, Change::Cough(CoughChange::Blink(true)), other);
    lemma_cough_change(lit.mixer, CoughChange::Blink(true));
    let said = blinks.say(Announcement::MicMuted(MuteFunction::All));
    lemma_say_told(blinks, Announcement::MicMuted(MuteFunction::All), other);
    let told = said.mic_state(ChannelState::Muted);
    lemma_mic_state_told(said, true, ChannelState::Muted, other);
    lemma_routing_tells_no_state(told, true, InputDevice::Microphone, ChannelName::Mic, other);
}

/// What putting the cough button out tells of the state of a channel, and does to the buttons.
proof fn lemma_cough_off_told(draft: Draft, other: ChannelName)
    requires
        is_kept(draft.mixer.profile),
    ensures
        last_state(draft.cough_off().steps, other) == ({
            let cough = draft.mixer.profile.cough;
            if other == ChannelName::Mic && !lit_everywhere(draft.mixer.profile, ChannelName::Mic) && (
            cough.blink || ((cough.on || !cough.is_toggle) && cough.function == MuteFunction::All)) {
                Some(ChannelState::Unmuted)
            } else {
                last_state(draft.steps, other)
            }
        }),
        draft.cough_off().mixer.profile.faders == draft.mixer.profile.faders,
        draft.cough_off().mixer.profile.mutes == draft.mixer.profile.mutes,
        draft.cough_off().mixer.profile.mic_fader_id == draft.mixer.profile.mic_fader_id,
        draft.cough_off().mixer.profile.cough == (CoughButton {
            on: false,
            blink: false,
            ..draft.mixer.profile.cough
        }),
{
    reveal(Draft::cough_off);
    let cough = draft.mixer.profile.cough;
    let silenced = if cough.is_toggle {
        cough.silences()
    } else {
        cough.function == MuteFunction::All
    };
    let heard = silenced && !draft.mixer.profile.mic_silenced_by_fader();
    lemma_mic_fader_lit(draft.mixer.profile);
    let dark = draft.set(Change::Cough(CoughChange::On(false)));
    lemma_set_if_told(draft, true, Change::Cough(CoughChange::On(false)), other);
    lemma_cough_change(draft.mixer, CoughChange::On(false));
    let still = dark.set_if(cough.is_toggle, Change::Cough(CoughChange::Blink(false)));
    lemma_set_if_told(dark, cough.is_toggle, Change::Cough(CoughChange::Blink(false)), other);
    lemma_cough_change(dark.mixer, CoughChange::Blink(false));
    let told = still.mic_state_if(heard, ChannelState::Unmuted);
    lemma_mic_state_told(still, heard, ChannelState::Unmuted, other);
    let said = told.say(Announcement::MicUnmuted);
    lemma_say_told(told, Announcement::MicUnmuted, other);
    lemma_routing_tells_no_state(said, true, InputDevice::Microphone, ChannelName::Mic, other);
}

/// A fader silences the microphone where its button is lit for a mute everywhere.
proof fn lemma_mic_fader_lit(profile: ProfileAdapter)
    requires
        is_kept(profile),
    ensures
        profile.mic_silenced_by_fader() == lit_everywhere(profile, ChannelName::Mic),
{
}

/// Unmuting a fader keeps the device in line: every channel is heard exactly where the buttons do not
/// show it as muted everywhere.
pub proof fn unmuting_keeps_states_in_line(
    draft: Draft,
    fader: FaderName,
    before: ChannelMap<ChannelState>,
)
    requires
        is_kept(draft.mixer.profile),
        states_in_line(draft, before),
    ensures
        is_kept(draft.unmuted(fader).mixer.profile),
        states_in_line(draft.unmuted(fader), before),
{
    let profile = draft.mixer.profile;
    let after = draft.unmuted(fader);
    unmuting_puts_the_button_out(draft, fader);
    lemma_faders_differ_kept(profile, after.mixer.profile);
    assert forall|channel: ChannelName| #[trigger]
        told_state(after.steps, channel, before.at(channel)) == (if shown_muted(
            after.mixer.profile,
            channel,
        ) {
            ChannelState::Muted
        } else {
            ChannelState::Unmuted
        }) by {
        lemma_unmuted_told(draft, fader, channel);
        lemma_faders_apart(profile);
        assert(told_state(draft.steps, channel, before.at(channel)) == (if shown_muted(
            profile,
            channel,
        ) {
            ChannelState::Muted
        } else {
            ChannelState::Unmuted
        }));
    }
}

/// The four faders one by one.
proof fn lemma_faders_apart(profile: ProfileAdapter)
    requires
        faders_differ(profile),
    ensures
        profile.faders.a != profile.faders.b,
        profile.faders.a != profile.faders.c,
        profile.faders.a != profile.faders.d,
        profile.faders.b != profile.faders.c,
        profile.faders.b != profile.faders.d,
        profile.faders.c != profile.faders.d,
{
    assert(profile.faders.at(FaderName::A) != profile.faders.at(FaderName::B));
    assert(profile.faders.at(FaderName::A) != profile.faders.at(FaderName::C));
    assert(profile.faders.at(FaderName::A) != profile.faders.at(FaderName::D));
    assert(profile.faders.at(FaderName::B) != profile.faders.at(FaderName::C));
    assert(profile.faders.at(FaderName::B) != profile.faders.at(FaderName::D));
    assert(profile.faders.at(FaderName::C) != profile.faders.at(FaderName::D));
}

/// Faders that are the same stay different.
proof fn lemma_faders_differ_kept(before: ProfileAdapter, after: ProfileAdapter)
    requires
        faders_differ(before),
        after.faders == before.faders,
    ensures
        faders_differ(after),
{
    assert forall|one: FaderName, two: FaderName| one != two implies #[trigger] after.faders.at(one)
        != #[trigger] after.faders.at(two) by {
        assert(before.faders.at(one) != before.faders.at(two));
    }
}

/// Muting a fader everywhere keeps the device in line. The button then blinks, or mutes everywhere.
pub proof fn muting_keeps_states_in_line(
    draft: Draft,
    fader: FaderName,
    blink: bool,
    before: ChannelMap<ChannelState>,
)
    requires
        is_kept(draft.mixer.profile),
        states_in_line(draft, before),
        blink || draft.mixer.profile.mutes.at(fader).function == MuteFunction::All,
    ensures
        is_kept(draft.muted_to_all(fader, blink).mixer.profile),
        states_in_line(draft.muted_to_all(fader, blink), before),
        lit_everywhere(
            draft.muted_to_all(fader, blink).mixer.profile,
            draft.mixer.profile.faders.at(fader),
        ),
{
    let profile = draft.mixer.profile;
    let after = draft.muted_to_all(fader, blink);
    lemma_muted_to_all_told(draft, fader, blink, ChannelName::Mic);
    lemma_faders_differ_kept(profile, after.mixer.profile);
    lemma_faders_apart(profile);
    assert forall|channel: ChannelName| #[trigger]
        told_state(after.steps, channel, before.at(channel)) == (if shown_muted(
            after.mixer.profile,
            channel,
        ) {
            ChannelState::Muted
        } else {
            ChannelState::Unmuted
        }) by {
        lemma_muted_to_all_told(draft, fader, blink, channel);
        assert(told_state(draft.steps, channel, before.at(channel)) == (if shown_muted(
            profile,
            channel,
        ) {
            ChannelState::Muted
        } else {
            ChannelState::Unmuted
        }));
    }
}

/// Muting a fader as its button says keeps the device in line: a channel that is kept from one output
/// is still heard elsewhere.
pub proof fn partial_muting_keeps_states_in_line(
    draft: Draft,
    fader: FaderName,
    before: ChannelMap<ChannelState>,
)
    requires
        is_kept(draft.mixer.profile),
        states_in_line(draft, before),
    ensures
        is_kept(draft.muted_to_x(fader).mixer.profile),
        states_in_line(draft.muted_to_x(fader), before),
        draft.muted_to_x(fader).mixer.profile.mutes.at(fader).on || draft.muted_to_x(
            fader,
        ).mixer.profile.mutes.at(fader).blink,
{
    let profile = draft.mixer.profile;
    let after = draft.muted_to_x(fader);
    lemma_muted_to_x_told(draft, fader, ChannelName::Mic);
    lemma_faders_differ_kept(profile, after.mixer.profile);
    lemma_faders_apart(profile);
    assert forall|channel: ChannelName| #[trigger]
        told_state(after.steps, channel, before.at(channel)) == (if shown_muted(
            after.mixer.profile,
            channel,
        ) {
            ChannelState::Muted
        } else {
            ChannelState::Unmuted
        }) by {
        lemma_muted_to_x_told(draft, fader, channel);
        assert(told_state(draft.steps, channel, before.at(channel)) == (if shown_muted(
            profile,
            channel,
        ) {
            ChannelState::Muted
        } else {
            ChannelState::Unmuted
        }));
    }
}

/// Whatever is done with the cough button keeps the device in line.
pub proof fn coughing_keeps_states_in_line(
    draft: Draft,
    press: bool,
    release: bool,
    held: bool,
    held_called: bool,
    before: ChannelMap<ChannelState>,
)
    requires
        is_kept(draft.mixer.profile),
        states_in_line(draft, before),
    ensures
        is_kept(draft.cough_mute(press, release, held, held_called).mixer.profile),
        states_in_line(draft.cough_mute(press, release, held, held_called), before),
{
    let profile = draft.mixer.profile;
    let after = draft.cough_mute(press, release, held, held_called);
    reveal(Draft::cough_mute);
    lemma_cough_on_told(draft, ChannelName::Mic);
    lemma_cough_held_told(draft, ChannelName::Mic);
    lemma_cough_off_told(draft, ChannelName::Mic);
    lemma_faders_differ_kept(profile, after.mixer.profile);
    assert forall|channel: ChannelName| #[trigger]
        told_state(after.steps, channel, before.at(channel)) == (if shown_muted(
            after.mixer.profile,
            channel,
        ) {
            ChannelState::Muted
        } else {
            ChannelState::Unmuted
        }) by {
        lemma_cough_on_told(draft, channel);
        lemma_cough_held_told(draft, channel);
        lemma_cough_off_told(draft, channel);
        assert(told_state(draft.steps, channel, before.at(channel)) == (if shown_muted(
            profile,
            channel,
        ) {
            ChannelState::Muted
        } else {
            ChannelState::Unmuted
        }));
    }
}

/// A press of a cough button that acts while it is down mutes it, and its release puts it out. One
/// that toggles is lit by the release, and put out by the next, unless its being held was acted on.
pub proof fn cough_button_is_lit_and_put_out(draft: Draft, held_called: bool)
    requires
        is_kept(draft.mixer.profile),
    ensures
        !draft.mixer.profile.cough.is_toggle ==> draft.cough_mute(
            true,
            false,
            false,
            held_called,
        ).mixer.profile.cough.on && !draft.cough_mute(
            false,
            true,
            false,
            held_called,
        ).mixer.profile.cough.on,
        draft.mixer.profile.cough.is_toggle ==> {
            let cough = draft.mixer.profile.cough;
            let released = draft.cough_mute(false, true, false, false).mixer.profile.cough;
            let held = draft.cough_mute(false, false, true, held_called).mixer.profile.cough;
            &&& draft.cough_mute(true, false, false, held_called) == draft
            &&& draft.cough_mute(false, true, false, true) == draft
            &&& held.on && held.blink
            &&& released.on == !(cough.on || cough.blink)
            &&& !released.blink
        },
{
    reveal(Draft::cough_mute);
    lemma_cough_on_told(draft, ChannelName::Mic);
    lemma_cough_held_told(draft, ChannelName::Mic);
    lemma_cough_off_told(draft, ChannelName::Mic);
}

/// The mute button of a fader, released early, puts a lit button out and lights a dark one; held, it
/// blinks.
pub proof fn mute_button_toggles(draft: Draft, fader: FaderName)
    ensures
        ({
            let button = draft.mixer.profile.mutes.at(fader);
            let released = draft.fader_mute(fader, false).mixer.profile.mutes.at(fader);
            let held = draft.fader_mute(fader, true).mixer.profile.mutes.at(fader);
            &&& held.blink
            &&& button.on ==> !released.on && !released.blink
            &&& !button.on && !button.blink ==> released.on && !released.blink
            &&& released.function == button.function && held.function == button.function
        }),
{
    reveal(Draft::fader_mute);
    unmuting_puts_the_button_out(draft, fader);
    lemma_muted_to_all_told(draft, fader, true, ChannelName::Mic);
    lemma_muted_to_all_told(draft, fader, false, ChannelName::Mic);
    lemma_muted_to_x_told(draft, fader, ChannelName::Mic);
}

/// The mute button of a fader keeps the device in line.
pub proof fn mute_button_keeps_states_in_line(
    draft: Draft,
    fader: FaderName,
    held: bool,
    before: ChannelMap<ChannelState>,
)
    requires
        is_kept(draft.mixer.profile),
        states_in_line(draft, before),
    ensures
        is_kept(draft.fader_mute(fader, held).mixer.profile),
        states_in_line(draft.fader_mute(fader, held), before),
{
    reveal(Draft::fader_mute);
    let button = draft.mixer.profile.mutes.at(fader);
    if held {
        muting_keeps_states_in_line(draft, fader, true, before);
    } else if button.on {
        unmuting_keeps_states_in_line(draft, fader, before);
    } else if button.function == MuteFunction::All {
        muting_keeps_states_in_line(draft, fader, false, before);
    } else {
        partial_muting_keeps_states_in_line(draft, fader, before);
    }
}

} // verus!
