//! What a plan tells the hardware last: the state and the volume of each channel, the channel of each
//! fader and the route of each input.

use crate::device::state::{cough_changed, mute_changed, Draft, Mixer};
use crate::plan::{
    Change, KeptChange, MixerChange, Route, SamplerChange, Step, UsbCall, VoiceChange,
};
use crate::types::{ChannelName, ChannelState, FaderName, InputDevice};
use vstd::prelude::*;

verus! {

/// The state of a channel that the device was told last; nothing where the steps tell none.
pub open spec fn last_state(steps: Seq<Step>, channel: ChannelName) -> Option<ChannelState>
    decreases steps.len(),
{
    if steps.len() == 0 {
        None
    } else {
        match steps.last() {
            Step::Usb(UsbCall::SetChannelState(told, state)) if told == channel => Some(state),
            _ => last_state(steps.drop_last(), channel),
        }
    }
}

/// The volume of a channel that the device was told last; nothing where the steps tell none.
pub open spec fn last_volume(steps: Seq<Step>, channel: ChannelName) -> Option<u8>
    decreases steps.len(),
{
    if steps.len() == 0 {
        None
    } else {
        match steps.last() {
            Step::Usb(UsbCall::SetVolume(told, volume)) if told == channel => Some(volume),
            _ => last_volume(steps.drop_last(), channel),
        }
    }
}

/// The channel of a fader that the device was told last; nothing where the steps tell none.
pub open spec fn last_fader(steps: Seq<Step>, fader: FaderName) -> Option<ChannelName>
    decreases steps.len(),
{
    if steps.len() == 0 {
        None
    } else {
        match steps.last() {
            Step::Usb(UsbCall::SetFader(told, channel)) if told == fader => Some(channel),
            _ => last_fader(steps.drop_last(), fader),
        }
    }
}

/// The route of an input that the device was told last; nothing where the steps tell none.
pub open spec fn last_route(steps: Seq<Step>, input: InputDevice) -> Option<Route>
    decreases steps.len(),
{
    if steps.len() == 0 {
        None
    } else {
        match steps.last() {
            Step::Usb(UsbCall::SetRoute(told, route)) if told == input => Some(route),
            _ => last_route(steps.drop_last(), input),
        }
    }
}

/// The state of a channel that the device has, where it had one before the steps.
pub open spec fn told_state(steps: Seq<Step>, channel: ChannelName, before: ChannelState) -> ChannelState {
    match last_state(steps, channel) {
        Some(state) => state,
        None => before,
    }
}

/// Whether the steps make a call to the device.
pub open spec fn tells(steps: Seq<Step>, call: UsbCall) -> bool
    decreases steps.len(),
{
    if steps.len() == 0 {
        false
    } else {
        steps.last() == Step::Usb(call) || tells(steps.drop_last(), call)
    }
}

/// What one more step adds to the calls.
pub broadcast proof fn calls_after_step(draft: Draft, step: Step, call: UsbCall)
    ensures
        #[trigger] tells(draft.then_do(step).steps, call) == (step == Step::Usb(call) || tells(
            draft.steps,
            call,
        )),
{
    reveal(Draft::then_do);
    assert(draft.then_do(step).steps.drop_last() =~= draft.steps);
}

/// Whether further steps tell nothing new of channels, faders and routes.
pub open spec fn same_told(before: Seq<Step>, after: Seq<Step>) -> bool {
    &&& forall|channel: ChannelName| #[trigger]
        last_state(after, channel) == last_state(before, channel)
    &&& forall|channel: ChannelName| #[trigger]
        last_volume(after, channel) == last_volume(before, channel)
    &&& forall|fader: FaderName| #[trigger] last_fader(after, fader) == last_fader(before, fader)
    &&& forall|input: InputDevice| #[trigger] last_route(after, input) == last_route(before, input)
}

/// Whether a step tells something of a channel, a fader or a route.
pub open spec fn is_told(step: Step) -> bool {
    match step {
        Step::Usb(UsbCall::SetChannelState(_, _)) => true,
        Step::Usb(UsbCall::SetVolume(_, _)) => true,
        Step::Usb(UsbCall::SetFader(_, _)) => true,
        Step::Usb(UsbCall::SetRoute(_, _)) => true,
        _ => false,
    }
}

/// A step that tells nothing of channels, faders and routes leaves what is known of them.
pub proof fn quiet_step(draft: Draft, step: Step)
    requires
        !is_told(step),
    ensures
        same_told(draft.steps, draft.then_do(step).steps),
        draft.then_do(step).mixer == draft.mixer.after(step),
{
    broadcast use {state_after_step, volume_after_step, fader_after_step, route_after_step};

    mixer_after_step(draft, step);
}

/// A call that tells nothing of channels, faders and routes leaves what is known of them.
pub proof fn quiet_call(draft: Draft, condition: bool, call: UsbCall)
    requires
        !is_told(Step::Usb(call)),
    ensures
        same_told(draft.steps, draft.usb(call).steps),
        draft.usb(call).mixer == draft.mixer,
        same_told(draft.steps, draft.usb_if(condition, call).steps),
        draft.usb_if(condition, call).mixer == draft.mixer,
{
    reveal(Draft::usb_if);
    quiet_step(draft, Step::Usb(call));
}

/// A change tells nothing of channels, faders and routes.
pub proof fn quiet_change(draft: Draft, condition: bool, change: Change)
    ensures
        same_told(draft.steps, draft.set(change).steps),
        draft.set(change).mixer == draft.mixer.changed(change),
        same_told(draft.steps, draft.set_if(condition, change).steps),
        draft.set_if(condition, change).mixer == (if condition {
            draft.mixer.changed(change)
        } else {
            draft.mixer
        }),
{
    reveal(Draft::set_if);
    quiet_step(draft, Step::Apply(change));
}

/// What one more step tells of the state of a channel.
pub broadcast proof fn state_after_step(draft: Draft, step: Step, channel: ChannelName)
    ensures
        #[trigger] last_state(draft.then_do(step).steps, channel) == (match step {
            Step::Usb(UsbCall::SetChannelState(told, state)) => if told == channel {
                Some(state)
            } else {
                last_state(draft.steps, channel)
            },
            _ => last_state(draft.steps, channel),
        }),
{
    reveal(Draft::then_do);
    assert(draft.then_do(step).steps.drop_last() =~= draft.steps);
}

/// What one more step tells of the volume of a channel.
pub broadcast proof fn volume_after_step(draft: Draft, step: Step, channel: ChannelName)
    ensures
        #[trigger] last_volume(draft.then_do(step).steps, channel) == (match step {
            Step::Usb(UsbCall::SetVolume(told, volume)) => if told == channel {
                Some(volume)
            } else {
                last_volume(draft.steps, channel)
            },
            _ => last_volume(draft.steps, channel),
        }),
{
    reveal(Draft::then_do);
    assert(draft.then_do(step).steps.drop_last() =~= draft.steps);
}

/// What one more step tells of the channel of a fader.
pub broadcast proof fn fader_after_step(draft: Draft, step: Step, fader: FaderName)
    ensures
        #[trigger] last_fader(draft.then_do(step).steps, fader) == (match step {
            Step::Usb(UsbCall::SetFader(told, channel)) => if told == fader {
                Some(channel)
            } else {
                last_fader(draft.steps, fader)
            },
            _ => last_fader(draft.steps, fader),
        }),
{
    reveal(Draft::then_do);
    assert(draft.then_do(step).steps.drop_last() =~= draft.steps);
}

/// What one more step tells of the route of an input.
pub broadcast proof fn route_after_step(draft: Draft, step: Step, input: InputDevice)
    ensures
        #[trigger] last_route(draft.then_do(step).steps, input) == (match step {
            Step::Usb(UsbCall::SetRoute(told, route)) => if told == input {
                Some(route)
            } else {
                last_route(draft.steps, input)
            },
            _ => last_route(draft.steps, input),
        }),
{
    reveal(Draft::then_do);
    assert(draft.then_do(step).steps.drop_last() =~= draft.steps);
}

/// What one more step does to the state.
pub broadcast proof fn mixer_after_step(draft: Draft, step: Step)
    ensures
        (#[trigger] draft.then_do(step)).mixer == draft.mixer.after(step),
        draft.then_do(step).start == draft.start,
        draft.then_do(step).steps == draft.steps.push(step),
{
    reveal(Draft::then_do);
}

/// What a change leaves of the kind of the device.
pub broadcast proof fn kind_after_change(mixer: Mixer, change: Change)
    ensures
        (#[trigger] mixer.changed(change)).device_type == mixer.device_type,
        mixer.changed(change).firmware == mixer.firmware,
        mixer.changed(change).sampler == mixer.sampler,
        !(change is Kept) ==> mixer.changed(change).lock_faders == mixer.lock_faders,
{
    reveal(Mixer::changed);
}

/// What a change of the sampler does, and that it leaves the rest.
pub proof fn sampler_after_change(draft: Draft, change: SamplerChange)
    ensures
        ({
            let after = draft.set(Change::Sampler(change)).mixer;
            &&& after.profile.sampler == draft.mixer.profile.sampler_changed(change).sampler
            &&& after.sampler == draft.mixer.sampler
        }),
{
    mixer_after_step(draft, Step::Apply(Change::Sampler(change)));
    reveal(Mixer::changed);
}

/// What a change of the effects does, and that it leaves the model.
pub proof fn effects_after_change(draft: Draft, change: VoiceChange)
    ensures
        ({
            let after = draft.set(Change::Voice(change)).mixer;
            &&& after.profile.effects == draft.mixer.profile.voice_changed(change).effects
            &&& after.device_type == draft.mixer.device_type
        }),
{
    mixer_after_step(draft, Step::Apply(Change::Voice(change)));
    reveal(Mixer::changed);
}

/// What a change of volumes, faders or routes does, and that it leaves what is kept beside the profile.
pub proof fn mixing_after_change(draft: Draft, change: MixerChange)
    ensures
        ({
            let after = draft.set(Change::Mixer(change)).mixer;
            let profile = draft.mixer.profile.mixer_changed(change);
            &&& after.profile.volumes == profile.volumes
            &&& after.profile.submix == profile.submix
            &&& after.profile.faders == profile.faders
            &&& after.profile.mutes == profile.mutes
            &&& after.profile.mic_fader_id == profile.mic_fader_id
            &&& after.profile.cough == draft.mixer.profile.cough
            &&& after.device_type == draft.mixer.device_type
            &&& after.firmware == draft.mixer.firmware
            &&& after.fader_pause_until == draft.mixer.fader_pause_until
            &&& after.fader_last_seen == draft.mixer.fader_last_seen
        }),
{
    mixer_after_step(draft, Step::Apply(Change::Mixer(change)));
    reveal(Mixer::changed);
}

/// What a change of what is kept beside the profile does, and that it leaves the profile.
pub proof fn kept_after_change(draft: Draft, change: KeptChange)
    ensures
        ({
            let after = draft.set(Change::Kept(change)).mixer;
            let kept = draft.mixer.kept_changed(change);
            &&& after.profile == draft.mixer.profile
            &&& after.device_type == draft.mixer.device_type
            &&& after.firmware == draft.mixer.firmware
            &&& after.fader_pause_until == kept.fader_pause_until
            &&& after.fader_last_seen == kept.fader_last_seen
        }),
{
    mixer_after_step(draft, Step::Apply(Change::Kept(change)));
    reveal(Mixer::changed);
}

/// What a change leaves of the faders.
pub broadcast proof fn faders_after_change(mixer: Mixer, change: Change)
    ensures
        (#[trigger] mixer.changed(change)).profile.faders == (match change {
            Change::Mixer(MixerChange::FaderAssignment(fader, channel)) => mixer.profile.faders.with(
                fader,
                channel,
            ),
            Change::Mixer(MixerChange::SwitchFaders(one, two)) => mixer.profile.with_switched(
                one,
                two,
            ).faders,
            _ => mixer.profile.faders,
        }),
{
    reveal(Mixer::changed);
}

/// What a change leaves of the mute buttons.
pub broadcast proof fn mutes_after_change(mixer: Mixer, change: Change)
    ensures
        (#[trigger] mixer.changed(change)).profile.mutes == (match change {
            Change::Mute(fader, mute) => mixer.profile.mutes.with(
                fader,
                mute_changed(mixer.profile.mutes.at(fader), mute),
            ),
            Change::Mixer(MixerChange::SwitchFaders(one, two)) => mixer.profile.with_switched(
                one,
                two,
            ).mutes,
            _ => mixer.profile.mutes,
        }),
{
    reveal(Mixer::changed);
}

/// What a change leaves of the cough button.
pub broadcast proof fn cough_after_change(mixer: Mixer, change: Change)
    ensures
        (#[trigger] mixer.changed(change)).profile.cough == (match change {
            Change::Cough(cough) => cough_changed(mixer.profile.cough, cough),
            _ => mixer.profile.cough,
        }),
{
    reveal(Mixer::changed);
}

/// What a change leaves of the fader of the microphone.
pub broadcast proof fn mic_fader_after_change(mixer: Mixer, change: Change)
    ensures
        (#[trigger] mixer.changed(change)).profile.mic_fader_id == (match change {
            Change::Mixer(MixerChange::MicFader(fader)) => fader.index() as u8,
            Change::Mixer(MixerChange::NoMicFader) => 4u8,
            _ => mixer.profile.mic_fader_id,
        }),
{
    reveal(Mixer::changed);
}

/// What a change leaves of the volumes.
pub broadcast proof fn volumes_after_change(mixer: Mixer, change: Change)
    ensures
        (#[trigger] mixer.changed(change)).profile.volumes == (match change {
            Change::Mixer(MixerChange::Volume(channel, volume)) => mixer.profile.volumes.with(
                channel,
                volume,
            ),
            _ => mixer.profile.volumes,
        }),
{
    reveal(Mixer::changed);
}

} // verus!
