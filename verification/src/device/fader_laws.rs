//! What becomes of faders and volumes, on the device and in the profile.

use crate::device::state::{Draft, Mixer};
use crate::device::told::{
    calls_after_step, fader_after_step, kept_after_change, last_fader, last_volume,
    mixer_after_step, mixing_after_change, quiet_call, quiet_change, same_told, tells,
    volume_after_step,
};
use crate::plan::{Change, KeptChange, MixerChange, MuteChange, Step, UsbCall};
use crate::profile::ProfileAdapter;
use crate::types::{ChannelName, DeviceType, FaderName, Mix, MuteFunction, SubMixChannelName};
use vstd::prelude::*;

verus! {

/// Whether a place in the second mix is that of a channel.
pub open spec fn is_place_of(mix: SubMixChannelName, channel: ChannelName) -> bool {
    match mix {
        SubMixChannelName::Mic => channel == ChannelName::Mic,
        SubMixChannelName::LineIn => channel == ChannelName::LineIn,
        SubMixChannelName::Console => channel == ChannelName::Console,
        SubMixChannelName::System => channel == ChannelName::System,
        SubMixChannelName::Game => channel == ChannelName::Game,
        SubMixChannelName::Chat => channel == ChannelName::Chat,
        SubMixChannelName::Sample => channel == ChannelName::Sample,
        SubMixChannelName::Music => channel == ChannelName::Music,
    }
}

/// Whether the second mix of a device is in use and has this place follow its main volume.
pub open spec fn follows(mixer: Mixer, mix: SubMixChannelName) -> bool {
    mixer.supports_submixes() && mixer.profile.submix.enabled && mixer.profile.submix.channels.at(
        mix,
    ).linked
}

/// What following a main volume does: the place of the channel in the second mix, and no other, takes
/// the linked volume where it follows.
proof fn lemma_submix_followed(draft: Draft, channel: ChannelName, linked: u8, mix: SubMixChannelName)
    ensures
        ({
            let after = draft.submix_followed(channel, linked);
            let before = draft.mixer.profile.submix.channels.at(mix);
            let place = after.mixer.profile.submix.channels.at(mix);
            &&& same_told(draft.steps, after.steps)
            &&& after.mixer.profile.volumes == draft.mixer.profile.volumes
            &&& after.mixer.profile.faders == draft.mixer.profile.faders
            &&& after.mixer.fader_pause_until == draft.mixer.fader_pause_until
            &&& after.mixer.fader_last_seen == draft.mixer.fader_last_seen
            &&& place.linked == before.linked
            &&& place.volume == (if is_place_of(mix, channel) && follows(draft.mixer, mix) {
                linked
            } else {
                before.volume
            })
            &&& tells(draft.steps, UsbCall::SetSubVolume(mix, linked)) ==> tells(
                after.steps,
                UsbCall::SetSubVolume(mix, linked),
            )
            &&& is_place_of(mix, channel) && follows(draft.mixer, mix) && before.volume != linked
                ==> tells(after.steps, UsbCall::SetSubVolume(mix, linked))
        }),
{
    reveal(Draft::submix_followed);
    match ProfileAdapter::submix_of(channel) {
        Some(own) => {
            let change = MixerChange::SubMixVolume(own, linked);
            let call = UsbCall::SetSubVolume(own, linked);
            let wanted = UsbCall::SetSubVolume(mix, linked);
            mixing_after_change(draft, change);
            quiet_change(draft, true, Change::Mixer(change));
            calls_after_step(draft, Step::Apply(Change::Mixer(change)), wanted);
            let set = draft.set(Change::Mixer(change));
            quiet_call(set, true, call);
            calls_after_step(set, Step::Usb(call), wanted);
        },
        None => {},
    }
}

/// What waiting for a fader does: the fader that carries the channel, and no other, waits for the
/// volume.
proof fn lemma_latched(draft: Draft, channel: ChannelName, volume: u8, fader: FaderName)
    requires
        crate::device::laws::faders_differ(draft.mixer.profile),
    ensures
        ({
            let after = draft.latched(channel, volume);
            let pause = after.mixer.fader_pause_until.at(fader);
            &&& same_told(draft.steps, after.steps)
            &&& after.mixer.profile == draft.mixer.profile
            &&& after.mixer.fader_last_seen == draft.mixer.fader_last_seen
            &&& draft.mixer.profile.faders.at(fader) == channel ==> pause.paused && pause.until
                == volume
            &&& draft.mixer.profile.faders.at(fader) != channel ==> pause
                == draft.mixer.fader_pause_until.at(fader)
            &&& forall|call: UsbCall| #[trigger]
                tells(after.steps, call) == tells(draft.steps, call)
        }),
{
    reveal(Draft::latched);
    let profile = draft.mixer.profile;
    match profile.fader_with(channel) {
        Some(own) => {
            let change = Change::Kept(KeptChange::FaderPaused(own, volume));
            kept_after_change(draft, KeptChange::FaderPaused(own, volume));
            quiet_change(draft, true, change);
            assert forall|call: UsbCall| #[trigger]
                tells(draft.set(change).steps, call) == tells(draft.steps, call) by {
                calls_after_step(draft, Step::Apply(change), call);
            }
            if fader != own {
                assert(profile.faders.at(fader) != profile.faders.at(own));
            }
        },
        None => {},
    }
}

/// Setting a volume tells it to the device and keeps it, for that channel and no other. The fader that
/// carries the channel waits until it comes near the volume. The place of the channel in the second mix
/// takes the linked volume where it follows, and is told of it.
pub proof fn set_volume_is_told_and_kept(
    draft: Draft,
    channel: ChannelName,
    volume: u8,
    linked: u8,
    other: ChannelName,
    fader: FaderName,
    mix: SubMixChannelName,
)
    requires
        crate::device::laws::faders_differ(draft.mixer.profile),
    ensures
        ({
            let after = draft.volume_set(channel, volume, linked);
            let before = draft.mixer.profile;
            let pause = after.mixer.fader_pause_until.at(fader);
            let place = after.mixer.profile.submix.channels.at(mix).volume;
            &&& last_volume(after.steps, channel) == Some(volume)
            &&& after.mixer.profile.volumes.at(channel) == volume
            &&& other != channel ==> last_volume(after.steps, other) == last_volume(
                draft.steps,
                other,
            ) && after.mixer.profile.volumes.at(other) == before.volumes.at(other)
            &&& before.faders.at(fader) == channel ==> pause.paused && pause.until == volume
            &&& before.faders.at(fader) != channel ==> pause == draft.mixer.fader_pause_until.at(
                fader,
            )
            &&& is_place_of(mix, channel) && follows(draft.mixer, mix) ==> place == linked
            &&& !is_place_of(mix, channel) || !follows(draft.mixer, mix) ==> place
                == before.submix.channels.at(mix).volume
            &&& is_place_of(mix, channel) && follows(draft.mixer, mix)
                && before.submix.channels.at(mix).volume != linked ==> tells(
                after.steps,
                UsbCall::SetSubVolume(mix, linked),
            )
        }),
{
    let call = UsbCall::SetVolume(channel, volume);
    let told = draft.usb(call);
    mixer_after_step(draft, Step::Usb(call));
    volume_after_step(draft, Step::Usb(call), channel);
    volume_after_step(draft, Step::Usb(call), other);
    let change = MixerChange::Volume(channel, volume);
    let kept = told.set(Change::Mixer(change));
    mixing_after_change(told, change);
    quiet_change(told, true, Change::Mixer(change));
    lemma_submix_followed(kept, channel, linked, mix);
    let followed = kept.submix_followed(channel, linked);
    assert(crate::device::laws::faders_differ(followed.mixer.profile)) by {
        assert forall|a: FaderName, b: FaderName| a != b implies #[trigger]
            followed.mixer.profile.faders.at(a) != #[trigger] followed.mixer.profile.faders.at(
            b,
        ) by {
            assert(draft.mixer.profile.faders.at(a) != draft.mixer.profile.faders.at(b));
        }
    }
    lemma_latched(followed, channel, volume, fader);
    assert(draft.volume_set(channel, volume, linked) == followed.latched(channel, volume)) by {
        reveal(Draft::volume_set);
    }
}

/// A fader is listened to unless it waits for a volume that is more than five steps away, or, on a
/// small device, did not move. The channel that it carries then has its volume, and no other channel
/// changes. The device is not told: it moved the fader itself.
pub proof fn moved_fader_sets_its_channel(
    draft: Draft,
    fader: FaderName,
    volume: u8,
    linked: u8,
    other: ChannelName,
    mix: SubMixChannelName,
)
    ensures
        ({
            let after = draft.fader_moved(fader, volume, linked);
            let before = draft.mixer;
            let channel = before.profile.faders.at(fader);
            let pause = before.fader_pause_until.at(fader);
            let near = pause.until - 5 <= volume && volume <= pause.until + 5;
            let heard = if before.device_type == DeviceType::Mini {
                before.fader_last_seen.at(fader) != volume
            } else {
                pause.paused ==> near
            };
            &&& !heard ==> after == draft
            &&& heard ==> {
                &&& after.mixer.profile.volumes.at(channel) == volume
                &&& after.mixer.fader_last_seen.at(fader) == volume
                &&& before.device_type != DeviceType::Mini ==> !after.mixer.fader_pause_until.at(
                    fader,
                ).paused
                &&& is_place_of(mix, channel) && follows(before, mix) && before.profile.volumes.at(
                    channel,
                ) != volume ==> after.mixer.profile.submix.channels.at(mix).volume == linked
            }
            &&& other != channel ==> after.mixer.profile.volumes.at(other)
                == before.profile.volumes.at(other)
            &&& !is_place_of(mix, channel) ==> after.mixer.profile.submix.channels.at(mix).volume
                == before.profile.submix.channels.at(mix).volume
            &&& after.mixer.profile.faders == before.profile.faders
            &&& same_told(draft.steps, after.steps)
        }),
{
    reveal(Draft::fader_moved);
    let channel = draft.mixer.profile.faders.at(fader);
    if draft.mixer.listens(fader, volume) {
        let resume = KeptChange::FaderResumed(fader);
        let see = KeptChange::FaderSeen(fader, volume);
        let condition = draft.mixer.resumes(fader, volume);
        quiet_change(draft, condition, Change::Kept(resume));
        kept_after_change(draft, resume);
        let resumed = draft.set_if(condition, Change::Kept(resume));
        assert(resumed == if condition {
            draft.set(Change::Kept(resume))
        } else {
            draft
        }) by {
            reveal(Draft::set_if);
        }
        quiet_change(resumed, true, Change::Kept(see));
        kept_after_change(resumed, see);
        let seen = resumed.set(Change::Kept(see));
        if draft.mixer.profile.volumes.at(channel) != volume {
            let change = MixerChange::Volume(channel, volume);
            quiet_change(seen, true, Change::Mixer(change));
            mixing_after_change(seen, change);
            lemma_submix_followed(seen.set(Change::Mixer(change)), channel, linked, mix);
        }
    }
}

/// What the main volume does when a volume of the second mix is set.
proof fn lemma_main_followed(
    draft: Draft,
    channel: ChannelName,
    mix: SubMixChannelName,
    linked: u8,
    fader: FaderName,
)
    requires
        crate::device::laws::faders_differ(draft.mixer.profile),
    ensures
        ({
            let after = draft.main_followed(channel, mix, linked);
            let before = draft.mixer.profile;
            let pause = after.mixer.fader_pause_until.at(fader);
            let takes = before.submix.channels.at(mix).linked && before.volumes.at(channel)
                != linked;
            &&& after.mixer.profile.submix == before.submix
            &&& takes ==> last_volume(after.steps, channel) == Some(linked)
                && after.mixer.profile.volumes.at(channel) == linked
            &&& !takes ==> after == draft
            &&& takes && before.faders.at(fader) == channel ==> pause.paused && pause.until
                == linked
            &&& before.faders.at(fader) != channel ==> pause == draft.mixer.fader_pause_until.at(
                fader,
            )
        }),
{
    let change = MixerChange::Volume(channel, linked);
    let call = UsbCall::SetVolume(channel, linked);
    lemma_latched(draft, channel, linked, fader);
    let latched = draft.latched(channel, linked);
    mixing_after_change(latched, change);
    let kept = latched.set(Change::Mixer(change));
    mixer_after_step(kept, Step::Usb(call));
    volume_after_step(kept, Step::Usb(call), channel);
    reveal(Draft::main_followed);
}

/// Setting a volume of the second mix tells it to the device and keeps it, at that place and no other.
/// Where the place is linked, the main volume takes the linked volume, is told, and its fader waits for
/// it; otherwise the main volume stays.
pub proof fn set_submix_volume_is_told_and_kept(
    draft: Draft,
    channel: ChannelName,
    volume: u8,
    linked: u8,
    mix: SubMixChannelName,
    other: SubMixChannelName,
    fader: FaderName,
)
    requires
        crate::device::laws::faders_differ(draft.mixer.profile),
        is_place_of(mix, channel),
    ensures
        ({
            let after = draft.submix_volume_set(channel, volume, linked);
            let before = draft.mixer.profile;
            let places = after.mixer.profile.submix.channels;
            let pause = after.mixer.fader_pause_until.at(fader);
            let takes = before.submix.channels.at(mix).linked && before.volumes.at(channel)
                != linked;
            &&& places.at(mix).volume == volume
            &&& other != mix ==> places.at(other).volume == before.submix.channels.at(other).volume
            &&& after.steps.len() > 0 && after.steps.last() == Step::Usb(
                UsbCall::SetSubVolume(mix, volume),
            )
            &&& takes ==> last_volume(after.steps, channel) == Some(linked)
                && after.mixer.profile.volumes.at(channel) == linked
            &&& !takes ==> last_volume(after.steps, channel) == last_volume(draft.steps, channel)
                && after.mixer.profile.volumes == before.volumes
            &&& takes && before.faders.at(fader) == channel ==> pause.paused && pause.until
                == linked
            &&& !takes || before.faders.at(fader) != channel ==> pause
                == draft.mixer.fader_pause_until.at(fader)
        }),
{
    lemma_main_followed(draft, channel, mix, linked, fader);
    let main = draft.main_followed(channel, mix, linked);
    let place = MixerChange::SubMixVolume(mix, volume);
    mixing_after_change(main, place);
    quiet_change(main, true, Change::Mixer(place));
    let placed = main.set(Change::Mixer(place));
    let sub = UsbCall::SetSubVolume(mix, volume);
    quiet_call(placed, true, sub);
    assert(draft.submix_volume_set(channel, volume, linked) == placed.usb(sub)) by {
        reveal(Draft::submix_volume_set);
    }
    assert(placed.usb(sub).steps.len() > 0 && placed.usb(sub).steps.last() == Step::Usb(sub)) by {
        reveal(Draft::then_do);
    }
}

/// A fader that keeps its channel is told of it again, but for the two main outputs, and nothing else
/// changes.
pub proof fn kept_fader_is_told_again(draft: Draft, fader: FaderName, other: FaderName)
    ensures
        ({
            let channel = draft.mixer.profile.faders.at(fader);
            let after = draft.fader_set(fader, channel);
            &&& after.mixer.profile.faders == draft.mixer.profile.faders
            &&& after.mixer.profile.mutes == draft.mixer.profile.mutes
            &&& after.mixer.profile.volumes == draft.mixer.profile.volumes
            &&& channel != ChannelName::Headphones && channel != ChannelName::LineOut
                ==> last_fader(after.steps, fader) == Some(channel)
            &&& other != fader ==> last_fader(after.steps, other) == last_fader(draft.steps, other)
        }),
{
    reveal(Draft::fader_set);
    reveal(Draft::fader_kept);
    let channel = draft.mixer.profile.faders.at(fader);
    let change = MixerChange::MicFader(fader);
    quiet_change(draft, channel == ChannelName::Mic, Change::Mixer(change));
    mixing_after_change(draft, change);
    let kept = draft.set_if(channel == ChannelName::Mic, Change::Mixer(change));
    let call = UsbCall::SetFader(fader, channel);
    fader_after_step(kept, Step::Usb(call), fader);
    fader_after_step(kept, Step::Usb(call), other);
    mixer_after_step(kept, Step::Usb(call));
    reveal(Draft::usb_if);
    reveal(Draft::set_if);
}

/// Whether the button of a fader is lit for a mute everywhere.
pub open spec fn down_everywhere(profile: ProfileAdapter, fader: FaderName) -> bool {
    profile.mutes.at(fader).blink || (profile.mutes.at(fader).on && profile.mutes.at(fader).function
        == MuteFunction::All)
}

/// A fader that is locked while its channel is muted everywhere returns to where it stood before the
/// mute; any other fader stays where it is.
pub proof fn locked_fader_returns(draft: Draft, fader: FaderName, other: ChannelName)
    ensures
        ({
            let after = draft.fader_locked(fader);
            let channel = draft.mixer.profile.faders.at(fader);
            &&& after.mixer == draft.mixer
            &&& last_volume(after.steps, other) == (if other == channel && down_everywhere(
                draft.mixer.profile,
                fader,
            ) {
                Some(draft.mixer.profile.mutes.at(fader).previous_volume)
            } else {
                last_volume(draft.steps, other)
            })
        }),
{
    let call = UsbCall::SetVolume(
        draft.mixer.profile.faders.at(fader),
        draft.mixer.profile.mutes.at(fader).previous_volume,
    );
    mixer_after_step(draft, Step::Usb(call));
    volume_after_step(draft, Step::Usb(call), other);
    reveal(Draft::fader_locked);
    reveal(Draft::usb_if);
}

/// A fader that is unlocked while its channel is muted everywhere runs down to nothing, and the volume
/// of its channel is kept as where it stood; any other fader stays where it is.
pub proof fn unlocked_fader_runs_down(draft: Draft, fader: FaderName, other: ChannelName)
    ensures
        ({
            let after = draft.fader_unlocked(fader);
            let profile = draft.mixer.profile;
            let channel = profile.faders.at(fader);
            &&& !down_everywhere(profile, fader) ==> after == draft
            &&& down_everywhere(profile, fader) ==> {
                &&& last_volume(after.steps, channel) == Some(0u8)
                &&& after.mixer.profile.mutes.at(fader).previous_volume == profile.volumes.at(
                    channel,
                )
                &&& after.mixer.profile.volumes == profile.volumes
            }
            &&& other != channel ==> last_volume(after.steps, other) == last_volume(
                draft.steps,
                other,
            )
        }),
{
    let profile = draft.mixer.profile;
    let channel = profile.faders.at(fader);
    let change = Change::Mute(fader, MuteChange::PreviousVolume(profile.volumes.at(channel)));
    let kept = draft.set(change);
    quiet_change(draft, true, change);
    assert(kept.mixer.profile.mutes.at(fader).previous_volume == profile.volumes.at(channel)
        && kept.mixer.profile.volumes == profile.volumes) by {
        reveal(Mixer::changed);
    }
    let call = UsbCall::SetVolume(channel, 0);
    mixer_after_step(kept, Step::Usb(call));
    volume_after_step(kept, Step::Usb(call), channel);
    volume_after_step(kept, Step::Usb(call), other);
    reveal(Draft::fader_unlocked);
}

/// Each output is listed on the mix that it is on, and only there, by its number: 2 for the stream, 4
/// for the line out, 6 for the chat and 8 for the sampler. While the second mix is off, all are on the
/// first.
pub proof fn outputs_are_listed_on_their_mix(mixer: Mixer)
    ensures
        ({
            let mixes = mixer.channel_mixes();
            let outputs = mixer.profile.submix.outputs;
            let second = |mix: Mix| mixer.profile.submix.enabled && mix == Mix::B;
            &&& mixes.a.0 == (if second(outputs.broadcast_mix) { 12u8 } else { 2u8 })
            &&& mixes.b.0 == (if second(outputs.broadcast_mix) { 2u8 } else { 12u8 })
            &&& mixes.a.1 == (if second(outputs.line_out) { 12u8 } else { 4u8 })
            &&& mixes.b.1 == (if second(outputs.line_out) { 4u8 } else { 12u8 })
            &&& mixes.a.2 == (if second(outputs.chat_mic) { 12u8 } else { 6u8 })
            &&& mixes.b.2 == (if second(outputs.chat_mic) { 6u8 } else { 12u8 })
            &&& mixes.a.3 == (if second(outputs.sampler) { 12u8 } else { 8u8 })
            &&& mixes.b.3 == (if second(outputs.sampler) { 8u8 } else { 12u8 })
        }),
{
}

} // verus!
