//! What the hardware knows once a profile was applied.

use crate::device::laws::faders_differ;
use crate::device::load::{
    known_channel, known_state, volume_order, volume_order_complete, CurrentState,
};
use crate::device::mute_laws::{
    coughing, lit_everywhere, mic_fader_known, same_buttons, shown_muted,
};
use crate::device::state::{cough_changed, Draft, Mixer};
use crate::device::told::{
    fader_after_step, last_fader, last_route, last_state, last_volume, mixer_after_step, quiet_call,
    quiet_change, quiet_step, route_after_step, same_told, state_after_step, volume_after_step,
};
use crate::keys::EffectGroup;
use crate::plan::{Change, CoughChange, MixerChange, SamplerCall, Step, UsbCall};
use crate::profile::{CoughButton, ProfileAdapter};
use crate::types::{ChannelName, ChannelState, FaderName, InputDevice, SubMixChannelName, SubMixMap};
use vstd::prelude::*;

verus! {

/// What loading one fader tells, and does.
proof fn lemma_fader_loaded(draft: Draft, fader: FaderName, known: Option<ChannelName>)
    ensures
        ({
            let after = draft.fader_loaded(fader, known);
            let channel = draft.mixer.profile.faders.at(fader);
            &&& forall|other: ChannelName| #[trigger]
                last_state(after.steps, other) == last_state(draft.steps, other)
            &&& forall|other: FaderName| #[trigger]
                last_fader(after.steps, other) == (if other == fader && known != Some(channel) {
                    Some(channel)
                } else {
                    last_fader(draft.steps, other)
                })
            &&& after.mixer.profile.faders == draft.mixer.profile.faders
            &&& after.mixer.profile.mutes == draft.mixer.profile.mutes
            &&& after.mixer.profile.cough == draft.mixer.profile.cough
            &&& after.mixer.profile.volumes == draft.mixer.profile.volumes
            &&& after.mixer.profile.submix == draft.mixer.profile.submix
            &&& after.mixer.profile.mic_fader_id == (if channel == ChannelName::Mic {
                fader.index() as u8
            } else {
                draft.mixer.profile.mic_fader_id
            })
        }),
{
    let channel = draft.mixer.profile.faders.at(fader);
    let call = UsbCall::SetFader(fader, channel);
    let told = draft.usb_if(known != Some(channel), call);
    let mic = Change::Mixer(MixerChange::MicFader(fader));
    assert forall|other: ChannelName| #[trigger]
        last_state(told.steps, other) == last_state(draft.steps, other) by {
        reveal(Draft::usb_if);
        state_after_step(draft, Step::Usb(call), other);
    }
    assert forall|other: FaderName| #[trigger]
        last_fader(told.steps, other) == (if other == fader && known != Some(channel) {
            Some(channel)
        } else {
            last_fader(draft.steps, other)
        }) by {
        reveal(Draft::usb_if);
        fader_after_step(draft, Step::Usb(call), other);
    }
    assert(told.mixer == draft.mixer) by {
        reveal(Draft::usb_if);
        mixer_after_step(draft, Step::Usb(call));
    }
    quiet_change(told, channel == ChannelName::Mic, mic);
    lemma_mic_fader_change(draft.mixer, MixerChange::MicFader(fader));
    reveal(Draft::fader_loaded);
}

/// What a change of the fader of the microphone leaves.
proof fn lemma_mic_fader_change(mixer: Mixer, change: MixerChange)
    requires
        change is MicFader || change is NoMicFader,
    ensures
        ({
            let after = mixer.changed(Change::Mixer(change));
            &&& after.profile.faders == mixer.profile.faders
            &&& after.profile.mutes == mixer.profile.mutes
            &&& after.profile.cough == mixer.profile.cough
            &&& after.profile.volumes == mixer.profile.volumes
            &&& after.profile.submix == mixer.profile.submix
            &&& after.profile.mic_fader_id == (match change {
                MixerChange::MicFader(fader) => fader.index() as u8,
                _ => 4u8,
            })
        }),
{
    reveal(Mixer::changed);
}

/// What loading the faders tells, and does: each fader is known by its channel, and the fader of the
/// microphone is found.
proof fn lemma_faders_loaded(draft: Draft, current: Option<CurrentState>)
    requires
        faders_differ(draft.mixer.profile),
    ensures
        ({
            let after = draft.faders_loaded(current);
            &&& forall|other: ChannelName| #[trigger]
                last_state(after.steps, other) == last_state(draft.steps, other)
            &&& forall|fader: FaderName| #[trigger]
                last_fader(after.steps, fader) == (if known_channel(current, fader) != Some(
                    draft.mixer.profile.faders.at(fader),
                ) {
                    Some(draft.mixer.profile.faders.at(fader))
                } else {
                    last_fader(draft.steps, fader)
                })
            &&& after.mixer.profile.faders == draft.mixer.profile.faders
            &&& after.mixer.profile.mutes == draft.mixer.profile.mutes
            &&& after.mixer.profile.cough == draft.mixer.profile.cough
            &&& after.mixer.profile.volumes == draft.mixer.profile.volumes
            &&& after.mixer.profile.submix == draft.mixer.profile.submix
            &&& mic_fader_known(after.mixer.profile)
        }),
{
    reveal(Draft::faders_loaded);
    let faders = draft.mixer.profile.faders;
    assert(faders.at(FaderName::A) != faders.at(FaderName::B));
    assert(faders.at(FaderName::A) != faders.at(FaderName::C));
    assert(faders.at(FaderName::A) != faders.at(FaderName::D));
    assert(faders.at(FaderName::B) != faders.at(FaderName::C));
    assert(faders.at(FaderName::B) != faders.at(FaderName::D));
    assert(faders.at(FaderName::C) != faders.at(FaderName::D));
    let one = draft.fader_loaded(FaderName::A, known_channel(current, FaderName::A));
    lemma_fader_loaded(draft, FaderName::A, known_channel(current, FaderName::A));
    let two = one.fader_loaded(FaderName::B, known_channel(current, FaderName::B));
    lemma_fader_loaded(one, FaderName::B, known_channel(current, FaderName::B));
    let three = two.fader_loaded(FaderName::C, known_channel(current, FaderName::C));
    lemma_fader_loaded(two, FaderName::C, known_channel(current, FaderName::C));
    let four = three.fader_loaded(FaderName::D, known_channel(current, FaderName::D));
    lemma_fader_loaded(three, FaderName::D, known_channel(current, FaderName::D));
    let nowhere = faders.a != ChannelName::Mic && faders.b != ChannelName::Mic && faders.c
        != ChannelName::Mic && faders.d != ChannelName::Mic;
    quiet_change(four, nowhere, Change::Mixer(MixerChange::NoMicFader));
    lemma_mic_fader_change(four.mixer, MixerChange::NoMicFader);
}

/// The state that the buttons of a profile call for.
pub open spec fn called_for(profile: ProfileAdapter, channel: ChannelName) -> ChannelState {
    if shown_muted(profile, channel) {
        ChannelState::Muted
    } else {
        ChannelState::Unmuted
    }
}

/// Whether a cough button that acts only while it is held was left lit.
pub open spec fn cough_left_lit(profile: ProfileAdapter) -> bool {
    !profile.cough.is_toggle && profile.cough.on
}

/// What the profile makes of the cough button: one that acts only while it is held starts unlit.
pub open spec fn started(cough: CoughButton) -> CoughButton {
    if !cough.is_toggle && cough.on {
        CoughButton { on: false, blink: false, ..cough }
    } else {
        cough
    }
}

/// Whether two states of the device differ in nothing that loading the channels reads but the cough
/// button.
pub open spec fn same_but_cough(one: Mixer, two: Mixer) -> bool {
    &&& one.profile.faders == two.profile.faders
    &&& one.profile.mutes == two.profile.mutes
    &&& one.profile.mic_fader_id == two.profile.mic_fader_id
    &&& one.profile.volumes == two.profile.volumes
    &&& one.profile.submix == two.profile.submix
}

/// A change of the cough button leaves the rest.
proof fn lemma_cough_only(draft: Draft, change: CoughChange)
    ensures
        ({
            let after = draft.set(Change::Cough(change));
            &&& same_but_cough(after.mixer, draft.mixer)
            &&& after.mixer.profile.cough == cough_changed(draft.mixer.profile.cough, change)
            &&& same_told(draft.steps, after.steps)
        }),
{
    quiet_change(draft, true, Change::Cough(change));
    reveal(Mixer::changed);
}

/// What one call about the state of a channel tells.
proof fn lemma_state_sent(draft: Draft, condition: bool, channel: ChannelName, state: ChannelState)
    ensures
        ({
            let after = draft.usb_if(condition, UsbCall::SetChannelState(channel, state));
            &&& after.mixer == draft.mixer
            &&& forall|other: ChannelName| #[trigger]
                last_state(after.steps, other) == (if other == channel && condition {
                    Some(state)
                } else {
                    last_state(draft.steps, other)
                })
            &&& forall|fader: FaderName| #[trigger]
                last_fader(after.steps, fader) == last_fader(draft.steps, fader)
        }),
{
    let call = UsbCall::SetChannelState(channel, state);
    let after = draft.usb_if(condition, call);
    reveal(Draft::usb_if);
    mixer_after_step(draft, Step::Usb(call));
    assert forall|other: ChannelName| #[trigger]
        last_state(after.steps, other) == (if other == channel && condition {
            Some(state)
        } else {
            last_state(draft.steps, other)
        }) by {
        state_after_step(draft, Step::Usb(call), other);
    }
    assert forall|fader: FaderName| #[trigger]
        last_fader(after.steps, fader) == last_fader(draft.steps, fader) by {
        fader_after_step(draft, Step::Usb(call), fader);
    }
}

/// Applying the cough button tells what the buttons call for of the microphone, unless it was left lit
/// though it acts only while it is held: then it goes out.
pub proof fn applied_cough_is_in_line(draft: Draft)
    requires
        faders_differ(draft.mixer.profile),
        mic_fader_known(draft.mixer.profile),
    ensures
        ({
            let after = draft.cough_applied();
            &&& same_but_cough(after.mixer, draft.mixer)
            &&& after.mixer.profile.cough == started(draft.mixer.profile.cough)
            &&& forall|other: ChannelName| #[trigger]
                last_state(after.steps, other) == (if other == ChannelName::Mic && !cough_left_lit(
                    draft.mixer.profile,
                ) {
                    Some(called_for(draft.mixer.profile, ChannelName::Mic))
                } else {
                    last_state(draft.steps, other)
                })
            &&& forall|fader: FaderName| #[trigger]
                last_fader(after.steps, fader) == last_fader(draft.steps, fader)
        }),
{
    let profile = draft.mixer.profile;
    reveal(Draft::cough_applied);
    if cough_left_lit(profile) {
        lemma_cough_only(draft, CoughChange::On(false));
        lemma_cough_only(
            draft.set(Change::Cough(CoughChange::On(false))),
            CoughChange::Blink(false),
        );
    } else {
        assert(profile.faders.at(FaderName::A) != profile.faders.at(FaderName::B));
        assert((profile.cough.silences() || profile.mic_silenced_by_fader()) == shown_muted(
            profile,
            ChannelName::Mic,
        ));
        lemma_state_sent(draft, true, ChannelName::Mic, called_for(profile, ChannelName::Mic));
        reveal(Draft::usb_if);
    }
}

/// What loading the state of one channel tells: that of the channel is known, the others stay.
proof fn lemma_channel_loaded(draft: Draft, channel: ChannelName, known: Option<ChannelState>)
    requires
        faders_differ(draft.mixer.profile),
        mic_fader_known(draft.mixer.profile),
    ensures
        ({
            let after = draft.channel_loaded(channel, known);
            let state = called_for(draft.mixer.profile, channel);
            &&& same_but_cough(after.mixer, draft.mixer)
            &&& after.mixer.profile.cough == (if channel == ChannelName::Mic {
                started(draft.mixer.profile.cough)
            } else {
                draft.mixer.profile.cough
            })
            &&& forall|other: ChannelName| #[trigger]
                last_state(after.steps, other) == (if other == channel && (if channel
                    == ChannelName::Mic {
                    !cough_left_lit(draft.mixer.profile)
                } else {
                    known != Some(state)
                }) {
                    Some(state)
                } else {
                    last_state(draft.steps, other)
                })
            &&& forall|fader: FaderName| #[trigger]
                last_fader(after.steps, fader) == last_fader(draft.steps, fader)
        }),
{
    let profile = draft.mixer.profile;
    let state = called_for(profile, channel);
    reveal(Draft::channel_loaded);
    if channel == ChannelName::Mic {
        applied_cough_is_in_line(draft);
    } else {
        lemma_state_sent(draft, known != Some(state), channel, state);
        match profile.fader_with(channel) {
            Some(fader) => {
                assert(profile.faders.at(FaderName::A) != profile.faders.at(FaderName::B));
                assert(profile.faders.at(FaderName::A) != profile.faders.at(FaderName::C));
                assert(profile.faders.at(FaderName::A) != profile.faders.at(FaderName::D));
                assert(profile.faders.at(FaderName::B) != profile.faders.at(FaderName::C));
                assert(profile.faders.at(FaderName::B) != profile.faders.at(FaderName::D));
                assert(profile.faders.at(FaderName::C) != profile.faders.at(FaderName::D));
                assert(profile.mutes.at(fader).silences() == shown_muted(profile, channel));
                reveal(Draft::mute_applied);
            },
            None => {
                assert(!shown_muted(profile, channel));
            },
        }
    }
}

/// What loading the states of the first channels in their order tells.
proof fn lemma_channels_loaded(draft: Draft, current: Option<CurrentState>, count: nat)
    requires
        faders_differ(draft.mixer.profile),
        mic_fader_known(draft.mixer.profile),
        count <= ChannelName::order().len(),
    ensures
        ({
            let after = draft.channels_loaded(ChannelName::order().take(count as int), current);
            let profile = draft.mixer.profile;
            &&& same_but_cough(after.mixer, draft.mixer)
            &&& after.mixer.profile.cough == (if count > 0 {
                started(profile.cough)
            } else {
                profile.cough
            })
            &&& forall|channel: ChannelName| #[trigger]
                last_state(after.steps, channel) == (if channel.index() < count && (if channel
                    == ChannelName::Mic {
                    !cough_left_lit(profile)
                } else {
                    known_state(current, channel) != Some(called_for(profile, channel))
                }) {
                    Some(called_for(profile, channel))
                } else {
                    last_state(draft.steps, channel)
                })
            &&& forall|fader: FaderName| #[trigger]
                last_fader(after.steps, fader) == last_fader(draft.steps, fader)
        }),
    decreases count,
{
    let order = ChannelName::order();
    if count > 0 {
        let front = order.take(count - 1);
        assert(order.take(count as int).drop_last() =~= front);
        let channel = order[count - 1];
        assert(order.take(count as int).last() == channel);
        assert(channel.index() == count - 1);
        lemma_channels_loaded(draft, current, (count - 1) as nat);
        let before = draft.channels_loaded(front, current);
        assert(faders_differ(before.mixer.profile)) by {
            lemma_faders_differ_too(draft.mixer.profile, before.mixer.profile);
        }
        assert(ChannelName::Mic.index() == 0);
        assert(channel == ChannelName::Mic <==> count == 1);
        lemma_channel_loaded(before, channel, known_state(current, channel));
        assert forall|other: ChannelName| other.index() == count - 1 implies other == channel by {}
        assert(channel != ChannelName::Mic ==> called_for(before.mixer.profile, channel)
            == called_for(draft.mixer.profile, channel));
    } else {
        assert(order.take(0) =~= Seq::<ChannelName>::empty());
    }
}

/// Two profiles with the same faders have them differ alike.
proof fn lemma_faders_differ_too(one: ProfileAdapter, two: ProfileAdapter)
    requires
        faders_differ(one),
        one.faders == two.faders,
    ensures
        faders_differ(two),
{
    assert forall|a: FaderName, b: FaderName| a != b implies #[trigger] two.faders.at(a)
        != #[trigger] two.faders.at(b) by {
        assert(one.faders.at(a) != one.faders.at(b));
    }
}

/// What sending volumes tells: the volumes of the channels, and nothing else.
proof fn lemma_volumes_sent(draft: Draft, channels: Seq<ChannelName>)
    ensures
        ({
            let after = draft.volumes_sent(channels);
            &&& after.mixer == draft.mixer
            &&& forall|channel: ChannelName| #[trigger]
                last_volume(after.steps, channel) == (if channels.contains(channel) {
                    Some(draft.mixer.profile.volumes.at(channel))
                } else {
                    last_volume(draft.steps, channel)
                })
            &&& forall|channel: ChannelName| #[trigger]
                last_state(after.steps, channel) == last_state(draft.steps, channel)
            &&& forall|fader: FaderName| #[trigger]
                last_fader(after.steps, fader) == last_fader(draft.steps, fader)
        }),
    decreases channels.len(),
{
    if channels.len() > 0 {
        let front = channels.drop_last();
        lemma_volumes_sent(draft, front);
        let before = draft.volumes_sent(front);
        lemma_send_volume(before, true, channels.last());
        assert forall|channel: ChannelName| #[trigger] channels.contains(channel) <==> (channel
            == channels.last() || front.contains(channel)) by {
            if front.contains(channel) {
                let i = front.index_of(channel);
                assert(channels[i] == channel);
            }
            if channels.contains(channel) && channel != channels.last() {
                let i = channels.index_of(channel);
                assert(front[i] == channel);
            }
            assert(channels[channels.len() - 1] == channels.last());
        }
    }
}

/// What sending one volume tells.
proof fn lemma_send_volume(draft: Draft, condition: bool, channel: ChannelName)
    ensures
        ({
            let after = draft.send_volume_if(condition, channel);
            &&& after.mixer == draft.mixer
            &&& forall|other: ChannelName| #[trigger]
                last_volume(after.steps, other) == (if condition && other == channel {
                    Some(draft.mixer.profile.volumes.at(channel))
                } else {
                    last_volume(draft.steps, other)
                })
            &&& forall|other: ChannelName| #[trigger]
                last_state(after.steps, other) == last_state(draft.steps, other)
            &&& forall|fader: FaderName| #[trigger]
                last_fader(after.steps, fader) == last_fader(draft.steps, fader)
            &&& forall|input: InputDevice| #[trigger]
                last_route(after.steps, input) == last_route(draft.steps, input)
        }),
{
    broadcast use {
        state_after_step,
        fader_after_step,
        volume_after_step,
        route_after_step,
        mixer_after_step,
    };

    reveal(Draft::send_volume_if);
    reveal(Draft::usb_if);
}

/// Whether two states of the device have the same buttons, faders, volumes and set up of the second
/// mix.
pub open spec fn same_setup(one: Mixer, two: Mixer) -> bool {
    &&& same_buttons(one.profile, two.profile)
    &&& one.profile.volumes == two.profile.volumes
    &&& one.profile.submix.enabled == two.profile.submix.enabled
    &&& one.profile.submix.outputs == two.profile.submix.outputs
    &&& one.profile.monitor == two.profile.monitor
    &&& one.device_type == two.device_type
    &&& one.firmware == two.firmware
}

/// A change of a volume in the second mix leaves everything else.
proof fn lemma_submix_change(mixer: Mixer, mix: SubMixChannelName, volume: u8)
    ensures
        same_setup(mixer.changed(Change::Mixer(MixerChange::SubMixVolume(mix, volume))), mixer),
{
    reveal(Mixer::changed);
}

/// What syncing one channel of the second mix leaves.
proof fn lemma_submix_synced(draft: Draft, channel: ChannelName, links: SubMixMap<u8>)
    ensures
        same_told(draft.steps, draft.submix_synced(channel, links).steps),
        same_setup(draft.submix_synced(channel, links).mixer, draft.mixer),
{
    reveal(Draft::submix_synced);
    reveal(Draft::submix_followed);
    match ProfileAdapter::submix_of(channel) {
        Some(mix) => {
            let linked = links.at(mix);
            let set = draft.set(Change::Mixer(MixerChange::SubMixVolume(mix, linked)));
            quiet_change(draft, true, Change::Mixer(MixerChange::SubMixVolume(mix, linked)));
            lemma_submix_change(draft.mixer, mix, linked);
            quiet_call(set, true, UsbCall::SetSubVolume(mix, linked));
            quiet_call(
                draft,
                true,
                UsbCall::SetSubVolume(mix, draft.mixer.profile.submix.channels.at(mix).volume),
            );
        },
        None => {},
    }
}

/// What syncing the second mix leaves.
proof fn lemma_submixes_synced(draft: Draft, links: SubMixMap<u8>)
    ensures
        same_told(draft.steps, draft.submixes_synced(links).steps),
        same_setup(draft.submixes_synced(links).mixer, draft.mixer),
{
    reveal(Draft::submixes_synced);
    lemma_submix_synced(draft, ChannelName::Mic, links);
    let a = draft.submix_synced(ChannelName::Mic, links);
    lemma_submix_synced(a, ChannelName::LineIn, links);
    let b = a.submix_synced(ChannelName::LineIn, links);
    lemma_submix_synced(b, ChannelName::Console, links);
    let c = b.submix_synced(ChannelName::Console, links);
    lemma_submix_synced(c, ChannelName::System, links);
    let d = c.submix_synced(ChannelName::System, links);
    lemma_submix_synced(d, ChannelName::Game, links);
    let e = d.submix_synced(ChannelName::Game, links);
    lemma_submix_synced(e, ChannelName::Chat, links);
    let f = e.submix_synced(ChannelName::Chat, links);
    lemma_submix_synced(f, ChannelName::Sample, links);
    let g = f.submix_synced(ChannelName::Sample, links);
    lemma_submix_synced(g, ChannelName::Music, links);
}

/// What setting up the second mix tells of states, volumes and faders, and leaves: the microphone
/// monitor is at its full volume while the mix is on.
pub proof fn second_mix_takes_the_monitor(draft: Draft, apply_volumes: bool, links: SubMixMap<u8>)
    ensures
        ({
            let after = draft.submix_loaded(apply_volumes, links);
            &&& same_setup(after.mixer, draft.mixer)
            &&& forall|channel: ChannelName| #[trigger]
                last_state(after.steps, channel) == last_state(draft.steps, channel)
            &&& forall|fader: FaderName| #[trigger]
                last_fader(after.steps, fader) == last_fader(draft.steps, fader)
            &&& forall|channel: ChannelName|
                channel != ChannelName::MicMonitor ==> #[trigger] last_volume(after.steps, channel)
                    == last_volume(draft.steps, channel)
            &&& draft.mixer.supports_submixes() ==> last_volume(
                after.steps,
                ChannelName::MicMonitor,
            ) == Some(
                if draft.mixer.profile.submix.enabled {
                    255u8
                } else {
                    draft.mixer.profile.volumes.mic_monitor
                },
            )
            &&& !draft.mixer.supports_submixes() ==> after == draft
        }),
{
    reveal(Draft::submix_loaded);
    let submix = draft.mixer.profile.submix;
    if draft.mixer.supports_submixes() {
        let mix = UsbCall::SetMonitoredMix(
            if submix.enabled {
                submix.outputs.headphones
            } else {
                crate::types::Mix::A
            },
        );
        let monitored = draft.usb(mix);
        quiet_call(draft, true, mix);
        let listed = monitored.usb(UsbCall::SetChannelMixes(draft.mixer.channel_mixes()));
        quiet_call(monitored, true, UsbCall::SetChannelMixes(draft.mixer.channel_mixes()));
        lemma_submixes_synced(listed, links);
        let synced = if submix.enabled && apply_volumes {
            listed.submixes_synced(links)
        } else {
            listed
        };
        let full = UsbCall::SetVolume(ChannelName::MicMonitor, 255);
        let loud = synced.usb_if(submix.enabled, full);
        assert forall|channel: ChannelName| #[trigger]
            last_volume(loud.steps, channel) == (if submix.enabled && channel
                == ChannelName::MicMonitor {
                Some(255u8)
            } else {
                last_volume(synced.steps, channel)
            }) by {
            reveal(Draft::usb_if);
            volume_after_step(synced, Step::Usb(full), channel);
        }
        assert forall|channel: ChannelName| #[trigger]
            last_state(loud.steps, channel) == last_state(synced.steps, channel) by {
            reveal(Draft::usb_if);
            state_after_step(synced, Step::Usb(full), channel);
        }
        assert forall|fader: FaderName| #[trigger]
            last_fader(loud.steps, fader) == last_fader(synced.steps, fader) by {
            reveal(Draft::usb_if);
            fader_after_step(synced, Step::Usb(full), fader);
        }
        assert(loud.mixer == synced.mixer) by {
            reveal(Draft::usb_if);
            mixer_after_step(synced, Step::Usb(full));
        }
        lemma_send_volume(loud, !submix.enabled, ChannelName::MicMonitor);
    }
}

/// What the lights leave.
proof fn lemma_lights_loaded(draft: Draft)
    ensures
        same_told(draft.steps, draft.lights_loaded().steps),
        draft.lights_loaded().mixer == draft.mixer,
{
    reveal(Draft::lights_loaded);
    let coloured = draft.usb(UsbCall::SendColourMap);
    quiet_call(draft, true, UsbCall::SendColourMap);
    lemma_animation_loaded(coloured, true);
    let animated = if draft.mixer.supports_animations() {
        coloured.animation_loaded(true)
    } else {
        coloured
    };
    lemma_displays_sent(animated);
    let displayed = animated.displays_sent();
    lemma_scribbles_sent(displayed);
    quiet_call(displayed.scribbles_sent(), true, UsbCall::SendButtonStates);
}

/// What the animation leaves.
proof fn lemma_animation_loaded(draft: Draft, map_set: bool)
    ensures
        same_told(draft.steps, draft.animation_loaded(map_set).steps),
        draft.animation_loaded(map_set).mixer == draft.mixer,
{
    reveal(Draft::animation_loaded);
    let animation = draft.mixer.profile.animation;
    let call = UsbCall::SetAnimation {
        enabled: animation.mode != crate::types::AnimationMode::NoAnimation,
        mode: animation.mode,
        mod1: animation.mod1,
        mod2: animation.mod2,
        waterfall: animation.waterfall,
    };
    quiet_call(draft, true, call);
    quiet_call(
        draft.usb(call),
        !map_set && (animation.mode == crate::types::AnimationMode::NoAnimation || animation.mode
            == crate::types::AnimationMode::Ripple || animation.mode
            == crate::types::AnimationMode::Simple),
        UsbCall::SendColourMap,
    );
}

/// What the displays leave.
proof fn lemma_displays_sent(draft: Draft)
    ensures
        same_told(draft.steps, draft.displays_sent().steps),
        draft.displays_sent().mixer == draft.mixer,
{
    reveal(Draft::displays_sent);
    quiet_call(draft, true, UsbCall::SendFaderDisplay(FaderName::A));
    let a = draft.usb(UsbCall::SendFaderDisplay(FaderName::A));
    quiet_call(a, true, UsbCall::SendFaderDisplay(FaderName::B));
    let b = a.usb(UsbCall::SendFaderDisplay(FaderName::B));
    quiet_call(b, true, UsbCall::SendFaderDisplay(FaderName::C));
    let c = b.usb(UsbCall::SendFaderDisplay(FaderName::C));
    quiet_call(c, true, UsbCall::SendFaderDisplay(FaderName::D));
}

/// What the screens leave.
proof fn lemma_scribbles_sent(draft: Draft)
    ensures
        same_told(draft.steps, draft.scribbles_sent().steps),
        draft.scribbles_sent().mixer == draft.mixer,
{
    reveal(Draft::scribbles_sent);
    let full = draft.mixer.device_type == crate::types::DeviceType::Full;
    quiet_call(draft, full, UsbCall::SendScribble(FaderName::A));
    let a = draft.usb_if(full, UsbCall::SendScribble(FaderName::A));
    quiet_call(a, full, UsbCall::SendScribble(FaderName::B));
    let b = a.usb_if(full, UsbCall::SendScribble(FaderName::B));
    quiet_call(b, full, UsbCall::SendScribble(FaderName::C));
    let c = b.usb_if(full, UsbCall::SendScribble(FaderName::C));
    quiet_call(c, full, UsbCall::SendScribble(FaderName::D));
}

/// What sending one route tells.
pub proof fn one_route_told(draft: Draft, input: InputDevice)
    ensures
        ({
            let after = draft.route(input);
            &&& after.mixer == draft.mixer
            &&& forall|other: InputDevice| #[trigger]
                last_route(after.steps, other) == (if other == input {
                    Some(draft.mixer.route(input))
                } else {
                    last_route(draft.steps, other)
                })
            &&& forall|channel: ChannelName| #[trigger]
                last_state(after.steps, channel) == last_state(draft.steps, channel)
            &&& forall|channel: ChannelName| #[trigger]
                last_volume(after.steps, channel) == last_volume(draft.steps, channel)
            &&& forall|fader: FaderName| #[trigger]
                last_fader(after.steps, fader) == last_fader(draft.steps, fader)
        }),
{
    broadcast use {
        state_after_step,
        fader_after_step,
        volume_after_step,
        route_after_step,
        mixer_after_step,
    };

    reveal(Draft::route);
}

/// Once every route was sent, the device has the route that each input is to take.
pub proof fn all_routes_told(draft: Draft)
    ensures
        ({
            let after = draft.all_routed();
            &&& after.mixer == draft.mixer
            &&& forall|input: InputDevice| #[trigger]
                last_route(after.steps, input) == Some(draft.mixer.route(input))
            &&& forall|channel: ChannelName| #[trigger]
                last_state(after.steps, channel) == last_state(draft.steps, channel)
            &&& forall|channel: ChannelName| #[trigger]
                last_volume(after.steps, channel) == last_volume(draft.steps, channel)
            &&& forall|fader: FaderName| #[trigger]
                last_fader(after.steps, fader) == last_fader(draft.steps, fader)
        }),
{
    reveal(Draft::all_routed);
    one_route_told(draft, InputDevice::Microphone);
    let a = draft.route(InputDevice::Microphone);
    one_route_told(a, InputDevice::Chat);
    let b = a.route(InputDevice::Chat);
    one_route_told(b, InputDevice::Music);
    let c = b.route(InputDevice::Music);
    one_route_told(c, InputDevice::Game);
    let d = c.route(InputDevice::Game);
    one_route_told(d, InputDevice::Console);
    let e = d.route(InputDevice::Console);
    one_route_told(e, InputDevice::LineIn);
    let f = e.route(InputDevice::LineIn);
    one_route_told(f, InputDevice::System);
    let g = f.route(InputDevice::System);
    one_route_told(g, InputDevice::Samples);
    assert forall|input: InputDevice| #[trigger]
        last_route(draft.all_routed().steps, input) == Some(draft.mixer.route(input)) by {
        assert(input == InputDevice::Microphone || input == InputDevice::Chat || input
            == InputDevice::Music || input == InputDevice::Game || input == InputDevice::Console
            || input == InputDevice::LineIn || input == InputDevice::System || input
            == InputDevice::Samples);
    }
}

/// What the voice effects leave.
proof fn lemma_voice_fx_applied(draft: Draft)
    ensures
        same_told(draft.steps, draft.voice_fx_applied().steps),
        draft.voice_fx_applied().mixer == draft.mixer,
{
    reveal(Draft::voice_fx_applied);
    let sent = draft.effects(EffectGroup::Full);
    quiet_call(draft, true, UsbCall::SendEffects(EffectGroup::Full));
    lemma_pitch_mode_sent(sent);
    lemma_encoders_sent(sent.pitch_mode_sent());
}

/// What the mode of the pitch encoder leaves.
proof fn lemma_pitch_mode_sent(draft: Draft)
    ensures
        same_told(draft.steps, draft.pitch_mode_sent().steps),
        draft.pitch_mode_sent().mixer == draft.mixer,
{
    reveal(Draft::pitch_mode_sent);
    let effects = draft.mixer.profile.effects;
    quiet_call(
        draft,
        draft.mixer.device_type == crate::types::DeviceType::Full,
        UsbCall::SetPitchMode {
            hardtune_acts: effects.fx_on && effects.hardtune_on,
            hardtune_lit: effects.hardtune_on,
            preset: effects.selected,
        },
    );
}

/// What the encoders leave.
proof fn lemma_encoders_sent(draft: Draft)
    ensures
        same_told(draft.steps, draft.encoders_sent().steps),
        draft.encoders_sent().mixer == draft.mixer,
{
    reveal(Draft::encoders_sent);
    reveal(Draft::encoder_sent);
    let encoders = draft.mixer.profile.preset().encoders;
    let pitch = UsbCall::SetEncoder(crate::types::EncoderName::Pitch, encoders.pitch);
    quiet_call(draft, true, pitch);
    let a = draft.usb(pitch);
    let echo = UsbCall::SetEncoder(crate::types::EncoderName::Echo, encoders.echo);
    quiet_call(a, true, echo);
    let b = a.usb(echo);
    let gender = UsbCall::SetEncoder(crate::types::EncoderName::Gender, encoders.gender);
    quiet_call(b, true, gender);
    let c = b.usb(gender);
    let reverb = UsbCall::SetEncoder(crate::types::EncoderName::Reverb, encoders.reverb);
    quiet_call(c, true, reverb);
}

/// What the validation of the samples leaves.
proof fn lemma_sampler_validated(draft: Draft)
    ensures
        same_told(draft.steps, draft.sampler_validated().steps),
        draft.sampler_validated().mixer == draft.mixer,
{
    reveal(Draft::sampler_validated);
    quiet_step(draft, Step::Sampler(SamplerCall::Validate));
    let a = draft.sampler(SamplerCall::Validate);
    quiet_call(a, true, UsbCall::SendColourMap);
    quiet_call(a.usb(UsbCall::SendColourMap), true, UsbCall::SendButtonStates);
}

impl Draft {
    /// What applying a profile does first: the faders, the states and the volumes.
    spec fn levels_loaded(self, current: Option<CurrentState>) -> Draft {
        let muted = self.faders_loaded(current).channels_loaded(ChannelName::order(), current);
        muted.volumes_sent(
            volume_order(
                muted.mixer.profile.volumes,
                match current {
                    Some(state) => Some(state.volumes),
                    None => None,
                },
            ),
        )
    }

    /// What applying a profile does after that.
    spec fn rest_loaded(self, links: SubMixMap<u8>) -> Draft {
        self.submix_loaded(true, links)
            .lights_loaded()
            .all_routed()
            .voice_fx_applied()
            .sampler_validated()
    }
}

/// What the first part of applying a profile tells and leaves.
proof fn lemma_levels_loaded(
    draft: Draft,
    current: Option<CurrentState>,
    channel: ChannelName,
    fader: FaderName,
)
    requires
        faders_differ(draft.mixer.profile),
    ensures
        ({
            let after = draft.levels_loaded(current);
            let profile = draft.mixer.profile;
            let state = called_for(profile, channel);
            &&& after.mixer.profile.faders == profile.faders
            &&& after.mixer.profile.mutes == profile.mutes
            &&& after.mixer.profile.volumes == profile.volumes
            &&& after.mixer.profile.submix == profile.submix
            &&& after.mixer.profile.cough == started(profile.cough)
            &&& mic_fader_known(after.mixer.profile)
            &&& last_state(after.steps, channel) == (if (if channel == ChannelName::Mic {
                !cough_left_lit(profile)
            } else {
                known_state(current, channel) != Some(state)
            }) {
                Some(state)
            } else {
                last_state(draft.steps, channel)
            })
            &&& last_fader(after.steps, fader) == (if known_channel(current, fader) != Some(
                profile.faders.at(fader),
            ) {
                Some(profile.faders.at(fader))
            } else {
                last_fader(draft.steps, fader)
            })
            &&& last_volume(after.steps, channel) == Some(profile.volumes.at(channel))
        }),
{
    lemma_faders_loaded(draft, current);
    let loaded = draft.faders_loaded(current);
    lemma_faders_differ_too(draft.mixer.profile, loaded.mixer.profile);
    let order = ChannelName::order();
    assert(order.take(order.len() as int) =~= order);
    lemma_channels_loaded(loaded, current, order.len());
    assert(channel.index() < order.len());
    let muted = loaded.channels_loaded(order, current);
    let volumes = match current {
        Some(state) => Some(state.volumes),
        None => None,
    };
    let sequence = volume_order(muted.mixer.profile.volumes, volumes);
    volume_order_complete(muted.mixer.profile.volumes, volumes);
    lemma_volumes_sent(muted, sequence);
    assert(sequence.contains(channel));
    assert(called_for(loaded.mixer.profile, channel) == called_for(draft.mixer.profile, channel));
    assert(cough_left_lit(loaded.mixer.profile) == cough_left_lit(draft.mixer.profile));
}

/// What the second part of applying a profile tells and leaves.
proof fn lemma_rest_loaded(
    draft: Draft,
    links: SubMixMap<u8>,
    channel: ChannelName,
    fader: FaderName,
    input: InputDevice,
)
    ensures
        ({
            let after = draft.rest_loaded(links);
            &&& same_setup(after.mixer, draft.mixer)
            &&& last_state(after.steps, channel) == last_state(draft.steps, channel)
            &&& last_fader(after.steps, fader) == last_fader(draft.steps, fader)
            &&& last_volume(after.steps, channel) == (if channel == ChannelName::MicMonitor
                && draft.mixer.supports_submixes() {
                Some(
                    if draft.mixer.profile.submix.enabled {
                        255u8
                    } else {
                        draft.mixer.profile.volumes.mic_monitor
                    },
                )
            } else {
                last_volume(draft.steps, channel)
            })
            &&& last_route(after.steps, input) == Some(after.mixer.route(input))
        }),
{
    second_mix_takes_the_monitor(draft, true, links);
    let mixed = draft.submix_loaded(true, links);
    lemma_lights_loaded(mixed);
    let lit = mixed.lights_loaded();
    all_routes_told(lit);
    let routed = lit.all_routed();
    lemma_voice_fx_applied(routed);
    let voiced = routed.voice_fx_applied();
    lemma_sampler_validated(voiced);
    assert(last_state(draft.rest_loaded(links).steps, channel) == last_state(draft.steps, channel));
}

/// The state that a channel is said to have is what its buttons show.
pub proof fn channel_state_is_what_is_shown(mixer: Mixer, channel: ChannelName)
    requires
        faders_differ(mixer.profile),
        mic_fader_known(mixer.profile),
    ensures
        mixer.channel_state(channel) == ChannelState::Muted <==> lit_everywhere(
            mixer.profile,
            channel,
        ) || (channel == ChannelName::Mic && coughing(mixer.profile)),
{
    let profile = mixer.profile;
    assert(profile.faders.at(FaderName::A) != profile.faders.at(FaderName::B));
    assert(profile.faders.at(FaderName::A) != profile.faders.at(FaderName::C));
    assert(profile.faders.at(FaderName::A) != profile.faders.at(FaderName::D));
    assert(profile.faders.at(FaderName::B) != profile.faders.at(FaderName::C));
    assert(profile.faders.at(FaderName::B) != profile.faders.at(FaderName::D));
    assert(profile.faders.at(FaderName::C) != profile.faders.at(FaderName::D));
}

/// Once a profile was applied, the device plays exactly the channels that the buttons of the profile
/// do not show as muted everywhere, has every channel at its volume and every fader on its channel,
/// and has the route that each input is to take. What it knew before need not be told again. The
/// microphone monitor is at its full volume while the second mix is on. A cough button that acts only
/// while it is held starts unlit, and where it was left lit nothing is told of the microphone.
pub proof fn applied_profile_is_in_line(
    draft: Draft,
    current: Option<CurrentState>,
    links: SubMixMap<u8>,
    channel: ChannelName,
    fader: FaderName,
    input: InputDevice,
)
    requires
        draft.steps.len() == 0,
        faders_differ(draft.mixer.profile),
    ensures
        ({
            let after = draft.profile_applied(current, links);
            let lit_hold = !draft.mixer.profile.cough.is_toggle && draft.mixer.profile.cough.on;
            let muted = lit_everywhere(draft.mixer.profile, channel) || (channel == ChannelName::Mic
                && coughing(draft.mixer.profile));
            &&& after.mixer.profile.faders == draft.mixer.profile.faders
            &&& after.mixer.profile.mutes == draft.mixer.profile.mutes
            &&& mic_fader_known(after.mixer.profile)
            &&& !after.mixer.profile.cough.is_toggle ==> !after.mixer.profile.cough.on
            &&& !lit_hold ==> after.mixer.profile.cough == draft.mixer.profile.cough
            &&& match last_state(after.steps, channel) {
                Some(told) => (told == ChannelState::Muted <==> muted) && (told
                    == ChannelState::Unmuted <==> !muted) && (channel == ChannelName::Mic
                    ==> !lit_hold),
                None => if channel == ChannelName::Mic {
                    lit_hold
                } else {
                    current is Some && (current->0.mute_state.at(channel) == ChannelState::Muted
                        <==> muted)
                },
            }
            &&& match last_fader(after.steps, fader) {
                Some(told) => told == draft.mixer.profile.faders.at(fader),
                None => current is Some && current->0.faders.at(fader)
                    == draft.mixer.profile.faders.at(fader),
            }
            &&& last_volume(after.steps, channel) == Some(
                if channel == ChannelName::MicMonitor && draft.mixer.profile.submix.enabled
                    && after.mixer.supports_submixes() {
                    255u8
                } else {
                    draft.mixer.profile.volumes.at(channel)
                },
            )
            &&& last_route(after.steps, input) == Some(after.mixer.route(input))
        }),
{
    let after = draft.profile_applied(current, links);
    let profile = draft.mixer.profile;
    let loud = draft.levels_loaded(current);
    lemma_levels_loaded(draft, current, channel, fader);
    lemma_rest_loaded(loud, links, channel, fader, input);
    assert(after == loud.rest_loaded(links)) by {
        reveal(Draft::profile_applied);
    }
    assert(last_state(draft.steps, channel) is None);
    assert(last_fader(draft.steps, fader) is None);
}

} // verus!
