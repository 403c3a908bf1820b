//! Bringing the hardware in line with a profile.

use crate::device::state::{Device, Draft};
use crate::keys::EffectGroup;
use crate::plan::{Change, CoughChange, MixerChange, UsbCall};
use crate::types::{
    AnimationMode, ChannelMap, ChannelName, ChannelState, DeviceType, FaderMap, FaderName,
    InputDevice, SubMixMap,
};
use vstd::prelude::*;

verus! {

/// What the hardware was told of the profile before.
#[derive(Clone, Copy, Debug, PartialEq, Eq)]
pub struct CurrentState {
    pub faders: FaderMap<ChannelName>,
    pub mute_state: ChannelMap<ChannelState>,
    pub volumes: ChannelMap<u8>,
}

/// `channel` alone where `condition` holds, and nothing where it does not.
pub open spec fn when(condition: bool, channel: ChannelName) -> Seq<ChannelName> {
    if condition {
        seq![channel]
    } else {
        Seq::empty()
    }
}

/// Every channel but the headphones and the line out.
pub open spec fn inner_channels() -> Seq<ChannelName> {
    seq![
        ChannelName::Mic,
        ChannelName::LineIn,
        ChannelName::Console,
        ChannelName::System,
        ChannelName::Game,
        ChannelName::Chat,
        ChannelName::Sample,
        ChannelName::Music,
        ChannelName::MicMonitor,
    ]
}

/// The order in which volumes are set. The headphones and the line out go first if they become
/// quieter, and last if they do not, so that nothing is louder on the way than it was or will be.
pub open spec fn volume_order(
    target: ChannelMap<u8>,
    current: Option<ChannelMap<u8>>,
) -> Seq<ChannelName> {
    match current {
        None => ChannelName::order(),
        Some(current) => {
            let headphones = current.headphones > target.headphones;
            let line_out = current.line_out > target.line_out;
            when(headphones, ChannelName::Headphones) + when(line_out, ChannelName::LineOut)
                + inner_channels() + when(!headphones, ChannelName::Headphones) + when(
                !line_out,
                ChannelName::LineOut,
            )
        },
    }
}

/// Finds the order in which volumes are set.
pub fn get_load_volume_order(target: &ChannelMap<u8>, current: Option<ChannelMap<u8>>) -> (order:
    Vec<ChannelName>)
    ensures
        order@ == volume_order(*target, current),
{
    let mut order: Vec<ChannelName> = Vec::new();
    if let Some(volumes) = current {
        if volumes.headphones > target.headphones {
            order.push(ChannelName::Headphones);
        }
        if volumes.line_out > target.line_out {
            order.push(ChannelName::LineOut);
        }
        let ghost first = order@;
        order.push(ChannelName::Mic);
        order.push(ChannelName::LineIn);
        order.push(ChannelName::Console);
        order.push(ChannelName::System);
        order.push(ChannelName::Game);
        order.push(ChannelName::Chat);
        order.push(ChannelName::Sample);
        order.push(ChannelName::Music);
        order.push(ChannelName::MicMonitor);
        assert(order@ =~= first + inner_channels());
        if volumes.headphones <= target.headphones {
            order.push(ChannelName::Headphones);
        }
        if volumes.line_out <= target.line_out {
            order.push(ChannelName::LineOut);
        }
        assert(order@ =~= volume_order(*target, current));
        return order;
    }
    ChannelName::all()
}

/// The order holds every channel exactly once, whatever the volumes are.
pub proof fn volume_order_complete(target: ChannelMap<u8>, current: Option<ChannelMap<u8>>)
    ensures
        volume_order(target, current).len() == 11,
        volume_order(target, current).no_duplicates(),
        forall|channel: ChannelName| #[trigger] volume_order(target, current).contains(channel),
{
    let order = volume_order(target, current);
    assert forall|channel: ChannelName| #[trigger] order.contains(channel) by {
        match current {
            None => {
                assert(order[channel.index()] == channel);
            },
            Some(volumes) => {
                let headphones = volumes.headphones > target.headphones;
                let line_out = volumes.line_out > target.line_out;
                let lead: int = (if headphones { 1int } else { 0int }) + (if line_out {
                    1int
                } else {
                    0int
                });
                let place: int = match channel {
                    ChannelName::Headphones => if headphones { 0 } else { lead + 9 },
                    ChannelName::LineOut => if line_out { lead - 1 } else { 10 },
                    ChannelName::MicMonitor => lead + 8,
                    _ => lead + channel.index(),
                };
                assert(order[place] == channel);
            },
        }
    }
}

/// Headphones that become quieter are set before every channel that could become louder, and
/// headphones that become louder are set after each of those.
pub proof fn volume_order_protects_ears(target: ChannelMap<u8>, current: ChannelMap<u8>, i: int, j: int)
    requires
        0 <= i < volume_order(target, Some(current)).len(),
        0 <= j < volume_order(target, Some(current)).len(),
        volume_order(target, Some(current))[i] == ChannelName::Headphones,
        inner_channels().contains(volume_order(target, Some(current))[j]),
    ensures
        current.headphones > target.headphones ==> i < j,
        current.headphones <= target.headphones ==> j < i,
{
    assert(inner_channels().contains(volume_order(target, Some(current))[j]));
    let k = choose|k: int| 0 <= k < 9 && inner_channels()[k] == volume_order(target, Some(current))[j];
    assert(inner_channels()[k] != ChannelName::Headphones && inner_channels()[k]
        != ChannelName::LineOut);
}

impl Draft {
    /// A fader is told of its channel unless it knows it, and the fader of the microphone is kept.
    #[verifier::opaque]
    pub open spec fn fader_loaded(self, fader: FaderName, known: Option<ChannelName>) -> Draft {
        let channel = self.mixer.profile.faders.at(fader);
        self.usb_if(known != Some(channel), UsbCall::SetFader(fader, channel)).set_if(
            channel == ChannelName::Mic,
            Change::Mixer(MixerChange::MicFader(fader)),
        )
    }

    /// Every fader is told of its channel.
    #[verifier::opaque]
    pub open spec fn faders_loaded(self, current: Option<CurrentState>) -> Draft {
        let faders = self.mixer.profile.faders;
        self.fader_loaded(FaderName::A, known_channel(current, FaderName::A))
            .fader_loaded(FaderName::B, known_channel(current, FaderName::B))
            .fader_loaded(FaderName::C, known_channel(current, FaderName::C))
            .fader_loaded(FaderName::D, known_channel(current, FaderName::D))
            .set_if(
            faders.a != ChannelName::Mic && faders.b != ChannelName::Mic && faders.c
                != ChannelName::Mic && faders.d != ChannelName::Mic,
            Change::Mixer(MixerChange::NoMicFader),
        )
    }

    /// The state of the channel on a fader is sent unless the device knows it.
    #[verifier::opaque]
    pub open spec fn mute_applied(self, fader: FaderName, known: Option<ChannelState>) -> Draft {
        let state = if self.mixer.profile.mutes.at(fader).silences() {
            ChannelState::Muted
        } else {
            ChannelState::Unmuted
        };
        self.usb_if(
            known != Some(state),
            UsbCall::SetChannelState(self.mixer.profile.faders.at(fader), state),
        )
    }

    /// The state of the microphone is sent. A cough button that acts only while it is held starts
    /// unlit.
    #[verifier::opaque]
    pub open spec fn cough_applied(self) -> Draft {
        let cough = self.mixer.profile.cough;
        if !cough.is_toggle && cough.on {
            self.set(Change::Cough(CoughChange::On(false))).set(
                Change::Cough(CoughChange::Blink(false)),
            )
        } else {
            self.usb(
                UsbCall::SetChannelState(
                    ChannelName::Mic,
                    if cough.silences() || self.mixer.profile.mic_silenced_by_fader() {
                        ChannelState::Muted
                    } else {
                        ChannelState::Unmuted
                    },
                ),
            )
        }
    }

    /// The state of a channel is sent unless the device knows it. A channel on no fader is let
    /// through.
    #[verifier::opaque]
    pub open spec fn channel_loaded(
        self,
        channel: ChannelName,
        known: Option<ChannelState>,
    ) -> Draft {
        if channel == ChannelName::Mic {
            self.cough_applied()
        } else {
            match self.mixer.profile.fader_with(channel) {
                Some(fader) => self.mute_applied(fader, known),
                None => self.usb_if(
                    known != Some(ChannelState::Unmuted),
                    UsbCall::SetChannelState(channel, ChannelState::Unmuted),
                ),
            }
        }
    }

    /// The state of each of these channels is sent.
    pub open spec fn channels_loaded(
        self,
        channels: Seq<ChannelName>,
        current: Option<CurrentState>,
    ) -> Draft
        decreases channels.len(),
    {
        if channels.len() == 0 {
            self
        } else {
            self.channels_loaded(channels.drop_last(), current).channel_loaded(
                channels.last(),
                known_state(current, channels.last()),
            )
        }
    }

    /// The volume of each of these channels is sent.
    pub open spec fn volumes_sent(self, channels: Seq<ChannelName>) -> Draft
        decreases channels.len(),
    {
        if channels.len() == 0 {
            self
        } else {
            self.volumes_sent(channels.drop_last()).send_volume_if(true, channels.last())
        }
    }

    /// The animation of the lights is sent. The animations that show the colours of the profile
    /// need the colours as well, unless they were just sent.
    #[verifier::opaque]
    pub open spec fn animation_loaded(self, map_set: bool) -> Draft {
        let animation = self.mixer.profile.animation;
        self.usb(
            UsbCall::SetAnimation {
                enabled: animation.mode != AnimationMode::NoAnimation,
                mode: animation.mode,
                mod1: animation.mod1,
                mod2: animation.mod2,
                waterfall: animation.waterfall,
            },
        ).usb_if(
            !map_set && (animation.mode == AnimationMode::NoAnimation || animation.mode
                == AnimationMode::Ripple || animation.mode == AnimationMode::Simple),
            UsbCall::SendColourMap,
        )
    }

    /// How each fader shows its level is sent.
    #[verifier::opaque]
    pub open spec fn displays_sent(self) -> Draft {
        self.usb(UsbCall::SendFaderDisplay(FaderName::A))
            .usb(UsbCall::SendFaderDisplay(FaderName::B))
            .usb(UsbCall::SendFaderDisplay(FaderName::C))
            .usb(UsbCall::SendFaderDisplay(FaderName::D))
    }

    /// The screens over the faders are sent to a device that has them.
    #[verifier::opaque]
    pub open spec fn scribbles_sent(self) -> Draft {
        let full = self.mixer.device_type == DeviceType::Full;
        self.usb_if(full, UsbCall::SendScribble(FaderName::A))
            .usb_if(full, UsbCall::SendScribble(FaderName::B))
            .usb_if(full, UsbCall::SendScribble(FaderName::C))
            .usb_if(full, UsbCall::SendScribble(FaderName::D))
    }

    /// The route of every input is sent.
    #[verifier::opaque]
    pub open spec fn all_routed(self) -> Draft {
        self.route(InputDevice::Microphone)
            .route(InputDevice::Chat)
            .route(InputDevice::Music)
            .route(InputDevice::Game)
            .route(InputDevice::Console)
            .route(InputDevice::LineIn)
            .route(InputDevice::System)
            .route(InputDevice::Samples)
    }

    /// The lights and screens are brought in line with the profile.
    #[verifier::opaque]
    pub open spec fn lights_loaded(self) -> Draft {
        let coloured = self.usb(UsbCall::SendColourMap);
        let animated = if self.mixer.supports_animations() {
            coloured.animation_loaded(true)
        } else {
            coloured
        };
        animated.displays_sent().scribbles_sent().usb(UsbCall::SendButtonStates)
    }

    /// The hardware is brought in line with the profile.
    #[verifier::opaque]
    pub open spec fn profile_applied(
        self,
        current: Option<CurrentState>,
        links: SubMixMap<u8>,
    ) -> Draft {
        let muted = self.faders_loaded(current).channels_loaded(ChannelName::order(), current);
        muted.volumes_sent(
            volume_order(
                muted.mixer.profile.volumes,
                match current {
                    Some(state) => Some(state.volumes),
                    None => None,
                },
            ),
        )
            .submix_loaded(true, links)
            .lights_loaded()
            .all_routed()
            .voice_fx_applied()
            .sampler_validated()
    }

    /// The microphone is brought in line with its profile.
    #[verifier::opaque]
    pub open spec fn mic_profile_applied(self) -> Draft {
        self.usb(UsbCall::SendMicGain)
            .usb(UsbCall::SendAllMicParams)
            .effects(EffectGroup::Common)
    }
}

/// The channel that a fader carries as far as the device knows.
pub open spec fn known_channel(current: Option<CurrentState>, fader: FaderName) -> Option<
    ChannelName,
> {
    match current {
        Some(state) => Some(state.faders.at(fader)),
        None => None,
    }
}

/// The state of a channel as far as the device knows.
pub open spec fn known_state(current: Option<CurrentState>, channel: ChannelName) -> Option<
    ChannelState,
> {
    match current {
        Some(state) => Some(state.mute_state.at(channel)),
        None => None,
    }
}

/// Whether the device has to be told that a channel is in a state.
fn differs(known: Option<ChannelState>, state: ChannelState) -> (differs: bool)
    ensures
        differs == (known != Some(state)),
{
    match known {
        Some(known) => known != state,
        None => true,
    }
}

impl Device {
    /// Tells a fader of its channel unless it knows it.
    fn load_fader(&mut self, fader: FaderName, current: &Option<CurrentState>)
        ensures
            final(self)@ == old(self)@.fader_loaded(fader, known_channel(*current, fader)),
            old(self)@.consistent() ==> final(self)@.consistent(),
    {
        reveal(Draft::fader_loaded);
        let channel = self.mixer().profile.get_fader_assignment(fader);
        let tell = match current {
            Some(state) => *state.faders.get(fader) != channel,
            None => true,
        };
        self.usb_if(tell, UsbCall::SetFader(fader, channel));
        self.set_if(channel == ChannelName::Mic, Change::Mixer(MixerChange::MicFader(fader)));
    }

    /// Tells every fader of its channel.
    fn load_faders(&mut self, current: &Option<CurrentState>)
        ensures
            final(self)@ == old(self)@.faders_loaded(*current),
            old(self)@.consistent() ==> final(self)@.consistent(),
    {
        reveal(Draft::faders_loaded);
        let faders = self.mixer().profile.faders;
        self.load_fader(FaderName::A, current);
        self.load_fader(FaderName::B, current);
        self.load_fader(FaderName::C, current);
        self.load_fader(FaderName::D, current);
        self.set_if(
            faders.a != ChannelName::Mic && faders.b != ChannelName::Mic && faders.c
                != ChannelName::Mic && faders.d != ChannelName::Mic,
            Change::Mixer(MixerChange::NoMicFader),
        );
    }

    /// Sends the state of the channel on a fader unless the device knows it.
    pub fn apply_mute_from_profile(&mut self, fader: FaderName, current: Option<ChannelState>)
        ensures
            final(self)@ == old(self)@.mute_applied(fader, current),
            old(self)@.consistent() ==> final(self)@.consistent(),
    {
        reveal(Draft::mute_applied);
        let channel = self.mixer().profile.get_fader_assignment(fader);
        let state = self.mixer().profile.get_fader_mute_state(fader);
        self.usb_if(differs(current, state), UsbCall::SetChannelState(channel, state));
    }

    /// Sends the state of the microphone.
    pub fn apply_cough_from_profile(&mut self)
        ensures
            final(self)@ == old(self)@.cough_applied(),
            old(self)@.consistent() ==> final(self)@.consistent(),
    {
        reveal(Draft::cough_applied);
        let (toggle, muted_to_x, _muted_to_all, _function) =
            self.mixer().profile.get_mute_chat_button_state();
        if !toggle && muted_to_x {
            self.set(Change::Cough(CoughChange::On(false)));
            self.set(Change::Cough(CoughChange::Blink(false)));
            return ;
        }
        let state = if self.mixer().mic_muted_by_cough() || self.mixer().mic_muted_by_fader() {
            ChannelState::Muted
        } else {
            ChannelState::Unmuted
        };
        self.usb(UsbCall::SetChannelState(ChannelName::Mic, state));
    }

    /// Sends the state of a channel unless the device knows it.
    fn load_channel(&mut self, channel: ChannelName, known: Option<ChannelState>)
        ensures
            final(self)@ == old(self)@.channel_loaded(channel, known),
            old(self)@.consistent() ==> final(self)@.consistent(),
    {
        reveal(Draft::channel_loaded);
        if channel == ChannelName::Mic {
            self.apply_cough_from_profile();
        } else if let Some(fader) = self.mixer().profile.get_fader_from_channel(channel) {
            self.apply_mute_from_profile(fader, known);
        } else {
            self.usb_if(
                differs(known, ChannelState::Unmuted),
                UsbCall::SetChannelState(channel, ChannelState::Unmuted),
            );
        }
    }

    /// Sends the state of every channel.
    fn load_channels(&mut self, current: &Option<CurrentState>)
        ensures
            final(self)@ == old(self)@.channels_loaded(ChannelName::order(), *current),
            old(self)@.consistent() ==> final(self)@.consistent(),
    {
        reveal(Draft::channels_loaded);
        let channels: Vec<ChannelName> = ChannelName::all();
        let mut i: usize = 0;
        proof {
            reveal_with_fuel(Draft::channels_loaded, 2);
            assert(channels@.take(0) =~= Seq::<ChannelName>::empty());
        }
        while i < channels.len()
            invariant
                i <= channels.len(),
                channels@ == ChannelName::order(),
                self@ == old(self)@.channels_loaded(channels@.take(i as int), *current),
                old(self)@.consistent() ==> self@.consistent(),
            decreases channels.len() - i,
        {
            let channel = channels[i];
            let known = match current {
                Some(state) => Some(*state.mute_state.get(channel)),
                None => None,
            };
            self.load_channel(channel, known);
            proof {
                reveal_with_fuel(Draft::channels_loaded, 2);
                assert(channels@.take(i + 1).drop_last() =~= channels@.take(i as int));
                assert(channels@.take(i + 1).last() == channel);
            }
            i = i + 1;
        }
        assert(channels@.take(i as int) =~= channels@);
    }

    /// Sends the volume of each of these channels.
    fn send_volumes(&mut self, channels: &Vec<ChannelName>)
        ensures
            final(self)@ == old(self)@.volumes_sent(channels@),
            old(self)@.consistent() ==> final(self)@.consistent(),
    {
        reveal(Draft::volumes_sent);
        let mut i: usize = 0;
        proof {
            reveal_with_fuel(Draft::volumes_sent, 2);
            assert(channels@.take(0) =~= Seq::<ChannelName>::empty());
        }
        while i < channels.len()
            invariant
                i <= channels.len(),
                self@ == old(self)@.volumes_sent(channels@.take(i as int)),
                old(self)@.consistent() ==> self@.consistent(),
            decreases channels.len() - i,
        {
            self.send_volume_if(true, channels[i]);
            proof {
                reveal_with_fuel(Draft::volumes_sent, 2);
                assert(channels@.take(i + 1).drop_last() =~= channels@.take(i as int));
                assert(channels@.take(i + 1).last() == channels@[i as int]);
            }
            i = i + 1;
        }
        assert(channels@.take(i as int) =~= channels@);
    }

    /// Sends the animation of the lights.
    pub fn load_animation(&mut self, map_set: bool)
        ensures
            final(self)@ == old(self)@.animation_loaded(map_set),
            old(self)@.consistent() ==> final(self)@.consistent(),
    {
        reveal(Draft::animation_loaded);
        let animation = self.mixer().profile.animation;
        self.usb(
            UsbCall::SetAnimation {
                enabled: animation.mode != AnimationMode::NoAnimation,
                mode: animation.mode,
                mod1: animation.mod1,
                mod2: animation.mod2,
                waterfall: animation.waterfall,
            },
        );
        self.usb_if(
            !map_set && (animation.mode == AnimationMode::NoAnimation || animation.mode
                == AnimationMode::Ripple || animation.mode == AnimationMode::Simple),
            UsbCall::SendColourMap,
        );
    }

    /// Sends how each fader shows its level.
    pub fn set_all_fader_display_from_profile(&mut self)
        ensures
            final(self)@ == old(self)@.displays_sent(),
            old(self)@.consistent() ==> final(self)@.consistent(),
    {
        reveal(Draft::displays_sent);
        self.usb(UsbCall::SendFaderDisplay(FaderName::A));
        self.usb(UsbCall::SendFaderDisplay(FaderName::B));
        self.usb(UsbCall::SendFaderDisplay(FaderName::C));
        self.usb(UsbCall::SendFaderDisplay(FaderName::D));
    }

    /// Sends the screens over the faders.
    fn send_scribbles(&mut self)
        ensures
            final(self)@ == old(self)@.scribbles_sent(),
            old(self)@.consistent() ==> final(self)@.consistent(),
    {
        reveal(Draft::scribbles_sent);
        let full = self.mixer().device_type == DeviceType::Full;
        self.usb_if(full, UsbCall::SendScribble(FaderName::A));
        self.usb_if(full, UsbCall::SendScribble(FaderName::B));
        self.usb_if(full, UsbCall::SendScribble(FaderName::C));
        self.usb_if(full, UsbCall::SendScribble(FaderName::D));
    }

    /// Sends the route of every input.
    pub fn apply_all_routing(&mut self)
        ensures
            final(self)@ == old(self)@.all_routed(),
            old(self)@.consistent() ==> final(self)@.consistent(),
    {
        reveal(Draft::all_routed);
        self.apply_routing(InputDevice::Microphone);
        self.apply_routing(InputDevice::Chat);
        self.apply_routing(InputDevice::Music);
        self.apply_routing(InputDevice::Game);
        self.apply_routing(InputDevice::Console);
        self.apply_routing(InputDevice::LineIn);
        self.apply_routing(InputDevice::System);
        self.apply_routing(InputDevice::Samples);
    }

    /// Brings the lights and screens in line with the profile.
    fn load_lights(&mut self)
        ensures
            final(self)@ == old(self)@.lights_loaded(),
            old(self)@.consistent() ==> final(self)@.consistent(),
    {
        reveal(Draft::lights_loaded);
        let animates = self.mixer().device_supports_animations();
        self.usb(UsbCall::SendColourMap);
        if animates {
            self.load_animation(true);
        }
        self.set_all_fader_display_from_profile();
        self.send_scribbles();
        self.usb(UsbCall::SendButtonStates);
    }

    /// Brings the hardware in line with the profile.
    pub fn apply_profile(&mut self, current: Option<CurrentState>, links: &SubMixMap<u8>)
        ensures
            final(self)@ == old(self)@.profile_applied(current, *links),
            old(self)@.consistent() ==> final(self)@.consistent(),
    {
        reveal(Draft::profile_applied);
        self.load_faders(&current);
        self.load_channels(&current);
        let known = match current {
            Some(state) => Some(state.volumes),
            None => None,
        };
        let order = get_load_volume_order(&self.mixer().profile.volumes, known);
        self.send_volumes(&order);
        self.load_submix_settings(true, links);
        self.load_lights();
        self.apply_all_routing();
        self.apply_voice_fx();
        self.validate_sampler();
    }

    /// Brings the microphone in line with its profile.
    pub fn apply_mic_profile(&mut self)
        ensures
            final(self)@ == old(self)@.mic_profile_applied(),
            old(self)@.consistent() ==> final(self)@.consistent(),
    {
        reveal(Draft::mic_profile_applied);
        self.usb(UsbCall::SendMicGain);
        self.usb(UsbCall::SendAllMicParams);
        self.effects(EffectGroup::Common);
    }
}

} // verus!
