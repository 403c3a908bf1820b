//! The routes that inputs take to outputs.

use crate::device::state::{Device, Draft, Mixer};
use crate::plan::{HardTuneMark, Route, UsbCall};
use crate::types::{
    ChannelName, FaderName, InputDevice, MuteFunction, OutputDevice, OutputMap,
};
use vstd::prelude::*;

verus! {

/// The channel that carries an input.
pub open spec fn channel_of(input: InputDevice) -> ChannelName {
    match input {
        InputDevice::Microphone => ChannelName::Mic,
        InputDevice::Chat => ChannelName::Chat,
        InputDevice::Music => ChannelName::Music,
        InputDevice::Game => ChannelName::Game,
        InputDevice::Console => ChannelName::Console,
        InputDevice::LineIn => ChannelName::LineIn,
        InputDevice::System => ChannelName::System,
        InputDevice::Samples => ChannelName::Sample,
    }
}

/// The input that a channel carries, for the channels that carry one.
pub open spec fn input_of(channel: ChannelName) -> Option<InputDevice> {
    match channel {
        ChannelName::Mic => Some(InputDevice::Microphone),
        ChannelName::LineIn => Some(InputDevice::LineIn),
        ChannelName::Console => Some(InputDevice::Console),
        ChannelName::System => Some(InputDevice::System),
        ChannelName::Game => Some(InputDevice::Game),
        ChannelName::Chat => Some(InputDevice::Chat),
        ChannelName::Sample => Some(InputDevice::Samples),
        ChannelName::Music => Some(InputDevice::Music),
        _ => None,
    }
}

/// The output that a mute function silences, for those that silence one.
pub open spec fn silenced_output(function: MuteFunction) -> Option<OutputDevice> {
    match function {
        MuteFunction::All => None,
        MuteFunction::ToStream => Some(OutputDevice::BroadcastMix),
        MuteFunction::ToVoiceChat => Some(OutputDevice::ChatMic),
        MuteFunction::ToPhones => Some(OutputDevice::Headphones),
        MuteFunction::ToLineOut => Some(OutputDevice::LineOut),
    }
}

/// Whether a button that is on, or blinks, keeps a channel from an output. A channel that is muted
/// everywhere is silenced by its state and keeps its routes, except for the microphone.
pub open spec fn button_blocks(
    channel: ChannelName,
    on: bool,
    blink: bool,
    function: MuteFunction,
    output: OutputDevice,
) -> bool {
    if blink || (on && function == MuteFunction::All) {
        channel == ChannelName::Mic
    } else {
        on && silenced_output(function) == Some(output)
    }
}

impl Mixer {
    /// Whether the mute button of a fader keeps `channel` from `output`.
    pub open spec fn fader_blocks(
        self,
        fader: FaderName,
        channel: ChannelName,
        output: OutputDevice,
    ) -> bool {
        let button = self.profile.mutes.at(fader);
        self.profile.faders.at(fader) == channel && button_blocks(
            channel,
            button.on,
            button.blink,
            button.function,
            output,
        )
    }

    /// Whether a muted chat channel keeps the microphone from the chat.
    pub open spec fn chat_blocks(self, output: OutputDevice) -> bool {
        self.vc_mute_also_mute_cm && output == OutputDevice::ChatMic && exists|fader: FaderName|
            self.profile.faders.at(fader) == ChannelName::Chat && (
            #[trigger] self.profile.mutes.at(fader)).silences()
    }

    /// Whether something that is muted keeps `input` from `output`.
    pub open spec fn blocked(self, input: InputDevice, output: OutputDevice) -> bool {
        let channel = channel_of(input);
        let cough = self.profile.cough;
        ||| exists|fader: FaderName| #[trigger] self.fader_blocks(fader, channel, output)
        ||| input == InputDevice::Microphone && (self.chat_blocks(output) || button_blocks(
            channel,
            cough.on,
            cough.blink,
            cough.function,
            output,
        ))
    }

    /// Whether `input` is meant to reach `output`: the router says so, or the microphone is heard
    /// because effects are on.
    pub open spec fn wanted(self, input: InputDevice, output: OutputDevice) -> bool {
        self.profile.routed(input, output) || (input == InputDevice::Microphone && output
            == OutputDevice::Headphones && self.monitor_with_fx && self.profile.effects.fx_on)
    }

    /// Whether `input` reaches `output`, before the headphones follow the monitored mix.
    pub open spec fn passes(self, input: InputDevice, output: OutputDevice) -> bool {
        self.wanted(input, output) && !self.blocked(input, output)
    }

    /// Whether `input` reaches `output`. The headphones get what the monitored output gets.
    pub open spec fn reaches(self, input: InputDevice, output: OutputDevice) -> bool {
        if output == OutputDevice::Headphones {
            self.passes(input, self.profile.monitor)
        } else {
            self.passes(input, output)
        }
    }

    /// The mark that hard tune leaves on an input.
    pub open spec fn hardtune_mark(self, input: InputDevice) -> HardTuneMark {
        if self.profile.hardtune_follows_all() {
            match input {
                InputDevice::Music | InputDevice::Game | InputDevice::LineIn
                | InputDevice::System => HardTuneMark::Light,
                _ => HardTuneMark::Unmarked,
            }
        } else if input == self.profile.hardtune_input() {
            HardTuneMark::Hard
        } else {
            HardTuneMark::Unmarked
        }
    }

    /// The route of an input.
    #[verifier::opaque]
    pub open spec fn route(self, input: InputDevice) -> Route {
        Route {
            outputs: OutputMap {
                headphones: self.reaches(input, OutputDevice::Headphones),
                broadcast_mix: self.reaches(input, OutputDevice::BroadcastMix),
                line_out: self.reaches(input, OutputDevice::LineOut),
                chat_mic: self.reaches(input, OutputDevice::ChatMic),
                sampler: self.reaches(input, OutputDevice::Sampler),
            },
            hardtune: self.hardtune_mark(input),
        }
    }
}

impl Draft {
    /// The draft in which the route of an input is sent.
    #[verifier::opaque]
    pub open spec fn route(self, input: InputDevice) -> Draft {
        self.usb(UsbCall::SetRoute(input, self.mixer.route(input)))
    }

    /// The draft in which the route of the input that a channel carries is sent, if it carries one
    /// and `condition` holds.
    #[verifier::opaque]
    pub open spec fn route_channel_if(self, condition: bool, channel: ChannelName) -> Draft {
        match input_of(channel) {
            Some(input) => self.route_if(condition, input),
            None => self,
        }
    }

    /// The draft in which the route of an input is sent where `condition` holds.
    #[verifier::opaque]
    pub open spec fn route_if(self, condition: bool, input: InputDevice) -> Draft {
        if condition {
            self.route(input)
        } else {
            self
        }
    }
}

impl Mixer {
    /// Takes the routes away that a button keeps a channel from.
    fn apply_transient_channel_routing(
        channel: ChannelName,
        muted_to_x: bool,
        muted_to_all: bool,
        function: MuteFunction,
        router: &mut OutputMap<bool>,
    )
        ensures
            forall|output: OutputDevice| #[trigger]
                final(router).at(output) == (old(router).at(output) && !button_blocks(
                    channel,
                    muted_to_x,
                    muted_to_all,
                    function,
                    output,
                )),
    {
        if !muted_to_x || muted_to_all || function == MuteFunction::All {
            if channel == ChannelName::Mic && (muted_to_all || (muted_to_x && function
                == MuteFunction::All)) {
                *router = OutputMap::fill(false);
            }
            return ;
        }
        match function {
            MuteFunction::All => {},
            MuteFunction::ToStream => router.broadcast_mix = false,
            MuteFunction::ToVoiceChat => router.chat_mic = false,
            MuteFunction::ToPhones => router.headphones = false,
            MuteFunction::ToLineOut => router.line_out = false,
        }
    }

    /// Takes the routes away that the mute button of a fader keeps a channel from.
    fn apply_transient_fader_routing(
        &self,
        channel: ChannelName,
        fader: FaderName,
        router: &mut OutputMap<bool>,
    )
        ensures
            forall|output: OutputDevice| #[trigger]
                final(router).at(output) == (old(router).at(output) && !self.fader_blocks(
                    fader,
                    channel,
                    output,
                )),
    {
        if self.profile.get_fader_assignment(fader) == channel {
            let (muted_to_x, muted_to_all, function) = self.profile.get_mute_button_state(fader);
            Mixer::apply_transient_channel_routing(
                channel,
                muted_to_x,
                muted_to_all,
                function,
                router,
            );
        }
    }

    /// Whether a fader carries the chat and silences it everywhere.
    fn fader_silences_chat(&self, fader: FaderName) -> (silences: bool)
        ensures
            silences == (self.profile.faders.at(fader) == ChannelName::Chat
                && self.profile.mutes.at(fader).silences()),
    {
        let (muted_to_x, muted_to_all, function) = self.profile.get_mute_button_state(fader);
        self.profile.get_fader_assignment(fader) == ChannelName::Chat && (muted_to_all || (
        muted_to_x && function == MuteFunction::All))
    }

    /// Takes the route of the microphone to the chat away while the chat is muted.
    fn apply_transient_chat_mic_mute(&self, router: &mut OutputMap<bool>)
        ensures
            forall|output: OutputDevice| #[trigger]
                final(router).at(output) == (old(router).at(output) && !self.chat_blocks(output)),
    {
        let silenced = self.fader_silences_chat(FaderName::A) || self.fader_silences_chat(
            FaderName::B,
        ) || self.fader_silences_chat(FaderName::C) || self.fader_silences_chat(FaderName::D);
        if silenced && self.vc_mute_also_mute_cm {
            router.chat_mic = false;
        }
    }

    /// Takes the routes away that something muted keeps an input from.
    fn apply_transient_routing(&self, input: InputDevice, router: &mut OutputMap<bool>)
        ensures
            forall|output: OutputDevice| #[trigger]
                final(router).at(output) == (old(router).at(output) && !self.blocked(input, output)),
    {
        let channel = match input {
            InputDevice::Microphone => ChannelName::Mic,
            InputDevice::Chat => ChannelName::Chat,
            InputDevice::Music => ChannelName::Music,
            InputDevice::Game => ChannelName::Game,
            InputDevice::Console => ChannelName::Console,
            InputDevice::LineIn => ChannelName::LineIn,
            InputDevice::System => ChannelName::System,
            InputDevice::Samples => ChannelName::Sample,
        };
        let ghost before = *router;
        self.apply_transient_fader_routing(channel, FaderName::A, router);
        let ghost first = *router;
        self.apply_transient_fader_routing(channel, FaderName::B, router);
        let ghost second = *router;
        self.apply_transient_fader_routing(channel, FaderName::C, router);
        let ghost third = *router;
        self.apply_transient_fader_routing(channel, FaderName::D, router);
        let ghost faders = *router;
        proof {
            assert forall|output: OutputDevice| #[trigger]
                faders.at(output) == (before.at(output) && !exists|fader: FaderName| #[trigger]
                    self.fader_blocks(fader, channel, output)) by {
                assert(third.at(output) == (second.at(output) && !self.fader_blocks(
                    FaderName::C,
                    channel,
                    output,
                )));
                assert(second.at(output) == (first.at(output) && !self.fader_blocks(
                    FaderName::B,
                    channel,
                    output,
                )));
                assert(first.at(output) == (before.at(output) && !self.fader_blocks(
                    FaderName::A,
                    channel,
                    output,
                )));
                if exists|fader: FaderName| #[trigger] self.fader_blocks(fader, channel, output) {
                    let fader = choose|fader: FaderName| #[trigger]
                        self.fader_blocks(fader, channel, output);
                    assert(fader == FaderName::A || fader == FaderName::B || fader == FaderName::C
                        || fader == FaderName::D);
                }
            }
        }
        if channel == ChannelName::Mic {
            self.apply_transient_chat_mic_mute(router);
            let ghost chat = *router;
            let (_mute_toggle, muted_to_x, muted_to_all, function) =
                self.profile.get_mute_chat_button_state();
            Mixer::apply_transient_channel_routing(
                ChannelName::Mic,
                muted_to_x,
                muted_to_all,
                function,
                router,
            );
            proof {
                assert forall|output: OutputDevice| #[trigger]
                    router.at(output) == (before.at(output) && !self.blocked(input, output)) by {
                    assert(chat.at(output) == (faders.at(output) && !self.chat_blocks(output)));
                }
            }
        }
    }

    /// Finds the mark that hard tune leaves on an input.
    fn get_hardtune_mark(&self, input: InputDevice) -> (mark: HardTuneMark)
        ensures
            mark == self.hardtune_mark(input),
    {
        if self.profile.is_active_hardtune_source_all() {
            match input {
                InputDevice::Music | InputDevice::Game | InputDevice::LineIn
                | InputDevice::System => HardTuneMark::Light,
                _ => HardTuneMark::Unmarked,
            }
        } else if input == self.profile.get_active_hardtune_source() {
            HardTuneMark::Hard
        } else {
            HardTuneMark::Unmarked
        }
    }

    /// Finds the route of an input.
    pub fn get_route(&self, input: InputDevice) -> (route: Route)
        ensures
            route == self.route(input),
    {
        reveal(Mixer::route);
        let mut router = self.profile.get_router(input);
        if input == InputDevice::Microphone && self.monitor_with_fx
            && self.profile.is_fx_enabled() {
            router.headphones = true;
        }
        let ghost wanted = router;
        assert(forall|output: OutputDevice| #[trigger]
            wanted.at(output) == self.wanted(input, output));
        self.apply_transient_routing(input, &mut router);
        let ghost passed = router;
        assert forall|output: OutputDevice| #[trigger]
            passed.at(output) == self.passes(input, output) by {
            assert(wanted.at(output) == self.wanted(input, output));
        }
        let monitor = self.profile.monitor;
        if monitor != OutputDevice::Headphones {
            router.headphones = *router.get(monitor);
        }
        proof {
            assert(passed.at(monitor) == self.passes(input, monitor));
            assert(passed.headphones == passed.at(OutputDevice::Headphones));
            assert(passed.broadcast_mix == passed.at(OutputDevice::BroadcastMix));
            assert(passed.line_out == passed.at(OutputDevice::LineOut));
            assert(passed.chat_mic == passed.at(OutputDevice::ChatMic));
            assert(passed.sampler == passed.at(OutputDevice::Sampler));
        }
        Route { outputs: router, hardtune: self.get_hardtune_mark(input) }
    }
}

impl Device {
    /// Sends the route of an input.
    pub fn apply_routing(&mut self, input: InputDevice)
        ensures
            final(self)@ == old(self)@.route(input),
            old(self)@.consistent() ==> final(self)@.consistent(),
    {
        reveal(Draft::route);
        let route = self.mixer().get_route(input);
        self.usb(UsbCall::SetRoute(input, route));
    }

    /// Sends the route of an input where `condition` holds.
    pub fn apply_routing_if(&mut self, condition: bool, input: InputDevice)
        ensures
            final(self)@ == old(self)@.route_if(condition, input),
            old(self)@.consistent() ==> final(self)@.consistent(),
    {
        reveal(Draft::route_if);
        if condition {
            self.apply_routing(input);
        }
    }

    /// Sends the route of the input that a channel carries, if it carries one, where `condition`
    /// holds.
    pub fn apply_channel_routing_if(&mut self, condition: bool, channel: ChannelName)
        ensures
            final(self)@ == old(self)@.route_channel_if(condition, channel),
            old(self)@.consistent() ==> final(self)@.consistent(),
    {
        reveal(Draft::route_channel_if);
        if let Some(input) = Device::get_basic_input_from_channel(channel) {
            self.apply_routing_if(condition, input);
        }
    }

    /// Finds the input that a channel carries.
    pub fn get_basic_input_from_channel(channel: ChannelName) -> (input: Option<InputDevice>)
        ensures
            input == input_of(channel),
    {
        match channel {
            ChannelName::Mic => Some(InputDevice::Microphone),
            ChannelName::LineIn => Some(InputDevice::LineIn),
            ChannelName::Console => Some(InputDevice::Console),
            ChannelName::System => Some(InputDevice::System),
            ChannelName::Game => Some(InputDevice::Game),
            ChannelName::Chat => Some(InputDevice::Chat),
            ChannelName::Sample => Some(InputDevice::Samples),
            ChannelName::Music => Some(InputDevice::Music),
            _ => None,
        }
    }
}

} // verus!
