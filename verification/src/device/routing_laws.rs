//! Where an input is heard, in the words of the router and of the buttons.

use crate::device::state::Mixer;
use crate::plan::HardTuneMark;
use crate::types::{
    ChannelName, FaderName, HardTuneSource, InputDevice, MuteFunction, OutputDevice, OutputMap,
};
use vstd::prelude::*;

verus! {

/// Whether a channel carries an input.
pub open spec fn carries(channel: ChannelName, input: InputDevice) -> bool {
    ||| channel == ChannelName::Mic && input == InputDevice::Microphone
    ||| channel == ChannelName::Chat && input == InputDevice::Chat
    ||| channel == ChannelName::Music && input == InputDevice::Music
    ||| channel == ChannelName::Game && input == InputDevice::Game
    ||| channel == ChannelName::Console && input == InputDevice::Console
    ||| channel == ChannelName::LineIn && input == InputDevice::LineIn
    ||| channel == ChannelName::System && input == InputDevice::System
    ||| channel == ChannelName::Sample && input == InputDevice::Samples
}

/// The outputs that the router has for an input.
pub open spec fn row(mixer: Mixer, input: InputDevice) -> OutputMap<u16> {
    match input {
        InputDevice::Microphone => mixer.profile.router.microphone,
        InputDevice::Chat => mixer.profile.router.chat,
        InputDevice::Music => mixer.profile.router.music,
        InputDevice::Game => mixer.profile.router.game,
        InputDevice::Console => mixer.profile.router.console,
        InputDevice::LineIn => mixer.profile.router.line_in,
        InputDevice::System => mixer.profile.router.system,
        InputDevice::Samples => mixer.profile.router.samples,
    }
}

/// What the headphones get: what goes to the output that is monitored.
pub open spec fn monitored(mixer: Mixer, outputs: OutputMap<bool>) -> bool {
    match mixer.profile.monitor {
        OutputDevice::Headphones => outputs.headphones,
        OutputDevice::BroadcastMix => outputs.broadcast_mix,
        OutputDevice::LineOut => outputs.line_out,
        OutputDevice::ChatMic => outputs.chat_mic,
        OutputDevice::Sampler => outputs.sampler,
    }
}

/// Whether an input is heard at exactly these outputs, and in the headphones as at the output that is
/// monitored.
pub open spec fn heard_at(mixer: Mixer, input: InputDevice, outputs: OutputMap<bool>) -> bool {
    let route = mixer.route(input).outputs;
    &&& route.headphones == monitored(mixer, outputs)
    &&& route.broadcast_mix == outputs.broadcast_mix
    &&& route.line_out == outputs.line_out
    &&& route.chat_mic == outputs.chat_mic
    &&& route.sampler == outputs.sampler
}

/// The outputs that the router sends an input to.
pub open spec fn sent(mixer: Mixer, input: InputDevice) -> OutputMap<bool> {
    let levels = row(mixer, input);
    OutputMap {
        headphones: levels.headphones > 0,
        broadcast_mix: levels.broadcast_mix > 0,
        line_out: levels.line_out > 0,
        chat_mic: levels.chat_mic > 0,
        sampler: levels.sampler > 0,
    }
}

/// Whether a channel is on no other fader than this one.
pub open spec fn only_on(mixer: Mixer, fader: FaderName, channel: ChannelName) -> bool {
    &&& mixer.profile.faders.a == channel ==> fader == FaderName::A
    &&& mixer.profile.faders.b == channel ==> fader == FaderName::B
    &&& mixer.profile.faders.c == channel ==> fader == FaderName::C
    &&& mixer.profile.faders.d == channel ==> fader == FaderName::D
}

/// No fader but one blocks a channel that is on no other fader.
proof fn lemma_only_blocker(mixer: Mixer, fader: FaderName, input: InputDevice, channel: ChannelName)
    requires
        carries(channel, input),
        channel != ChannelName::Mic,
        only_on(mixer, fader, channel),
    ensures
        forall|output: OutputDevice| #[trigger]
            mixer.blocked(input, output) == mixer.fader_blocks(fader, channel, output),
{
    assert forall|output: OutputDevice| #[trigger]
        mixer.blocked(input, output) == mixer.fader_blocks(fader, channel, output) by {
        assert forall|other: FaderName| other != fader implies !#[trigger] mixer.fader_blocks(
            other,
            channel,
            output,
        ) by {}
    }
}

/// The route of an input, output by output.
proof fn lemma_route(mixer: Mixer, input: InputDevice)
    ensures
        mixer.route(input).outputs.headphones == mixer.passes(input, mixer.profile.monitor),
        mixer.route(input).outputs.broadcast_mix == mixer.passes(input, OutputDevice::BroadcastMix),
        mixer.route(input).outputs.line_out == mixer.passes(input, OutputDevice::LineOut),
        mixer.route(input).outputs.chat_mic == mixer.passes(input, OutputDevice::ChatMic),
        mixer.route(input).outputs.sampler == mixer.passes(input, OutputDevice::Sampler),
        mixer.route(input).hardtune == mixer.hardtune_mark(input),
{
    reveal(Mixer::route);
}

/// An input whose channel is on no fader with a lit button is heard where the router sends it.
pub proof fn unmuted_input_is_heard_as_routed(
    mixer: Mixer,
    fader: FaderName,
    input: InputDevice,
    channel: ChannelName,
)
    requires
        carries(channel, input),
        channel != ChannelName::Mic,
        only_on(mixer, fader, channel),
        mixer.profile.faders.at(fader) == channel ==> !mixer.profile.mutes.at(fader).on
            && !mixer.profile.mutes.at(fader).blink,
    ensures
        heard_at(mixer, input, sent(mixer, input)),
{
    lemma_only_blocker(mixer, fader, input, channel);
    lemma_route(mixer, input);
    assert forall|output: OutputDevice| !#[trigger] mixer.blocked(input, output) by {}
    lemma_passes(mixer, input);
}

/// What passes is what the router sends and nothing blocks.
proof fn lemma_passes(mixer: Mixer, input: InputDevice)
    requires
        input != InputDevice::Microphone,
    ensures
        mixer.passes(input, OutputDevice::Headphones) == (row(mixer, input).headphones > 0
            && !mixer.blocked(input, OutputDevice::Headphones)),
        mixer.passes(input, OutputDevice::BroadcastMix) == (row(mixer, input).broadcast_mix > 0
            && !mixer.blocked(input, OutputDevice::BroadcastMix)),
        mixer.passes(input, OutputDevice::LineOut) == (row(mixer, input).line_out > 0
            && !mixer.blocked(input, OutputDevice::LineOut)),
        mixer.passes(input, OutputDevice::ChatMic) == (row(mixer, input).chat_mic > 0
            && !mixer.blocked(input, OutputDevice::ChatMic)),
        mixer.passes(input, OutputDevice::Sampler) == (row(mixer, input).sampler > 0
            && !mixer.blocked(input, OutputDevice::Sampler)),
{
}

/// A channel whose button is lit for one output is kept from that output only: from the stream, from
/// the voice chat, from the headphones or from the line out, as the button says.
pub proof fn partial_mute_keeps_from_one_output(
    mixer: Mixer,
    fader: FaderName,
    input: InputDevice,
    channel: ChannelName,
)
    requires
        carries(channel, input),
        channel != ChannelName::Mic,
        only_on(mixer, fader, channel),
        mixer.profile.faders.at(fader) == channel,
        mixer.profile.mutes.at(fader).on,
        !mixer.profile.mutes.at(fader).blink,
    ensures
        mixer.profile.mutes.at(fader).function == MuteFunction::ToStream ==> heard_at(
            mixer,
            input,
            OutputMap { broadcast_mix: false, ..sent(mixer, input) },
        ),
        mixer.profile.mutes.at(fader).function == MuteFunction::ToVoiceChat ==> heard_at(
            mixer,
            input,
            OutputMap { chat_mic: false, ..sent(mixer, input) },
        ),
        mixer.profile.mutes.at(fader).function == MuteFunction::ToPhones ==> heard_at(
            mixer,
            input,
            OutputMap { headphones: false, ..sent(mixer, input) },
        ),
        mixer.profile.mutes.at(fader).function == MuteFunction::ToLineOut ==> heard_at(
            mixer,
            input,
            OutputMap { line_out: false, ..sent(mixer, input) },
        ),
        mixer.profile.mutes.at(fader).function == MuteFunction::All ==> heard_at(
            mixer,
            input,
            sent(mixer, input),
        ),
{
    lemma_only_blocker(mixer, fader, input, channel);
    lemma_route(mixer, input);
    lemma_passes(mixer, input);
    assert(mixer.blocked(input, OutputDevice::Headphones) == mixer.fader_blocks(
        fader,
        channel,
        OutputDevice::Headphones,
    ));
    assert(mixer.blocked(input, OutputDevice::BroadcastMix) == mixer.fader_blocks(
        fader,
        channel,
        OutputDevice::BroadcastMix,
    ));
    assert(mixer.blocked(input, OutputDevice::LineOut) == mixer.fader_blocks(
        fader,
        channel,
        OutputDevice::LineOut,
    ));
    assert(mixer.blocked(input, OutputDevice::ChatMic) == mixer.fader_blocks(
        fader,
        channel,
        OutputDevice::ChatMic,
    ));
    assert(mixer.blocked(input, OutputDevice::Sampler) == mixer.fader_blocks(
        fader,
        channel,
        OutputDevice::Sampler,
    ));
}

/// A channel other than the microphone whose button blinks keeps its routes: its state silences it.
pub proof fn blinking_channel_keeps_its_routes(
    mixer: Mixer,
    fader: FaderName,
    input: InputDevice,
    channel: ChannelName,
)
    requires
        carries(channel, input),
        channel != ChannelName::Mic,
        only_on(mixer, fader, channel),
        mixer.profile.mutes.at(fader).blink,
    ensures
        heard_at(mixer, input, sent(mixer, input)),
{
    lemma_only_blocker(mixer, fader, input, channel);
    lemma_route(mixer, input);
    assert forall|output: OutputDevice| !#[trigger] mixer.blocked(input, output) by {}
    lemma_passes(mixer, input);
}

/// Whether a button is lit for a mute everywhere.
pub open spec fn lit_for_all(on: bool, blink: bool, function: MuteFunction) -> bool {
    blink || (on && function == MuteFunction::All)
}

/// Whether a button is lit for one output.
pub open spec fn lit_for(on: bool, blink: bool, function: MuteFunction, output: OutputDevice) -> bool {
    on && !blink && match output {
        OutputDevice::BroadcastMix => function == MuteFunction::ToStream,
        OutputDevice::ChatMic => function == MuteFunction::ToVoiceChat,
        OutputDevice::Headphones => function == MuteFunction::ToPhones,
        OutputDevice::LineOut => function == MuteFunction::ToLineOut,
        OutputDevice::Sampler => false,
    }
}

/// Whether a fader keeps the microphone from an output.
pub open spec fn fader_keeps_mic(mixer: Mixer, fader: FaderName, output: OutputDevice) -> bool {
    let button = mixer.profile.mutes.at(fader);
    mixer.profile.faders.at(fader) == ChannelName::Mic && (lit_for_all(
        button.on,
        button.blink,
        button.function,
    ) || lit_for(button.on, button.blink, button.function, output))
}

/// Whether the cough button keeps the microphone from an output.
pub open spec fn cough_keeps_mic(mixer: Mixer, output: OutputDevice) -> bool {
    let cough = mixer.profile.cough;
    lit_for_all(cough.on, cough.blink, cough.function) || lit_for(
        cough.on,
        cough.blink,
        cough.function,
        output,
    )
}

/// Whether a fader carries the chat and mutes it everywhere.
pub open spec fn chat_silent(mixer: Mixer, fader: FaderName) -> bool {
    let button = mixer.profile.mutes.at(fader);
    mixer.profile.faders.at(fader) == ChannelName::Chat && lit_for_all(
        button.on,
        button.blink,
        button.function,
    )
}

/// Whether something keeps the microphone from an output: a fader, the cough button, or, for the
/// voice chat and where the user wants it, a chat that is muted everywhere.
pub open spec fn mic_kept_from(mixer: Mixer, output: OutputDevice) -> bool {
    ||| fader_keeps_mic(mixer, FaderName::A, output)
    ||| fader_keeps_mic(mixer, FaderName::B, output)
    ||| fader_keeps_mic(mixer, FaderName::C, output)
    ||| fader_keeps_mic(mixer, FaderName::D, output)
    ||| cough_keeps_mic(mixer, output)
    ||| mixer.vc_mute_also_mute_cm && output == OutputDevice::ChatMic && (chat_silent(
        mixer,
        FaderName::A,
    ) || chat_silent(mixer, FaderName::B) || chat_silent(mixer, FaderName::C) || chat_silent(
        mixer,
        FaderName::D,
    ))
}

/// Whether the microphone is blocked from an output where something keeps it from there.
proof fn lemma_mic_blocked(mixer: Mixer, output: OutputDevice)
    ensures
        mixer.blocked(InputDevice::Microphone, output) == mic_kept_from(mixer, output),
{
    let mic = ChannelName::Mic;
    assert forall|fader: FaderName| #[trigger]
        mixer.fader_blocks(fader, mic, output) == fader_keeps_mic(mixer, fader, output) by {}
    if exists|fader: FaderName| #[trigger] mixer.fader_blocks(fader, mic, output) {
        let fader = choose|fader: FaderName| #[trigger] mixer.fader_blocks(fader, mic, output);
        assert(fader == FaderName::A || fader == FaderName::B || fader == FaderName::C || fader
            == FaderName::D);
    }
    assert(mixer.fader_blocks(FaderName::A, mic, output) == fader_keeps_mic(
        mixer,
        FaderName::A,
        output,
    ));
    assert(mixer.fader_blocks(FaderName::B, mic, output) == fader_keeps_mic(
        mixer,
        FaderName::B,
        output,
    ));
    assert(mixer.fader_blocks(FaderName::C, mic, output) == fader_keeps_mic(
        mixer,
        FaderName::C,
        output,
    ));
    assert(mixer.fader_blocks(FaderName::D, mic, output) == fader_keeps_mic(
        mixer,
        FaderName::D,
        output,
    ));
    assert(mixer.chat_blocks(output) == (mixer.vc_mute_also_mute_cm && output
        == OutputDevice::ChatMic && (chat_silent(mixer, FaderName::A) || chat_silent(
        mixer,
        FaderName::B,
    ) || chat_silent(mixer, FaderName::C) || chat_silent(mixer, FaderName::D)))) by {
        assert(mixer.profile.mutes.at(FaderName::A).silences() == lit_for_all(
            mixer.profile.mutes.a.on,
            mixer.profile.mutes.a.blink,
            mixer.profile.mutes.a.function,
        ));
        assert(mixer.profile.mutes.at(FaderName::B).silences() == lit_for_all(
            mixer.profile.mutes.b.on,
            mixer.profile.mutes.b.blink,
            mixer.profile.mutes.b.function,
        ));
        assert(mixer.profile.mutes.at(FaderName::C).silences() == lit_for_all(
            mixer.profile.mutes.c.on,
            mixer.profile.mutes.c.blink,
            mixer.profile.mutes.c.function,
        ));
        assert(mixer.profile.mutes.at(FaderName::D).silences() == lit_for_all(
            mixer.profile.mutes.d.on,
            mixer.profile.mutes.d.blink,
            mixer.profile.mutes.d.function,
        ));
    }
}

/// The microphone is heard where the router sends it and nothing keeps it from there. In the
/// headphones it is also meant to be heard while effects are on, where the user wants that.
pub proof fn microphone_is_heard_unless_kept_away(mixer: Mixer)
    ensures
        ({
            let mic = InputDevice::Microphone;
            let levels = mixer.profile.router.microphone;
            heard_at(
                mixer,
                mic,
                OutputMap {
                    headphones: (levels.headphones > 0 || (mixer.monitor_with_fx
                        && mixer.profile.effects.fx_on)) && !mic_kept_from(
                        mixer,
                        OutputDevice::Headphones,
                    ),
                    broadcast_mix: levels.broadcast_mix > 0 && !mic_kept_from(
                        mixer,
                        OutputDevice::BroadcastMix,
                    ),
                    line_out: levels.line_out > 0 && !mic_kept_from(mixer, OutputDevice::LineOut),
                    chat_mic: levels.chat_mic > 0 && !mic_kept_from(mixer, OutputDevice::ChatMic),
                    sampler: levels.sampler > 0 && !mic_kept_from(mixer, OutputDevice::Sampler),
                },
            )
        }),
{
    lemma_route(mixer, InputDevice::Microphone);
    lemma_mic_blocked(mixer, OutputDevice::Headphones);
    lemma_mic_blocked(mixer, OutputDevice::BroadcastMix);
    lemma_mic_blocked(mixer, OutputDevice::LineOut);
    lemma_mic_blocked(mixer, OutputDevice::ChatMic);
    lemma_mic_blocked(mixer, OutputDevice::Sampler);
}

/// Hard tune marks the one input that the selected preset names, or lightly the four that it can
/// follow where it names none or all.
pub proof fn hard_tune_marks_its_source(mixer: Mixer, input: InputDevice)
    ensures
        ({
            let source = mixer.profile.effects.presets.at(mixer.profile.effects.selected).hardtune_source;
            let mark = mixer.route(input).hardtune;
            &&& source is None || source == Some(HardTuneSource::All) ==> mark == (if input
                == InputDevice::Music || input == InputDevice::Game || input == InputDevice::LineIn
                || input == InputDevice::System {
                HardTuneMark::Light
            } else {
                HardTuneMark::Unmarked
            })
            &&& source == Some(HardTuneSource::Music) ==> mark == (if input == InputDevice::Music {
                HardTuneMark::Hard
            } else {
                HardTuneMark::Unmarked
            })
            &&& source == Some(HardTuneSource::Game) ==> mark == (if input == InputDevice::Game {
                HardTuneMark::Hard
            } else {
                HardTuneMark::Unmarked
            })
            &&& source == Some(HardTuneSource::LineIn) ==> mark == (if input == InputDevice::LineIn {
                HardTuneMark::Hard
            } else {
                HardTuneMark::Unmarked
            })
            &&& source == Some(HardTuneSource::System) ==> mark == (if input == InputDevice::System {
                HardTuneMark::Hard
            } else {
                HardTuneMark::Unmarked
            })
        }),
{
    lemma_route(mixer, input);
}

} // verus!
