//! The route of an input as the device takes it: one byte for each of its outputs, for the left and
//! the right channel.

use crate::plan::{HardTuneMark, Route};
use crate::types::{OutputDevice, OutputMap};
use vstd::prelude::*;

verus! {

/// The number of outputs that a route has a byte for.
pub const WIRE_OUTPUTS: usize = 22;

/// The byte of an output that the input reaches.
pub const REACHED: u8 = 0x20;

/// The byte that the hard tune has in a route.
pub open spec fn hardtune_byte(mark: HardTuneMark) -> u8 {
    match mark {
        HardTuneMark::Unmarked => 0,
        HardTuneMark::Light => 0x04,
        HardTuneMark::Hard => 0x10,
    }
}

/// The bytes with an output marked, where the input reaches it.
pub open spec fn marked(bytes: Seq<u8>, reached: bool, position: int) -> Seq<u8> {
    if reached {
        bytes.update(position, REACHED)
    } else {
        bytes
    }
}

/// The bytes of a route for one channel, given the places of the outputs and of the hard tune.
pub open spec fn wire_bytes(route: Route, positions: OutputMap<usize>, hardtune: usize) -> Seq<u8> {
    let empty = Seq::new(22, |i: int| 0u8);
    let first = marked(empty, route.outputs.headphones, positions.headphones as int);
    let second = marked(first, route.outputs.broadcast_mix, positions.broadcast_mix as int);
    let third = marked(second, route.outputs.line_out, positions.line_out as int);
    let fourth = marked(third, route.outputs.chat_mic, positions.chat_mic as int);
    let fifth = marked(fourth, route.outputs.sampler, positions.sampler as int);
    if route.hardtune == HardTuneMark::Unmarked {
        fifth
    } else {
        fifth.update(hardtune as int, hardtune_byte(route.hardtune))
    }
}

/// Whether every output has a place.
pub open spec fn in_range(positions: OutputMap<usize>) -> bool {
    forall|output: OutputDevice| #[trigger] positions.at(output) < WIRE_OUTPUTS
}

/// Marks an output, where the input reaches it.
fn mark(bytes: &mut [u8; 22], reached: bool, position: usize)
    requires
        position < 22,
    ensures
        final(bytes)@ == marked(old(bytes)@, reached, position as int),
{
    if reached {
        bytes[position] = REACHED;
    }
}

/// Writes a route for one channel.
pub fn apply_channel_routing(route: &Route, positions: &OutputMap<usize>, hardtune: usize) -> (bytes:
    [u8; 22])
    requires
        in_range(*positions),
        hardtune < WIRE_OUTPUTS,
    ensures
        bytes@ == wire_bytes(*route, *positions, hardtune),
{
    let mut bytes: [u8; 22] = [0;22];
    assert(bytes@ =~= Seq::new(22, |i: int| 0u8));
    assert(positions.at(OutputDevice::Headphones) < 22);
    assert(positions.at(OutputDevice::BroadcastMix) < 22);
    assert(positions.at(OutputDevice::LineOut) < 22);
    assert(positions.at(OutputDevice::ChatMic) < 22);
    assert(positions.at(OutputDevice::Sampler) < 22);
    mark(&mut bytes, route.outputs.headphones, positions.headphones);
    mark(&mut bytes, route.outputs.broadcast_mix, positions.broadcast_mix);
    mark(&mut bytes, route.outputs.line_out, positions.line_out);
    mark(&mut bytes, route.outputs.chat_mic, positions.chat_mic);
    mark(&mut bytes, route.outputs.sampler, positions.sampler);
    match route.hardtune {
        HardTuneMark::Unmarked => {},
        HardTuneMark::Light => {
            bytes[hardtune] = 0x04;
        },
        HardTuneMark::Hard => {
            bytes[hardtune] = 0x10;
        },
    }
    bytes
}

/// Where no two outputs share a place, the byte at the place of an output says whether the input
/// reaches it.
pub proof fn wire_shows_route(
    route: Route,
    positions: OutputMap<usize>,
    hardtune: usize,
    output: OutputDevice,
)
    requires
        in_range(positions),
        hardtune < WIRE_OUTPUTS,
        forall|a: OutputDevice, b: OutputDevice|
            a != b ==> #[trigger] positions.at(a) != #[trigger] positions.at(b),
        forall|a: OutputDevice| #[trigger] positions.at(a) != hardtune,
    ensures
        wire_bytes(route, positions, hardtune)[positions.at(output) as int] == (
        if route.outputs.at(output) {
            REACHED
        } else {
            0
        }),
        wire_bytes(route, positions, hardtune)[hardtune as int] == hardtune_byte(route.hardtune),
{
    assert(positions.at(OutputDevice::Headphones) < 22);
    assert(positions.at(OutputDevice::BroadcastMix) < 22);
    assert(positions.at(OutputDevice::LineOut) < 22);
    assert(positions.at(OutputDevice::ChatMic) < 22);
    assert(positions.at(OutputDevice::Sampler) < 22);
    assert(positions.at(output) < 22);
}

} // verus!
