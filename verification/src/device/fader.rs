//! Faders, volumes and the second mix.

use crate::device::state::{Device, Draft, Mixer};
use crate::plan::{Change, ChannelMixes, KeptChange, MixerChange, UsbCall};
use crate::profile::ProfileAdapter;
use crate::types::{
    ChannelName, DeviceType, FaderMap, FaderName, Mix, OutputDevice, SubMixChannelName, SubMixMap,
};
use vstd::prelude::*;

verus! {

/// The value that stands for no output in the list of a mix.
pub const NO_OUTPUT: u8 = 0x0c;

/// How far a fader may be from the awaited volume to be listened to again.
pub const PAUSE_WINDOW: u8 = 5;

/// Whether a volume is near the one that is waited for.
pub open spec fn near(until: u8, volume: u8) -> bool {
    until - PAUSE_WINDOW <= volume <= until + PAUSE_WINDOW
}

/// Finds whether a volume is near the one that is waited for.
pub fn is_near(until: u8, volume: u8) -> (result: bool)
    ensures
        result == near(until, volume),
{
    let low: u8 = if until < PAUSE_WINDOW {
        0
    } else {
        until - PAUSE_WINDOW
    };
    let high: u8 = if until > 255 - PAUSE_WINDOW {
        255
    } else {
        until + PAUSE_WINDOW
    };
    low <= volume && volume <= high
}

impl Mixer {
    /// The last fader beside `fader` that carries `channel`.
    pub open spec fn other_fader(self, fader: FaderName, channel: ChannelName) -> Option<
        FaderName,
    > {
        let faders = self.profile.faders;
        if fader != FaderName::D && faders.d == channel {
            Some(FaderName::D)
        } else if fader != FaderName::C && faders.c == channel {
            Some(FaderName::C)
        } else if fader != FaderName::B && faders.b == channel {
            Some(FaderName::B)
        } else if fader != FaderName::A && faders.a == channel {
            Some(FaderName::A)
        } else {
            None
        }
    }

    /// Finds the last fader beside `fader` that carries `channel`.
    pub fn find_other_fader(&self, fader: FaderName, channel: ChannelName) -> (other: Option<
        FaderName,
    >)
        ensures
            other == self.other_fader(fader, channel),
    {
        let mut other: Option<FaderName> = None;
        if fader != FaderName::A && self.profile.faders.a == channel {
            other = Some(FaderName::A);
        }
        if fader != FaderName::B && self.profile.faders.b == channel {
            other = Some(FaderName::B);
        }
        if fader != FaderName::C && self.profile.faders.c == channel {
            other = Some(FaderName::C);
        }
        if fader != FaderName::D && self.profile.faders.d == channel {
            other = Some(FaderName::D);
        }
        other
    }

    /// Whether a moved fader is listened to: on a small device when it moved, on another unless a
    /// volume is waited for that is not near.
    pub open spec fn listens(self, fader: FaderName, volume: u8) -> bool {
        let pause = self.fader_pause_until.at(fader);
        if self.device_type == DeviceType::Mini {
            volume != self.fader_last_seen.at(fader)
        } else {
            !pause.paused || near(pause.until, volume)
        }
    }

    /// Whether the waiting for a volume ends.
    pub open spec fn resumes(self, fader: FaderName, volume: u8) -> bool {
        self.device_type != DeviceType::Mini && self.fader_pause_until.at(fader).paused && near(
            self.fader_pause_until.at(fader).until,
            volume,
        )
    }

    /// Whether a volume of the second mix follows a main volume.
    pub open spec fn submix_follows(self, mix: SubMixChannelName) -> bool {
        self.supports_submixes() && self.profile.submix.enabled
            && self.profile.submix.channels.at(mix).linked
    }

    /// The number in the list of a mix of an output that is on that mix.
    pub open spec fn mix_entry(self, output: OutputDevice, mix: Mix) -> u8 {
        let on = if self.profile.submix.enabled {
            self.profile.submix.outputs.at(output)
        } else {
            Mix::A
        };
        if on == mix {
            (output.index() * 2) as u8
        } else {
            NO_OUTPUT
        }
    }

    /// The outputs on each mix. The headphones are not listed: they follow the monitored mix.
    pub open spec fn channel_mixes(self) -> ChannelMixes {
        ChannelMixes {
            a: (
                self.mix_entry(OutputDevice::BroadcastMix, Mix::A),
                self.mix_entry(OutputDevice::LineOut, Mix::A),
                self.mix_entry(OutputDevice::ChatMic, Mix::A),
                self.mix_entry(OutputDevice::Sampler, Mix::A),
            ),
            b: (
                self.mix_entry(OutputDevice::BroadcastMix, Mix::B),
                self.mix_entry(OutputDevice::LineOut, Mix::B),
                self.mix_entry(OutputDevice::ChatMic, Mix::B),
                self.mix_entry(OutputDevice::Sampler, Mix::B),
            ),
        }
    }

    /// Finds the number of an output in the list of a mix.
    fn get_mix_entry(&self, output: OutputDevice, mix: Mix) -> (entry: u8)
        ensures
            entry == self.mix_entry(output, mix),
    {
        let on = if self.profile.submix.enabled {
            *self.profile.submix.outputs.get(output)
        } else {
            Mix::A
        };
        if on != mix {
            return NO_OUTPUT;
        }
        match output {
            OutputDevice::Headphones => 0,
            OutputDevice::BroadcastMix => 2,
            OutputDevice::LineOut => 4,
            OutputDevice::ChatMic => 6,
            OutputDevice::Sampler => 8,
        }
    }

    /// Lists the outputs on each mix.
    pub fn get_channel_mixes(&self) -> (mixes: ChannelMixes)
        ensures
            mixes == self.channel_mixes(),
    {
        ChannelMixes {
            a: (
                self.get_mix_entry(OutputDevice::BroadcastMix, Mix::A),
                self.get_mix_entry(OutputDevice::LineOut, Mix::A),
                self.get_mix_entry(OutputDevice::ChatMic, Mix::A),
                self.get_mix_entry(OutputDevice::Sampler, Mix::A),
            ),
            b: (
                self.get_mix_entry(OutputDevice::BroadcastMix, Mix::B),
                self.get_mix_entry(OutputDevice::LineOut, Mix::B),
                self.get_mix_entry(OutputDevice::ChatMic, Mix::B),
                self.get_mix_entry(OutputDevice::Sampler, Mix::B),
            ),
        }
    }
}

/// Whether a channel keeps its volume on the device only if it is sent again.
pub open spec fn is_main_output(channel: ChannelName) -> bool {
    channel == ChannelName::Headphones || channel == ChannelName::LineOut
}

impl Draft {
    /// The volume that the profile has for a channel is sent where `condition` holds.
    #[verifier::opaque]
    pub open spec fn send_volume_if(self, condition: bool, channel: ChannelName) -> Draft {
        self.usb_if(condition, UsbCall::SetVolume(channel, self.mixer.profile.volumes.at(channel)))
    }

    /// A fader is told again of the channel that it carries.
    #[verifier::opaque]
    pub open spec fn fader_kept(self, fader: FaderName, channel: ChannelName) -> Draft {
        self.set_if(
            channel == ChannelName::Mic,
            Change::Mixer(MixerChange::MicFader(fader)),
        ).usb_if(!is_main_output(channel), UsbCall::SetFader(fader, channel))
    }

    /// A channel that was on no fader takes the place of another. What was there is unmuted, since
    /// nothing shows its state any more.
    #[verifier::opaque]
    pub open spec fn fader_replaced(self, fader: FaderName, channel: ChannelName) -> Draft {
        let existing = self.mixer.profile.faders.at(fader);
        self.unmuted(fader)
            .set_if(existing == ChannelName::Mic, Change::Mixer(MixerChange::NoMicFader))
            .set(Change::Mixer(MixerChange::FaderAssignment(fader, channel)))
            .usb(UsbCall::SetFader(fader, channel))
            .send_volume_if(true, existing)
            .send_volume_if(is_main_output(channel), channel)
            .usb(UsbCall::SendButtonStates)
    }

    /// Two faders change places.
    #[verifier::opaque]
    pub open spec fn faders_switched(self, fader: FaderName, other: FaderName) -> Draft {
        let existing = self.mixer.profile.faders.at(fader);
        let channel = self.mixer.profile.faders.at(other);
        self.set(Change::Mixer(MixerChange::SwitchFaders(fader, other)))
            .set_if(channel == ChannelName::Mic, Change::Mixer(MixerChange::MicFader(fader)))
            .set_if(existing == ChannelName::Mic, Change::Mixer(MixerChange::MicFader(other)))
            .usb(UsbCall::SetFader(fader, channel))
            .usb(UsbCall::SetFader(other, existing))
            .send_volume_if(is_main_output(channel), channel)
            .send_volume_if(is_main_output(existing), existing)
            .usb(UsbCall::SendScribble(fader))
            .usb(UsbCall::SendScribble(other))
            .usb(UsbCall::SendButtonStates)
    }

    /// A channel is put on a fader.
    #[verifier::opaque]
    pub open spec fn fader_set(self, fader: FaderName, channel: ChannelName) -> Draft {
        if channel == self.mixer.profile.faders.at(fader) {
            self.fader_kept(fader, channel)
        } else {
            match self.mixer.other_fader(fader, channel) {
                None => self.fader_replaced(fader, channel),
                Some(other) => self.faders_switched(fader, other),
            }
        }
    }

    /// The volume of a channel in the second mix follows its main volume. `linked` is the main
    /// volume times the ratio of the link, as a volume.
    #[verifier::opaque]
    pub open spec fn submix_followed(self, channel: ChannelName, linked: u8) -> Draft {
        match ProfileAdapter::submix_of(channel) {
            Some(mix) if self.mixer.submix_follows(mix)
                && self.mixer.profile.submix.channels.at(mix).volume != linked => self.set(
                Change::Mixer(MixerChange::SubMixVolume(mix, linked)),
            ).usb(UsbCall::SetSubVolume(mix, linked)),
            _ => self,
        }
    }

    /// A fader was seen at a volume.
    #[verifier::opaque]
    pub open spec fn fader_moved(self, fader: FaderName, volume: u8, linked: u8) -> Draft {
        let channel = self.mixer.profile.faders.at(fader);
        if !self.mixer.listens(fader, volume) {
            self
        } else {
            let seen = self.set_if(
                self.mixer.resumes(fader, volume),
                Change::Kept(KeptChange::FaderResumed(fader)),
            ).set(Change::Kept(KeptChange::FaderSeen(fader, volume)));
            if self.mixer.profile.volumes.at(channel) == volume {
                seen
            } else {
                seen.set(Change::Mixer(MixerChange::Volume(channel, volume))).submix_followed(
                    channel,
                    linked,
                )
            }
        }
    }

    /// The four faders were seen at these volumes.
    #[verifier::opaque]
    pub open spec fn faders_moved(self, volumes: FaderMap<u8>, linked: FaderMap<u8>) -> Draft {
        self.fader_moved(FaderName::A, volumes.a, linked.a)
            .fader_moved(FaderName::B, volumes.b, linked.b)
            .fader_moved(FaderName::C, volumes.c, linked.c)
            .fader_moved(FaderName::D, volumes.d, linked.d)
    }

    /// A fader that carries the channel is not listened to until it comes near the volume.
    #[verifier::opaque]
    pub open spec fn latched(self, channel: ChannelName, volume: u8) -> Draft {
        match self.mixer.profile.fader_with(channel) {
            Some(fader) => self.set(Change::Kept(KeptChange::FaderPaused(fader, volume))),
            None => self,
        }
    }

    /// The volume of a channel is set.
    #[verifier::opaque]
    pub open spec fn volume_set(self, channel: ChannelName, volume: u8, linked: u8) -> Draft {
        self.usb(UsbCall::SetVolume(channel, volume))
            .set(Change::Mixer(MixerChange::Volume(channel, volume)))
            .submix_followed(channel, linked)
            .latched(channel, volume)
    }

    /// The main volume follows the volume in the second mix. `linked` is that volume divided by the
    /// ratio of the link, as a volume.
    #[verifier::opaque]
    pub open spec fn main_followed(
        self,
        channel: ChannelName,
        mix: SubMixChannelName,
        linked: u8,
    ) -> Draft {
        if self.mixer.profile.submix.channels.at(mix).linked
            && self.mixer.profile.volumes.at(channel) != linked {
            self.latched(channel, linked)
                .set(Change::Mixer(MixerChange::Volume(channel, linked)))
                .usb(UsbCall::SetVolume(channel, linked))
        } else {
            self
        }
    }

    /// The volume of a channel in the second mix is set.
    #[verifier::opaque]
    pub open spec fn submix_volume_set(self, channel: ChannelName, volume: u8, linked: u8) -> Draft {
        match ProfileAdapter::submix_of(channel) {
            Some(mix) => self.main_followed(channel, mix, linked)
                .set(Change::Mixer(MixerChange::SubMixVolume(mix, volume)))
                .usb(UsbCall::SetSubVolume(mix, volume)),
            None => self,
        }
    }

    /// The volume of a channel in the second mix is sent, after it followed the main volume where
    /// it is linked.
    #[verifier::opaque]
    pub open spec fn submix_synced(self, channel: ChannelName, links: SubMixMap<u8>) -> Draft {
        match ProfileAdapter::submix_of(channel) {
            Some(mix) => if self.mixer.profile.submix.channels.at(mix).linked {
                self.submix_followed(channel, links.at(mix))
            } else {
                self.usb(UsbCall::SetSubVolume(mix, self.mixer.profile.submix.channels.at(mix).volume))
            },
            None => self,
        }
    }

    /// Every volume in the second mix is sent. Only the first eight channels, in their order, have
    /// one.
    #[verifier::opaque]
    pub open spec fn submixes_synced(self, links: SubMixMap<u8>) -> Draft {
        self.submix_synced(ChannelName::Mic, links)
            .submix_synced(ChannelName::LineIn, links)
            .submix_synced(ChannelName::Console, links)
            .submix_synced(ChannelName::System, links)
            .submix_synced(ChannelName::Game, links)
            .submix_synced(ChannelName::Chat, links)
            .submix_synced(ChannelName::Sample, links)
            .submix_synced(ChannelName::Music, links)
    }

    /// The second mix is set up. While it is on, the microphone monitor is at its full volume,
    /// since the mix does the monitoring.
    #[verifier::opaque]
    pub open spec fn submix_loaded(self, apply_volumes: bool, links: SubMixMap<u8>) -> Draft {
        let submix = self.mixer.profile.submix;
        if !self.mixer.supports_submixes() {
            self
        } else {
            let listed = self.usb(
                UsbCall::SetMonitoredMix(
                    if submix.enabled {
                        submix.outputs.headphones
                    } else {
                        Mix::A
                    },
                ),
            ).usb(UsbCall::SetChannelMixes(self.mixer.channel_mixes()));
            let synced = if submix.enabled && apply_volumes {
                listed.submixes_synced(links)
            } else {
                listed
            };
            synced.usb_if(submix.enabled, UsbCall::SetVolume(ChannelName::MicMonitor, 255))
                .send_volume_if(!submix.enabled, ChannelName::MicMonitor)
        }
    }
}

impl Device {
    /// Sends the volume that the profile has for a channel where `condition` holds.
    pub fn send_volume_if(&mut self, condition: bool, channel: ChannelName)
        ensures
            final(self)@ == old(self)@.send_volume_if(condition, channel),
            old(self)@.consistent() ==> final(self)@.consistent(),
    {
        reveal(Draft::send_volume_if);
        let volume: u8 = self.mixer().profile.get_channel_volume(channel);
        self.usb_if(condition, UsbCall::SetVolume(channel, volume));
    }

    /// Tells a fader again of the channel that it carries.
    fn keep_fader(&mut self, fader: FaderName, channel: ChannelName)
        ensures
            final(self)@ == old(self)@.fader_kept(fader, channel),
            old(self)@.consistent() ==> final(self)@.consistent(),
    {
        reveal(Draft::fader_kept);
        self.set_if(
            channel == ChannelName::Mic,
            Change::Mixer(MixerChange::MicFader(fader)),
        );
        self.usb_if(
            !(channel == ChannelName::Headphones || channel == ChannelName::LineOut),
            UsbCall::SetFader(fader, channel),
        );
    }

    /// Puts a channel on a fader that was on none.
    fn replace_fader(&mut self, fader: FaderName, channel: ChannelName)
        ensures
            final(self)@ == old(self)@.fader_replaced(fader, channel),
            old(self)@.consistent() ==> final(self)@.consistent(),
    {
        reveal(Draft::fader_replaced);
        let existing = self.mixer().profile.get_fader_assignment(fader);
        self.unmute_fader(fader);
        self.set_if(existing == ChannelName::Mic, Change::Mixer(MixerChange::NoMicFader));
        self.set(Change::Mixer(MixerChange::FaderAssignment(fader, channel)));
        self.usb(UsbCall::SetFader(fader, channel));
        self.send_volume_if(true, existing);
        self.send_volume_if(
            channel == ChannelName::Headphones || channel == ChannelName::LineOut,
            channel,
        );
        self.usb(UsbCall::SendButtonStates);
    }

    /// Lets two faders change places.
    fn switch_faders(&mut self, fader: FaderName, other: FaderName)
        ensures
            final(self)@ == old(self)@.faders_switched(fader, other),
            old(self)@.consistent() ==> final(self)@.consistent(),
    {
        reveal(Draft::faders_switched);
        let existing = self.mixer().profile.get_fader_assignment(fader);
        let channel = self.mixer().profile.get_fader_assignment(other);
        self.set(Change::Mixer(MixerChange::SwitchFaders(fader, other)));
        self.set_if(channel == ChannelName::Mic, Change::Mixer(MixerChange::MicFader(fader)));
        self.set_if(existing == ChannelName::Mic, Change::Mixer(MixerChange::MicFader(other)));
        self.usb(UsbCall::SetFader(fader, channel));
        self.usb(UsbCall::SetFader(other, existing));
        self.send_volume_if(
            channel == ChannelName::Headphones || channel == ChannelName::LineOut,
            channel,
        );
        self.send_volume_if(
            existing == ChannelName::Headphones || existing == ChannelName::LineOut,
            existing,
        );
        self.usb(UsbCall::SendScribble(fader));
        self.usb(UsbCall::SendScribble(other));
        self.usb(UsbCall::SendButtonStates);
    }

    /// Puts a channel on a fader.
    pub fn set_fader(&mut self, fader: FaderName, channel: ChannelName)
        ensures
            final(self)@ == old(self)@.fader_set(fader, channel),
            old(self)@.consistent() ==> final(self)@.consistent(),
    {
        reveal(Draft::fader_set);
        if channel == self.mixer().profile.get_fader_assignment(fader) {
            self.keep_fader(fader, channel);
            return ;
        }
        match self.mixer().find_other_fader(fader, channel) {
            None => self.replace_fader(fader, channel),
            Some(other) => self.switch_faders(fader, other),
        }
    }

    /// Lets the volume of a channel in the second mix follow its main volume.
    pub fn update_submix_for(&mut self, channel: ChannelName, linked: u8)
        ensures
            final(self)@ == old(self)@.submix_followed(channel, linked),
            old(self)@.consistent() ==> final(self)@.consistent(),
    {
        reveal(Draft::submix_followed);
        if self.mixer().device_supports_submixes() && self.mixer().profile.submix.enabled {
            if let Some(mix) = self.mixer().profile.get_submix_from_channel(channel) {
                let current = *self.mixer().profile.submix.channels.get(mix);
                if current.linked && current.volume != linked {
                    self.set(Change::Mixer(MixerChange::SubMixVolume(mix, linked)));
                    self.usb(UsbCall::SetSubVolume(mix, linked));
                }
            }
        }
    }

    /// Acts on one fader that was seen at a volume. Gives whether a volume changed.
    fn update_volume_to(&mut self, fader: FaderName, volume: u8, linked: u8) -> (changed: bool)
        ensures
            final(self)@ == old(self)@.fader_moved(fader, volume, linked),
            changed == old(self)@.mixer.volume_changes(fader, volume),
            old(self)@.consistent() ==> final(self)@.consistent(),
    {
        reveal(Draft::fader_moved);
        let channel = self.mixer().profile.get_fader_assignment(fader);
        let old_volume: u8 = self.mixer().profile.get_channel_volume(channel);
        let mut resumes = false;
        if self.mixer().device_type == DeviceType::Mini {
            if volume == *self.mixer().fader_last_seen.get(fader) {
                return false;
            }
        } else {
            let pause = *self.mixer().fader_pause_until.get(fader);
            if pause.paused {
                if !is_near(pause.until, volume) {
                    return false;
                }
                resumes = true;
            }
        }
        self.set_if(resumes, Change::Kept(KeptChange::FaderResumed(fader)));
        self.set(Change::Kept(KeptChange::FaderSeen(fader, volume)));
        if volume == old_volume {
            return false;
        }
        self.set(Change::Mixer(MixerChange::Volume(channel, volume)));
        self.update_submix_for(channel, linked);
        true
    }

    /// Acts on the faders, which were seen at these volumes. Gives whether a volume changed.
    pub fn update_volumes_to(&mut self, volumes: FaderMap<u8>, linked: FaderMap<u8>) -> (changed:
        bool)
        ensures
            final(self)@ == old(self)@.faders_moved(volumes, linked),
            changed == old(self)@.volumes_change(volumes, linked),
            old(self)@.consistent() ==> final(self)@.consistent(),
    {
        reveal(Draft::faders_moved);
        let a = self.update_volume_to(FaderName::A, volumes.a, linked.a);
        let b = self.update_volume_to(FaderName::B, volumes.b, linked.b);
        let c = self.update_volume_to(FaderName::C, volumes.c, linked.c);
        let d = self.update_volume_to(FaderName::D, volumes.d, linked.d);
        a || b || c || d
    }

    /// Stops listening to the fader that carries a channel until it comes near a volume.
    fn latch(&mut self, channel: ChannelName, volume: u8)
        ensures
            final(self)@ == old(self)@.latched(channel, volume),
            old(self)@.consistent() ==> final(self)@.consistent(),
    {
        reveal(Draft::latched);
        if let Some(fader) = self.mixer().profile.get_fader_from_channel(channel) {
            self.set(Change::Kept(KeptChange::FaderPaused(fader, volume)));
        }
    }

    /// Sets the volume of a channel.
    pub fn set_volume(&mut self, channel: ChannelName, volume: u8, linked: u8)
        ensures
            final(self)@ == old(self)@.volume_set(channel, volume, linked),
            old(self)@.consistent() ==> final(self)@.consistent(),
    {
        reveal(Draft::volume_set);
        self.usb(UsbCall::SetVolume(channel, volume));
        self.set(Change::Mixer(MixerChange::Volume(channel, volume)));
        self.update_submix_for(channel, linked);
        self.latch(channel, volume);
    }

    /// Lets the main volume follow the volume in the second mix.
    fn follow_main(&mut self, channel: ChannelName, mix: SubMixChannelName, linked: u8)
        ensures
            final(self)@ == old(self)@.main_followed(channel, mix, linked),
            old(self)@.consistent() ==> final(self)@.consistent(),
    {
        reveal(Draft::main_followed);
        if self.mixer().profile.submix.channels.get(mix).linked
            && self.mixer().profile.get_channel_volume(channel) != linked {
            self.latch(channel, linked);
            self.set(Change::Mixer(MixerChange::Volume(channel, linked)));
            self.usb(UsbCall::SetVolume(channel, linked));
        }
    }

    /// Sets the volume of a channel in the second mix.
    pub fn apply_submix_volume(&mut self, channel: ChannelName, volume: u8, linked: u8)
        ensures
            final(self)@ == old(self)@.submix_volume_set(channel, volume, linked),
            old(self)@.consistent() ==> final(self)@.consistent(),
    {
        reveal(Draft::submix_volume_set);
        if let Some(mix) = self.mixer().profile.get_submix_from_channel(channel) {
            self.follow_main(channel, mix, linked);
            self.set(Change::Mixer(MixerChange::SubMixVolume(mix, volume)));
            self.usb(UsbCall::SetSubVolume(mix, volume));
        }
    }

    /// Sends the volume of a channel in the second mix.
    pub fn sync_submix_volume(&mut self, channel: ChannelName, links: &SubMixMap<u8>)
        ensures
            final(self)@ == old(self)@.submix_synced(channel, *links),
            old(self)@.consistent() ==> final(self)@.consistent(),
    {
        reveal(Draft::submix_synced);
        if let Some(mix) = self.mixer().profile.get_submix_from_channel(channel) {
            let current = *self.mixer().profile.submix.channels.get(mix);
            if current.linked {
                self.update_submix_for(channel, *links.get(mix));
            } else {
                self.usb(UsbCall::SetSubVolume(mix, current.volume));
            }
        }
    }

    /// Sends every volume in the second mix.
    fn sync_submix_volumes(&mut self, links: &SubMixMap<u8>)
        ensures
            final(self)@ == old(self)@.submixes_synced(*links),
            old(self)@.consistent() ==> final(self)@.consistent(),
    {
        reveal(Draft::submixes_synced);
        self.sync_submix_volume(ChannelName::Mic, links);
        self.sync_submix_volume(ChannelName::LineIn, links);
        self.sync_submix_volume(ChannelName::Console, links);
        self.sync_submix_volume(ChannelName::System, links);
        self.sync_submix_volume(ChannelName::Game, links);
        self.sync_submix_volume(ChannelName::Chat, links);
        self.sync_submix_volume(ChannelName::Sample, links);
        self.sync_submix_volume(ChannelName::Music, links);
    }

    /// Sets the second mix up.
    pub fn load_submix_settings(&mut self, apply_volumes: bool, links: &SubMixMap<u8>)
        ensures
            final(self)@ == old(self)@.submix_loaded(apply_volumes, *links),
            old(self)@.consistent() ==> final(self)@.consistent(),
    {
        reveal(Draft::submix_loaded);
        if !self.mixer().device_supports_submixes() {
            return ;
        }
        let enabled = self.mixer().profile.submix.enabled;
        let monitored = if enabled {
            self.mixer().profile.submix.outputs.headphones
        } else {
            Mix::A
        };
        let mixes = self.mixer().get_channel_mixes();
        self.usb(UsbCall::SetMonitoredMix(monitored));
        self.usb(UsbCall::SetChannelMixes(mixes));
        if enabled && apply_volumes {
            self.sync_submix_volumes(links);
        }
        self.usb_if(enabled, UsbCall::SetVolume(ChannelName::MicMonitor, 255));
        self.send_volume_if(!enabled, ChannelName::MicMonitor);
    }
}

impl Mixer {
    /// Whether a fader that was seen at a volume changes the volume of its channel.
    pub open spec fn volume_changes(self, fader: FaderName, volume: u8) -> bool {
        self.listens(fader, volume) && self.profile.volumes.at(self.profile.faders.at(fader))
            != volume
    }
}

impl Draft {
    /// Whether the faders, seen at these volumes one after the other, change a volume.
    pub open spec fn volumes_change(self, volumes: FaderMap<u8>, linked: FaderMap<u8>) -> bool {
        let after_a = self.fader_moved(FaderName::A, volumes.a, linked.a);
        let after_b = after_a.fader_moved(FaderName::B, volumes.b, linked.b);
        let after_c = after_b.fader_moved(FaderName::C, volumes.c, linked.c);
        ||| self.mixer.volume_changes(FaderName::A, volumes.a)
        ||| after_a.mixer.volume_changes(FaderName::B, volumes.b)
        ||| after_b.mixer.volume_changes(FaderName::C, volumes.c)
        ||| after_c.mixer.volume_changes(FaderName::D, volumes.d)
    }
}

} // verus!
