//! What the regular looks at a device lead to.

use crate::device::state::{Device, Draft};
use crate::plan::{Change, SamplerChange, UsbCall};
use crate::types::{Buttons, SampleBank, SampleButtons};
use vstd::prelude::*;

verus! {

/// A sample whose gain was worked out, and whether that went well.
#[derive(Clone, Copy, Debug, PartialEq, Eq, Structural)]
pub struct FinishedGain {
    pub bank: SampleBank,
    pub button: SampleButtons,
    pub succeeded: bool,
}

impl Draft {
    /// The device after a look at its sampler. A sample whose gain was worked out is counted, the
    /// lights follow what is heard, and the colours follow the samples.
    #[verifier::opaque]
    pub open spec fn sampler_polled(self, finished: Option<FinishedGain>) -> Draft {
        if self.mixer.sampler is None {
            self
        } else {
            match finished {
                Some(gain) => self.set_if(
                    gain.succeeded,
                    Change::Sampler(SamplerChange::AddSample(gain.bank, gain.button)),
                ).sample_lighting_synced().usb_if(gain.succeeded, UsbCall::SendColourMap),
                None => self.sample_lighting_synced(),
            }
        }
    }

    /// The device before the lights follow what is heard.
    #[verifier::opaque]
    pub open spec fn gain_counted(self, finished: Option<FinishedGain>) -> Draft {
        match finished {
            Some(gain) => self.set_if(
                gain.succeeded,
                Change::Sampler(SamplerChange::AddSample(gain.bank, gain.button)),
            ),
            None => self,
        }
    }
}

impl Device {
    /// Looks at the sampler. `finished` is the sample whose gain was worked out since the last look,
    /// `calculating` says whether there is more such work, and `ended` whether a sample stopped
    /// playing or recording. Says whether clients are told of a change.
    pub fn update_state(&mut self, finished: Option<FinishedGain>, calculating: bool, ended: bool) -> (changed:
        bool)
        ensures
            final(self)@ == old(self)@.sampler_polled(finished),
            changed == (old(self)@.mixer.sampler is Some && (finished is Some || calculating
                || ended || old(self)@.gain_counted(finished).lighting_changes())),
            old(self)@.consistent() ==> final(self)@.consistent(),
    {
        reveal(Draft::sampler_polled);
        reveal(Draft::gain_counted);
        if self.mixer().sampler.is_none() {
            return false;
        }
        match finished {
            Some(gain) => {
                self.set_if(
                    gain.succeeded,
                    Change::Sampler(SamplerChange::AddSample(gain.bank, gain.button)),
                );
                let _ = self.sync_sample_lighting();
                self.usb_if(gain.succeeded, UsbCall::SendColourMap);
                true
            },
            None => {
                let dimmed = self.sync_sample_lighting();
                calculating || ended || dimmed
            },
        }
    }
}

/// Decides whether clients are told of a change after a look at the controls: a volume or an encoder
/// changed, or a button was pressed or released.
pub fn monitor_inputs(
    volumes: bool,
    encoders: bool,
    pressed: &Vec<Buttons>,
    released: &Vec<Buttons>,
) -> (changed: bool)
    ensures
        changed == (volumes || encoders || pressed@.len() > 0 || released@.len() > 0),
{
    volumes || encoders || pressed.len() > 0 || released.len() > 0
}

} // verus!
