//! What the sampler buttons do, mode by mode.

use crate::device::state::{Draft, Mixer, SampleActivity};
use crate::device::told::{calls_after_step, mixer_after_step, sampler_after_change, tells};
use crate::plan::{Announcement, Change, SamplerCall, SamplerChange, Step, UsbCall};
use crate::types::{SampleBank, SampleButtons, SamplePlaybackMode};
use vstd::prelude::*;

verus! {

/// Whether a draft goes on from another by the given steps.
pub open spec fn goes_on_by(before: Draft, steps: Seq<Step>, after: Draft) -> bool {
    after.steps =~= before.steps + steps
}

/// What a handler was last seen to do for a button of the selected bank.
pub open spec fn seen_doing(mixer: Mixer, button: SampleButtons, activity: SampleActivity) -> bool {
    mixer.sampler is Some && mixer.sampler->0.activity.at(mixer.profile.sampler.selected).at(
        button,
    ) == activity
}

/// The steps that look for the next track of a button and play it.
pub open spec fn plays_next(
    bank: SampleBank,
    button: SampleButtons,
    fade_on_stop: bool,
    loop_track: bool,
) -> Seq<Step> {
    seq![
        Step::Sampler(SamplerCall::FindNext { bank, button }),
        Step::Sampler(SamplerCall::PlayFound { bank, button, fade_on_stop, loop_track }),
    ]
}

/// The step that asks a button to stop what it plays.
pub open spec fn asks_to_stop(bank: SampleBank, button: SampleButtons, force: bool) -> Seq<Step> {
    seq![Step::Sampler(SamplerCall::StopPlayback { bank, button, force })]
}

/// Each mode plays as its name says. A press in `PlayNext`, `StopOnRelease` and `FadeOnRelease`
/// always plays the next track, and in `PlayStop`, `PlayFade` and `Loop` it stops a track that plays
/// and plays one otherwise. Only `Loop` loops, and only the two modes that fade do so.
pub proof fn press_plays_by_the_mode(draft: Draft, button: SampleButtons)
    requires
        draft.mixer.sampler is Some,
        !draft.mixer.profile.sampler.clear,
        draft.mixer.profile.sampler.stacks.at(draft.mixer.profile.sampler.selected).at(button).count
            > 0,
    ensures
        ({
            let after = draft.sample_down(button);
            let bank = draft.mixer.profile.sampler.selected;
            let mode = draft.mixer.profile.sampler.stacks.at(bank).at(button).mode;
            let playing = seen_doing(draft.mixer, button, SampleActivity::Playing);
            &&& after.mixer == draft.mixer
            &&& match mode {
                SamplePlaybackMode::PlayNext | SamplePlaybackMode::StopOnRelease => goes_on_by(
                    draft,
                    plays_next(bank, button, false, false),
                    after,
                ),
                SamplePlaybackMode::FadeOnRelease => goes_on_by(
                    draft,
                    plays_next(bank, button, true, false),
                    after,
                ),
                SamplePlaybackMode::PlayStop => goes_on_by(
                    draft,
                    if playing {
                        asks_to_stop(bank, button, false)
                    } else {
                        plays_next(bank, button, false, false)
                    },
                    after,
                ),
                SamplePlaybackMode::PlayFade => goes_on_by(
                    draft,
                    if playing {
                        asks_to_stop(bank, button, false)
                    } else {
                        plays_next(bank, button, true, false)
                    },
                    after,
                ),
                SamplePlaybackMode::Loop => goes_on_by(
                    draft,
                    if playing {
                        asks_to_stop(bank, button, false)
                    } else {
                        plays_next(bank, button, false, true)
                    },
                    after,
                ),
            }
        }),
{
    reveal(Draft::sample_down);
    reveal(Draft::sample_pressed);
    reveal(Draft::then_do);
}

/// Whatever a press plays loops exactly if the mode of the button is `Loop`, and fades out exactly if
/// it is `FadeOnRelease` or `PlayFade`.
pub proof fn played_track_loops_only_in_loop_mode(draft: Draft, button: SampleButtons, i: int)
    requires
        draft.steps.len() <= i < draft.sample_down(button).steps.len(),
    ensures
        ({
            let bank = draft.mixer.profile.sampler.selected;
            let mode = draft.mixer.profile.sampler.stacks.at(bank).at(button).mode;
            match draft.sample_down(button).steps[i] {
                Step::Sampler(
                    SamplerCall::PlayFound { bank: played, button: pressed, fade_on_stop, loop_track },
                ) => {
                    &&& played == bank
                    &&& pressed == button
                    &&& loop_track <==> mode == SamplePlaybackMode::Loop
                    &&& fade_on_stop <==> mode == SamplePlaybackMode::FadeOnRelease || mode
                        == SamplePlaybackMode::PlayFade
                },
                _ => true,
            }
        }),
{
    reveal(Draft::sample_down);
    reveal(Draft::sample_pressed);
    reveal(Draft::then_do);
}

/// A release stops the track of a button whose mode plays while it is held, gently, and leaves every
/// other mode alone.
pub proof fn release_stops_what_is_held(draft: Draft, button: SampleButtons)
    requires
        draft.mixer.sampler is Some,
        !draft.mixer.profile.sampler.clear,
        draft.mixer.profile.sampler.stacks.at(draft.mixer.profile.sampler.selected).at(button).count
            > 0,
    ensures
        ({
            let after = draft.sample_up(button);
            let bank = draft.mixer.profile.sampler.selected;
            &&& after.mixer == draft.mixer
            &&& match draft.mixer.profile.sampler.stacks.at(bank).at(button).mode {
                SamplePlaybackMode::StopOnRelease
                | SamplePlaybackMode::FadeOnRelease => goes_on_by(
                    draft,
                    asks_to_stop(bank, button, false),
                    after,
                ),
                SamplePlaybackMode::PlayNext
                | SamplePlaybackMode::PlayStop
                | SamplePlaybackMode::PlayFade
                | SamplePlaybackMode::Loop => after == draft,
            }
        }),
{
    reveal(Draft::sample_up);
    reveal(Draft::then_do);
}

/// A button without samples records while it is held: the press starts a recording, and the release
/// keeps it and lets the button blink no longer.
pub proof fn empty_button_records(draft: Draft, button: SampleButtons)
    requires
        draft.mixer.sampler is Some,
        !draft.mixer.profile.sampler.clear,
        draft.mixer.profile.sampler.stacks.at(draft.mixer.profile.sampler.selected).at(button).count
            == 0,
    ensures
        ({
            let down = draft.sample_down(button);
            let up = draft.sample_up(button);
            let bank = draft.mixer.profile.sampler.selected;
            let quiet = seq![
                Step::Apply(Change::Sampler(SamplerChange::ButtonBlink(button, false))),
                Step::Usb(UsbCall::SendColourMap),
            ];
            &&& goes_on_by(draft, seq![Step::Sampler(SamplerCall::Record { bank, button })], down)
            &&& down.mixer == draft.mixer
            &&& goes_on_by(
                draft,
                if seen_doing(draft.mixer, button, SampleActivity::Recording) {
                    seq![Step::Sampler(SamplerCall::KeepRecording { bank, button })] + quiet
                } else {
                    quiet
                },
                up,
            )
            &&& !up.mixer.profile.sampler.blink.at(button)
            &&& up.mixer.profile.sampler.on == draft.mixer.profile.sampler.on
            &&& up.mixer.profile.sampler.stacks == draft.mixer.profile.sampler.stacks
        }),
{
    let quiet = Change::Sampler(SamplerChange::ButtonBlink(button, false));
    let bank = draft.mixer.profile.sampler.selected;
    let call = SamplerCall::KeepRecording { bank, button };
    let kept = if seen_doing(draft.mixer, button, SampleActivity::Recording) {
        draft.sampler(call)
    } else {
        draft
    };
    mixer_after_step(draft, Step::Sampler(call));
    sampler_after_change(kept, SamplerChange::ButtonBlink(button, false));
    let dark = kept.set(quiet);
    mixer_after_step(dark, Step::Usb(UsbCall::SendColourMap));
    assert(draft.sample_up(button) == dark.usb(UsbCall::SendColourMap)) by {
        reveal(Draft::sample_up);
        reveal(Draft::recording_released);
    }
    let record = SamplerCall::Record { bank, button };
    mixer_after_step(draft, Step::Sampler(record));
    assert(draft.sample_down(button) == draft.sampler(record)) by {
        reveal(Draft::sample_down);
    }
    reveal(Draft::then_do);
}

/// While samples are being cleared, a press does nothing, and the release removes every sample of that
/// button in the selected bank, and of no other, and ends the clearing. What the button plays stops at
/// once.
pub proof fn clearing_removes_the_samples_of_one_button(
    draft: Draft,
    button: SampleButtons,
    bank: SampleBank,
    other: SampleButtons,
)
    requires
        draft.mixer.profile.sampler.clear,
    ensures
        ({
            let down = draft.sample_down(button);
            let up = draft.sample_up(button);
            let selected = draft.mixer.profile.sampler.selected;
            let stack = draft.mixer.profile.sampler.stacks.at(bank).at(other);
            let left = up.mixer.profile.sampler.stacks.at(bank).at(other);
            &&& down == draft
            &&& !up.mixer.profile.sampler.clear
            &&& up.mixer.profile.sampler.selected == selected
            &&& up.mixer.profile.sampler.on == draft.mixer.profile.sampler.on
            &&& left.mode == stack.mode
            &&& left.order == stack.order
            &&& bank == selected && other == button ==> left.count == 0
            &&& bank != selected || other != button ==> left.count == stack.count
            &&& tells(up.steps, UsbCall::SendColourMap)
            &&& draft.mixer.sampler is Some ==> up.steps.len() > draft.steps.len()
                && up.steps[draft.steps.len() as int] == asks_to_stop(selected, button, true)[0]
        }),
{
    let selected = draft.mixer.profile.sampler.selected;
    let stop = SamplerCall::StopPlayback { bank: selected, button, force: true };
    let stopped = if draft.mixer.sampler is Some {
        draft.sampler(stop)
    } else {
        draft
    };
    mixer_after_step(draft, Step::Sampler(stop));
    sampler_after_change(stopped, SamplerChange::RemoveSamples(button));
    let removed = stopped.set(Change::Sampler(SamplerChange::RemoveSamples(button)));
    sampler_after_change(removed, SamplerChange::Clear(false));
    let ended = removed.set(Change::Sampler(SamplerChange::Clear(false)));
    mixer_after_step(ended, Step::Usb(UsbCall::SendColourMap));
    calls_after_step(ended, Step::Usb(UsbCall::SendColourMap), UsbCall::SendColourMap);
    assert(draft.sample_up(button) == ended.usb(UsbCall::SendColourMap)) by {
        reveal(Draft::sample_up);
        reveal(Draft::sample_cleared);
    }
    assert(draft.sample_down(button) == draft) by {
        reveal(Draft::sample_down);
    }
    assert(draft.mixer.sampler is Some ==> draft.sample_up(button).steps.len() > draft.steps.len()
        && draft.sample_up(button).steps[draft.steps.len() as int] == Step::Sampler(stop)) by {
        reveal(Draft::then_do);
    }
}

/// The clear button starts and ends the clearing, and says so. It does nothing while any button of any
/// bank records, or without an audio handler.
pub proof fn clear_button_toggles(draft: Draft, bank: SampleBank, button: SampleButtons)
    ensures
        ({
            let after = draft.sample_clear_toggled();
            let clear = draft.mixer.profile.sampler.clear;
            let recording = draft.mixer.sampler is Some && draft.mixer.sampler->0.activity.at(
                bank,
            ).at(button) == SampleActivity::Recording;
            &&& draft.mixer.sampler is None ==> after == draft
            &&& recording ==> after == draft
            &&& draft.mixer.sampler is Some && (forall|one: SampleBank, two: SampleButtons|
                #[trigger]
                draft.mixer.sampler->0.activity.at(one).at(two) != SampleActivity::Recording) ==> {
                &&& after.mixer.profile.sampler.clear == !clear
                &&& after.steps.len() == draft.steps.len() + 2
                &&& after.steps[draft.steps.len() as int] == Step::Say(
                    Announcement::SampleClear(!clear),
                )
                &&& after.mixer.sampler == draft.mixer.sampler
            }
        }),
{
    let after = draft.sample_clear_toggled();
    let clear = draft.mixer.profile.sampler.clear;
    if draft.mixer.sampler is Some && draft.mixer.sampler->0.activity.at(bank).at(button)
        == SampleActivity::Recording {
        assert(draft.mixer.activity(bank, button) == SampleActivity::Recording);
        assert(draft.mixer.records());
    }
    assert(after == (if draft.mixer.sampler is Some && !draft.mixer.records() {
        draft.say(Announcement::SampleClear(!clear)).set(
            Change::Sampler(SamplerChange::Clear(!clear)),
        )
    } else {
        draft
    })) by {
        reveal(Draft::sample_clear_toggled);
    }
    if draft.mixer.sampler is Some && (forall|one: SampleBank, two: SampleButtons| #[trigger]
        draft.mixer.sampler->0.activity.at(one).at(two) != SampleActivity::Recording) {
        assert(!draft.mixer.records());
        let said = draft.say(Announcement::SampleClear(!clear));
        mixer_after_step(draft, Step::Say(Announcement::SampleClear(!clear)));
        sampler_after_change(said, SamplerChange::Clear(!clear));
        assert(after.steps.len() == draft.steps.len() + 2 && after.steps[draft.steps.len() as int]
            == Step::Say(Announcement::SampleClear(!clear))) by {
            reveal(Draft::then_do);
        }
    }
}

/// Selecting a bank lights the button of that bank alone, says so, and lights every sample button whose
/// sample is heard; the others stay as they were.
pub proof fn selected_bank_is_shown(draft: Draft, bank: SampleBank, button: SampleButtons)
    ensures
        ({
            let after = draft.sample_bank_loaded(bank);
            let sampler = after.mixer.profile.sampler;
            let heard = draft.mixer.sampler is Some && (draft.mixer.sampler->0.activity.at(bank).at(
                button,
            ) == SampleActivity::Playing || draft.mixer.sampler->0.activity.at(bank).at(button)
                == SampleActivity::Stopping);
            &&& sampler.selected == bank
            &&& sampler.bank_on.at(bank)
            &&& draft.mixer.profile.sampler.selected != bank ==> !sampler.bank_on.at(
                draft.mixer.profile.sampler.selected,
            )
            &&& sampler.on.at(button) <==> heard || draft.mixer.profile.sampler.on.at(button)
            &&& sampler.blink == draft.mixer.profile.sampler.blink
            &&& sampler.stacks == draft.mixer.profile.sampler.stacks
            &&& sampler.clear == draft.mixer.profile.sampler.clear
            &&& after.steps.len() > draft.steps.len()
            &&& after.steps[draft.steps.len() as int] == Step::Say(Announcement::SampleBank(bank))
        }),
{
    reveal(Draft::sample_bank_loaded);
    let said = draft.say(Announcement::SampleBank(bank));
    mixer_after_step(draft, Step::Say(Announcement::SampleBank(bank)));
    let selected = said.set(Change::Sampler(SamplerChange::ActiveBank(bank)));
    sampler_after_change(said, SamplerChange::ActiveBank(bank));
    let one = selected.lit_if_playing(bank, SampleButtons::TopLeft);
    lemma_lit_if_playing(selected, bank, SampleButtons::TopLeft);
    let two = one.lit_if_playing(bank, SampleButtons::TopRight);
    lemma_lit_if_playing(one, bank, SampleButtons::TopRight);
    let three = two.lit_if_playing(bank, SampleButtons::BottomLeft);
    lemma_lit_if_playing(two, bank, SampleButtons::BottomLeft);
    lemma_lit_if_playing(three, bank, SampleButtons::BottomRight);
    assert(button == SampleButtons::TopLeft || button == SampleButtons::TopRight || button
        == SampleButtons::BottomLeft || button == SampleButtons::BottomRight);
    assert(selected.steps.len() > draft.steps.len() && selected.steps[draft.steps.len() as int]
        == Step::Say(Announcement::SampleBank(bank))) by {
        reveal(Draft::then_do);
    }
}

/// What lighting one button does.
proof fn lemma_lit_if_playing(draft: Draft, bank: SampleBank, button: SampleButtons)
    ensures
        ({
            let after = draft.lit_if_playing(bank, button);
            let before = draft.mixer.profile.sampler;
            let sampler = after.mixer.profile.sampler;
            let heard = draft.mixer.sampler is Some && (draft.mixer.sampler->0.activity.at(bank).at(
                button,
            ) == SampleActivity::Playing || draft.mixer.sampler->0.activity.at(bank).at(button)
                == SampleActivity::Stopping);
            &&& after.mixer.sampler == draft.mixer.sampler
            &&& sampler.on == (if heard {
                before.on.with(button, true)
            } else {
                before.on
            })
            &&& sampler.selected == before.selected
            &&& sampler.bank_on == before.bank_on
            &&& sampler.blink == before.blink
            &&& sampler.stacks == before.stacks
            &&& sampler.clear == before.clear
            &&& after.steps.len() >= draft.steps.len()
            &&& after.steps.take(draft.steps.len() as int) =~= draft.steps
        }),
{
    sampler_after_change(draft, SamplerChange::ButtonOn(button, true));
    reveal(Draft::lit_if_playing);
    reveal(Draft::set_if);
    reveal(Draft::then_do);
}

/// Whether the handler was seen to play a sample of the selected bank, be it one that was asked to
/// stop.
pub open spec fn heard(mixer: Mixer, button: SampleButtons) -> bool {
    seen_doing(mixer, button, SampleActivity::Playing) || seen_doing(
        mixer,
        button,
        SampleActivity::Stopping,
    )
}

/// What putting one button out does.
proof fn lemma_unlit_if_silent(draft: Draft, button: SampleButtons)
    ensures
        ({
            let after = draft.unlit_if_silent(button);
            let before = draft.mixer.profile.sampler;
            let sampler = after.mixer.profile.sampler;
            &&& after.mixer.sampler == draft.mixer.sampler
            &&& sampler.on == before.on.with(button, before.on.at(button) && heard(
                draft.mixer,
                button,
            ))
            &&& sampler.selected == before.selected
            &&& sampler.blink == before.blink
            &&& sampler.stacks == before.stacks
            &&& sampler.clear == before.clear
        }),
{
    sampler_after_change(draft, SamplerChange::ButtonOn(button, false));
    reveal(Draft::unlit_if_silent);
    reveal(Draft::set_if);
}

/// Where there is an audio handler, the lights follow what is heard: a button stays lit exactly if it
/// was and its sample still plays. The lights are sent exactly if one of them went out.
pub proof fn lights_follow_what_is_heard(draft: Draft, button: SampleButtons)
    requires
        draft.mixer.sampler is Some,
    ensures
        ({
            let after = draft.sample_lighting_synced();
            let before = draft.mixer.profile.sampler;
            let sampler = after.mixer.profile.sampler;
            &&& sampler.on.at(button) <==> before.on.at(button) && heard(draft.mixer, button)
            &&& sampler.selected == before.selected
            &&& sampler.blink == before.blink
            &&& sampler.stacks == before.stacks
            &&& sampler.clear == before.clear
            &&& draft.lighting_changes() <==> exists|other: SampleButtons| #[trigger]
                before.on.at(other) && !heard(draft.mixer, other)
        }),
{
    reveal(Draft::sample_lighting_synced);
    let one = draft.unlit_if_silent(SampleButtons::TopLeft);
    lemma_unlit_if_silent(draft, SampleButtons::TopLeft);
    let two = one.unlit_if_silent(SampleButtons::TopRight);
    lemma_unlit_if_silent(one, SampleButtons::TopRight);
    let three = two.unlit_if_silent(SampleButtons::BottomLeft);
    lemma_unlit_if_silent(two, SampleButtons::BottomLeft);
    let four = three.unlit_if_silent(SampleButtons::BottomRight);
    lemma_unlit_if_silent(three, SampleButtons::BottomRight);
    assert(four.usb_if(draft.lighting_changes(), UsbCall::SendButtonStates).mixer == four.mixer) by {
        reveal(Draft::usb_if);
        mixer_after_step(four, Step::Usb(UsbCall::SendButtonStates));
    }
    assert(button == SampleButtons::TopLeft || button == SampleButtons::TopRight || button
        == SampleButtons::BottomLeft || button == SampleButtons::BottomRight);
    let on = draft.mixer.profile.sampler.on;
    if on.top_left && !heard(draft.mixer, SampleButtons::TopLeft) {
        assert(on.at(SampleButtons::TopLeft) && !heard(draft.mixer, SampleButtons::TopLeft));
    }
    if on.top_right && !heard(draft.mixer, SampleButtons::TopRight) {
        assert(on.at(SampleButtons::TopRight) && !heard(draft.mixer, SampleButtons::TopRight));
    }
    if on.bottom_left && !heard(draft.mixer, SampleButtons::BottomLeft) {
        assert(on.at(SampleButtons::BottomLeft) && !heard(draft.mixer, SampleButtons::BottomLeft));
    }
    if on.bottom_right && !heard(draft.mixer, SampleButtons::BottomRight) {
        assert(on.at(SampleButtons::BottomRight) && !heard(draft.mixer, SampleButtons::BottomRight));
    }
    if exists|other: SampleButtons| #[trigger] on.at(other) && !heard(draft.mixer, other) {
        let other = choose|other: SampleButtons| #[trigger]
            on.at(other) && !heard(draft.mixer, other);
        assert(other == SampleButtons::TopLeft || other == SampleButtons::TopRight || other
            == SampleButtons::BottomLeft || other == SampleButtons::BottomRight);
    }
}

/// Whether the steps ask the sampler for something.
pub open spec fn asks(steps: Seq<Step>, call: SamplerCall) -> bool
    decreases steps.len(),
{
    if steps.len() == 0 {
        false
    } else {
        steps.last() == Step::Sampler(call) || asks(steps.drop_last(), call)
    }
}

/// What one more step asks of the sampler.
proof fn lemma_asks_after_step(draft: Draft, step: Step, call: SamplerCall)
    ensures
        asks(draft.then_do(step).steps, call) == (step == Step::Sampler(call) || asks(
            draft.steps,
            call,
        )),
{
    reveal(Draft::then_do);
    assert(draft.then_do(step).steps.drop_last() =~= draft.steps);
}

/// What stopping a button asks for.
proof fn lemma_sample_stopped(draft: Draft, bank: SampleBank, button: SampleButtons, call: SamplerCall)
    requires
        draft.mixer.sampler is Some,
    ensures
        ({
            let activity = draft.mixer.sampler->0.activity.at(bank).at(button);
            let playing = activity == SampleActivity::Playing || activity
                == SampleActivity::Stopping;
            let after = draft.sample_stopped(bank, button);
            &&& after.mixer.sampler == draft.mixer.sampler
            &&& asks(after.steps, call) == (asks(draft.steps, call) || (playing && call
                == SamplerCall::StopPlayback { bank, button, force: true }) || (activity
                == SampleActivity::Recording && call == SamplerCall::StopRecording { bank, button }))
        }),
{
    let stop = SamplerCall::StopPlayback { bank, button, force: true };
    let end = SamplerCall::StopRecording { bank, button };
    let off = SamplerChange::ButtonOn(button, false);
    let dark = SamplerChange::ButtonBlink(button, false);
    let stopped = draft.sampler(stop);
    mixer_after_step(draft, Step::Sampler(stop));
    lemma_asks_after_step(draft, Step::Sampler(stop), call);
    sampler_after_change(stopped, off);
    lemma_asks_after_step(stopped, Step::Apply(Change::Sampler(off)), call);
    let ended = draft.sampler(end);
    mixer_after_step(draft, Step::Sampler(end));
    lemma_asks_after_step(draft, Step::Sampler(end), call);
    sampler_after_change(ended, dark);
    lemma_asks_after_step(ended, Step::Apply(Change::Sampler(dark)), call);
    reveal(Draft::sample_stopped);
}

/// What stopping a bank asks for.
proof fn lemma_bank_stopped(draft: Draft, bank: SampleBank, other: SampleBank, button: SampleButtons)
    requires
        draft.mixer.sampler is Some,
    ensures
        ({
            let activity = draft.mixer.sampler->0.activity.at(other).at(button);
            let playing = activity == SampleActivity::Playing || activity
                == SampleActivity::Stopping;
            let stop = SamplerCall::StopPlayback { bank: other, button, force: true };
            let end = SamplerCall::StopRecording { bank: other, button };
            let after = draft.bank_stopped(bank);
            &&& after.mixer.sampler == draft.mixer.sampler
            &&& asks(after.steps, stop) == (asks(draft.steps, stop) || (bank == other && playing))
            &&& asks(after.steps, end) == (asks(draft.steps, end) || (bank == other && activity
                == SampleActivity::Recording))
        }),
{
    reveal(Draft::bank_stopped);
    let stop = SamplerCall::StopPlayback { bank: other, button, force: true };
    let end = SamplerCall::StopRecording { bank: other, button };
    lemma_sample_stopped(draft, bank, SampleButtons::TopLeft, stop);
    lemma_sample_stopped(draft, bank, SampleButtons::TopLeft, end);
    let one = draft.sample_stopped(bank, SampleButtons::TopLeft);
    lemma_sample_stopped(one, bank, SampleButtons::TopRight, stop);
    lemma_sample_stopped(one, bank, SampleButtons::TopRight, end);
    let two = one.sample_stopped(bank, SampleButtons::TopRight);
    lemma_sample_stopped(two, bank, SampleButtons::BottomLeft, stop);
    lemma_sample_stopped(two, bank, SampleButtons::BottomLeft, end);
    let three = two.sample_stopped(bank, SampleButtons::BottomLeft);
    lemma_sample_stopped(three, bank, SampleButtons::BottomRight, stop);
    lemma_sample_stopped(three, bank, SampleButtons::BottomRight, end);
}

/// Stopping everything stops each sample that is heard at once, and each recording, in every bank, and
/// asks nothing of the other buttons.
pub proof fn everything_is_stopped(draft: Draft, bank: SampleBank, button: SampleButtons)
    requires
        draft.steps.len() == 0,
        draft.mixer.sampler is Some,
    ensures
        ({
            let activity = draft.mixer.sampler->0.activity.at(bank).at(button);
            let after = draft.samples_stopped();
            &&& asks(after.steps, SamplerCall::StopPlayback { bank, button, force: true })
                <==> activity == SampleActivity::Playing || activity == SampleActivity::Stopping
            &&& asks(after.steps, SamplerCall::StopRecording { bank, button }) <==> activity
                == SampleActivity::Recording
        }),
{
    reveal(Draft::samples_stopped);
    lemma_bank_stopped(draft, SampleBank::A, bank, button);
    let one = draft.bank_stopped(SampleBank::A);
    lemma_bank_stopped(one, SampleBank::B, bank, button);
    let two = one.bank_stopped(SampleBank::B);
    lemma_bank_stopped(two, SampleBank::C, bank, button);
}

} // verus!
