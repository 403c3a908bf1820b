//! The samples that play and are recorded, and the audio devices that they go through.

use crate::types::{BankMap, SampleBank, SampleButtons, SampleMap};
use fancy_regex::Regex;
use crate::text::{chars_of, count, count_char, texts};
use vstd::prelude::*;
use vstd::string::*;

verus! {

/// What goes on behind a sample button.
#[derive(Clone, Copy, Debug, PartialEq, Eq, Structural)]
pub enum Stream {
    Idle,
    Playing,
    /// The sample was told to stop, and may be fading out.
    Stopping,
    Recording,
}

/// Why the sampler does not do what it is told.
#[derive(Clone, Copy, Debug, PartialEq, Eq, Structural)]
pub enum AudioError {
    NoOutputDevice,
    NoInputDevice,
    RecorderNotReady,
    StopPlaybackOfRecording,
    StopRecordingOfPlayback,
    NotRecording,
    AlreadyProcessing,
    NotProcessing,
}

/// What is done about the playback of a sample.
#[derive(Clone, Copy, Debug, PartialEq, Eq, Structural)]
pub enum StopAction {
    Nothing,
    /// It is told to stop.
    Stop,
    /// It is told to stop at once.
    StopAtOnce,
    /// It is told to stop at once, and its end is waited for.
    StopAndWait,
}

/// The pattern that the name of a device is looked at with is valid.
pub uninterp spec fn pattern_valid(pattern: Seq<char>) -> bool;

/// Whether a pattern is found in a text; nothing where the search was given up.
pub uninterp spec fn pattern_found(pattern: Seq<char>, text: Seq<char>) -> Option<bool>;

/// How many characters a pattern may have.
pub const LONGEST_PATTERN: usize = 10000;

/// How many digits the least counts of the repetitions in a pattern may have together. They are then
/// below ten thousand when they are multiplied.
pub const MOST_COUNT_DIGITS: usize = 4;

/// Whether a character is a decimal digit.
pub open spec fn is_decimal(c: char) -> bool {
    0x30 <= c as u32 <= 0x39
}

/// Whether a digit behind a text can belong to the least count of a repetition: a brace was opened,
/// and neither closed nor has the greatest count begun. Where remarks may stand in a brace, any opened
/// brace will do.
pub open spec fn counts_behind(text: Seq<char>, remarks: bool) -> bool
    decreases text.len(),
{
    if text.len() == 0 {
        false
    } else if text.last() == '{' {
        true
    } else if !remarks && (text.last() == '}' || text.last() == ',') {
        false
    } else {
        counts_behind(text.drop_last(), remarks)
    }
}

/// How many digits the least counts of the repetitions can have together.
pub open spec fn count_digits(pattern: Seq<char>, remarks: bool) -> nat
    decreases pattern.len(),
{
    if pattern.len() == 0 {
        0
    } else {
        let front = pattern.drop_last();
        count_digits(front, remarks) + if counts_behind(front, remarks) && is_decimal(
            pattern.last(),
        ) {
            1nat
        } else {
            0nat
        }
    }
}

/// How many more groups open in a text than close.
pub open spec fn open_groups(text: Seq<char>) -> int {
    count(text, '(') - count(text, ')')
}

/// Whether a reference to a group begins at a place of a pattern.
pub open spec fn refers_at(pattern: Seq<char>, i: int) -> bool {
    ||| {
        &&& pattern[i] == '\\'
        &&& i + 1 < pattern.len()
        &&& is_decimal(pattern[i + 1]) || pattern[i + 1] == 'k'
    }
    ||| {
        &&& pattern[i] == '?'
        &&& i + 2 < pattern.len()
        &&& pattern[i + 1] == 'P'
        &&& pattern[i + 2] == '='
    }
}

/// Whether the reference at a place stands in no group but, where it has brackets of its own, in
/// those. A reference by name must not give a number instead.
pub open spec fn refers_back(pattern: Seq<char>, i: int) -> bool {
    if pattern[i] == '?' {
        open_groups(pattern.take(i)) <= 1
    } else {
        &&& open_groups(pattern.take(i)) <= 0
        &&& pattern[i + 1] == 'k' ==> i + 3 < pattern.len() && !is_decimal(pattern[i + 3])
            && pattern[i + 3] != '-'
    }
}

/// Whether a bracket at a place, or behind it, may not be one that opens or closes a group: a class, a
/// comment and a sign that is meant literally can hold brackets too.
pub open spec fn blurs_at(pattern: Seq<char>, i: int) -> bool {
    ||| pattern[i] == '['
    ||| pattern[i] == '#'
    ||| pattern[i] == '\\' && i + 1 < pattern.len() && pattern[i + 1] == ')'
}

/// Whether a pattern can be looked for without harm. Counts that are large when they are multiplied
/// overflow or take forever, and a group that refers to itself can be asked for text that ends
/// before it begins. So neither is taken: where a pattern refers to groups, it does so outside of
/// all groups, and brackets are brackets of groups.
pub open spec fn is_tame(pattern: Seq<char>) -> bool {
    &&& pattern.len() <= LONGEST_PATTERN
    &&& count_digits(pattern, count(pattern, '#') > 0) <= MOST_COUNT_DIGITS
    &&& forall|i: int|
        0 <= i < pattern.len() && #[trigger] refers_at(pattern, i) ==> refers_back(pattern, i)
    &&& forall|i: int, j: int|
        0 <= i < pattern.len() && 0 <= j < pattern.len() && #[trigger] refers_at(pattern, i)
            ==> !#[trigger] blurs_at(pattern, j)
}

/// Finds whether a character is a decimal digit.
fn is_digit(c: char) -> (digit: bool)
    ensures
        digit == is_decimal(c),
{
    let code: u32 = c as u32;
    0x30 <= code && code <= 0x39
}

/// Finds whether a reference to a group begins at a place of a pattern.
fn finds_reference(pattern: &Vec<char>, i: usize) -> (refers: bool)
    requires
        i < pattern@.len() <= LONGEST_PATTERN,
    ensures
        refers == refers_at(pattern@, i as int),
{
    if i + 1 >= pattern.len() {
        return false;
    }
    let next: char = pattern[i + 1];
    if pattern[i] == '\\' {
        return is_digit(next) || next == 'k';
    }
    pattern[i] == '?' && i + 2 < pattern.len() && next == 'P' && pattern[i + 2] == '='
}

/// Finds whether the reference at a place stands in no group. `opened` and `closed` are the brackets
/// before it.
fn finds_reference_back(pattern: &Vec<char>, i: usize, opened: usize, closed: usize) -> (back: bool)
    requires
        i < pattern@.len() <= LONGEST_PATTERN,
        refers_at(pattern@, i as int),
        opened == count(pattern@.take(i as int), '('),
        closed == count(pattern@.take(i as int), ')'),
        closed <= i,
    ensures
        back == refers_back(pattern@, i as int),
{
    if pattern[i] == '?' {
        return opened <= closed + 1;
    }
    if opened > closed {
        return false;
    }
    if pattern[i + 1] != 'k' {
        return true;
    }
    i + 3 < pattern.len() && !is_digit(pattern[i + 3]) && pattern[i + 3] != '-'
}

/// Finds whether a bracket at a place, or behind it, may not be that of a group.
fn finds_blur(pattern: &Vec<char>, i: usize) -> (blurs: bool)
    requires
        i < pattern@.len() <= LONGEST_PATTERN,
    ensures
        blurs == blurs_at(pattern@, i as int),
{
    pattern[i] == '[' || pattern[i] == '#' || (pattern[i] == '\\' && i + 1 < pattern.len()
        && pattern[i + 1] == ')')
}

/// Finds whether a pattern can be looked for without harm.
pub fn check_pattern(pattern: &str) -> (tame: bool)
    ensures
        tame == is_tame(pattern@),
{
    let chars = chars_of(pattern);
    if chars.len() > LONGEST_PATTERN {
        return false;
    }
    let remarks: bool = count_char(&chars, '#') > 0;
    let mut i: usize = 0;
    let mut counts: bool = false;
    let mut digits: usize = 0;
    let mut opened: usize = 0;
    let mut closed: usize = 0;
    let mut refers: bool = false;
    let mut blurs: bool = false;
    let ghost mut place: int = 0;
    let ghost mut blur: int = 0;
    assert(chars@.take(0) =~= Seq::<char>::empty());
    while i < chars.len()
        invariant
            chars@ == pattern@,
            i <= chars@.len() <= LONGEST_PATTERN,
            counts == counts_behind(chars@.take(i as int), remarks),
            digits == count_digits(chars@.take(i as int), remarks),
            digits <= i,
            opened == count(chars@.take(i as int), '('),
            closed == count(chars@.take(i as int), ')'),
            opened <= i,
            closed <= i,
            forall|j: int|
                0 <= j < i && #[trigger] refers_at(pattern@, j) ==> refers && refers_back(
                    pattern@,
                    j,
                ),
            forall|j: int| 0 <= j < i && #[trigger] blurs_at(pattern@, j) ==> blurs,
            refers ==> 0 <= place < i && refers_at(pattern@, place),
            blurs ==> 0 <= blur < i && blurs_at(pattern@, blur),
        decreases chars@.len() - i,
    {
        assert(chars@.take(i + 1).drop_last() =~= chars@.take(i as int));
        if finds_reference(&chars, i) {
            if !finds_reference_back(&chars, i, opened, closed) {
                return false;
            }
            refers = true;
            proof {
                place = i as int;
            }
        }
        if finds_blur(&chars, i) {
            blurs = true;
            proof {
                blur = i as int;
            }
        }
        if counts && is_digit(chars[i]) {
            digits = digits + 1;
        }
        if chars[i] == '{' {
            counts = true;
        } else if !remarks && (chars[i] == '}' || chars[i] == ',') {
            counts = false;
        }
        if chars[i] == '(' {
            opened = opened + 1;
        }
        if chars[i] == ')' {
            closed = closed + 1;
        }
        i = i + 1;
    }
    assert(chars@.take(i as int) =~= chars@);
    digits <= MOST_COUNT_DIGITS && !(refers && blurs)
}

/// `Regex::new` accepts a pattern or not.
#[verifier::external_body]
fn is_valid_pattern(pattern: &str) -> (valid: bool)
    requires
        is_tame(pattern@),
    ensures
        valid == pattern_valid(pattern@),
{
    Regex::new(pattern).is_ok()
}

/// `Regex::is_match` looks for a pattern in a text, and may give up.
#[verifier::external_body]
fn find_pattern(pattern: &str, text: &str) -> (found: Option<bool>)
    requires
        is_tame(pattern@),
    ensures
        found == pattern_found(pattern@, text@),
{
    Regex::new(pattern).ok().and_then(|regex| regex.is_match(text).ok())
}

/// Whether one of some patterns is found in the name of a device.
pub open spec fn is_wanted(device: Seq<char>, patterns: Seq<Seq<char>>) -> bool {
    exists|i: int|
        0 <= i < patterns.len() && pattern_found(#[trigger] patterns[i], device) == Some(true)
}

/// Finds whether one of some patterns is found in the name of a device.
fn matches_any(device: &str, patterns: &Vec<String>) -> (wanted: bool)
    requires
        forall|i: int| 0 <= i < patterns@.len() ==> is_tame(#[trigger] patterns@[i]@),
    ensures
        wanted == is_wanted(device@, texts(patterns@)),
{
    let mut i: usize = 0;
    while i < patterns.len()
        invariant
            i <= patterns@.len(),
            forall|j: int| 0 <= j < patterns@.len() ==> is_tame(#[trigger] patterns@[j]@),
            forall|j: int|
                0 <= j < i ==> pattern_found(#[trigger] texts(patterns@)[j], device@) != Some(true),
        decreases patterns@.len() - i,
    {
        assert(texts(patterns@)[i as int] == patterns@[i as int]@);
        if let Some(true) = find_pattern(patterns[i].as_str(), device) {
            return true;
        }
        i = i + 1;
    }
    false
}

/// Finds the first device whose name has one of some patterns in it. There is no answer where a
/// pattern is not valid, or cannot be looked for without harm.
pub fn find_device(devices: &Vec<String>, patterns: &Vec<String>) -> (found: Option<Option<usize>>)
    ensures
        found is None <==> exists|i: int|
            0 <= i < patterns@.len() && !(is_tame(#[trigger] patterns@[i]@) && pattern_valid(
                patterns@[i]@,
            )),
        match found {
            Some(Some(place)) => {
                &&& place < devices@.len()
                &&& is_wanted(devices@[place as int]@, texts(patterns@))
                &&& forall|j: int|
                    0 <= j < place ==> !is_wanted(#[trigger] devices@[j]@, texts(patterns@))
            },
            Some(None) => forall|j: int|
                0 <= j < devices@.len() ==> !is_wanted(#[trigger] devices@[j]@, texts(patterns@)),
            None => true,
        },
{
    let mut i: usize = 0;
    while i < patterns.len()
        invariant
            i <= patterns@.len(),
            forall|j: int|
                0 <= j < i ==> is_tame(#[trigger] patterns@[j]@) && pattern_valid(patterns@[j]@),
        decreases patterns@.len() - i,
    {
        if !check_pattern(patterns[i].as_str()) {
            return None;
        }
        if !is_valid_pattern(patterns[i].as_str()) {
            return None;
        }
        i = i + 1;
    }
    let mut place: usize = 0;
    while place < devices.len()
        invariant
            place <= devices@.len(),
            forall|j: int|
                0 <= j < patterns@.len() ==> is_tame(#[trigger] patterns@[j]@) && pattern_valid(
                    patterns@[j]@,
                ),
            forall|j: int|
                0 <= j < place ==> !is_wanted(#[trigger] devices@[j]@, texts(patterns@)),
        decreases devices@.len() - place,
    {
        if matches_any(devices[place].as_str(), patterns) {
            return Some(Some(place));
        }
        place = place + 1;
    }
    Some(None)
}

/// The patterns for the device that samples are played on.
pub open spec fn usual_output_patterns() -> Seq<Seq<char>> {
    seq![
        "goxlr_sample"@,
        "GoXLR_0_8_9"@,
        "GoXLR.*HiFi__Line3__sink"@,
        "CoreAudio\\*Sample"@,
        "^WASAPI\\*Sample(?:(?!Mini).)*$"@,
    ]
}

/// The patterns for the device that samples are recorded from.
pub open spec fn usual_input_patterns() -> Seq<Seq<char>> {
    seq![
        "goxlr_sample.*source"@,
        "GoXLR_0_4_5.*source"@,
        "GoXLR.*HiFi__Line5__source"@,
        "CoreAudio\\*Sampler"@,
        "^WASAPI\\*Sample(?:(?!Mini).)*$"@,
    ]
}

/// Lists the patterns for the device that samples are played on. The user may give one instead.
pub fn get_output_device_string_patterns(custom: &Option<String>) -> (patterns: Vec<String>)
    ensures
        texts(patterns@) == (match *custom {
            Some(pattern) => seq![pattern@],
            None => usual_output_patterns(),
        }),
{
    let mut patterns: Vec<String> = Vec::new();
    if let Some(pattern) = custom {
        patterns.push(pattern.clone());
        assert(texts(patterns@) =~= seq![pattern@]);
        return patterns;
    }
    patterns.push("goxlr_sample".to_owned());
    patterns.push("GoXLR_0_8_9".to_owned());
    patterns.push("GoXLR.*HiFi__Line3__sink".to_owned());
    patterns.push("CoreAudio\\*Sample".to_owned());
    patterns.push("^WASAPI\\*Sample(?:(?!Mini).)*$".to_owned());
    assert(texts(patterns@) =~= usual_output_patterns());
    patterns
}

/// Lists the patterns for the device that samples are recorded from. The user may give one instead.
pub fn get_input_device_string_patterns(custom: &Option<String>) -> (patterns: Vec<String>)
    ensures
        texts(patterns@) == (match *custom {
            Some(pattern) => seq![pattern@],
            None => usual_input_patterns(),
        }),
{
    let mut patterns: Vec<String> = Vec::new();
    if let Some(pattern) = custom {
        patterns.push(pattern.clone());
        assert(texts(patterns@) =~= seq![pattern@]);
        return patterns;
    }
    patterns.push("goxlr_sample.*source".to_owned());
    patterns.push("GoXLR_0_4_5.*source".to_owned());
    patterns.push("GoXLR.*HiFi__Line5__source".to_owned());
    patterns.push("CoreAudio\\*Sampler".to_owned());
    patterns.push("^WASAPI\\*Sample(?:(?!Mini).)*$".to_owned());
    assert(texts(patterns@) =~= usual_input_patterns());
    patterns
}

/// The sampler: what goes on behind each button, and the sample whose gain is worked out.
#[derive(Clone, Copy, Debug, PartialEq, Eq)]
pub struct AudioHandler {
    /// Whether the device that samples are played on was found.
    pub has_output: bool,
    /// Whether there is a recorder.
    pub has_input: bool,
    pub streams: BankMap<SampleMap<Stream>>,
    pub process_task: Option<(SampleBank, SampleButtons)>,
}

/// A stream after a look at whether it ended.
pub open spec fn after_check(stream: Stream, finished: bool) -> Stream {
    if finished {
        Stream::Idle
    } else {
        stream
    }
}

/// The streams of a bank after a look at which of them ended.
pub open spec fn bank_after_check(streams: SampleMap<Stream>, finished: SampleMap<bool>) -> SampleMap<
    Stream,
> {
    SampleMap {
        top_left: after_check(streams.top_left, finished.top_left),
        top_right: after_check(streams.top_right, finished.top_right),
        bottom_left: after_check(streams.bottom_left, finished.bottom_left),
        bottom_right: after_check(streams.bottom_right, finished.bottom_right),
    }
}

/// Ends a stream that ended; says whether that changed anything.
fn check_stream(stream: &mut Stream, finished: bool) -> (changed: bool)
    ensures
        *final(stream) == after_check(*old(stream), finished),
        changed == (*final(stream) != *old(stream)),
{
    if finished && *stream != Stream::Idle {
        *stream = Stream::Idle;
        return true;
    }
    false
}

/// Ends the streams of a bank that ended; says whether that changed anything.
fn check_bank(streams: SampleMap<Stream>, finished: SampleMap<bool>) -> (result: (
    SampleMap<Stream>,
    bool,
))
    ensures
        result.0 == bank_after_check(streams, finished),
        result.1 == (result.0 != streams),
{
    let mut top_left = streams.top_left;
    let mut top_right = streams.top_right;
    let mut bottom_left = streams.bottom_left;
    let mut bottom_right = streams.bottom_right;
    let first = check_stream(&mut top_left, finished.top_left);
    let second = check_stream(&mut top_right, finished.top_right);
    let third = check_stream(&mut bottom_left, finished.bottom_left);
    let fourth = check_stream(&mut bottom_right, finished.bottom_right);
    (
        SampleMap { top_left, top_right, bottom_left, bottom_right },
        first || second || third || fourth,
    )
}

impl AudioHandler {
    /// What goes on behind a button.
    pub open spec fn stream(self, bank: SampleBank, button: SampleButtons) -> Stream {
        self.streams.at(bank).at(button)
    }

    /// The sampler with something else going on behind one button.
    pub open spec fn with_stream(self, bank: SampleBank, button: SampleButtons, stream: Stream) -> AudioHandler {
        AudioHandler {
            streams: self.streams.with(bank, self.streams.at(bank).with(button, stream)),
            ..self
        }
    }

    /// Nothing plays.
    pub fn new(has_input: bool) -> (handler: AudioHandler)
        ensures
            !handler.has_output,
            handler.has_input == has_input,
            forall|bank: SampleBank, button: SampleButtons| #[trigger]
                handler.stream(bank, button) == Stream::Idle,
            handler.process_task is None,
    {
        AudioHandler {
            has_output: false,
            has_input,
            streams: BankMap::fill(SampleMap::fill(Stream::Idle)),
            process_task: None,
        }
    }

    /// Finds what goes on behind a button.
    fn get_stream(&self, bank: SampleBank, button: SampleButtons) -> (stream: Stream)
        ensures
            stream == self.stream(bank, button),
    {
        *self.streams.get(bank).get(button)
    }

    /// Sets what goes on behind a button.
    fn set_stream(&mut self, bank: SampleBank, button: SampleButtons, stream: Stream)
        ensures
            *final(self) == old(self).with_stream(bank, button, stream),
    {
        let mut buttons = *self.streams.get(bank);
        buttons.set(button, stream);
        self.streams.set(bank, buttons);
    }

    /// Forgets the streams that ended; says whether there were any.
    pub fn check_playing(&mut self, finished: BankMap<SampleMap<bool>>) -> (changed: bool)
        ensures
            *final(self) == (AudioHandler { streams: final(self).streams, ..*old(self) }),
            forall|bank: SampleBank, button: SampleButtons| #[trigger]
                final(self).stream(bank, button) == after_check(
                    old(self).stream(bank, button),
                    finished.at(bank).at(button),
                ),
            changed == (final(self).streams != old(self).streams),
    {
        let (a, first) = check_bank(self.streams.a, finished.a);
        let (b, second) = check_bank(self.streams.b, finished.b);
        let (c, third) = check_bank(self.streams.c, finished.c);
        self.streams = BankMap { a, b, c };
        first || second || third
    }

    /// Finds whether a sample plays, or is fading out.
    pub fn is_sample_playing(&self, bank: SampleBank, button: SampleButtons) -> (playing: bool)
        ensures
            playing == (self.stream(bank, button) == Stream::Playing || self.stream(bank, button)
                == Stream::Stopping),
    {
        let stream = self.get_stream(bank, button);
        stream == Stream::Playing || stream == Stream::Stopping
    }

    /// Finds whether a button records.
    pub fn sample_recording(&self, bank: SampleBank, button: SampleButtons) -> (recording: bool)
        ensures
            recording == (self.stream(bank, button) == Stream::Recording),
    {
        self.get_stream(bank, button) == Stream::Recording
    }

    /// Finds whether any button records.
    pub fn is_sample_recording(&self) -> (recording: bool)
        ensures
            recording == exists|bank: SampleBank, button: SampleButtons| #[trigger]
                self.stream(bank, button) == Stream::Recording,
    {
        let banks = SampleBank::all();
        let buttons = SampleButtons::all();
        let mut i: usize = 0;
        while i < banks.len()
            invariant
                i <= banks@.len(),
                banks@.len() == 3,
                buttons@.len() == 4,
                forall|v: SampleBank| 0 <= v.index() < 3 && #[trigger] banks@[v.index()] == v,
                forall|v: SampleButtons| 0 <= v.index() < 4 && #[trigger] buttons@[v.index()] == v,
                forall|bank: SampleBank, button: SampleButtons|
                    bank.index() < i ==> #[trigger] self.stream(bank, button) != Stream::Recording,
            decreases banks@.len() - i,
        {
            let mut k: usize = 0;
            while k < buttons.len()
                invariant
                    i < banks@.len(),
                    k <= buttons@.len(),
                    banks@.len() == 3,
                    buttons@.len() == 4,
                    forall|v: SampleBank| 0 <= v.index() < 3 && #[trigger] banks@[v.index()] == v,
                    forall|v: SampleButtons|
                        0 <= v.index() < 4 && #[trigger] buttons@[v.index()] == v,
                    forall|bank: SampleBank, button: SampleButtons|
                        bank.index() < i || (bank.index() == i && button.index() < k)
                            ==> #[trigger] self.stream(bank, button) != Stream::Recording,
                decreases buttons@.len() - k,
            {
                if self.sample_recording(banks[i], buttons[k]) {
                    return true;
                }
                assert forall|bank: SampleBank, button: SampleButtons|
                    bank.index() < i || (bank.index() == i && button.index() < k + 1) implies #[trigger] self.stream(
                bank, button) != Stream::Recording by {
                    if bank.index() == i && button.index() == k {
                        assert(banks@[bank.index()] == bank);
                        assert(buttons@[button.index()] == button);
                    }
                }
                k = k + 1;
            }
            assert forall|bank: SampleBank, button: SampleButtons|
                bank.index() < i + 1 implies #[trigger] self.stream(bank, button)
                != Stream::Recording by {
                assert(buttons@[button.index()] == button);
            }
            i = i + 1;
        }
        assert forall|bank: SampleBank, button: SampleButtons| #[trigger]
            self.stream(bank, button) != Stream::Recording by {
            assert(banks@[bank.index()] == bank);
        }
        false
    }

    /// Finds whether a sample was told to stop and has not ended.
    pub fn is_sample_stopping(&self, bank: SampleBank, button: SampleButtons) -> (stopping: bool)
        ensures
            stopping == (self.stream(bank, button) == Stream::Stopping),
    {
        self.get_stream(bank, button) == Stream::Stopping
    }

    /// Takes note that a sample plays. There must be a device to play it on.
    pub fn play_for_button(&mut self, bank: SampleBank, button: SampleButtons) -> (result: Result<
        (),
        AudioError,
    >)
        ensures
            old(self).has_output ==> result is Ok && *final(self) == old(self).with_stream(
                bank,
                button,
                Stream::Playing,
            ),
            !old(self).has_output ==> result.err() == Some(AudioError::NoOutputDevice)
                && *final(self) == *old(self),
    {
        if !self.has_output {
            return Err(AudioError::NoOutputDevice);
        }
        self.set_stream(bank, button, Stream::Playing);
        Ok(())
    }

    /// Stops the playback of a sample. The second time it is stopped at once.
    pub fn stop_playback(&mut self, bank: SampleBank, button: SampleButtons, force: bool) -> (action:
        Result<StopAction, AudioError>)
        ensures
            match old(self).stream(bank, button) {
                Stream::Recording => action == Err::<StopAction, _>(
                    AudioError::StopPlaybackOfRecording,
                ) && *final(self) == *old(self),
                Stream::Idle => action == Ok::<_, AudioError>(StopAction::Nothing) && *final(self)
                    == *old(self),
                Stream::Stopping => action == Ok::<_, AudioError>(StopAction::StopAndWait)
                    && *final(self) == old(self).with_stream(bank, button, Stream::Idle),
                Stream::Playing => action == Ok::<_, AudioError>(
                    if force {
                        StopAction::StopAtOnce
                    } else {
                        StopAction::Stop
                    },
                ) && *final(self) == old(self).with_stream(bank, button, Stream::Stopping),
            },
    {
        match self.get_stream(bank, button) {
            Stream::Recording => Err(AudioError::StopPlaybackOfRecording),
            Stream::Idle => Ok(StopAction::Nothing),
            Stream::Stopping => {
                self.set_stream(bank, button, Stream::Idle);
                Ok(StopAction::StopAndWait)
            },
            Stream::Playing => {
                self.set_stream(bank, button, Stream::Stopping);
                if force {
                    Ok(StopAction::StopAtOnce)
                } else {
                    Ok(StopAction::Stop)
                }
            },
        }
    }

    /// Takes note that a button records. `ready` says whether the recorder hears its device.
    pub fn record_for_button(&mut self, bank: SampleBank, button: SampleButtons, ready: bool) -> (result:
        Result<(), AudioError>)
        ensures
            result.err() == (if !old(self).has_input {
                Some(AudioError::NoInputDevice)
            } else if !ready {
                Some(AudioError::RecorderNotReady)
            } else {
                None
            }),
            *final(self) == (if result is Ok {
                old(self).with_stream(bank, button, Stream::Recording)
            } else {
                *old(self)
            }),
    {
        if !self.has_input {
            return Err(AudioError::NoInputDevice);
        }
        if !ready {
            return Err(AudioError::RecorderNotReady);
        }
        self.set_stream(bank, button, Stream::Recording);
        Ok(())
    }

    /// Ends a recording.
    pub fn stop_record(&mut self, bank: SampleBank, button: SampleButtons) -> (result: Result<
        (),
        AudioError,
    >)
        ensures
            result.err() == (match old(self).stream(bank, button) {
                Stream::Recording => None,
                Stream::Idle => Some(AudioError::NotRecording),
                _ => Some(AudioError::StopRecordingOfPlayback),
            }),
            *final(self) == (if result is Ok {
                old(self).with_stream(bank, button, Stream::Idle)
            } else {
                *old(self)
            }),
    {
        match self.get_stream(bank, button) {
            Stream::Recording => {
                self.set_stream(bank, button, Stream::Idle);
                Ok(())
            },
            Stream::Idle => Err(AudioError::NotRecording),
            _ => Err(AudioError::StopRecordingOfPlayback),
        }
    }

    /// Begins to work out the gain of a sample. One at a time is worked on.
    pub fn calculate_gain_thread(&mut self, bank: SampleBank, button: SampleButtons) -> (result: Result<
        (),
        AudioError,
    >)
        ensures
            result.err() == (if old(self).process_task is Some {
                Some(AudioError::AlreadyProcessing)
            } else {
                None
            }),
            *final(self) == (if old(self).process_task is Some {
                *old(self)
            } else {
                AudioHandler { process_task: Some((bank, button)), ..*old(self) }
            }),
    {
        if self.process_task.is_some() {
            return Err(AudioError::AlreadyProcessing);
        }
        self.process_task = Some((bank, button));
        Ok(())
    }

    /// Finds whether the gain of a sample is being worked out.
    pub fn is_calculating(&self) -> (calculating: bool)
        ensures
            calculating == (self.process_task is Some),
    {
        self.process_task.is_some()
    }

    /// Finds whether the gain has been worked out. `finished` says whether the work has ended.
    pub fn is_calculating_complete(&self, finished: bool) -> (complete: Result<bool, AudioError>)
        ensures
            complete == (if self.process_task is Some {
                Ok::<bool, AudioError>(finished)
            } else {
                Err(AudioError::NotProcessing)
            }),
    {
        if self.process_task.is_none() {
            return Err(AudioError::NotProcessing);
        }
        Ok(finished)
    }

    /// Finds how far the work is, which `progress` says.
    pub fn get_calculating_progress(&self, progress: u8) -> (result: Result<u8, AudioError>)
        ensures
            result == (if self.process_task is Some {
                Ok::<u8, AudioError>(progress)
            } else {
                Err(AudioError::NotProcessing)
            }),
    {
        if self.process_task.is_none() {
            return Err(AudioError::NotProcessing);
        }
        Ok(progress)
    }

    /// Takes the sample whose gain was worked out.
    pub fn get_and_clear_calculating_result(&mut self) -> (sample: Result<
        (SampleBank, SampleButtons),
        AudioError,
    >)
        ensures
            sample == (match old(self).process_task {
                Some(sample) => Ok::<_, AudioError>(sample),
                None => Err(AudioError::NotProcessing),
            }),
            *final(self) == (AudioHandler { process_task: None, ..*old(self) }),
    {
        match self.process_task.take() {
            Some(sample) => Ok(sample),
            None => Err(AudioError::NotProcessing),
        }
    }
}

/// What is done behind one button leaves every other button alone.
pub proof fn buttons_are_apart(
    handler: AudioHandler,
    bank: SampleBank,
    button: SampleButtons,
    stream: Stream,
    other_bank: SampleBank,
    other_button: SampleButtons,
)
    ensures
        handler.with_stream(bank, button, stream).stream(bank, button) == stream,
        (bank, button) != (other_bank, other_button) ==> handler.with_stream(
            bank,
            button,
            stream,
        ).stream(other_bank, other_button) == handler.stream(other_bank, other_button),
{
}

} // verus!
