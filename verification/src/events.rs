//! Events that concern the daemon as a whole.

use crate::packet::PathTypes;
use crate::text::{decimal, decimal_text, replace_all, replaced, same_text, texts};
use vstd::prelude::*;
use vstd::string::*;

verus! {

/// An event that concerns the daemon as a whole.
#[derive(Debug)]
pub enum EventTriggers {
    TTSMessage(String),
    /// The daemon is to stop; the flag says that the devices are not to be written to any more.
    Stop(bool),
    Sleep,
    Wake,
    Lock,
    Unlock,
    Open(PathTypes),
    Activate,
    OpenUi,
    DevicesStopped,
}

/// What is done about an event.
#[derive(Debug)]
pub enum EventAction {
    Speak(String),
    /// The devices are to shut down, with or without being written to.
    StopDevices(bool),
    /// The devices have stopped, so the rest of the daemon stops too.
    Finish,
    SleepDevices,
    WakeDevices,
    Nothing,
    OpenDirectory(PathTypes),
    OpenUrl,
    Activate,
}

/// The part of the daemon that takes events. The daemon stops in two phases: the devices first, and
/// the rest once they have.
#[derive(Clone, Copy, Debug, PartialEq, Eq, Structural)]
pub struct EventHandler {
    pub stopping: bool,
    pub finished: bool,
}

impl EventHandler {
    /// The handler after an event.
    pub open spec fn after(self, event: EventTriggers) -> EventHandler {
        EventHandler {
            stopping: self.stopping || event is Stop,
            finished: self.finished || event is DevicesStopped,
        }
    }

    /// What is done about an event.
    pub open spec fn action(self, event: EventTriggers) -> EventAction {
        match event {
            EventTriggers::TTSMessage(message) => EventAction::Speak(message),
            EventTriggers::Stop(avoid_write) => if self.stopping {
                EventAction::Nothing
            } else {
                EventAction::StopDevices(avoid_write)
            },
            EventTriggers::DevicesStopped => EventAction::Finish,
            EventTriggers::Sleep => EventAction::SleepDevices,
            EventTriggers::Wake => EventAction::WakeDevices,
            EventTriggers::Lock => EventAction::Nothing,
            EventTriggers::Unlock => EventAction::Nothing,
            EventTriggers::Open(kind) => EventAction::OpenDirectory(kind),
            EventTriggers::OpenUi => EventAction::OpenUrl,
            EventTriggers::Activate => EventAction::Activate,
        }
    }

    /// A handler that has seen no event.
    pub fn new() -> (handler: EventHandler)
        ensures
            !handler.stopping,
            !handler.finished,
    {
        EventHandler { stopping: false, finished: false }
    }

    /// Takes an event.
    pub fn handle(&mut self, event: EventTriggers) -> (action: EventAction)
        ensures
            *final(self) == old(self).after(event),
            action == old(self).action(event),
    {
        match event {
            EventTriggers::TTSMessage(message) => EventAction::Speak(message),
            EventTriggers::Stop(avoid_write) => {
                if self.stopping {
                    return EventAction::Nothing;
                }
                self.stopping = true;
                EventAction::StopDevices(avoid_write)
            },
            EventTriggers::DevicesStopped => {
                self.finished = true;
                EventAction::Finish
            },
            EventTriggers::Sleep => EventAction::SleepDevices,
            EventTriggers::Wake => EventAction::WakeDevices,
            EventTriggers::Lock | EventTriggers::Unlock => EventAction::Nothing,
            EventTriggers::Open(kind) => EventAction::OpenDirectory(kind),
            EventTriggers::OpenUi => EventAction::OpenUrl,
            EventTriggers::Activate => EventAction::Activate,
        }
    }

    /// Takes an interrupt from the keyboard, which stops the daemon as a request does.
    pub fn interrupt(&mut self) -> (action: EventAction)
        ensures
            *final(self) == old(self).after(EventTriggers::Stop(false)),
            action == old(self).action(EventTriggers::Stop(false)),
    {
        self.handle(EventTriggers::Stop(false))
    }
}

/// The handler after several events.
pub open spec fn after_all(handler: EventHandler, events: Seq<EventTriggers>) -> EventHandler
    decreases events.len(),
{
    if events.len() == 0 {
        handler
    } else {
        after_all(handler, events.drop_last()).after(events.last())
    }
}

/// How often the devices are told to shut down over several events.
pub open spec fn stops_sent(handler: EventHandler, events: Seq<EventTriggers>) -> int
    decreases events.len(),
{
    if events.len() == 0 {
        0
    } else {
        stops_sent(handler, events.drop_last()) + if after_all(
            handler,
            events.drop_last(),
        ).action(events.last()) is StopDevices {
            1int
        } else {
            0int
        }
    }
}

/// However often the daemon is told to stop, the devices are told once, and not at all if they were
/// told before.
pub proof fn devices_stop_once(handler: EventHandler, events: Seq<EventTriggers>)
    ensures
        0 <= stops_sent(handler, events) <= 1,
        handler.stopping ==> stops_sent(handler, events) == 0,
        stops_sent(handler, events) == 1 ==> after_all(handler, events).stopping,
        handler.stopping ==> after_all(handler, events).stopping,
        !handler.stopping && after_all(handler, events).stopping ==> stops_sent(handler, events)
            == 1,
    decreases events.len(),
{
    if events.len() > 0 {
        devices_stop_once(handler, events.drop_last());
    }
}

/// The address of the user interface. One that is bound to every interface is reached locally.
pub open spec fn util_url(bind_address: Seq<char>, port: nat) -> Seq<char> {
    "http://"@ + (if bind_address == "localhost"@ || bind_address == "0.0.0.0"@ {
        "localhost"@
    } else {
        bind_address
    }) + ":"@ + decimal(port) + "/"@
}

/// Names the address of the user interface.
pub fn get_util_url(bind_address: &str, port: u16) -> (url: String)
    ensures
        url@ == util_url(bind_address@, port as nat),
{
    let mut url = "http://".to_owned();
    if same_text(bind_address, "localhost") || same_text(bind_address, "0.0.0.0") {
        url.append("localhost");
    } else {
        url.append(bind_address);
    }
    url.append(":");
    url.append(decimal_text(port as u64).as_str());
    url.append("/");
    url
}

/// The words of a command line by the rules of a Unix shell; none where a quote is left open.
pub uninterp spec fn shell_words_of(command: Seq<char>) -> Option<Seq<Seq<char>>>;

/// The words of a command line by the rules of Windows.
pub uninterp spec fn windows_words_of(command: Seq<char>) -> Seq<Seq<char>>;

/// `shell_words::split` splits a command line as a Unix shell does, and fails where a quote is left
/// open.
#[verifier::external_body]
fn split_shell_words(command: &str) -> (words: Option<Vec<String>>)
    ensures
        words is Some <==> shell_words_of(command@) is Some,
        words is Some ==> texts(words->0@) == shell_words_of(command@)->0,
{
    shell_words::split(command).ok()
}

/// `windows_args::Args::parse_cmd` splits a command line as Windows does. There is always a first
/// word.
#[verifier::external_body]
fn split_windows_words(command: &str) -> (words: Vec<String>)
    ensures
        texts(words@) == windows_words_of(command@),
        words@.len() > 0,
{
    windows_args::Args::parse_cmd(command).collect()
}

/// What is started to bring up the user interface.
#[derive(Debug)]
pub enum Launch {
    /// The address is opened.
    Open,
    /// A program is run, with arguments; the address is opened where that fails.
    Run(String, Vec<String>),
}

/// Takes a command line apart into its program and the arguments.
pub fn launch_words(words: Vec<String>) -> (launch: Launch)
    requires
        words@.len() > 0,
    ensures
        launch matches Launch::Run(program, arguments) && program == words@[0] && arguments@
            == words@.skip(1),
{
    let mut words = words;
    let program = words.remove(0);
    Launch::Run(program, words)
}

/// Whether a launch runs these words.
pub open spec fn runs(launch: Launch, words: Seq<Seq<char>>) -> bool {
    launch matches Launch::Run(program, arguments) && program@ == words[0] && texts(arguments@)
        == words.skip(1)
}

/// Finds what is started on a Unix system. The address stands in for every `%URL%`. There is no
/// answer for a command without words.
pub fn unix_launch(activate: Option<&str>, url: &str) -> (launch: Option<Launch>)
    ensures
        match activate {
            None => launch == Some(Launch::Open),
            Some(command) => match shell_words_of(replaced(command@, "%URL%"@, url@)) {
                None => launch == Some(Launch::Open),
                Some(words) => if words.len() == 0 {
                    launch is None
                } else {
                    launch is Some && runs(launch->0, words)
                },
            },
        },
{
    let command = match activate {
        Some(command) => command,
        None => return Some(Launch::Open),
    };
    proof {
        reveal_strlit("%URL%");
    }
    let line = replace_all(command, "%URL%", url);
    match split_shell_words(line.as_str()) {
        Some(words) => {
            if words.len() == 0 {
                return None;
            }
            let ghost all = words@;
            let launch = launch_words(words);
            proof {
                assert(texts(all.skip(1)) =~= texts(all).skip(1));
            }
            Some(launch)
        },
        None => Some(Launch::Open),
    }
}

/// Finds what is started on Windows. The address stands in for every `%URL%`.
pub fn windows_launch(activate: Option<&str>, url: &str) -> (launch: Launch)
    ensures
        match activate {
            None => launch == Launch::Open,
            Some(command) => runs(launch, windows_words_of(replaced(command@, "%URL%"@, url@))),
        },
{
    let command = match activate {
        Some(command) => command,
        None => return Launch::Open,
    };
    proof {
        reveal_strlit("%URL%");
    }
    let line = replace_all(command, "%URL%", url);
    let words = split_windows_words(line.as_str());
    let ghost all = words@;
    let launch = launch_words(words);
    proof {
        assert(texts(all.skip(1)) =~= texts(all).skip(1));
    }
    launch
}

} // verus!
