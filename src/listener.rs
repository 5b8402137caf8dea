use vstd::prelude::*;
use crate::device::ReadOutcome;

verus! {

/// What one poll of the device produced.
pub enum PollEvent {
    /// Bytes arrived; they are carried as text, decoded leniently.
    DataReceived(String),
    /// Nothing to report this cycle: no device, a timeout, or an empty read.
    Quiet,
    /// The device failed; the description of the failure.
    PortError(String),
}

/// The text that `String::from_utf8_lossy` makes of `b`.
pub uninterp spec fn lossy_text(b: Seq<u8>) -> Seq<char>;

/// Each byte taken as the character of the same code.
pub open spec fn ascii_chars(b: Seq<u8>) -> Seq<char> {
    b.map_values(|c: u8| c as char)
}

pub open spec fn all_ascii(b: Seq<u8>) -> bool {
    forall|i: int| 0 <= i < b.len() ==> b[i] < 128
}

/// Relies on `String::from_utf8_lossy`: the text depends on the bytes alone,
/// and valid UTF-8 (so any run of ASCII bytes) comes back unchanged.
#[verifier::external_body]
fn decode_lossy(b: &[u8]) -> (r: String)
    ensures
        r@ == lossy_text(b@),
        all_ascii(b@) ==> r@ == ascii_chars(b@),
{
    String::from_utf8_lossy(b).into_owned()
}

/// How a read outcome is reported.
pub open spec fn reports(o: ReadOutcome, e: PollEvent) -> bool {
    match o {
        ReadOutcome::Data(b) => if b@.len() > 0 {
            &&& e is DataReceived
            &&& e->DataReceived_0@ == lossy_text(b@)
            &&& all_ascii(b@) ==> e->DataReceived_0@ == ascii_chars(b@)
        } else {
            e is Quiet
        },
        ReadOutcome::TimedOut => e is Quiet,
        ReadOutcome::Failed(m) => e is PortError && e->PortError_0@ == m@,
    }
}

/// Turns one read outcome into the event to report: received bytes become
/// text, a timeout or an empty read is quiet, and any other failure is a
/// port error carrying its description.
pub fn classify_read(o: ReadOutcome) -> (r: PollEvent)
    ensures
        reports(o, r),
{
    match o {
        ReadOutcome::Data(b) => {
            if b.len() > 0 {
                PollEvent::DataReceived(decode_lossy(b.as_slice()))
            } else {
                PollEvent::Quiet
            }
        },
        ReadOutcome::TimedOut => PollEvent::Quiet,
        ReadOutcome::Failed(m) => PollEvent::PortError(m),
    }
}

/// Starting while a listener runs.
#[derive(Debug, PartialEq, Eq, Structural)]
pub enum ListenerError {
    AlreadyRunning,
}

/// What a polling loop does after one poll.
#[derive(Debug, PartialEq, Eq, Structural)]
pub enum LoopAction {
    Continue,
    Exit,
}

/// The listener's state: the running flag, and the generation of the
/// polling loop that the flag belongs to.
pub struct ListenerView {
    pub running: bool,
    pub generation: u64,
}

pub open spec fn next_generation(g: u64) -> u64 {
    if g < u64::MAX { (g + 1) as u64 } else { 0 }
}

/// Starting: rejected while running; otherwise a new generation runs.
pub open spec fn started(v: ListenerView) -> (ListenerView, Result<u64, ListenerError>) {
    if v.running {
        (v, Err(ListenerError::AlreadyRunning))
    } else {
        let g = next_generation(v.generation);
        (ListenerView { running: true, generation: g }, Ok(g))
    }
}

/// Stopping clears the flag, whatever it was.
pub open spec fn stopped(v: ListenerView) -> ListenerView {
    ListenerView { running: false, generation: v.generation }
}

/// The loop of generation `token` is the one that should keep polling.
pub open spec fn is_current(v: ListenerView, token: u64) -> bool {
    v.running && v.generation == token
}

/// A loop that ends clears the flag, unless a newer loop owns it.
pub open spec fn ended(v: ListenerView, token: u64) -> ListenerView {
    if v.generation == token { stopped(v) } else { v }
}

/// How the listener's state and the loop's next step follow one event.
pub open spec fn after_event(v: ListenerView, token: u64, e: PollEvent) -> (ListenerView, LoopAction) {
    if e is PortError {
        (ended(v, token), LoopAction::Exit)
    } else {
        (v, LoopAction::Continue)
    }
}

/// The running flag of the background polling loop.
pub struct Listener {
    running: bool,
    generation: u64,
}

impl View for Listener {
    type V = ListenerView;

    closed spec fn view(&self) -> ListenerView {
        ListenerView { running: self.running, generation: self.generation }
    }
}

impl Listener {
    /// An idle listener.
    pub fn new() -> (r: Self)
        ensures
            !r@.running,
    {
        Listener { running: false, generation: 0 }
    }

    pub fn is_running(&self) -> (r: bool)
        ensures
            r == self@.running,
    {
        self.running
    }

    /// Marks a new polling loop as running and returns its generation, or
    /// fails with `AlreadyRunning` and changes nothing.
    pub fn start(&mut self) -> (r: Result<u64, ListenerError>)
        ensures
            (final(self)@, r) == started(old(self)@),
    {
        if self.running {
            return Err(ListenerError::AlreadyRunning);
        }
        let g: u64 = if self.generation < u64::MAX { self.generation + 1 } else { 0 };
        self.generation = g;
        self.running = true;
        Ok(g)
    }

    /// Asks the polling loop to stop; does nothing when idle.
    pub fn stop(&mut self)
        ensures
            final(self)@ == stopped(old(self)@),
    {
        self.running = false;
    }

    /// Whether the loop of generation `token` should poll again.
    pub fn should_poll(&self, token: u64) -> (r: bool)
        ensures
            r == is_current(self@, token),
    {
        self.running && self.generation == token
    }

    /// Records the outcome of one poll by the loop of generation `token` and
    /// says whether that loop goes on. A port error stops the listener.
    pub fn after_poll(&mut self, token: u64, e: &PollEvent) -> (r: LoopAction)
        ensures
            (final(self)@, r) == after_event(old(self)@, token, *e),
    {
        match e {
            PollEvent::PortError(_) => {
                self.finish(token);
                LoopAction::Exit
            },
            _ => LoopAction::Continue,
        }
    }

    /// Cleanup when the loop of generation `token` exits: the flag is
    /// cleared unless a newer loop owns it.
    pub fn finish(&mut self, token: u64)
        ensures
            final(self)@ == ended(old(self)@, token),
    {
        if self.generation == token {
            self.running = false;
        }
    }
}

/// A second start without a stop in between is rejected and leaves the
/// listener that the first one left.
pub proof fn lemma_second_start_rejected(v: ListenerView)
    ensures
        started(started(v).0).1 == Err::<u64, ListenerError>(ListenerError::AlreadyRunning),
        started(started(v).0).0 == started(v).0,
{
}

/// Once started, only the newest loop is current: a loop of any earlier
/// generation that was running before stops polling.
pub proof fn lemma_one_current_loop(v: ListenerView, token: u64)
    requires
        started(v).1 is Ok,
        token != started(v).1->Ok_0,
    ensures
        !is_current(started(v).0, token),
{
}

} // verus!
