//! A batch of change notifications, as the watcher delivers it.

use crate::list::{push_unique, spec_unique};
use vstd::prelude::*;
use vstd::string::*;

verus! {

/// A signal sent to the watching process.
#[derive(Clone, Copy, Debug, PartialEq, Eq, Structural)]
pub enum Signal {
    /// The terminal was closed.
    Hangup,
    /// The process is to stop at once.
    ForceStop,
    /// The user interrupted the process.
    Interrupt,
    /// The user asked the process to quit.
    Quit,
    /// The process is asked to terminate.
    Terminate,
    /// First user-defined signal.
    User1,
    /// Second user-defined signal.
    User2,
    /// Any other signal, by its number.
    Custom(i32),
}

/// One change notification: the paths it is about and the signals it carries.
#[derive(Debug)]
pub struct Event {
    /// The affected paths.
    pub paths: Vec<String>,
    /// The signals received.
    pub signals: Vec<Signal>,
}

/// The paths of all of `events`, in order, with repetitions.
pub open spec fn spec_all_paths(events: Seq<Event>) -> Seq<Seq<char>>
    decreases events.len(),
{
    if events.len() == 0 {
        Seq::empty()
    } else {
        spec_all_paths(events.drop_last()) + events.last().paths.deep_view()
    }
}

/// Whether one of `events` carries `signal`.
pub open spec fn spec_has_signal(events: Seq<Event>, signal: Signal) -> bool {
    exists|i: int, j: int|
        0 <= i < events.len() && 0 <= j < events[i].signals@.len() && (
        #[trigger] events[i].signals@[j]) == signal
}

/// A batch of change notifications that is handled as one.
#[derive(Debug)]
pub struct WAction {
    events: Vec<Event>,
}

impl View for WAction {
    type V = Seq<Event>;

    closed spec fn view(&self) -> Seq<Event> {
        self.events@
    }
}

impl WAction {
    /// A batch made of `events`.
    pub fn new(events: Vec<Event>) -> (r: Self)
        ensures
            r@ == events@,
    {
        WAction { events }
    }

    /// The notifications of the batch.
    pub fn take(self) -> (r: Vec<Event>)
        ensures
            r@ == self@,
    {
        self.events
    }

    /// Whether the batch carries an interrupt.
    pub fn is_interrupt(&self) -> (r: bool)
        ensures
            r == spec_has_signal(self@, Signal::Interrupt),
    {
        self.is_any_signal(Signal::Interrupt)
    }

    /// Whether the batch carries a request to terminate.
    pub fn is_terminate(&self) -> (r: bool)
        ensures
            r == spec_has_signal(self@, Signal::Terminate),
    {
        self.is_any_signal(Signal::Terminate)
    }

    /// The paths that the batch is about, each once, in the order in which
    /// they first occur.
    pub fn get_unique_paths(&self) -> (r: Vec<String>)
        ensures
            r.deep_view() == spec_unique(spec_all_paths(self@)),
    {
        let mut out: Vec<String> = Vec::new();
        let mut i: usize = 0;
        assert(self@.subrange(0, 0) =~= Seq::<Event>::empty());
        assert(out.deep_view() =~= Seq::<Seq<char>>::empty());
        while i < self.events.len()
            invariant
                i <= self.events.len(),
                self@ == self.events@,
                out.deep_view() == spec_unique(spec_all_paths(self@.subrange(0, i as int))),
            decreases self.events.len() - i,
        {
            let event = &self.events[i];
            let ghost before = spec_all_paths(self@.subrange(0, i as int));
            let ghost paths = event.paths.deep_view();
            let mut j: usize = 0;
            assert(before + paths.subrange(0, 0) =~= before);
            while j < event.paths.len()
                invariant
                    j <= event.paths.len(),
                    paths == event.paths.deep_view(),
                    out.deep_view() == spec_unique(before + paths.subrange(0, j as int)),
                decreases event.paths.len() - j,
            {
                assert((before + paths.subrange(0, j + 1)).drop_last() =~= before + paths.subrange(
                    0,
                    j as int,
                ));
                push_unique(&mut out, event.paths[j].as_str());
                j += 1;
            }
            assert(paths.subrange(0, paths.len() as int) =~= paths);
            assert(self@.subrange(0, i + 1).drop_last() =~= self@.subrange(0, i as int));
            i += 1;
        }
        assert(self@.subrange(0, self.events.len() as int) =~= self@);
        out
    }

    /// Whether one of the notifications carries `signal`.
    fn is_any_signal(&self, signal: Signal) -> (r: bool)
        ensures
            r == spec_has_signal(self@, signal),
    {
        let mut i: usize = 0;
        while i < self.events.len()
            invariant
                i <= self.events.len(),
                self@ == self.events@,
                forall|a: int, b: int|
                    0 <= a < i && 0 <= b < self@[a].signals@.len() ==> (
                    #[trigger] self@[a].signals@[b]) != signal,
            decreases self.events.len() - i,
        {
            let event = &self.events[i];
            let mut j: usize = 0;
            while j < event.signals.len()
                invariant
                    j <= event.signals.len(),
                    i < self@.len(),
                    *event == self@[i as int],
                    forall|b: int| 0 <= b < j ==> (#[trigger] event.signals@[b]) != signal,
                decreases event.signals.len() - j,
            {
                if event.signals[j] == signal {
                    assert(self@[i as int].signals@[j as int] == signal);
                    return true;
                }
                j += 1;
            }
            i += 1;
        }
        false
    }
}

} // verus!
