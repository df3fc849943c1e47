//! What is done about a batch of notifications.

use crate::action::{spec_has_signal, Signal, WAction};
use crate::batch::{spec_batch, spec_batch_reachable, Batch, BatchView};
use crate::framework::{spec_batch_tasks, WatchableFramework};
use vstd::prelude::*;

verus! {

/// How long the watcher waits for further changes before it delivers a
/// batch, in milliseconds.
pub const ACTION_THROTTLE_MILLIS: u64 = 200;

/// How long the set-up waits for the test validator to come up, in seconds.
pub const VALIDATOR_GRACE_SECS: u64 = 2;

/// What the host does about a batch.
#[derive(Debug)]
pub enum Reaction {
    /// Stop watching and exit. Nothing is built, deployed or updated.
    Stop,
    /// Handle the changed files as the batch handling asks, step by step. A
    /// failure ends the handling of the batch, and never the watching.
    Run(Batch),
}

/// A `Reaction` as the library reasons about it.
pub enum ReactionView {
    /// Stop watching and exit.
    Stop,
    /// Handle the changed files.
    Run(BatchView),
}

impl View for Reaction {
    type V = ReactionView;

    open spec fn view(&self) -> ReactionView {
        match self {
            Reaction::Stop => ReactionView::Stop,
            Reaction::Run(batch) => ReactionView::Run(batch@),
        }
    }
}

/// Whether a batch asks the watcher to stop: it carries an interrupt or a
/// request to terminate.
pub open spec fn spec_stops(events: Seq<crate::action::Event>) -> bool {
    spec_has_signal(events, Signal::Interrupt) || spec_has_signal(events, Signal::Terminate)
}

/// What is done about a batch of notifications: where it carries an
/// interrupt or a request to terminate, watching stops and none of its paths
/// is looked at; otherwise its changed files are handled as the framework
/// has it.
pub fn on_action<F: WatchableFramework>(action: &WAction, framework: &F) -> (r: Reaction)
    ensures
        r@ == if spec_stops(action@) {
            ReactionView::Stop
        } else {
            ReactionView::Run(spec_batch(spec_batch_tasks(framework.spec_declaration(), action@)))
        },
        r matches Reaction::Run(batch) ==> spec_batch_reachable(batch@),
{
    if action.is_interrupt() || action.is_terminate() {
        return Reaction::Stop;
    }
    Reaction::Run(framework.on_action(action))
}

} // verus!
