//! The notification action listener's decision rules.
//!
//! One listener is spawned per completed recording, correlated to the
//! notification it concerns by the notification id. It waits on an
//! action-invoked event stream, each wait under its own fresh time bound.
//! The waiting, with its timeouts, is the caller's; every decision about
//! an observed event — ignore it, dispatch it, or finish — is made, and
//! proved, here.

use vstd::prelude::*;

use crate::text::str_eq;

verus! {

/// The action named by a matching event.
#[derive(Clone, Copy, Debug, PartialEq, Eq, Structural)]
pub enum ActionKind {
    /// "copy-path": write the file path to the clipboard.
    CopyPath,
    /// "open-file": open the file with a platform file opener.
    OpenFile,
    /// Any other action name: log a warning, do nothing else.
    Unknown,
}

/// One observation made while waiting on the event stream.
pub enum ListenerEvent {
    /// The wait's time bound elapsed with no event.
    Timeout,
    /// The event stream closed.
    StreamClosed,
    /// An action-invoked event, with the notification id it belongs to.
    Action { id: u32, key: String },
}

/// What the listener does with one observation.
pub enum ListenerStep {
    /// The event belongs to another notification: keep waiting, under a
    /// fresh time bound that the previous wait does not extend.
    KeepWaiting,
    /// The event matches: dispatch this action once, then terminate.
    Dispatch { action: ActionKind },
    /// Timeout or stream closure: terminate with no side effect.
    Finish,
}

/// How a whole listener run ended.
pub enum ListenerOutcome {
    /// No decisive event yet: the listener is still waiting.
    Waiting,
    /// An event matched the notification id; its action was dispatched
    /// once, and the listener terminated.
    Matched { action: ActionKind },
    /// A timeout or stream closure ended the listener before any matching
    /// event: no side effect happened.
    Ended,
}

/// The action a key names: exactly "copy-path" and "open-file" are known.
pub open spec fn spec_classify(key: Seq<char>) -> ActionKind {
    if key == "copy-path"@ {
        ActionKind::CopyPath
    } else if key == "open-file"@ {
        ActionKind::OpenFile
    } else {
        ActionKind::Unknown
    }
}

/// The decision for one observation, for the listener watching `my_id`.
pub open spec fn spec_listener_step(my_id: u32, ev: ListenerEvent) -> ListenerStep {
    match ev {
        ListenerEvent::Timeout => ListenerStep::Finish,
        ListenerEvent::StreamClosed => ListenerStep::Finish,
        ListenerEvent::Action { id, key } => {
            if id != my_id {
                ListenerStep::KeepWaiting
            } else {
                ListenerStep::Dispatch { action: spec_classify(key@) }
            }
        },
    }
}

/// The outcome of a listener run over a sequence of observations: the
/// first decisive observation wins, non-matching events are skipped.
pub open spec fn spec_listener_outcome(my_id: u32, evs: Seq<ListenerEvent>) -> ListenerOutcome
    decreases evs.len(),
{
    if evs.len() == 0 {
        ListenerOutcome::Waiting
    } else {
        match spec_listener_step(my_id, evs[0]) {
            ListenerStep::KeepWaiting => spec_listener_outcome(my_id, evs.drop_first()),
            ListenerStep::Dispatch { action } => ListenerOutcome::Matched { action },
            ListenerStep::Finish => ListenerOutcome::Ended,
        }
    }
}

/// The action a key names.
pub fn classify_action(key: &str) -> (k: ActionKind)
    ensures
        k == spec_classify(key@),
{
    if str_eq(key, "copy-path") {
        ActionKind::CopyPath
    } else if str_eq(key, "open-file") {
        ActionKind::OpenFile
    } else {
        ActionKind::Unknown
    }
}

/// Decide what to do with one observation. After `Dispatch` or `Finish`
/// the caller terminates the listener; after `KeepWaiting` it waits again
/// under a fresh time bound.
pub fn listener_step(my_id: u32, ev: &ListenerEvent) -> (s: ListenerStep)
    ensures
        s == spec_listener_step(my_id, *ev),
{
    match ev {
        ListenerEvent::Timeout => ListenerStep::Finish,
        ListenerEvent::StreamClosed => ListenerStep::Finish,
        ListenerEvent::Action { id, key } => {
            if *id != my_id {
                ListenerStep::KeepWaiting
            } else {
                ListenerStep::Dispatch { action: classify_action(key.as_str()) }
            }
        },
    }
}

/// Law: an event with a non-matching id leaves the listener waiting: it
/// is skipped, and the run's outcome is that of the remaining events.
pub proof fn lemma_nonmatching_event_keeps_waiting(my_id: u32, evs: Seq<ListenerEvent>)
    requires
        evs.len() > 0,
        evs[0] matches ListenerEvent::Action { id, .. } && id != my_id,
    ensures
        spec_listener_step(my_id, evs[0]) == ListenerStep::KeepWaiting,
        spec_listener_outcome(my_id, evs) == spec_listener_outcome(my_id, evs.drop_first()),
{
}

/// Law: an event with a matching id and an unknown action key terminates
/// the listener with no side effect beyond a logged warning: the dispatch
/// it reports carries the `Unknown` action, which does nothing.
pub proof fn lemma_matching_unknown_key_terminates(my_id: u32, evs: Seq<ListenerEvent>)
    requires
        evs.len() > 0,
        evs[0] matches ListenerEvent::Action { id, key } && id == my_id && spec_classify(key@)
            == ActionKind::Unknown,
    ensures
        spec_listener_step(my_id, evs[0]) == (ListenerStep::Dispatch {
            action: ActionKind::Unknown,
        }),
        spec_listener_outcome(my_id, evs) == (ListenerOutcome::Matched {
            action: ActionKind::Unknown,
        }),
{
}

/// Law: a wait that ends by timeout (and likewise a closed stream)
/// terminates the listener with no side effect, whatever events follow.
pub proof fn lemma_timeout_terminates(my_id: u32, evs: Seq<ListenerEvent>)
    requires
        evs.len() > 0,
        evs[0] is Timeout || evs[0] is StreamClosed,
    ensures
        spec_listener_step(my_id, evs[0]) == ListenerStep::Finish,
        spec_listener_outcome(my_id, evs) == ListenerOutcome::Ended,
{
}

} // verus!
