//! One run of the pipeline: rewrite the submitted text, give the focus back
//! to the window it came from, and paste the result there.
//!
//! The stages themselves are the caller's work. A [`PipelineRequest`] names
//! the stage that is due and a [`PipelineEvent`] tells how it went; the
//! functions here decide the order of the stages and when to stop.

use crate::activate::{ActivationFailure, ActivationOutcome};
use crate::inject::InjectError;
use crate::rewrite::RewriteError;
use crate::snapshot::WindowSnapshot;
use vstd::prelude::*;

verus! {

/// How a run ended.
#[derive(Clone, Copy, Debug, PartialEq, Eq)]
pub enum Verdict {
    /// The rewrite failed; there is no text.
    RewriteFailed(RewriteError),
    /// The text was rewritten and pasted.
    Pasted,
    /// The text was rewritten; there was no window to paste it into.
    NoTarget,
    /// The text was rewritten; the window could not be activated, so
    /// nothing was pasted.
    ActivationFailed(ActivationFailure),
    /// The text was rewritten; pasting it failed.
    InjectFailed(InjectError),
    /// An event arrived that did not answer the stage that was due.
    OutOfOrder,
}

/// The stage that is due.
#[derive(Debug, PartialEq, Eq)]
pub enum PipelineRequest {
    /// Have `text` rewritten, and look up the last window once that is done.
    Rewrite { text: String },
    /// Hide the utility's window.
    Hide,
    /// Give `target` the focus.
    Activate { target: WindowSnapshot },
    /// Paste `text` into the focused window.
    Deliver { text: String },
    /// Nothing more to do.
    Finish { verdict: Verdict },
}

/// How a stage went.
#[derive(Debug, PartialEq, Eq)]
pub enum PipelineEvent {
    /// The rewrite has ended with `result`, and the store held `target` at
    /// that moment.
    Rewritten { result: Result<String, RewriteError>, target: Option<WindowSnapshot> },
    /// The utility's window is hidden.
    Hidden,
    /// The activation has ended.
    Activated(ActivationOutcome),
    /// The delivery has ended.
    Delivered(Result<(), InjectError>),
}

/// The state of one run.
#[derive(Debug, PartialEq, Eq)]
pub struct PipelineSession {
    /// The stage that the caller is to perform next.
    pub pending: PipelineRequest,
    /// The text as it was submitted.
    pub original: String,
    /// The rewritten text, once there is one.
    pub rewritten: String,
    /// The window to paste into, once it is known.
    pub target: Option<WindowSnapshot>,
}

/// The message for a run that ended out of order.
pub open spec fn out_of_order_text() -> Seq<char> {
    "Pipeline event out of order"@
}

impl PipelineSession {
    /// Whether the run has ended.
    pub open spec fn finished(self) -> bool {
        self.pending is Finish
    }

    /// Whether this is the session with which the run for `text` starts.
    pub open spec fn starts_with(self, text: String) -> bool {
        &&& self.pending == (PipelineRequest::Rewrite { text })
        &&& self.original == text
        &&& self.rewritten@ == Seq::<char>::empty()
        &&& self.target is None
    }

    /// The session that has ended with `verdict`.
    pub open spec fn end_spec(self, verdict: Verdict) -> PipelineSession {
        PipelineSession { pending: PipelineRequest::Finish { verdict }, ..self }
    }

    /// The session after `event`. The stages follow each other in one order:
    /// rewrite, hide, activate, deliver. The run ends early where the rewrite
    /// fails, where there is no window to paste into, and where the
    /// activation fails; an event that does not answer the stage that is due
    /// ends it too.
    pub open spec fn step_spec(self, event: PipelineEvent) -> PipelineSession {
        match self.pending {
            PipelineRequest::Rewrite { .. } => match event {
                PipelineEvent::Rewritten { result: Ok(text), target: Some(window) } =>
                    PipelineSession {
                        pending: PipelineRequest::Hide,
                        rewritten: text,
                        target: Some(window),
                        ..self
                    },
                PipelineEvent::Rewritten { result: Ok(text), target: None } => PipelineSession {
                    pending: PipelineRequest::Finish { verdict: Verdict::NoTarget },
                    rewritten: text,
                    target: None,
                    ..self
                },
                PipelineEvent::Rewritten { result: Err(error), .. } => self.end_spec(
                    Verdict::RewriteFailed(error),
                ),
                _ => self.end_spec(Verdict::OutOfOrder),
            },
            PipelineRequest::Hide => match (event, self.target) {
                (PipelineEvent::Hidden, Some(window)) => PipelineSession {
                    pending: PipelineRequest::Activate { target: window },
                    ..self
                },
                _ => self.end_spec(Verdict::OutOfOrder),
            },
            PipelineRequest::Activate { .. } => match event {
                PipelineEvent::Activated(ActivationOutcome::Failed(reason)) => self.end_spec(
                    Verdict::ActivationFailed(reason),
                ),
                PipelineEvent::Activated(_) => PipelineSession {
                    pending: PipelineRequest::Deliver { text: self.rewritten },
                    ..self
                },
                _ => self.end_spec(Verdict::OutOfOrder),
            },
            PipelineRequest::Deliver { .. } => match event {
                PipelineEvent::Delivered(Ok(_)) => self.end_spec(Verdict::Pasted),
                PipelineEvent::Delivered(Err(error)) => self.end_spec(
                    Verdict::InjectFailed(error),
                ),
                _ => self.end_spec(Verdict::OutOfOrder),
            },
            PipelineRequest::Finish { .. } => self,
        }
    }

    /// What the command hands back once the run has ended: the submitted and
    /// the rewritten text where there is a rewritten text and pasting it did
    /// not fail, and the failure's message otherwise.
    pub open spec fn result_spec(self) -> Option<Result<(Seq<char>, Seq<char>), Seq<char>>> {
        match self.pending {
            PipelineRequest::Finish { verdict } => Some(
                match verdict {
                    Verdict::RewriteFailed(error) => Err(error.text()),
                    Verdict::InjectFailed(error) => Err(error.text()),
                    Verdict::OutOfOrder => Err(out_of_order_text()),
                    Verdict::Pasted | Verdict::NoTarget | Verdict::ActivationFailed(_) => Ok(
                        (self.original@, self.rewritten@),
                    ),
                },
            ),
            _ => None,
        }
    }

    /// An upper bound on the number of events after which the run ends.
    pub open spec fn budget(self) -> nat {
        match self.pending {
            PipelineRequest::Rewrite { .. } => 4,
            PipelineRequest::Hide => 3,
            PipelineRequest::Activate { .. } => 2,
            PipelineRequest::Deliver { .. } => 1,
            PipelineRequest::Finish { .. } => 0,
        }
    }

    /// Takes the event that tells how the pending stage went and decides the
    /// next stage. A delivery is asked for only in answer to an activation
    /// that did not fail, and then for the rewritten text.
    pub fn step(self, event: PipelineEvent) -> (next: PipelineSession)
        ensures
            next == self.step_spec(event),
            event matches PipelineEvent::Activated(ActivationOutcome::Failed(_))
                ==> next.finished(),
            next.pending is Deliver ==> self.pending is Activate && (event
                matches PipelineEvent::Activated(outcome) && outcome.allows_paste())
                && next.pending == (PipelineRequest::Deliver { text: self.rewritten }),
    {
        let PipelineSession { pending, original, rewritten, target } = self;
        match pending {
            PipelineRequest::Rewrite { text } => match event {
                PipelineEvent::Rewritten { result: Ok(improved), target: Some(window) } =>
                    PipelineSession {
                        pending: PipelineRequest::Hide,
                        original,
                        rewritten: improved,
                        target: Some(window),
                    },
                PipelineEvent::Rewritten { result: Ok(improved), target: None } =>
                    PipelineSession {
                        pending: PipelineRequest::Finish { verdict: Verdict::NoTarget },
                        original,
                        rewritten: improved,
                        target: None,
                    },
                PipelineEvent::Rewritten { result: Err(error), .. } => PipelineSession {
                    pending: PipelineRequest::Finish { verdict: Verdict::RewriteFailed(error) },
                    original,
                    rewritten,
                    target,
                },
                _ => PipelineSession {
                    pending: PipelineRequest::Finish { verdict: Verdict::OutOfOrder },
                    original,
                    rewritten,
                    target,
                },
            },
            PipelineRequest::Hide => match (event, &target) {
                (PipelineEvent::Hidden, Some(window)) => {
                    let next = PipelineRequest::Activate { target: window.clone() };
                    PipelineSession { pending: next, original, rewritten, target }
                },
                _ => PipelineSession {
                    pending: PipelineRequest::Finish { verdict: Verdict::OutOfOrder },
                    original,
                    rewritten,
                    target,
                },
            },
            PipelineRequest::Activate { .. } => match event {
                PipelineEvent::Activated(ActivationOutcome::Failed(reason)) => PipelineSession {
                    pending: PipelineRequest::Finish {
                        verdict: Verdict::ActivationFailed(reason),
                    },
                    original,
                    rewritten,
                    target,
                },
                PipelineEvent::Activated(_) => {
                    let next = PipelineRequest::Deliver { text: rewritten.clone() };
                    PipelineSession { pending: next, original, rewritten, target }
                },
                _ => PipelineSession {
                    pending: PipelineRequest::Finish { verdict: Verdict::OutOfOrder },
                    original,
                    rewritten,
                    target,
                },
            },
            PipelineRequest::Deliver { .. } => match event {
                PipelineEvent::Delivered(Ok(_)) => PipelineSession {
                    pending: PipelineRequest::Finish { verdict: Verdict::Pasted },
                    original,
                    rewritten,
                    target,
                },
                PipelineEvent::Delivered(Err(error)) => PipelineSession {
                    pending: PipelineRequest::Finish { verdict: Verdict::InjectFailed(error) },
                    original,
                    rewritten,
                    target,
                },
                _ => PipelineSession {
                    pending: PipelineRequest::Finish { verdict: Verdict::OutOfOrder },
                    original,
                    rewritten,
                    target,
                },
            },
            PipelineRequest::Finish { verdict } => PipelineSession {
                pending: PipelineRequest::Finish { verdict },
                original,
                rewritten,
                target,
            },
        }
    }

    /// What the command hands back, once the run has ended.
    pub fn result(&self) -> (handed: Option<Result<(String, String), String>>)
        ensures
            match handed {
                Some(Ok((original, rewritten))) => self.result_spec() == Some(
                    Ok::<(Seq<char>, Seq<char>), Seq<char>>((original@, rewritten@)),
                ),
                Some(Err(message)) => self.result_spec() == Some(
                    Err::<(Seq<char>, Seq<char>), Seq<char>>(message@),
                ),
                None => self.result_spec() is None,
            },
    {
        match &self.pending {
            PipelineRequest::Finish { verdict } => Some(
                match verdict {
                    Verdict::RewriteFailed(error) => Err(error.message()),
                    Verdict::InjectFailed(error) => Err(error.message()),
                    Verdict::OutOfOrder => Err("Pipeline event out of order".to_owned()),
                    _ => Ok((self.original.clone(), self.rewritten.clone())),
                },
            ),
            _ => None,
        }
    }
}

/// Starts the run for a submitted text: the rewrite is due first.
pub fn paste_into_previous_app(text: String) -> (session: PipelineSession)
    ensures
        session.starts_with(text),
{
    PipelineSession {
        pending: PipelineRequest::Rewrite { text: text.clone() },
        original: text,
        rewritten: String::new(),
        target: None,
    }
}

/// The session after the events `events`, in their order.
pub open spec fn pipeline_run(start: PipelineSession, events: Seq<PipelineEvent>) -> PipelineSession
    decreases events.len(),
{
    if events.len() == 0 {
        start
    } else {
        pipeline_run(start, events.drop_last()).step_spec(events.last())
    }
}

/// A run that has ended stays as it is, whatever events follow.
pub proof fn lemma_finished_stays(start: PipelineSession, events: Seq<PipelineEvent>)
    requires
        start.finished(),
    ensures
        pipeline_run(start, events) == start,
    decreases events.len(),
{
    if events.len() > 0 {
        lemma_finished_stays(start, events.drop_last());
    }
}

/// A run over `events` is the run over its first `upto` events, carried on
/// over the rest.
pub proof fn lemma_run_splits(start: PipelineSession, events: Seq<PipelineEvent>, upto: int)
    requires
        0 <= upto <= events.len(),
    ensures
        pipeline_run(start, events) == pipeline_run(
            pipeline_run(start, events.take(upto)),
            events.skip(upto),
        ),
    decreases events.len(),
{
    if upto == events.len() {
        assert(events.take(upto) =~= events);
        assert(events.skip(upto).len() == 0);
    } else {
        lemma_run_splits(start, events.drop_last(), upto);
        assert(events.drop_last().take(upto) =~= events.take(upto));
        assert(events.drop_last().skip(upto) =~= events.skip(upto).drop_last());
        assert(events.skip(upto).last() == events.last());
    }
}

/// A failed activation stops the run: from whatever session, once the event
/// of a failed activation has come, no delivery is asked for, neither in
/// answer to it nor after any events that follow.
pub proof fn law_failed_activation_blocks_delivery(
    start: PipelineSession,
    events: Seq<PipelineEvent>,
    failed_at: int,
    later: int,
)
    requires
        0 <= failed_at < later <= events.len(),
        events[failed_at] matches PipelineEvent::Activated(ActivationOutcome::Failed(_)),
    ensures
        pipeline_run(start, events.take(later)).finished(),
        !(pipeline_run(start, events.take(later)).pending is Deliver),
{
    let seen = events.take(later);
    let before = seen.take(failed_at + 1);
    assert(before.last() == events[failed_at]);
    let stopped = pipeline_run(start, before);
    assert(stopped == pipeline_run(start, before.drop_last()).step_spec(before.last()));
    assert(stopped.finished());
    lemma_run_splits(start, seen, failed_at + 1);
    lemma_finished_stays(stopped, seen.skip(failed_at + 1));
}

/// A delivery is asked for only after an activation that did not fail: where
/// a run from the start has come to ask for a delivery, the event just before
/// was the end of an activation with an outcome other than a failure, and
/// the text to deliver is the rewritten text.
pub proof fn law_delivery_follows_activation(
    start: PipelineSession,
    events: Seq<PipelineEvent>,
)
    requires
        start.pending is Rewrite,
        pipeline_run(start, events).pending is Deliver,
    ensures
        events.len() > 0,
        events.last() matches PipelineEvent::Activated(outcome) && outcome.allows_paste(),
        pipeline_run(start, events.drop_last()).pending is Activate,
        pipeline_run(start, events).pending == (PipelineRequest::Deliver {
            text: pipeline_run(start, events).rewritten,
        }),
{
}

/// Every run ends: after four events at the latest, whatever they are.
pub proof fn law_pipeline_ends(start: PipelineSession, events: Seq<PipelineEvent>)
    ensures
        pipeline_run(start, events).budget() + events.len() <= start.budget() || pipeline_run(
            start,
            events,
        ).finished(),
        events.len() >= 4 ==> pipeline_run(start, events).finished(),
    decreases events.len(),
{
    if events.len() > 0 {
        law_pipeline_ends(start, events.drop_last());
    }
}

} // verus!
