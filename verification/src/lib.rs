//! A minimal instrumentation primitive for distributed tracing.
//!
//! A trace collector capability ([`collect::Trace`]) is installed in a
//! binding slot for the dynamic extent of a unit of work; code running
//! inside that extent can open spans against whatever collector is
//! currently bound, without holding a reference to it. A span is closed
//! exactly once, when its owner ends it.

pub mod collect;

use vstd::prelude::*;
use std::sync::Arc;
use crate::collect::{SpanHandle, Trace, TraceSlot};

verus! {

/// The lifecycle state a span value is in while it is alive.
///
/// The terminal `Closed` state of the lifecycle has no representation
/// here: ending a span consumes it, so no closed span value exists and
/// no transition out of `Closed` can even be written.
pub enum SpanState {
    /// The bound collector accepted the span and assigned `id`.
    Created { id: usize },
    /// No collector was bound, or the collector declined the span; the
    /// span is a silent no-op.
    Declined,
}

/// A span: the user-facing value returned by [`span`]. It owns the
/// handle of a created span (or nothing, for a declined one) and closes
/// it exactly once, when [`Span::end`] consumes it.
pub struct Span<C> {
    id: SpanId<C>,
}

/// A span identifier: owns the span handle if the collector created one.
pub struct SpanId<C> {
    handle: Option<SpanHandle<C>>,
}

/// The lifecycle state a span starts in, as a function of the outcome
/// the bound collector's `new_span` produced.
pub open spec fn span_state_of<C>(outcome: Option<SpanHandle<C>>) -> SpanState {
    match outcome {
        Some(h) => SpanState::Created { id: h.id_spec() },
        None => SpanState::Declined,
    }
}

/// The identifier a span in state `state` closes when it ends: the
/// created identifier, or nothing for a declined span.
pub open spec fn closed_id_of(state: SpanState) -> Option<usize> {
    match state {
        SpanState::Created { id } => Some(id),
        SpanState::Declined => None,
    }
}

impl<C> View for SpanId<C> {
    type V = SpanState;

    closed spec fn view(&self) -> SpanState {
        span_state_of(self.handle)
    }
}

impl<C> View for Span<C> {
    type V = SpanState;

    closed spec fn view(&self) -> SpanState {
        self.id@
    }
}

/// Build the span that a `new_span` outcome calls for: a `Created` span
/// carrying the returned handle, or a `Declined` no-op span.
pub fn span_from_outcome<C: Trace>(outcome: Option<SpanHandle<C>>) -> (s: Span<C>)
    ensures
        s@ == span_state_of(outcome),
{
    Span { id: SpanId { handle: outcome } }
}

/// Open a span named `name` against whatever collector `slot` currently
/// binds.
///
/// With no bound collector the span is `Declined` and no capability is
/// invoked; with a bound collector the span is whatever its `new_span`
/// outcome calls for. Requesting a span never fails merely because
/// tracing is inactive.
pub fn span<C: Trace>(slot: &TraceSlot<C>, name: &str) -> (s: Span<C>)
    ensures
        slot.current_spec() == None::<Arc<C>> ==> s@ == SpanState::Declined,
        s@ matches SpanState::Created { .. } ==> slot.current_spec() matches Some(_),
{
    let outcome = match slot.current() {
        Some(trace) => (&**trace).new_span(name),
        None => None,
    };
    span_from_outcome(outcome)
}

impl<C: Trace> Span<C> {
    /// End the span: the single end-of-scope transition.
    ///
    /// A `Created` span notifies its collector exactly once, closing the
    /// identifier assigned at creation; a `Declined` span ends as a
    /// no-op. Either way the span is consumed, so it cannot end twice.
    pub fn end(self) -> (closed: Option<usize>)
        ensures
            closed == closed_id_of(self@),
    {
        match self.id.handle {
            Some(handle) => Some(handle.close()),
            None => None,
        }
    }

    /// Whether the bound collector accepted this span.
    pub fn is_created(&self) -> (b: bool)
        ensures
            b == (self@ matches SpanState::Created { .. }),
    {
        match &self.id.handle {
            Some(_) => true,
            None => false,
        }
    }
}

/// Law: a span built from the outcome `Some(h)` starts `Created` with
/// `h`'s identifier and, when ended, closes exactly that identifier;
/// one built from `None` starts `Declined` and closes nothing.
pub proof fn lemma_span_lifecycle<C>(outcome: Option<SpanHandle<C>>)
    ensures
        closed_id_of(span_state_of(outcome)) == (match outcome {
            Some(h) => Some(h.id_spec()),
            None => None::<usize>,
        }),
{
}

} // verus!
