use vstd::prelude::*;
use std::sync::Arc;

verus! {

/// The capability interface a trace collector backend implements.
///
/// A collector is shared (reference counted), so one backend can stand
/// behind many concurrently open spans; it decides on its own whether a
/// requested span is created or declined.
pub trait Trace: Sized {
    /// Ask the collector to open a span named `name`.
    ///
    /// Returning `None` declines the span (for example when sampling is
    /// off or the backend is unavailable); callers must treat that as a
    /// silent no-op outcome, never as an error.
    fn new_span(&self, name: &str) -> Option<SpanHandle<Self>>;

    /// Notify the collector that the span with identifier `id` has ended.
    ///
    /// The core issues this call at most once per handle it holds.
    fn close_span(&self, id: usize);
}

/// Handle to a span: a shared reference to the collector that created it,
/// together with the identifier the collector assigned.
///
/// Closing consumes the handle, so at most one close is ever issued per
/// handle, by construction.
pub struct SpanHandle<C> {
    trace: Arc<C>,
    id: usize,
}

impl<C> SpanHandle<C> {
    /// The identifier the collector assigned to this span.
    pub closed spec fn id_spec(&self) -> usize {
        self.id
    }

    /// The collector that is notified when this span closes.
    pub closed spec fn trace_spec(&self) -> Arc<C> {
        self.trace
    }
}

impl<C: Trace> SpanHandle<C> {
    /// Couple a shared collector reference with the identifier it assigned.
    pub fn new(trace: Arc<C>, id: usize) -> (h: SpanHandle<C>)
        ensures
            h.id_spec() == id,
            h.trace_spec() == trace,
    {
        SpanHandle { trace, id }
    }

    /// Close the span: notifies the collector once and returns the
    /// identifier that was closed. Consuming `self` makes a second close
    /// of the same handle impossible.
    pub fn close(self) -> (id: usize)
        ensures
            id == self.id_spec(),
    {
        (&*self.trace).close_span(self.id);
        self.id
    }
}

/// The scoped binding slot: holds at most one currently bound trace
/// collector capability, as an owned shared reference.
///
/// Holding the capability by ownership (rather than by a borrowed
/// reference whose lifetime a slot could not express) makes a read after
/// the binding scope structurally impossible: the bound reference lives
/// exactly as long as the slot value that holds it.
pub struct TraceSlot<C> {
    current: Option<Arc<C>>,
}

impl<C: Trace> TraceSlot<C> {
    /// The capability currently bound in this slot, if any.
    pub closed spec fn current_spec(&self) -> Option<Arc<C>> {
        self.current
    }

    /// A slot with nothing bound: the documented initial state of every
    /// binding slot.
    pub fn empty() -> (slot: TraceSlot<C>)
        ensures
            slot.current_spec() == None::<Arc<C>>,
    {
        TraceSlot { current: None }
    }

    /// A slot with `trace` bound as the current capability.
    pub fn bound(trace: Arc<C>) -> (slot: TraceSlot<C>)
        ensures
            slot.current_spec() == Some(trace),
    {
        TraceSlot { current: Some(trace) }
    }

    /// Read the current binding, if any. The reference is only valid
    /// while the slot is borrowed, so it cannot outlive the binding.
    pub fn current(&self) -> (c: Option<&Arc<C>>)
        ensures
            (match c {
                Some(t) => self.current_spec() == Some(*t),
                None => self.current_spec() == None::<Arc<C>>,
            }),
    {
        match &self.current {
            Some(t) => Some(t),
            None => None,
        }
    }
}

/// Run `f` with `trace` installed as the current binding, then restore
/// the prior binding.
///
/// `f` receives a slot in which `trace` is bound; the slot that held the
/// prior binding is set aside for the whole call and handed back
/// untouched, so the restoration cannot be skipped on any path. Nesting
/// therefore behaves as a strict stack: an inner call hands back a slot
/// whose binding is exactly the one its own caller installed.
pub fn with_default<C: Trace, R, F: FnOnce(TraceSlot<C>) -> R>(
    slot: TraceSlot<C>,
    trace: Arc<C>,
    f: F,
) -> (out: (TraceSlot<C>, R))
    requires
        forall|s: TraceSlot<C>| s.current_spec() == Some(trace) ==> call_requires(f, (s,)),
    ensures
        out.0 == slot,
        exists|s: TraceSlot<C>|
            s.current_spec() == Some(trace) && call_ensures(f, (s,), out.1),
{
    let installed = TraceSlot::bound(trace);
    let r = f(installed);
    (slot, r)
}

} // verus!
