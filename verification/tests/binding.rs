use std::cell::RefCell;
use std::sync::Arc;

use tracebind::collect::{SpanHandle, Trace, TraceSlot, with_default};
use tracebind::span;

/// A collector backend that tags every call it records with its own
/// name, so tests can tell which of several collectors was bound.
#[derive(Clone)]
struct Named {
    name: &'static str,
    log: Arc<RefCell<Vec<String>>>,
    next: Arc<RefCell<usize>>,
}

impl Named {
    fn new(name: &'static str) -> Named {
        Named {
            name,
            log: Arc::new(RefCell::new(Vec::new())),
            next: Arc::new(RefCell::new(1)),
        }
    }

    fn entries(&self) -> Vec<String> {
        self.log.borrow().clone()
    }
}

impl Trace for Named {
    fn new_span(&self, span_name: &str) -> Option<SpanHandle<Named>> {
        self.log.borrow_mut().push(format!("{}:new:{}", self.name, span_name));
        let id = {
            let mut n = self.next.borrow_mut();
            let id = *n;
            *n += 1;
            id
        };
        Some(SpanHandle::new(Arc::new(self.clone()), id))
    }

    fn close_span(&self, id: usize) {
        self.log.borrow_mut().push(format!("{}:close:{}", self.name, id));
    }
}

#[test]
fn bind_restores_the_empty_binding_after_the_work_returns() {
    let outer = Named::new("a");
    let slot = TraceSlot::empty();
    let (restored, result) = with_default(slot, Arc::new(outer), |s| {
        assert!(s.current().is_some());
        99_u32
    });
    assert_eq!(result, 99);
    assert!(restored.current().is_none());
}

#[test]
fn nested_bind_restores_the_outer_binding() {
    let a = Named::new("a");
    let b = Named::new("b");
    let b_arc = Arc::new(b.clone());
    let slot = TraceSlot::empty();

    let (restored, ()) = with_default(slot, Arc::new(a.clone()), move |s| {
        span(&s, "outer").end();
        let (s_back, ()) = with_default(s, b_arc, |inner| {
            span(&inner, "inner").end();
        });
        // The slot handed back by the inner bind observes the outer
        // collector again, not the inner one and not nothing.
        span(&s_back, "after").end();
    });

    assert!(restored.current().is_none());
    assert_eq!(
        a.entries(),
        vec![
            "a:new:outer".to_string(),
            "a:close:1".to_string(),
            "a:new:after".to_string(),
            "a:close:2".to_string(),
        ]
    );
    assert_eq!(
        b.entries(),
        vec!["b:new:inner".to_string(), "b:close:1".to_string()]
    );
}

#[test]
fn the_bound_capability_is_the_one_observed_inside() {
    let a = Arc::new(Named::new("a"));
    let observed = Arc::clone(&a);
    let slot = TraceSlot::empty();
    let (_restored, ()) = with_default(slot, Arc::clone(&a), move |s| {
        let current = s.current().expect("a collector is bound here");
        assert!(Arc::ptr_eq(current, &observed));
    });
}

#[test]
fn empty_and_bound_slots_answer_the_current_query() {
    let empty = TraceSlot::<Named>::empty();
    assert!(empty.current().is_none());

    let a = Arc::new(Named::new("a"));
    let bound = TraceSlot::bound(Arc::clone(&a));
    let current = bound.current().expect("bound slot has a collector");
    assert!(Arc::ptr_eq(current, &a));
}
