use runtime_context::context::{enter, ContextSlot};
use runtime_context::handle::Handle;

#[test]
fn fresh_slot_is_absent() {
    let slot = ContextSlot::new();
    assert_eq!(slot.query(), None);
}

#[test]
fn query_inside_scope_sees_entered_handle() {
    let slot = ContextSlot::new();
    let a = Handle { id: 1 };
    let (slot, seen) = enter(slot, a, |s: ContextSlot| {
        let q = s.query();
        (s, q)
    });
    assert_eq!(seen, Some(a));
    assert_eq!(slot.query(), None);
}

#[test]
fn nested_scope_sees_innermost_handle() {
    let slot = ContextSlot::new();
    let a = Handle { id: 1 };
    let b = Handle { id: 2 };
    let (slot, seen) = enter(slot, a, |s: ContextSlot| {
        enter(s, b, |t: ContextSlot| {
            let q = t.query();
            (t, q)
        })
    });
    assert_eq!(seen, Some(b));
    assert_eq!(slot.query(), None);
}

#[test]
fn nested_scopes_restore_in_lifo_order() {
    let slot = ContextSlot::new();
    let h1 = Handle { id: 1 };
    let h2 = Handle { id: 2 };
    let h3 = Handle { id: 3 };
    let (slot, outcome) = enter(slot, h1, |s: ContextSlot| {
        let (s, inner) = enter(s, h2, |t: ContextSlot| {
            let (t, innermost_seen) = enter(t, h3, |u: ContextSlot| {
                let q = u.query();
                (u, q)
            });
            let after_innermost = t.query();
            (t, (innermost_seen, after_innermost))
        });
        let after_middle = s.query();
        (s, (inner, after_middle))
    });
    let ((innermost_seen, after_innermost), after_middle) = outcome;
    assert_eq!(innermost_seen, Some(h3));
    assert_eq!(after_innermost, Some(h2));
    assert_eq!(after_middle, Some(h1));
    assert_eq!(slot.query(), None);
}

#[test]
fn failing_body_propagates_unchanged_after_restore() {
    let slot = ContextSlot::new();
    let a = Handle { id: 1 };
    let (slot, outcome): (ContextSlot, Result<u32, String>) =
        enter(slot, a, |s: ContextSlot| (s, Err(String::from("x"))));
    assert_eq!(outcome, Err(String::from("x")));
    assert_eq!(slot.query(), None);
}

#[test]
fn succeeding_fallible_body_propagates_unchanged() {
    let slot = ContextSlot::new();
    let a = Handle { id: 1 };
    let (slot, outcome): (ContextSlot, Result<u32, String>) =
        enter(slot, a, |s: ContextSlot| (s, Ok(5)));
    assert_eq!(outcome, Ok(5));
    assert_eq!(slot.query(), None);
}

#[test]
fn guards_restore_prior_contents_one_for_one() {
    let mut slot = ContextSlot::new();
    let a = Handle { id: 1 };
    let b = Handle { id: 2 };
    let outer = slot.install(a);
    assert_eq!(slot.query(), Some(a));
    let inner = slot.install(b);
    assert_eq!(slot.query(), Some(b));
    inner.restore(&mut slot);
    assert_eq!(slot.query(), Some(a));
    outer.restore(&mut slot);
    assert_eq!(slot.query(), None);
}
