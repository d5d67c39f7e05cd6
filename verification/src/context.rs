use crate::handle::Handle;
use vstd::prelude::*;

verus! {

/// The register that holds a thread's currently active runtime handle,
/// or nothing while no runtime scope is active.
///
/// Each thread owns exactly one slot and hands it down its own call
/// stack; the slot is never shared across threads, so no synchronization
/// is involved. Passing the slot explicitly, rather than hiding it in
/// implicit per-thread storage, keeps that single-owner discipline
/// visible in the types without weakening any of the scoping guarantees.
pub struct ContextSlot {
    current: Option<Handle>,
}

impl View for ContextSlot {
    type V = Option<Handle>;

    closed spec fn view(&self) -> Option<Handle> {
        self.current
    }
}

/// One scope entry, as a transition on the slot contents: the slot takes
/// the new handle, and the scope's guard keeps the prior contents.
/// Returns the pair (contents while the scope is active, saved contents).
pub open spec fn enter_transition(prior: Option<Handle>, new: Handle) -> (Option<Handle>, Option<
    Handle,
>) {
    (Some(new), prior)
}

/// One scope exit, as a transition on the slot contents: whatever the
/// body left in the slot is overwritten with the guard's saved value.
pub open spec fn exit_transition(left_behind: Option<Handle>, saved: Option<Handle>) -> Option<
    Handle,
> {
    saved
}

/// A transient guard created on scope entry. It owns exactly the value
/// that was current before the scope was entered; `restore` writes that
/// value back into the slot and consumes the guard, one restore for every
/// install. `enter` pairs the two on every path through a scope.
pub struct ScopeGuard {
    saved: Option<Handle>,
}

impl View for ScopeGuard {
    type V = Option<Handle>;

    closed spec fn view(&self) -> Option<Handle> {
        self.saved
    }
}

impl ContextSlot {
    /// A fresh slot, as a thread starts: no handle is active.
    pub fn new() -> (slot: Self)
        ensures
            slot@ is None,
    {
        ContextSlot { current: None }
    }

    /// The currently active handle, or `None` when no runtime scope is
    /// active ("no current runtime").
    pub fn query(&self) -> (r: Option<Handle>)
        ensures
            r == self@,
    {
        self.current
    }

    /// Makes `new` the current handle and returns the guard that owns the
    /// prior contents, exactly as `enter_transition` describes.
    pub fn install(&mut self, new: Handle) -> (guard: ScopeGuard)
        ensures
            final(self)@ == enter_transition(old(self)@, new).0,
            guard@ == enter_transition(old(self)@, new).1,
    {
        let saved = self.current;
        self.current = Some(new);
        ScopeGuard { saved }
    }
}

impl ScopeGuard {
    /// Writes the saved prior contents back into the slot, whatever the
    /// scope's body left there, and consumes the guard: one restore for
    /// every install.
    pub fn restore(self, slot: &mut ContextSlot)
        ensures
            final(slot)@ == exit_transition(old(slot)@, self@),
    {
        slot.current = self.saved;
    }
}

/// Runs `body` with `new` installed as the thread's current handle and
/// guarantees that the prior contents of the slot — possibly absent —
/// are reinstated before `enter` hands the body's outcome back, whatever
/// that outcome is.
///
/// The body receives the slot (so that nested code can query it or enter
/// further scopes, strictly stack-like) and returns it together with its
/// result. A body that fails returns its failure as its result value,
/// e.g. as the `Err` of a `Result`; `enter` passes every outcome on
/// unchanged, and the restoration clause below holds for all of them, so
/// no outcome of the body can leave the scope's handle behind.
pub fn enter<R, F: FnOnce(ContextSlot) -> (ContextSlot, R)>(slot: ContextSlot, new: Handle, f: F) -> (res: (
    ContextSlot,
    R,
))
    requires
        forall|s: ContextSlot| s@ == enter_transition(slot@, new).0 ==> call_requires(f, (s,)),
    ensures
        res.0@ == slot@,
        exists|body_slot: ContextSlot, left: ContextSlot|
            body_slot@ == enter_transition(slot@, new).0 && call_ensures(
                f,
                (body_slot,),
                (left, res.1),
            ),
{
    let mut active = slot;
    let guard = active.install(new);
    let ghost body_slot = active;
    let (returned, result) = f(active);
    let ghost left = returned;
    let mut restored_slot = returned;
    guard.restore(&mut restored_slot);
    let outcome = (restored_slot, result);
    proof {
        assert(exists|bs: ContextSlot, l: ContextSlot|
            bs@ == enter_transition(slot@, new).0 && call_ensures(f, (bs,), (l, outcome.1))) by {
            assert(body_slot@ == enter_transition(slot@, new).0 && call_ensures(
                f,
                (body_slot,),
                (left, outcome.1),
            ));
        }
    }
    outcome
}

/// The slot contents once the scopes for the handles in `entered` have
/// been entered in order, outermost first, and none has exited yet.
pub open spec fn slot_after_entering(prior: Option<Handle>, entered: Seq<Handle>) -> Option<Handle>
    decreases entered.len(),
{
    if entered.len() == 0 {
        prior
    } else {
        enter_transition(slot_after_entering(prior, entered.drop_last()), entered.last()).0
    }
}

/// The value saved by the guard of scope `i` (counting the outermost
/// scope as 0): the slot contents from just before that scope was
/// entered.
pub open spec fn saved_by_scope(prior: Option<Handle>, entered: Seq<Handle>, i: int) -> Option<
    Handle,
>
    recommends
        0 <= i < entered.len(),
{
    enter_transition(slot_after_entering(prior, entered.take(i)), entered[i]).1
}

/// Law: nested scopes restore in last-in-first-out order. While scope `i`
/// is the innermost active one, the visible handle is the one it
/// installed; and exiting scope `i` — whatever the body left in the slot —
/// reinstates exactly the contents from before that scope was entered.
/// With `i == 0` and an absent prior value, this is the round trip
/// absent, enter, present, exit, absent.
pub proof fn lemma_nested_scopes_lifo(
    prior: Option<Handle>,
    entered: Seq<Handle>,
    i: int,
    left_behind: Option<Handle>,
)
    requires
        0 <= i < entered.len(),
    ensures
        slot_after_entering(prior, entered.take(i + 1)) == Some(entered[i]),
        exit_transition(left_behind, saved_by_scope(prior, entered, i)) == slot_after_entering(
            prior,
            entered.take(i),
        ),
{
    let up_to_i = entered.take(i + 1);
    assert(up_to_i.last() == entered[i]);
}

/// Law: entering one scope and leaving it again writes back exactly the
/// prior contents; in particular a slot that held no handle before holds
/// none again afterwards.
pub proof fn lemma_enter_exit_round_trip(prior: Option<Handle>, new: Handle)
    ensures
        enter_transition(prior, new).0 == Some(new),
        exit_transition(enter_transition(prior, new).0, enter_transition(prior, new).1) == prior,
{
}

} // verus!
