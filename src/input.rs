use vstd::prelude::*;

verus! {

/// A pointer event, as the simulation sees it.
///
/// `Up` carries the launch speed that the host computed for the release;
/// `Move` carries the new pointer position.
pub enum PointerEvent<P, S> {
    Down,
    Up(S),
    Move(P),
}

/// A key press, as the simulation sees it: only one key has a meaning.
#[derive(PartialEq, Eq, Structural, Clone, Copy, Debug)]
pub enum Key {
    PlaceAttractor,
    Other,
}

/// Whether a drag is in progress after `e`, given whether one was before.
pub open spec fn dragging_after<P, S>(dragging: bool, e: PointerEvent<P, S>) -> bool {
    match e {
        PointerEvent::Down => true,
        PointerEvent::Up(_) => false,
        PointerEvent::Move(_) => dragging,
    }
}

/// Whether a drag is in progress after the events `evs`, in order.
pub open spec fn dragging_through<P, S>(dragging: bool, evs: Seq<PointerEvent<P, S>>) -> bool
    decreases evs.len(),
{
    if evs.len() == 0 {
        dragging
    } else {
        dragging_after(dragging_through(dragging, evs.drop_last()), evs.last())
    }
}

/// The number of `Down` events after the last `Up` of `evs` (after its
/// start, where it holds no `Up`).
pub open spec fn downs_since_last_up<P, S>(evs: Seq<PointerEvent<P, S>>) -> nat
    decreases evs.len(),
{
    if evs.len() == 0 {
        0
    } else {
        match evs.last() {
            PointerEvent::Down => downs_since_last_up(evs.drop_last()) + 1,
            PointerEvent::Up(_) => 0,
            PointerEvent::Move(_) => downs_since_last_up(evs.drop_last()),
        }
    }
}

/// From the idle start, a drag is in progress after a run of pointer events
/// exactly when at least one `Down` came since the last `Up`: repeated downs
/// or ups change nothing more.
pub proof fn lemma_dragging_iff_down_since_up<P, S>(evs: Seq<PointerEvent<P, S>>)
    ensures
        dragging_through(false, evs) <==> downs_since_last_up(evs) >= 1,
    decreases evs.len(),
{
    if evs.len() > 0 {
        lemma_dragging_iff_down_since_up(evs.drop_last());
    }
}

} // verus!
