//! The selection state machine, driven by pointer and button events.
//!
//! Only one anchor point is ever retained as committed state; the second
//! corner is read live from the last observed pointer position at the moment
//! of release. A press with no pointer position ever observed is ignored; a
//! release with no matching press is ignored; a cancel discards the anchor
//! without emitting anything.

use vstd::prelude::*;

use crate::geom::{Point2, RawSelection};

verus! {

/// The drag gesture state: idle, or armed with the first corner captured in
/// window space.
#[derive(Clone, Copy, Debug, PartialEq, Eq, Structural)]
pub enum DragState {
    Idle,
    Armed(Point2),
}

/// One input event, as delivered by the host event source; at most one of
/// each kind arrives per frame, in delivery order.
#[derive(Clone, Copy, Debug, PartialEq, Eq, Structural)]
pub enum InputEvent {
    /// The pointer moved to a new window-space position.
    PointerMoved(Point2),
    /// The left mouse button was pressed.
    LeftPressed,
    /// The left mouse button was released.
    LeftReleased,
    /// An explicit abort of the drag in progress.
    Cancelled,
}

impl InputEvent {
    /// A move event carries a coordinate small enough for the transform
    /// arithmetic.
    pub open spec fn bounded(self) -> bool {
        match self {
            InputEvent::PointerMoved(p) => p.bounded(),
            _ => true,
        }
    }
}

/// The selection engine: the drag state plus the most recently observed
/// pointer position.
#[derive(Clone, Copy, Debug)]
pub struct SelectionEngine {
    pub state: DragState,
    pub last_pointer: Option<Point2>,
}

impl SelectionEngine {
    /// Invariant: an armed anchor is bounded and was captured from an
    /// observed pointer position; any observed position is bounded.
    pub open spec fn wf(self) -> bool {
        &&& (self.state matches DragState::Armed(p) ==> p.bounded() && self.last_pointer is Some)
        &&& (self.last_pointer matches Some(q) ==> q.bounded())
    }

    /// A fresh engine: idle, with no pointer position observed yet.
    pub fn new() -> (r: SelectionEngine)
        ensures
            r.state == DragState::Idle,
            r.last_pointer is None,
            r.wf(),
    {
        SelectionEngine { state: DragState::Idle, last_pointer: None }
    }

    /// Whether a drag is in progress.
    pub fn is_armed(&self) -> (r: bool)
        ensures
            r == (self.state is Armed),
    {
        match self.state {
            DragState::Armed(_) => true,
            DragState::Idle => false,
        }
    }

    /// The two live corners of the drag in progress — the anchor and the
    /// current pointer position — for the render sink to outline; `None`
    /// when no drag is in progress.
    pub fn live_corners(&self) -> (r: Option<RawSelection>)
        requires
            self.wf(),
        ensures
            match self.state {
                DragState::Armed(a) => r matches Some(s) && s.a == a && Some(s.b)
                    == self.last_pointer,
                DragState::Idle => r is None,
            },
    {
        match self.state {
            DragState::Armed(a) => match self.last_pointer {
                Some(q) => Some(RawSelection { a, b: q }),
                None => {
                    proof {
                        assert(false);
                    }
                    None
                },
            },
            DragState::Idle => None,
        }
    }

    /// Feed one event through the state machine.
    ///
    /// A pointer move only updates the last observed position. A press arms
    /// the engine on the last observed position, overwriting any stale
    /// anchor, and is ignored if no position was ever observed. A release
    /// while armed emits the completed gesture — anchor first, live corner
    /// second — and returns to idle; a release while idle is ignored. A
    /// cancel returns to idle without emitting anything.
    pub fn handle_event(&mut self, event: &InputEvent) -> (out: Option<RawSelection>)
        requires
            old(self).wf(),
            event.bounded(),
        ensures
            final(self).wf(),
            final(self).last_pointer == match *event {
                InputEvent::PointerMoved(p) => Some(p),
                _ => old(self).last_pointer,
            },
            final(self).state == match *event {
                InputEvent::PointerMoved(_) => old(self).state,
                InputEvent::LeftPressed => match old(self).last_pointer {
                    Some(p) => DragState::Armed(p),
                    None => old(self).state,
                },
                InputEvent::LeftReleased => DragState::Idle,
                InputEvent::Cancelled => DragState::Idle,
            },
            out == match *event {
                InputEvent::LeftReleased => match (old(self).state, old(self).last_pointer) {
                    (DragState::Armed(a), Some(b)) => Some(RawSelection { a, b }),
                    _ => None::<RawSelection>,
                },
                _ => None::<RawSelection>,
            },
            out matches Some(s) ==> s.bounded(),
    {
        match event {
            InputEvent::PointerMoved(p) => {
                self.last_pointer = Some(*p);
                None
            },
            InputEvent::LeftPressed => {
                match self.last_pointer {
                    Some(p) => {
                        self.state = DragState::Armed(p);
                    },
                    None => {},
                }
                None
            },
            InputEvent::LeftReleased => {
                let out = match (&self.state, &self.last_pointer) {
                    (DragState::Armed(a), Some(b)) => Some(RawSelection { a: *a, b: *b }),
                    _ => None,
                };
                self.state = DragState::Idle;
                out
            },
            InputEvent::Cancelled => {
                self.state = DragState::Idle;
                None
            },
        }
    }
}

} // verus!
