use vstd::prelude::*;

use crate::attractor::Attractor;
use crate::input::{dragging_after, Key, PointerEvent};

verus! {

/// What one frame does to the ball, as the host's vector math found it.
pub enum Frame<P, S> {
    /// The ball is at rest: nothing moves.
    AtRest,
    /// The ball moved to `ball`, and the launch speed is now `speed`.
    Moved { ball: P, speed: S },
}

/// The whole state of the toy.
pub struct Simulation<P, S> {
    /// Where the ball is.
    pub ball: P,
    /// The attractors, in the order in which they were placed.
    pub attractors: Vec<Attractor<P>>,
    /// Whether a drag is in progress.
    pub dragging: bool,
    /// Where the pointer was last seen.
    pub pointer: P,
    /// The speed that the last launch left.
    pub speed: S,
}

impl<P: Copy, S> Simulation<P, S> {
    /// The state at start: ball and pointer where given, no attractor, no
    /// drag.
    pub fn new(ball: P, pointer: P, speed: S) -> (r: Self)
        ensures
            r.ball == ball,
            r.pointer == pointer,
            r.speed == speed,
            !r.dragging,
            r.attractors@ == Seq::<Attractor<P>>::empty(),
    {
        Simulation { ball, attractors: Vec::new(), dragging: false, pointer, speed }
    }

    /// A pointer button went down: a drag starts, or goes on.
    pub fn pointer_down(&mut self)
        ensures
            final(self).dragging,
            final(self).ball == old(self).ball,
            final(self).pointer == old(self).pointer,
            final(self).speed == old(self).speed,
            final(self).attractors@ == old(self).attractors@,
    {
        self.dragging = true;
    }

    /// A pointer button went up: the drag ends and the ball is launched at
    /// `launch_speed`, the length of the vector from pointer to ball divided
    /// by the ball's mass. This happens whether or not a drag was in
    /// progress.
    pub fn pointer_up(&mut self, launch_speed: S)
        ensures
            !final(self).dragging,
            final(self).speed == launch_speed,
            final(self).ball == old(self).ball,
            final(self).pointer == old(self).pointer,
            final(self).attractors@ == old(self).attractors@,
    {
        self.speed = launch_speed;
        self.dragging = false;
    }

    /// The pointer moved to `p`, in any state.
    pub fn pointer_move(&mut self, p: P)
        ensures
            final(self).pointer == p,
            final(self).dragging == old(self).dragging,
            final(self).ball == old(self).ball,
            final(self).speed == old(self).speed,
            final(self).attractors@ == old(self).attractors@,
    {
        self.pointer = p;
    }

    /// Hands `e` to the handler of its kind.
    pub fn handle_pointer(&mut self, e: PointerEvent<P, S>)
        ensures
            final(self).dragging == dragging_after(old(self).dragging, e),
            final(self).ball == old(self).ball,
            final(self).attractors@ == old(self).attractors@,
            final(self).pointer == (match e {
                PointerEvent::Move(p) => p,
                _ => old(self).pointer,
            }),
            final(self).speed == (match e {
                PointerEvent::Up(s) => s,
                _ => old(self).speed,
            }),
    {
        match e {
            PointerEvent::Down => self.pointer_down(),
            PointerEvent::Up(s) => self.pointer_up(s),
            PointerEvent::Move(p) => self.pointer_move(p),
        }
    }

    /// A key was pressed: the place key adds an attractor at the pointer,
    /// after those already there; any other key does nothing.
    pub fn key_down(&mut self, key: Key)
        ensures
            final(self).attractors@ == (match key {
                Key::PlaceAttractor => old(self).attractors@.push(
                    Attractor::placed(old(self).pointer),
                ),
                Key::Other => old(self).attractors@,
            }),
            final(self).dragging == old(self).dragging,
            final(self).ball == old(self).ball,
            final(self).pointer == old(self).pointer,
            final(self).speed == old(self).speed,
    {
        match key {
            Key::PlaceAttractor => {
                let a = Attractor::placed_at(self.pointer);
                self.attractors.push(a);
            },
            Key::Other => {},
        }
    }

    /// Applies what one frame computed: a ball at rest stays as it is; a
    /// moving one takes its new position and speed. Nothing else changes.
    pub fn update(&mut self, frame: Frame<P, S>)
        ensures
            final(self).ball == (match frame {
                Frame::Moved { ball, speed: _ } => ball,
                Frame::AtRest => old(self).ball,
            }),
            final(self).speed == (match frame {
                Frame::Moved { ball: _, speed } => speed,
                Frame::AtRest => old(self).speed,
            }),
            final(self).dragging == old(self).dragging,
            final(self).pointer == old(self).pointer,
            final(self).attractors@ == old(self).attractors@,
    {
        match frame {
            Frame::Moved { ball, speed } => {
                self.ball = ball;
                self.speed = speed;
            },
            Frame::AtRest => {},
        }
    }
}

} // verus!
