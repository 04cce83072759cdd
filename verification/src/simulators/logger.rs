//! A test backend that performs no real side effect: it records every
//! `simulate` call in order, so a caller can inspect exactly what a dispatch
//! drove into it.

use vstd::prelude::*;

use crate::input_event::Shape;
use crate::simulator::Event;
use crate::simulator::Simulate;

verus! {

/// A logging backend. It supports either every action shape or exactly a
/// chosen set of shapes, and its observed history is its log.
#[derive(Debug)]
pub struct EventLogger {
    events: Vec<Event>,
    /// `None` means every shape is supported.
    allowed: Option<Vec<Shape>>,
}

impl EventLogger {
    /// A logger that supports every action shape.
    pub fn new() -> (r: EventLogger)
        ensures
            r.observed() == Seq::<Event>::empty(),
            forall|s: Shape| r.supports(s),
            r.infallible(),
    {
        EventLogger { events: Vec::new(), allowed: Option::None }
    }

    /// A logger that supports exactly the listed shapes, for exercising
    /// dispatch against a backend of limited capability.
    pub fn supporting_only(shapes: Vec<Shape>) -> (r: EventLogger)
        ensures
            r.observed() == Seq::<Event>::empty(),
            forall|s: Shape| r.supports(s) == shapes@.contains(s),
            r.infallible(),
    {
        EventLogger { events: Vec::new(), allowed: Option::Some(shapes) }
    }

    /// The calls observed so far, in order.
    pub fn events(&self) -> (r: &Vec<Event>)
        ensures
            r@ == self.observed(),
    {
        &self.events
    }
}

impl Simulate for EventLogger {
    closed spec fn supports(&self, shape: Shape) -> bool {
        match self.allowed {
            Option::None => true,
            Option::Some(shapes) => shapes@.contains(shape),
        }
    }

    closed spec fn observed(&self) -> Seq<Event> {
        self.events@
    }

    /// Logging has no system state to fail on.
    closed spec fn infallible(&self) -> bool {
        true
    }

    fn is_supported(&self, shape: Shape) -> (r: bool)
        ensures
            r == self.supports(shape),
    {
        match &self.allowed {
            Option::None => true,
            Option::Some(shapes) => {
                let n = shapes.len();
                for i in 0..n
                    invariant
                        n == shapes@.len(),
                        self.allowed == Option::Some(*shapes),
                        forall|j: int| 0 <= j < i ==> shapes@[j] != shape,
                {
                    if shapes[i] == shape {
                        return true;
                    }
                }
                false
            },
        }
    }

    /// Record the call; a logger's effect always completes.
    fn simulate(&mut self, action: crate::input_event::Action) -> (r: bool)
        ensures
            final(self).observed() == old(self).observed().push(
                Event { action, completed: r },
            ),
            forall|s: Shape| final(self).supports(s) == old(self).supports(s),
            final(self).infallible() == old(self).infallible(),
            old(self).infallible() ==> r,
            r == true,
    {
        self.events.push(Event { action, completed: true });
        true
    }
}

} // verus!
