//! The backend contract and the dispatch interpreter.
//!
//! A backend implements [`Simulate`]: it declares, per action shape, whether
//! it supports the shape, and it executes one action at a time. The abstract
//! history `observed()` records every `simulate` call in order, together with
//! the success flag the backend returned, so contracts over a backend can
//! speak about exactly which calls it observed.
//!
//! [`dispatch`] drives a combinator tree against a backend: it first checks
//! that the backend supports the shape of every leaf and fails fast — before
//! any action executes — if one is unsupported; otherwise it executes every
//! leaf, in traversal order, and reports the first action whose effect the
//! backend could not complete.

use vstd::prelude::*;

use crate::combinator::Node;
use crate::input_event::Action;
use crate::input_event::Shape;

verus! {

/// One observed `simulate` call: the action passed in and whether the
/// backend reported its effect as completed.
#[derive(Debug, Clone, Copy, PartialEq, Eq, Hash, Structural)]
pub struct Event {
    pub action: Action,
    pub completed: bool,
}

/// A simulation backend: the mutable effector that performs the concrete
/// side effect for each action shape it supports.
///
/// `observed()` is the backend's abstract call history. Every `simulate`
/// call appends exactly one event to it, whatever else the backend does;
/// the capability set `supports` never changes during a call.
pub trait Simulate: Sized {
    /// Whether this backend declares support for the given action shape.
    spec fn supports(&self, shape: Shape) -> bool;

    /// The calls this backend has observed, in order.
    spec fn observed(&self) -> Seq<Event>;

    /// Whether this backend completes the effect of every action it is
    /// asked to execute. A backend whose effects can depend on system state
    /// it may fail to read declares `false` here.
    spec fn infallible(&self) -> bool;

    /// The executable capability check; it must agree with `supports`.
    fn is_supported(&self, shape: Shape) -> (r: bool)
        ensures
            r == self.supports(shape),
    ;

    /// Execute one action. Returns whether the backend completed the
    /// corresponding effect; a backend that cannot determine enough system
    /// state to complete an action (for example a relative move without a
    /// known current position) returns `false` rather than panicking.
    fn simulate(&mut self, action: Action) -> (r: bool)
        requires
            old(self).supports(action.shape()),
        ensures
            final(self).observed() == old(self).observed().push(
                Event { action, completed: r },
            ),
            forall|s: Shape| final(self).supports(s) == old(self).supports(s),
            final(self).infallible() == old(self).infallible(),
            old(self).infallible() ==> r,
    ;
}

/// Why a dispatch did not return plain success.
#[derive(Debug, Clone, Copy, PartialEq, Eq, Hash, Structural)]
pub enum DispatchError {
    /// The backend declares no support for the shape of the leaf at
    /// `leaf_index` (in traversal order). No action was executed.
    UnsupportedShape { shape: Shape, leaf_index: usize },
    /// Every leaf executed, but the backend reported the leaf at
    /// `leaf_index` as the first whose effect it could not complete.
    Incomplete { leaf_index: usize },
}

/// Whether `sim` supports the shape of every action in `actions`.
pub open spec fn all_shapes_supported<S: Simulate>(sim: &S, actions: Seq<Action>) -> bool {
    forall|i: int| 0 <= i < actions.len() ==> sim.supports(#[trigger] actions[i].shape())
}

/// Drive every leaf action of `tree`, in traversal order, into `sim`.
///
/// If some leaf's shape is unsupported, the dispatch fails before any
/// action executes and names the first such leaf. Otherwise every leaf is
/// executed exactly once, in order — an in-flight dispatch is never aborted
/// mid-traversal — and the result reports the first action, if any, whose
/// effect the backend could not complete.
pub fn dispatch<S: Simulate>(tree: &Node, sim: &mut S) -> (r: Result<(), DispatchError>)
    ensures
        forall|s: Shape| final(sim).supports(s) == old(sim).supports(s),
        final(sim).infallible() == old(sim).infallible(),
        old(sim).infallible() && all_shapes_supported(old(sim), tree.leaves()) ==> r is Ok,
        match r {
            Result::Err(DispatchError::UnsupportedShape { shape, leaf_index }) => {
                &&& *final(sim) == *old(sim)
                &&& final(sim).observed() == old(sim).observed()
                &&& leaf_index < tree.leaves().len()
                &&& shape == tree.leaves()[leaf_index as int].shape()
                &&& !old(sim).supports(shape)
                &&& forall|j: int|
                    0 <= j < leaf_index ==> old(sim).supports(
                        #[trigger] tree.leaves()[j].shape(),
                    )
            },
            _ => {
                &&& all_shapes_supported(old(sim), tree.leaves())
                &&& final(sim).observed().len() == old(sim).observed().len()
                    + tree.leaves().len()
                &&& final(sim).observed().take(old(sim).observed().len() as int)
                    == old(sim).observed()
                &&& forall|i: int|
                    0 <= i < tree.leaves().len() ==> (#[trigger] final(sim).observed()[
                        old(sim).observed().len() + i
                    ]).action == tree.leaves()[i]
                &&& match r {
                    Result::Ok(()) => final(sim).observed() == old(sim).observed()
                        + tree.leaves().map(
                        |i: int, a: Action| (Event { action: a, completed: true }),
                    ),
                    Result::Err(DispatchError::Incomplete { leaf_index }) => {
                        &&& leaf_index < tree.leaves().len()
                        &&& !final(sim).observed()[
                            old(sim).observed().len() + leaf_index
                        ].completed
                        &&& forall|j: int|
                            0 <= j < leaf_index ==> (#[trigger] final(sim).observed()[
                                old(sim).observed().len() + j
                            ]).completed
                    },
                    Result::Err(DispatchError::UnsupportedShape { .. }) => false,
                }
            },
        },
{
    let actions = tree.flatten();

    // Capability pre-pass: fail fast, before any action executes.
    let n = actions.len();
    for i in 0..n
        invariant
            n == actions@.len(),
            actions@ == tree.leaves(),
            forall|j: int| 0 <= j < i ==> sim.supports(#[trigger] actions@[j].shape()),
            sim == old(sim),
    {
        let shape = actions[i].shape();
        if !sim.is_supported(shape) {
            return Result::Err(DispatchError::UnsupportedShape { shape, leaf_index: i });
        }
    }

    // Execution pass: run every leaf to completion, recording the first
    // action the backend reported as incomplete.
    let mut first_incomplete: Option<usize> = Option::None;
    for i in 0..n
        invariant
            n == actions@.len(),
            actions@ == tree.leaves(),
            all_shapes_supported(old(sim), actions@),
            forall|s: Shape| sim.supports(s) == old(sim).supports(s),
            sim.infallible() == old(sim).infallible(),
            old(sim).infallible() ==> first_incomplete is None,
            sim.observed().len() == old(sim).observed().len() + i,
            sim.observed().take(old(sim).observed().len() as int) == old(sim).observed(),
            forall|j: int|
                0 <= j < i ==> (#[trigger] sim.observed()[old(sim).observed().len() + j]).action
                    == actions@[j],
            match first_incomplete {
                Option::None => forall|j: int|
                    0 <= j < i ==> (#[trigger] sim.observed()[
                        old(sim).observed().len() + j
                    ]).completed,
                Option::Some(k) => {
                    &&& k < i
                    &&& !sim.observed()[old(sim).observed().len() + k as int].completed
                    &&& forall|j: int|
                        0 <= j < k ==> (#[trigger] sim.observed()[
                            old(sim).observed().len() + j
                        ]).completed
                },
            },
    {
        let completed = sim.simulate(actions[i]);
        proof {
            assert(sim.observed().take(old(sim).observed().len() as int)
                =~= old(sim).observed());
        }
        if !completed && first_incomplete.is_none() {
            first_incomplete = Option::Some(i);
        }
    }

    match first_incomplete {
        Option::None => {
            proof {
                let pre = old(sim).observed();
                let post = sim.observed();
                let expected = pre + actions@.map(
                    |i: int, a: Action| (Event { action: a, completed: true }),
                );
                assert forall|k: int| 0 <= k < post.len() implies post[k] == expected[k] by {
                    if k < pre.len() {
                        assert(post.take(pre.len() as int)[k] == post[k]);
                    } else {
                        let j = k - pre.len();
                        assert(post[pre.len() + j].action == actions@[j]);
                        assert(post[pre.len() + j].completed);
                    }
                }
                assert(post =~= expected);
            }
            Result::Ok(())
        },
        Option::Some(k) => Result::Err(DispatchError::Incomplete { leaf_index: k }),
    }
}

} // verus!
