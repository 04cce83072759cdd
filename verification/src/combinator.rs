//! Structural composition of actions.
//!
//! A [`Node`] is a tree: leaves are actions, internal nodes are composition
//! operators. `Sequence` orders an arbitrary list of subtrees; `AndThen`
//! pairs exactly two. A tree carries no backend reference and no mutable
//! state: the same tree can be dispatched any number of times, against the
//! same backend or different ones.
//!
//! The meaning of a tree is the sequence of its leaf actions in traversal
//! order, [`Node::leaves`]; dispatch is specified entirely over it.

use vstd::prelude::*;

use crate::control_flow::Duration;
use crate::control_flow::IntoDuration;
use crate::input_event::Action;

verus! {

/// A combinator tree over actions.
#[derive(Debug)]
pub enum Node {
    /// A single action.
    Leaf(Action),
    /// Ordered composition of any number of subtrees: each is driven to
    /// completion before the next begins.
    Sequence(Vec<Node>),
    /// Ordered composition of exactly two subtrees: the first is driven to
    /// completion, then the second.
    AndThen(Box<Node>, Box<Node>),
}

impl Node {
    /// The actions at the leaves of this tree, in traversal order:
    /// a `Sequence` contributes its subtrees' leaves in list order, an
    /// `AndThen` its left subtree's leaves and then its right subtree's.
    pub open spec fn leaves(self) -> Seq<Action>
        decreases self,
    {
        match self {
            Node::Leaf(a) => seq![a],
            Node::Sequence(nodes) => Node::leaves_of(nodes@),
            Node::AndThen(first, second) => first.leaves() + second.leaves(),
        }
    }

    /// The leaves of a list of subtrees, in list order.
    pub open spec fn leaves_of(nodes: Seq<Node>) -> Seq<Action>
        decreases nodes,
    {
        if nodes.len() == 0 {
            Seq::empty()
        } else {
            nodes[0].leaves() + Node::leaves_of(nodes.drop_first())
        }
    }

    /// The actions at the leaves of this tree, in traversal order, as a
    /// vector.
    pub fn flatten(&self) -> (r: Vec<Action>)
        ensures
            r@ == self.leaves(),
    {
        let mut out: Vec<Action> = Vec::new();
        self.flatten_into(&mut out);
        out
    }

    fn flatten_into(&self, out: &mut Vec<Action>)
        ensures
            final(out)@ == old(out)@ + self.leaves(),
        decreases self,
    {
        match self {
            Node::Leaf(a) => {
                out.push(*a);
                assert(out@ =~= old(out)@ + self.leaves());
            },
            Node::AndThen(first, second) => {
                first.flatten_into(out);
                second.flatten_into(out);
                assert(out@ =~= old(out)@ + self.leaves());
            },
            Node::Sequence(nodes) => {
                let n = nodes.len();
                for i in 0..n
                    invariant
                        *self == Node::Sequence(*nodes),
                        n == nodes@.len(),
                        out@ == old(out)@ + Node::leaves_of(nodes@.take(i as int)),
                {
                    proof {
                        // Termination: the subtree is a structural part of
                        // this node, reached through its list field.
                        assert(*nodes == self->Sequence_0);
                        assert(decreases_to!(*self => self->Sequence_0));
                        assert(decreases_to!(*nodes => nodes[i as int]));
                        assert(decreases_to!(*self => nodes[i as int]));
                    }
                    nodes[i].flatten_into(out);
                    proof {
                        Node::lemma_leaves_of_snoc(nodes@.take(i as int), nodes@[i as int]);
                        assert(nodes@.take(i + 1) =~= nodes@.take(i as int).push(nodes@[i as int]));
                    }
                }
                proof {
                    assert(nodes@.take(n as int) =~= nodes@);
                }
            },
        }
    }

    /// Appending one subtree to a list appends its leaves to the list's
    /// leaves.
    pub proof fn lemma_leaves_of_snoc(nodes: Seq<Node>, last: Node)
        ensures
            Node::leaves_of(nodes.push(last)) == Node::leaves_of(nodes) + last.leaves(),
        decreases nodes,
    {
        if nodes.len() == 0 {
            let pushed = nodes.push(last);
            assert(pushed[0] == last);
            assert(pushed.drop_first() =~= Seq::<Node>::empty());
            assert(Node::leaves_of(pushed.drop_first()) == Seq::<Action>::empty());
            assert(Node::leaves_of(nodes) == Seq::<Action>::empty());
            assert(Node::leaves_of(nodes.push(last)) =~= Node::leaves_of(nodes) + last.leaves());
        } else {
            assert(nodes.push(last).drop_first() =~= nodes.drop_first().push(last));
            Node::lemma_leaves_of_snoc(nodes.drop_first(), last);
            assert(Node::leaves_of(nodes.push(last)) =~= Node::leaves_of(nodes) + last.leaves());
        }
    }
}

impl Action {
    /// The tree whose single leaf is this action.
    pub fn into_node(self) -> (r: Node)
        ensures
            r.leaves() == seq![self],
    {
        Node::Leaf(self)
    }
}

/// Ordered composition of two trees: `first`'s leaves, then `second`'s.
pub fn and_then(first: Node, second: Node) -> (r: Node)
    ensures
        r.leaves() == first.leaves() + second.leaves(),
{
    Node::AndThen(Box::new(first), Box::new(second))
}

/// Ordered composition of a list of trees, in list order.
pub fn sequence(nodes: Vec<Node>) -> (r: Node)
    ensures
        r.leaves() == Node::leaves_of(nodes@),
{
    Node::Sequence(nodes)
}

/// A pacing leaf: a tree whose single action suspends the dispatching
/// thread for `duration` before the next action begins.
pub fn wait_step(duration: Duration) -> (r: Node)
    ensures
        r.leaves() == seq![Action::Wait { duration }],
{
    let r = Node::Leaf(Action::Wait { duration });
    proof {
        assert(r.leaves() =~= seq![Action::Wait { duration }]);
    }
    r
}

/// A pacing leaf built from any accepted duration encoding; the encoding is
/// normalized before it is stored in the tree.
pub fn wait_step_of<D: IntoDuration>(duration: D) -> (r: Node)
    ensures
        r.leaves().len() == 1,
        r.leaves()[0] matches Action::Wait { duration: d } && d@ == duration.duration_nanos(),
{
    wait_step(duration.into_duration())
}

/// The order law for plain sequences: a `Sequence` built over single-action
/// subtrees has exactly those actions as its leaves, in construction order —
/// whatever their number. Dispatch drives a tree's leaves into a backend in
/// this order, so a backend observes exactly these calls, in this order.
pub proof fn lemma_sequence_order(nodes: Seq<Node>, actions: Seq<Action>)
    requires
        nodes.len() == actions.len(),
        forall|i: int| 0 <= i < nodes.len() ==> nodes[i] == Node::Leaf(#[trigger] actions[i]),
    ensures
        Node::leaves_of(nodes) == actions,
    decreases nodes,
{
    if nodes.len() == 0 {
        assert(Node::leaves_of(nodes) =~= actions);
    } else {
        lemma_sequence_order(nodes.drop_first(), actions.drop_first());
        assert(nodes[0].leaves() =~= seq![actions[0]]);
        assert(Node::leaves_of(nodes) =~= actions);
    }
}

/// Pairwise composition is associative: nesting `AndThen` to the left and
/// nesting it to the right give trees with the same leaf actions in the
/// same order, so dispatching either against the same backend produces the
/// same observed call sequence.
pub proof fn lemma_and_then_associative(a: Node, b: Node, c: Node)
    ensures
        Node::AndThen(Box::new(Node::AndThen(Box::new(a), Box::new(b))), Box::new(c)).leaves()
            == Node::AndThen(Box::new(a), Box::new(Node::AndThen(Box::new(b), Box::new(c)))).leaves(),
{
    let ab = Node::AndThen(Box::new(a), Box::new(b));
    let bc = Node::AndThen(Box::new(b), Box::new(c));
    assert(ab.leaves() == a.leaves() + b.leaves());
    assert(bc.leaves() == b.leaves() + c.leaves());
    assert(Node::AndThen(Box::new(ab), Box::new(c)).leaves() == (a.leaves() + b.leaves())
        + c.leaves());
    assert(Node::AndThen(Box::new(a), Box::new(bc)).leaves() == a.leaves() + (b.leaves()
        + c.leaves()));
    assert((a.leaves() + b.leaves()) + c.leaves() =~= a.leaves() + (b.leaves() + c.leaves()));
}

} // verus!
