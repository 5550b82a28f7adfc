use vstd::prelude::*;

use crate::algebra::Vector3;

verus! {

/// Space around a widget, in whole logical pixels.
#[derive(Clone, Copy, Debug, PartialEq, Eq, Structural)]
pub struct Thickness {
    pub left: u32,
    pub top: u32,
    pub right: u32,
    pub bottom: u32,
}

impl Thickness {
    /// The same space on all four sides.
    pub fn uniform(v: u32) -> (r: Thickness)
        ensures
            r == (Thickness { left: v, top: v, right: v, bottom: v }),
    {
        Thickness { left: v, top: v, right: v, bottom: v }
    }
}

/// The place of a node in the widget tree that a [`BuildContext`] holds.
#[derive(Clone, Copy, Debug, PartialEq, Eq, Structural)]
pub struct Handle {
    pub index: usize,
}

/// A widget node as the toolkit builds it.
#[derive(Clone, Copy, Debug, PartialEq, Eq, Structural)]
pub enum UiNode<T> {
    /// An editor of three numbers, showing `value`, with `margin` around it.
    Vec3Editor { margin: Thickness, value: Vector3<T> },
}

/// The widget tree that editors are built into: nodes are only ever added, and a node's
/// handle is its position.
pub struct BuildContext<T> {
    nodes: Vec<UiNode<T>>,
}

impl<T> View for BuildContext<T> {
    type V = Seq<UiNode<T>>;

    closed spec fn view(&self) -> Seq<UiNode<T>> {
        self.nodes@
    }
}

impl<T: Copy> BuildContext<T> {
    /// An empty tree.
    pub fn new() -> (r: Self)
        ensures
            r@ == Seq::<UiNode<T>>::empty(),
    {
        BuildContext { nodes: Vec::new() }
    }

    /// The number of nodes built so far.
    pub fn len(&self) -> (r: usize)
        ensures
            r == self@.len(),
    {
        self.nodes.len()
    }

    /// The node at `handle`, if there is one.
    pub fn node(&self, handle: Handle) -> (r: Option<UiNode<T>>)
        ensures
            handle.index < self@.len() ==> r == Some(self@[handle.index as int]),
            handle.index >= self@.len() ==> r is None,
    {
        if handle.index < self.nodes.len() {
            Some(self.nodes[handle.index])
        } else {
            None
        }
    }

    /// Adds `node` to the tree and returns its handle.
    pub fn add_node(&mut self, node: UiNode<T>) -> (r: Handle)
        requires
            old(self)@.len() < usize::MAX,
        ensures
            final(self)@ == old(self)@.push(node),
            r.index == old(self)@.len(),
    {
        let index = self.nodes.len();
        self.nodes.push(node);
        Handle { index }
    }
}

} // verus!
