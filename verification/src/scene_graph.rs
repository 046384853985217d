//! The scene graph: a tree of nodes, each with its local transform
//! parameters, an optional drawable and the children it owns.
//!
//! A child is handed over to its parent by value. So a node has one parent
//! at most and is never its own ancestor: what is built is a tree.
use vstd::prelude::*;

verus! {

/// One entity of the scene. `V` is the type of a vector of three numbers;
/// the graph stores such vectors and never computes with them.
#[derive(Debug)]
pub struct SceneNode<V> {
    /// Translation relative to the parent.
    pub position: V,
    /// Euler angles in radians: roll about X, pitch about Y, yaw about Z.
    pub rotation: V,
    /// Scale factor along each axis.
    pub scale: V,
    /// The point, in the node's own space, about which it rotates.
    pub reference_point: V,
    /// Handle of the vertex array to draw; 0 where the node only groups
    /// its children.
    pub vao_id: u32,
    /// Number of indices of the drawable.
    pub index_count: i32,
    /// The children, in the order in which they were added.
    pub children: Vec<SceneNode<V>>,
}

impl<V> SceneNode<V> {
    /// The node has something to draw.
    pub open spec fn has_drawable(self) -> bool {
        self.vao_id != 0
    }
}

impl<V: Copy> SceneNode<V> {
    /// A node that groups its children and draws nothing itself. Position,
    /// angles and pivot are `zero`, the scale is `one`: with the vector of
    /// three zeros and the vector of three ones the node leaves what is
    /// below it where it is.
    pub fn new(zero: V, one: V) -> (node: Self)
        ensures
            node.position == zero,
            node.rotation == zero,
            node.scale == one,
            node.reference_point == zero,
            node.vao_id == 0,
            node.index_count == 0,
            node.children@.len() == 0,
    {
        SceneNode {
            position: zero,
            rotation: zero,
            scale: one,
            reference_point: zero,
            vao_id: 0,
            index_count: 0,
            children: Vec::new(),
        }
    }

    /// A node that draws `index_count` indices of the vertex array `vao_id`,
    /// placed as `new` places a node.
    pub fn from_vao(vao_id: u32, index_count: i32, zero: V, one: V) -> (node: Self)
        ensures
            node.position == zero,
            node.rotation == zero,
            node.scale == one,
            node.reference_point == zero,
            node.vao_id == vao_id,
            node.index_count == index_count,
            node.children@.len() == 0,
    {
        SceneNode {
            position: zero,
            rotation: zero,
            scale: one,
            reference_point: zero,
            vao_id,
            index_count,
            children: Vec::new(),
        }
    }
}

impl<V> SceneNode<V> {
    /// Makes `child` the last child of this node. The child is moved in, so
    /// it cannot be added anywhere a second time.
    pub fn add_child(&mut self, child: SceneNode<V>)
        ensures
            final(self).children@ == old(self).children@.push(child),
            final(self).position == old(self).position,
            final(self).rotation == old(self).rotation,
            final(self).scale == old(self).scale,
            final(self).reference_point == old(self).reference_point,
            final(self).vao_id == old(self).vao_id,
            final(self).index_count == old(self).index_count,
    {
        self.children.push(child);
    }

    /// The child at `index`, counted in the order of adding.
    pub fn get_child(&mut self, index: usize) -> (child: &mut SceneNode<V>)
        requires
            index < old(self).children@.len(),
        ensures
            *child == old(self).children@[index as int],
            final(self).children@ == old(self).children@.update(index as int, *final(child)),
            final(self).position == old(self).position,
            final(self).rotation == old(self).rotation,
            final(self).scale == old(self).scale,
            final(self).reference_point == old(self).reference_point,
            final(self).vao_id == old(self).vao_id,
            final(self).index_count == old(self).index_count,
    {
        &mut self.children[index]
    }

    /// The number of children.
    pub fn get_n_children(&self) -> (n: usize)
        ensures
            n == self.children@.len(),
    {
        self.children.len()
    }
}

} // verus!
