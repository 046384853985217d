//! Traversal of the scene graph into draw commands.
//!
//! The walk is depth first and in pre-order: a node comes before its
//! children, and the children come in the order in which they were added.
//! Each node's world matrix is the matrix accumulated above it times its own
//! local matrix.
use vstd::prelude::*;
use crate::scene_graph::SceneNode;
use crate::transform::{
    evaluates, lemma_product_evaluates, pivot_matrix, pivot_term, product, total, Elementary, Term,
};

verus! {

/// What to hand to the graphics API for one node.
#[derive(Debug, PartialEq)]
pub struct DrawCommand<M> {
    /// Handle of the vertex array.
    pub vao_id: u32,
    /// Number of indices to draw.
    pub index_count: i32,
    /// The node's world matrix.
    pub model_matrix: M,
    /// View-projection times world matrix.
    pub mvp_matrix: M,
}

/// A draw that is due: the drawable, and the node's world matrix as an
/// expression.
pub struct Draw<V, M> {
    pub vao_id: u32,
    pub index_count: i32,
    pub world: Term<V, M>,
}

/// The node's local matrix, rotating about its reference point.
pub open spec fn local_term<V, M>(node: SceneNode<V>) -> Term<V, M> {
    pivot_term(node.position, node.rotation, node.scale, node.reference_point)
}

/// The node's own draw, if it has a drawable.
pub open spec fn own_draw<V, M>(node: SceneNode<V>, world: Term<V, M>) -> Seq<Draw<V, M>> {
    if node.has_drawable() {
        seq![Draw { vao_id: node.vao_id, index_count: node.index_count, world }]
    } else {
        Seq::empty()
    }
}

/// The draws of the tree at `node` under the accumulated matrix `so_far`,
/// in the order in which they are issued: the node's own draw, then the
/// draws of each child's tree, child after child.
pub open spec fn draws<V, M>(node: SceneNode<V>, so_far: Term<V, M>) -> Seq<Draw<V, M>>
    decreases node, 0nat,
{
    let world = product(so_far, local_term(node));
    own_draw(node, world) + draws_of_first(node.children@, world, node.children@.len())
}

/// The draws of the trees at the first `k` of `nodes`, one tree after the
/// other, each under `so_far`.
pub open spec fn draws_of_first<V, M>(nodes: Seq<SceneNode<V>>, so_far: Term<V, M>, k: nat) -> Seq<
    Draw<V, M>,
>
    decreases nodes, k,
{
    if k == 0 || k > nodes.len() {
        Seq::empty()
    } else {
        draws_of_first(nodes, so_far, (k - 1) as nat) + draws(nodes[k - 1], so_far)
    }
}

/// `command` carries out `draw`: the same drawable, a value of the world
/// matrix, and what `compose` gives for view-projection times that value.
pub open spec fn carries_out<V, M, B, C>(
    make: B,
    compose: C,
    view_projection: M,
    draw: Draw<V, M>,
    command: DrawCommand<M>,
) -> bool
    where B: Fn(Elementary, &V) -> M, C: Fn(&M, &M) -> M
{
    &&& command.vao_id == draw.vao_id
    &&& command.index_count == draw.index_count
    &&& evaluates(make, compose, draw.world, command.model_matrix)
    &&& call_ensures(compose, (&view_projection, &command.model_matrix), command.mvp_matrix)
}

/// `commands` carry out `due`, one for one and in order.
pub open spec fn carry_out<V, M, B, C>(
    make: B,
    compose: C,
    view_projection: M,
    due: Seq<Draw<V, M>>,
    commands: Seq<DrawCommand<M>>,
) -> bool
    where B: Fn(Elementary, &V) -> M, C: Fn(&M, &M) -> M
{
    &&& commands.len() == due.len()
    &&& forall|i: int|
        0 <= i < due.len() ==> carries_out(make, compose, view_projection, #[trigger] due[i], commands[i])
}

/// The draws of the first `k` trees do not depend on the trees after them.
proof fn lemma_draws_of_first_of_prefix<V, M>(
    nodes: Seq<SceneNode<V>>,
    more: Seq<SceneNode<V>>,
    so_far: Term<V, M>,
    k: nat,
)
    requires
        k <= nodes.len(),
    ensures
        draws_of_first(nodes + more, so_far, k) == draws_of_first(nodes, so_far, k),
    decreases k,
{
    if k > 0 {
        lemma_draws_of_first_of_prefix(nodes, more, so_far, (k - 1) as nat);
        assert((nodes + more)[k - 1] == nodes[k - 1]);
    }
}

/// A child that is added is drawn last: the draws of a node that got one
/// more child are the draws it had before, followed by the draws of the
/// new child's tree under the node's world matrix.
pub proof fn lemma_added_child_is_drawn_last<V, M>(
    before: SceneNode<V>,
    after: SceneNode<V>,
    child: SceneNode<V>,
    so_far: Term<V, M>,
)
    requires
        after.children@ == before.children@.push(child),
        after.position == before.position,
        after.rotation == before.rotation,
        after.scale == before.scale,
        after.reference_point == before.reference_point,
        after.vao_id == before.vao_id,
        after.index_count == before.index_count,
    ensures
        draws(after, so_far) == draws(before, so_far) + draws(
            child,
            product(so_far, local_term::<V, M>(before)),
        ),
{
    let world = product(so_far, local_term::<V, M>(before));
    let n = before.children@.len();
    assert(before.children@.push(child) == before.children@ + seq![child]);
    lemma_draws_of_first_of_prefix(before.children@, seq![child], world, n);
    assert(after.children@[n as int] == child);
    assert(draws_of_first(after.children@, world, n + 1) == draws_of_first(after.children@, world, n) + draws(
        child,
        world,
    ));
}

/// Appends the commands of the tree at `node` to `out`.
fn draw_into<V, M, B, C>(
    node: &SceneNode<V>,
    view_projection_matrix: &M,
    transformation_so_far: &M,
    so_far: Ghost<Term<V, M>>,
    make: &B,
    compose: &C,
    out: &mut Vec<DrawCommand<M>>,
)
    where M: Copy, B: Fn(Elementary, &V) -> M, C: Fn(&M, &M) -> M
    requires
        total(*make, *compose),
        evaluates(*make, *compose, so_far@, *transformation_so_far),
    ensures
        final(out)@.len() == old(out)@.len() + draws(*node, so_far@).len(),
        final(out)@.subrange(0, old(out)@.len() as int) == old(out)@,
        carry_out(
            *make,
            *compose,
            *view_projection_matrix,
            draws(*node, so_far@),
            final(out)@.subrange(old(out)@.len() as int, final(out)@.len() as int),
        ),
    decreases node,
{
    let ghost before = out@;
    let ghost world_term = product(so_far@, local_term::<V, M>(*node));
    let local = pivot_matrix(&node.position, &node.rotation, &node.scale, &node.reference_point, make, compose);
    let world = compose(transformation_so_far, &local);
    let mvp = compose(view_projection_matrix, &world);
    proof {
        lemma_product_evaluates(
            *make,
            *compose,
            so_far@,
            local_term::<V, M>(*node),
            *transformation_so_far,
            local,
            world,
        );
    }
    if node.vao_id != 0 {
        out.push(
            DrawCommand { vao_id: node.vao_id, index_count: node.index_count, model_matrix: world, mvp_matrix: mvp },
        );
    }
    let ghost own = own_draw(*node, world_term);
    assert(out@.subrange(0, before.len() as int) == before);
    let n = node.children.len();
    let mut i: usize = 0;
    while i < n
        invariant
            i <= n,
            n == node.children@.len(),
            total(*make, *compose),
            evaluates(*make, *compose, world_term, world),
            own == own_draw(*node, world_term),
            out@.len() == before.len() + own.len() + draws_of_first(node.children@, world_term, i as nat).len(),
            out@.subrange(0, before.len() as int) == before,
            carry_out(
                *make,
                *compose,
                *view_projection_matrix,
                own + draws_of_first(node.children@, world_term, i as nat),
                out@.subrange(before.len() as int, out@.len() as int),
            ),
        decreases n - i,
    {
        let ghost earlier = out@;
        let ghost due_earlier = own + draws_of_first(node.children@, world_term, i as nat);
        let child = &node.children[i];
        draw_into(child, view_projection_matrix, &world, Ghost(world_term), make, compose, out);
        proof {
            let due_child = draws(*child, world_term);
            let due_now = own + draws_of_first(node.children@, world_term, (i + 1) as nat);
            assert(due_now == due_earlier + due_child);
            let start = before.len() as int;
            let now = out@.subrange(start, out@.len() as int);
            let added = out@.subrange(earlier.len() as int, out@.len() as int);
            assert(out@.subrange(0, start) == earlier.subrange(0, start)) by {
                assert(out@.subrange(0, earlier.len() as int).subrange(0, start) == out@.subrange(0, start));
            }
            assert forall|j: int| 0 <= j < due_now.len() implies carries_out(
                *make,
                *compose,
                *view_projection_matrix,
                #[trigger] due_now[j],
                now[j],
            ) by {
                if j < due_earlier.len() {
                    assert(due_now[j] == due_earlier[j]);
                    assert(now[j] == out@.subrange(0, earlier.len() as int)[start + j]);
                    assert(now[j] == earlier.subrange(start, earlier.len() as int)[j]);
                } else {
                    assert(due_now[j] == due_child[j - due_earlier.len()]);
                    assert(now[j] == added[j - due_earlier.len()]);
                }
            }
        }
        i = i + 1;
    }
}

/// The draw commands of the tree at `node`, in pre-order.
///
/// A node's world matrix is `transformation_so_far` times the local matrices
/// of the nodes on the way down to it, the node's own last. A node without a
/// drawable gives no command, and still passes its world matrix on to its
/// children.
pub fn draw_scene<V, M, B, C>(
    node: &SceneNode<V>,
    view_projection_matrix: &M,
    transformation_so_far: &M,
    make: &B,
    compose: &C,
) -> (commands: Vec<DrawCommand<M>>)
    where M: Copy, B: Fn(Elementary, &V) -> M, C: Fn(&M, &M) -> M
    requires
        total(*make, *compose),
    ensures
        carry_out(
            *make,
            *compose,
            *view_projection_matrix,
            draws(*node, Term::Given(*transformation_so_far)),
            commands@,
        ),
{
    let mut commands: Vec<DrawCommand<M>> = Vec::new();
    draw_into(
        node,
        view_projection_matrix,
        transformation_so_far,
        Ghost(Term::Given(*transformation_so_far)),
        make,
        compose,
        &mut commands,
    );
    assert(commands@.subrange(0, commands@.len() as int) == commands@);
    commands
}

} // verus!
