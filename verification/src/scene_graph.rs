//! The scene graph: a tree of optional scene objects with parent-relative
//! transforms.
//!
//! Every node caches its world transform, the product of the parent's
//! world transform and the node's own local transform.  The only mutation
//! path that keeps the cache consistent is the propagation walk: setting a
//! node's local transform recomputes its world transform, pushes it into
//! the node's object, and recurses into every child.  Attaching a child
//! runs one propagation pass over it immediately, so a freshly attached
//! subtree is never observed with a stale world transform.
//!
//! Drawing collects one draw unit per populated node, depth first, the
//! node itself before its children, children in insertion order.

use vstd::prelude::*;

use crate::Handle;
use crate::drawable::{DrawCmd, Drawable};
use crate::scene_object::{spec_object_draw, SceneObject};
use crate::transform::{has_nan_word, identity_words, mat_product, product_has_nan, Transform};

verus! {

/// A scene-graph node: a local transform, the cached world transform
/// derived from it, an optional drawable object, and the ordered children.
#[derive(Debug)]
pub struct SceneGraph {
    /// The node's local transform, relative to its parent.
    pub parent_transform: Transform,
    /// The cached world transform: the parent's world transform times
    /// `parent_transform`, maintained by the propagation walk.
    pub world_transform: Transform,
    /// The node's drawable object, if the node is populated.
    pub object: Option<SceneObject>,
    /// The node's children, in insertion order.
    pub children: Vec<SceneGraph>,
}

/// `g` with its local transform replaced by `local`.
pub open spec fn with_local(g: SceneGraph, local: Transform) -> SceneGraph {
    SceneGraph { parent_transform: local, ..g }
}

/// How a propagation walk rewrites a subtree: `new` is `old_g` after one
/// walk under the parent world transform `pw`.  Local transforms, objects'
/// materials and meshes, and the tree shape are kept; every world
/// transform becomes the product of the node's parent world transform and
/// the node's local transform, pinned exactly where that product has no
/// undefined entry, and is pushed into the node's object; each child is
/// rewritten under the node's new world transform, whatever its words.
pub open spec fn updated_from(new: SceneGraph, old_g: SceneGraph, pw: Seq<u32>) -> bool
    decreases old_g,
{
    &&& new.parent_transform == old_g.parent_transform
    &&& has_nan_word(new.world_transform@) == product_has_nan(pw, old_g.parent_transform@)
    &&& !product_has_nan(pw, old_g.parent_transform@) ==> new.world_transform@ == mat_product(
        pw,
        old_g.parent_transform@,
    )
    &&& match (new.object, old_g.object) {
        (Some(n), Some(o)) => n == (SceneObject { transform: new.world_transform, ..o }),
        (None, None) => true,
        _ => false,
    }
    &&& new.children.len() == old_g.children.len()
    &&& forall|i: int|
        0 <= i < old_g.children.len() ==> updated_from(
            #[trigger] new.children[i],
            old_g.children[i],
            new.world_transform@,
        )
}

/// Whether every cached world transform of `g` is consistent under the
/// parent world transform `pw`: the node's world transform is
/// `pw * local` wherever that product has no undefined entry, and every
/// child is consistent under the node's cached world transform.
pub open spec fn wf_worlds(g: SceneGraph, pw: Seq<u32>) -> bool
    decreases g,
{
    &&& !product_has_nan(pw, g.parent_transform@) ==> g.world_transform@ == mat_product(
        pw,
        g.parent_transform@,
    )
    &&& forall|i: int|
        0 <= i < g.children.len() ==> wf_worlds(#[trigger] g.children[i], g.world_transform@)
}

/// Whether a propagation walk over `old_g` under `pw` meets no undefined
/// product anywhere: the node's own product is defined, and so is every
/// descendant's, under the world transform the walk would hand down.
pub open spec fn update_defined(old_g: SceneGraph, pw: Seq<u32>) -> bool
    decreases old_g,
{
    &&& !product_has_nan(pw, old_g.parent_transform@)
    &&& forall|i: int|
        0 <= i < old_g.children.len() ==> update_defined(
            #[trigger] old_g.children[i],
            mat_product(pw, old_g.parent_transform@),
        )
}

/// Whether every populated node's object carries the node's cached world
/// transform.
pub open spec fn objects_synced(g: SceneGraph) -> bool
    decreases g,
{
    &&& match g.object {
        Some(o) => o.transform == g.world_transform,
        None => true,
    }
    &&& forall|i: int| 0 <= i < g.children.len() ==> objects_synced(#[trigger] g.children[i])
}

/// Whether `a` and `b` have the same shape and the same local transforms.
pub open spec fn same_locals(a: SceneGraph, b: SceneGraph) -> bool
    decreases a,
{
    &&& a.parent_transform@ == b.parent_transform@
    &&& a.children.len() == b.children.len()
    &&& forall|i: int|
        0 <= i < a.children.len() ==> same_locals(#[trigger] a.children[i], b.children[i])
}

/// Whether `a` and `b` have the same shape and the same cached world
/// transforms.
pub open spec fn same_worlds(a: SceneGraph, b: SceneGraph) -> bool
    decreases a,
{
    &&& a.world_transform@ == b.world_transform@
    &&& a.children.len() == b.children.len()
    &&& forall|i: int|
        0 <= i < a.children.len() ==> same_worlds(#[trigger] a.children[i], b.children[i])
}

/// The world transform reached by composing `pw` with each local
/// transform of `locals` in turn, left to right.
pub open spec fn chain_world(pw: Seq<u32>, locals: Seq<Seq<u32>>) -> Seq<u32>
    decreases locals.len(),
{
    if locals.len() == 0 {
        pw
    } else {
        chain_world(mat_product(pw, locals[0]), locals.drop_first())
    }
}

/// Whether every product along the chain is free of undefined entries.
pub open spec fn chain_defined(pw: Seq<u32>, locals: Seq<Seq<u32>>) -> bool
    decreases locals.len(),
{
    locals.len() == 0 || (!product_has_nan(pw, locals[0]) && chain_defined(
        mat_product(pw, locals[0]),
        locals.drop_first(),
    ))
}

/// Whether `path` (a sequence of child indices) addresses a node of `g`.
pub open spec fn valid_path(g: SceneGraph, path: Seq<int>) -> bool
    decreases path.len(),
{
    path.len() == 0 || (0 <= path[0] < g.children.len() && valid_path(
        g.children[path[0]],
        path.drop_first(),
    ))
}

/// The node of `g` addressed by `path`.
pub open spec fn node_at(g: SceneGraph, path: Seq<int>) -> SceneGraph
    decreases path.len(),
{
    if path.len() == 0 {
        g
    } else {
        node_at(g.children[path[0]], path.drop_first())
    }
}

/// The local transforms along `path`: `g`'s own, then those of the
/// addressed descendants, ancestors before descendants.
pub open spec fn locals_on(g: SceneGraph, path: Seq<int>) -> Seq<Seq<u32>>
    decreases path.len(),
{
    seq![g.parent_transform@] + if path.len() == 0 {
        Seq::empty()
    } else {
        locals_on(g.children[path[0]], path.drop_first())
    }
}

/// The draw units of a node: the populated node's own unit first, then
/// the children's, in insertion order.
pub open spec fn spec_draw_node(g: SceneGraph, view_set: Handle, lighting_set: Handle) -> Seq<
    DrawCmd,
>
    decreases g, 1int,
{
    (match g.object {
        Some(o) => seq![spec_object_draw(o, view_set, lighting_set)],
        None => Seq::empty(),
    }) + spec_draw_list(g.children@, view_set, lighting_set)
}

/// The concatenated draw units of a list of nodes, in order.
pub open spec fn spec_draw_list(cs: Seq<SceneGraph>, view_set: Handle, lighting_set: Handle) -> Seq<
    DrawCmd,
>
    decreases cs, 0int,
{
    if cs.len() == 0 {
        Seq::empty()
    } else {
        spec_draw_node(cs[0], view_set, lighting_set) + spec_draw_list(
            cs.drop_first(),
            view_set,
            lighting_set,
        )
    }
}

/// How many nodes of `g` are populated.
pub open spec fn populated_count(g: SceneGraph) -> nat
    decreases g, 1int,
{
    (if g.object is Some {
        1nat
    } else {
        0nat
    }) + populated_count_list(g.children@)
}

/// How many nodes of a list of subtrees are populated.
pub open spec fn populated_count_list(cs: Seq<SceneGraph>) -> nat
    decreases cs, 0int,
{
    if cs.len() == 0 {
        0nat
    } else {
        populated_count(cs[0]) + populated_count_list(cs.drop_first())
    }
}

/// Whether every object of `g` has a well-formed material and mesh.
pub open spec fn graph_wf(g: SceneGraph) -> bool
    decreases g,
{
    &&& match g.object {
        Some(o) => o.wf(),
        None => true,
    }
    &&& forall|i: int| 0 <= i < g.children.len() ==> graph_wf(#[trigger] g.children[i])
}

impl Default for SceneGraph {
    /// An empty, unpopulated node placed at the identity.
    fn default() -> (g: SceneGraph)
        ensures
            g.parent_transform@ == identity_words(),
            g.world_transform@ == identity_words(),
            g.object is None,
            g.children@.len() == 0,
    {
        SceneGraph {
            parent_transform: Transform::identity(),
            world_transform: Transform::identity(),
            object: None,
            children: Vec::new(),
        }
    }
}

impl SceneGraph {
    /// Builds a node from its parts.  The cached world transform starts
    /// as the local transform, as if the parent were at the identity; a
    /// propagation pass (`set_parent_transform` on this node or
    /// `add_child` on a parent) brings it up to date.
    pub fn new(parent_transform: Transform, object: Option<SceneObject>, children: Vec<SceneGraph>) -> (g:
        SceneGraph)
        ensures
            g == (SceneGraph {
                parent_transform,
                world_transform: parent_transform,
                object,
                children,
            }),
    {
        SceneGraph { parent_transform, world_transform: parent_transform, object, children }
    }

    /// The node's local transform.
    pub fn get_parent_transform(&self) -> (t: Transform)
        ensures
            t == self.parent_transform,
    {
        self.parent_transform
    }

    /// Rewrites the cached world transforms of this subtree under the
    /// parent world transform `parents_transform`, pushing each node's new
    /// world transform into its object.
    #[verifier::loop_isolation(false)]
    fn update_transform(&mut self, parents_transform: Transform)
        ensures
            updated_from(*final(self), *old(self), parents_transform@),
        decreases *old(self),
    {
        let ghost g0 = *self;
        let world = parents_transform.compose(&self.parent_transform);
        self.world_transform = world;
        match &mut self.object {
            Some(o) => o.set_transform(world),
            None => {},
        }
        let n = self.children.len();
        let mut i: usize = 0;
        while i < n
            invariant
                i <= n,
                n == self.children.len(),
                self.parent_transform == g0.parent_transform,
                self.world_transform == world,
                self.object == (match g0.object {
                    Some(o) => Some(SceneObject { transform: world, ..o }),
                    None => None::<SceneObject>,
                }),
                forall|k: int| i <= k < n ==> #[trigger] self.children[k] == g0.children[k],
                forall|k: int|
                    0 <= k < i ==> updated_from(#[trigger] self.children[k], g0.children[k], world@),
            decreases n - i,
        {
            proof {
                assert(self.children[i as int] == g0.children[i as int]);
            }
            self.children[i].update_transform(world);
            i += 1;
        }
    }

    /// Sets the node's local transform and runs one propagation pass over
    /// the subtree, under the parent world transform `parents_transform`.
    /// This is the only mutation path that keeps every cached world
    /// transform consistent.
    pub fn set_parent_transform(&mut self, parent_transform: Transform, parents_transform: Transform)
        ensures
            updated_from(*final(self), with_local(*old(self), parent_transform), parents_transform@),
    {
        self.parent_transform = parent_transform;
        self.update_transform(parents_transform);
    }

    /// The node's object, if the node is populated.
    pub fn get_object(&self) -> (o: &Option<SceneObject>)
        ensures
            o == self.object,
    {
        &self.object
    }

    /// Populates the node with `object`.  The object's transform is left
    /// as given; the next propagation pass pushes the node's world
    /// transform into it.
    pub fn set_object(&mut self, object: SceneObject)
        ensures
            *final(self) == (SceneGraph { object: Some(object), ..*old(self) }),
    {
        self.object = Some(object);
    }

    /// Attaches `child` as the last child, first running one propagation
    /// pass over it under this node's current world transform, so the
    /// attached subtree is immediately consistent.
    pub fn add_child(&mut self, child: SceneGraph)
        ensures
            final(self).parent_transform == old(self).parent_transform,
            final(self).world_transform == old(self).world_transform,
            final(self).object == old(self).object,
            final(self).children@.len() == old(self).children@.len() + 1,
            forall|i: int|
                0 <= i < old(self).children@.len() ==> final(self).children@[i] == old(
                    self,
                ).children@[i],
            updated_from(final(self).children@.last(), child, old(self).world_transform@),
            forall|pw: Seq<u32>|
                #[trigger] wf_worlds(*old(self), pw) ==> wf_worlds(*final(self), pw),
    {
        let ghost g0 = *self;
        let mut child = child;
        let ghost child0 = child;
        child.update_transform(self.world_transform);
        self.children.push(child);
        proof {
            assert forall|pw: Seq<u32>| #[trigger] wf_worlds(g0, pw) implies wf_worlds(*self, pw) by {
                assert forall|k: int| 0 <= k < self.children.len() implies wf_worlds(
                    #[trigger] self.children[k],
                    self.world_transform@,
                ) by {
                    if k < g0.children.len() {
                        assert(self.children[k] == g0.children[k]);
                    } else {
                        lemma_updated_wf_worlds(
                            self.children[k],
                            child0,
                            g0.world_transform@,
                        );
                    }
                }
            }
        }
    }

    /// Attaches a fresh node populated with `child_object` as the last
    /// child, propagated under this node's current world transform.
    pub fn add_child_object(&mut self, child_object: SceneObject)
        ensures
            final(self).parent_transform == old(self).parent_transform,
            final(self).world_transform == old(self).world_transform,
            final(self).object == old(self).object,
            final(self).children@.len() == old(self).children@.len() + 1,
            forall|i: int|
                0 <= i < old(self).children@.len() ==> final(self).children@[i] == old(
                    self,
                ).children@[i],
            ({
                let c = final(self).children@.last();
                &&& c.parent_transform@ == identity_words()
                &&& has_nan_word(c.world_transform@) == product_has_nan(
                    old(self).world_transform@,
                    identity_words(),
                )
                &&& !product_has_nan(old(self).world_transform@, identity_words())
                    ==> c.world_transform@ == mat_product(
                    old(self).world_transform@,
                    identity_words(),
                )
                &&& c.object == Some(
                    SceneObject { transform: c.world_transform, ..child_object },
                )
                &&& c.children@.len() == 0
            }),
            forall|pw: Seq<u32>|
                #[trigger] wf_worlds(*old(self), pw) ==> wf_worlds(*final(self), pw),
    {
        let mut node = SceneGraph::default();
        node.set_object(child_object);
        self.add_child(node);
    }

    /// Decides whether every object of the subtree has a well-formed
    /// material and mesh, as drawing requires.
    #[verifier::loop_isolation(false)]
    pub fn check_wf(&self) -> (b: bool)
        ensures
            b == graph_wf(*self),
        decreases *self,
    {
        match &self.object {
            Some(o) => {
                if !o.check_wf() {
                    return false;
                }
            },
            None => {},
        }
        let n = self.children.len();
        let mut i: usize = 0;
        while i < n
            invariant
                i <= n,
                n == self.children.len(),
                forall|k: int| 0 <= k < i ==> graph_wf(#[trigger] self.children[k]),
            decreases n - i,
        {
            if !self.children[i].check_wf() {
                proof {
                    assert(!graph_wf(self.children[i as int]));
                }
                return false;
            }
            i += 1;
        }
        true
    }

    /// The node's children, in insertion order.
    pub fn get_children(&self) -> (r: &Vec<SceneGraph>)
        ensures
            r == self.children,
    {
        &self.children
    }

    /// Mutable access to the node's children.  Mutating a child's local
    /// transform through this borrow leaves its cached world transform
    /// stale until the next propagation pass over it.
    pub fn get_children_mut(&mut self) -> (r: &mut Vec<SceneGraph>)
        ensures
            *r == old(self).children,
            *final(self) == (SceneGraph { children: *final(r), ..*old(self) }),
    {
        &mut self.children
    }
}

/// A propagation pass establishes world-transform consistency: a subtree
/// rewritten under `pw` is well formed under `pw`.
pub proof fn lemma_updated_wf_worlds(new: SceneGraph, old_g: SceneGraph, pw: Seq<u32>)
    requires
        updated_from(new, old_g, pw),
    ensures
        wf_worlds(new, pw),
    decreases old_g,
{
    assert forall|i: int| 0 <= i < new.children.len() implies wf_worlds(
        #[trigger] new.children[i],
        new.world_transform@,
    ) by {
        assert(updated_from(new.children[i], old_g.children[i], new.world_transform@));
        lemma_updated_wf_worlds(new.children[i], old_g.children[i], new.world_transform@);
    }
}

/// A propagation pass pushes every node's world transform into its
/// object: a rewritten subtree has all objects in sync.
pub proof fn lemma_updated_objects_synced(new: SceneGraph, old_g: SceneGraph, pw: Seq<u32>)
    requires
        updated_from(new, old_g, pw),
    ensures
        objects_synced(new),
    decreases old_g,
{
    assert forall|i: int| 0 <= i < new.children.len() implies objects_synced(
        #[trigger] new.children[i],
    ) by {
        assert(updated_from(new.children[i], old_g.children[i], new.world_transform@));
        lemma_updated_objects_synced(new.children[i], old_g.children[i], new.world_transform@);
    }
}

/// A propagation pass keeps the tree shape and the local transforms.
pub proof fn lemma_updated_same_locals(new: SceneGraph, old_g: SceneGraph, pw: Seq<u32>)
    requires
        updated_from(new, old_g, pw),
    ensures
        same_locals(new, old_g),
    decreases old_g,
{
    assert forall|i: int| 0 <= i < new.children.len() implies same_locals(
        #[trigger] new.children[i],
        old_g.children[i],
    ) by {
        assert(updated_from(new.children[i], old_g.children[i], new.world_transform@));
        lemma_updated_same_locals(new.children[i], old_g.children[i], new.world_transform@);
    }
}

/// Where a propagation walk meets no undefined product, the cached world
/// transforms are a function of the local transforms and the parent
/// world transform alone: two such walks under the same parent world
/// transform, over trees with the same shape and local transforms,
/// produce the same world transforms.
pub proof fn lemma_worlds_determined(
    a: SceneGraph,
    x: SceneGraph,
    b: SceneGraph,
    y: SceneGraph,
    pw: Seq<u32>,
)
    requires
        updated_from(a, x, pw),
        updated_from(b, y, pw),
        same_locals(x, y),
        update_defined(x, pw),
    ensures
        same_worlds(a, b),
    decreases x,
{
    assert(x.parent_transform@ == y.parent_transform@);
    assert(a.world_transform@ == mat_product(pw, x.parent_transform@));
    assert(b.world_transform@ == mat_product(pw, y.parent_transform@));
    assert forall|i: int| 0 <= i < a.children.len() implies same_worlds(
        #[trigger] a.children[i],
        b.children[i],
    ) by {
        assert(updated_from(a.children[i], x.children[i], a.world_transform@));
        assert(updated_from(b.children[i], y.children[i], b.world_transform@));
        assert(same_locals(x.children[i], y.children[i]));
        assert(update_defined(x.children[i], mat_product(pw, x.parent_transform@)));
        assert(b.world_transform@ == a.world_transform@);
        lemma_worlds_determined(
            a.children[i],
            x.children[i],
            b.children[i],
            y.children[i],
            a.world_transform@,
        );
    }
}

/// Sameness of shape and local transforms is symmetric.
pub proof fn lemma_same_locals_symmetric(a: SceneGraph, b: SceneGraph)
    requires
        same_locals(a, b),
    ensures
        same_locals(b, a),
    decreases a,
{
    assert forall|i: int| 0 <= i < b.children.len() implies same_locals(
        #[trigger] b.children[i],
        a.children[i],
    ) by {
        assert(same_locals(a.children[i], b.children[i]));
        lemma_same_locals_symmetric(a.children[i], b.children[i]);
    }
}

/// Whether a propagation walk meets an undefined product depends only on
/// the shape and the local transforms.
pub proof fn lemma_same_locals_update_defined(x: SceneGraph, y: SceneGraph, pw: Seq<u32>)
    requires
        same_locals(x, y),
        update_defined(x, pw),
    ensures
        update_defined(y, pw),
    decreases x,
{
    assert(x.parent_transform@ == y.parent_transform@);
    assert forall|i: int| 0 <= i < y.children.len() implies update_defined(
        #[trigger] y.children[i],
        mat_product(pw, y.parent_transform@),
    ) by {
        assert(same_locals(x.children[i], y.children[i]));
        assert(update_defined(x.children[i], mat_product(pw, x.parent_transform@)));
        lemma_same_locals_update_defined(
            x.children[i],
            y.children[i],
            mat_product(pw, x.parent_transform@),
        );
    }
}

/// Setting the same local transform twice under the same parent world
/// transform is idempotent, provided the walk meets no undefined
/// product: the second propagation pass leaves every cached world
/// transform as the first pass put it.  Here `g1` is the tree after
/// `set_parent_transform(local, parents)` on `g0`, and `g2` after the
/// same call on `g1`.  (Without the defined-ness condition the words of
/// an undefined entry may differ between the two passes.)
pub proof fn lemma_set_parent_transform_idempotent(
    g0: SceneGraph,
    g1: SceneGraph,
    g2: SceneGraph,
    local: Transform,
    parents: Seq<u32>,
)
    requires
        updated_from(g1, with_local(g0, local), parents),
        updated_from(g2, with_local(g1, local), parents),
        update_defined(with_local(g0, local), parents),
    ensures
        same_worlds(g2, g1),
{
    let w0 = with_local(g0, local);
    let w1 = with_local(g1, local);
    lemma_updated_same_locals(g1, w0, parents);
    assert(same_locals(w1, w0));
    lemma_same_locals_symmetric(w1, w0);
    lemma_same_locals_update_defined(w0, w1, parents);
    lemma_worlds_determined(g2, w1, g1, w0, parents);
}

/// In a consistent tree, the world transform of any node is the chain of
/// the local transforms along the path to it, composed left to right onto
/// the root's parent world transform — the ancestors' locals first, the
/// node's own last — provided every product along the chain is free of
/// undefined entries.
pub proof fn lemma_world_is_chain_of_locals(g: SceneGraph, pw: Seq<u32>, path: Seq<int>)
    requires
        wf_worlds(g, pw),
        valid_path(g, path),
        chain_defined(pw, locals_on(g, path)),
    ensures
        node_at(g, path).world_transform@ == chain_world(pw, locals_on(g, path)),
    decreases path.len(),
{
    if path.len() == 0 {
        assert(locals_on(g, path) =~= seq![g.parent_transform@]);
        assert(!product_has_nan(pw, g.parent_transform@));
        assert(chain_world(pw, seq![g.parent_transform@]) == chain_world(
            mat_product(pw, g.parent_transform@),
            seq![g.parent_transform@].drop_first(),
        ));
        assert(seq![g.parent_transform@].drop_first() =~= Seq::<Seq<u32>>::empty());
    } else {
        let child = g.children[path[0]];
        let locals = locals_on(g, path);
        assert(locals[0] == g.parent_transform@);
        assert(!product_has_nan(pw, g.parent_transform@));
        assert(g.world_transform@ == mat_product(pw, g.parent_transform@));
        assert(0 <= path[0] < g.children.len());
        assert(wf_worlds(g.children[path[0]], g.world_transform@));
        assert(locals.drop_first() =~= locals_on(child, path.drop_first()));
        assert(chain_defined(g.world_transform@, locals_on(child, path.drop_first())));
        lemma_world_is_chain_of_locals(child, g.world_transform@, path.drop_first());
    }
}

impl Drawable for SceneGraph {
    open spec fn wf(&self) -> bool {
        graph_wf(*self)
    }

    open spec fn spec_draw(&self, view_set: Handle, lighting_set: Handle) -> Seq<DrawCmd> {
        spec_draw_node(*self, view_set, lighting_set)
    }

    /// Collects the subtree's draw units depth first: the node's own unit
    /// first (if populated), then each child's, in insertion order.
    #[verifier::loop_isolation(false)]
    fn draw(&self, view_set: Handle, lighting_set: Handle) -> (r: Vec<DrawCmd>)
        decreases *self,
    {
        let mut r: Vec<DrawCmd> = Vec::new();
        match &self.object {
            Some(o) => {
                let mut v = o.draw(view_set, lighting_set);
                r.append(&mut v);
            },
            None => {},
        }
        proof {
            assert(r@ =~= (match self.object {
                Some(o) => seq![spec_object_draw(o, view_set, lighting_set)],
                None => Seq::<DrawCmd>::empty(),
            }));
        }
        let n = self.children.len();
        let mut i: usize = 0;
        while i < n
            invariant
                i <= n,
                n == self.children.len(),
                graph_wf(*self),
                r@ == (match self.object {
                    Some(o) => seq![spec_object_draw(o, view_set, lighting_set)],
                    None => Seq::<DrawCmd>::empty(),
                }) + spec_draw_list(self.children@.take(i as int), view_set, lighting_set),
            decreases n - i,
        {
            proof {
                assert(graph_wf(self.children[i as int]));
            }
            let mut v = self.children[i].draw(view_set, lighting_set);
            r.append(&mut v);
            proof {
                lemma_spec_draw_list_snoc(
                    self.children@.take(i as int),
                    self.children@[i as int],
                    view_set,
                    lighting_set,
                );
                assert(self.children@.take(i + 1) =~= self.children@.take(i as int).push(
                    self.children@[i as int],
                ));
            }
            i += 1;
        }
        proof {
            assert(self.children@.take(n as int) =~= self.children@);
        }
        r
    }
}

/// Appending a node to a list appends its draw units.
pub proof fn lemma_spec_draw_list_snoc(
    cs: Seq<SceneGraph>,
    c: SceneGraph,
    view_set: Handle,
    lighting_set: Handle,
)
    ensures
        spec_draw_list(cs.push(c), view_set, lighting_set) == spec_draw_list(
            cs,
            view_set,
            lighting_set,
        ) + spec_draw_node(c, view_set, lighting_set),
    decreases cs.len(),
{
    if cs.len() == 0 {
        assert(cs.push(c)[0] == c);
        assert(cs.push(c).drop_first() =~= cs);
        assert(spec_draw_list(cs.push(c), view_set, lighting_set) =~= spec_draw_list(
            cs,
            view_set,
            lighting_set,
        ) + spec_draw_node(c, view_set, lighting_set));
    } else {
        lemma_spec_draw_list_snoc(cs.drop_first(), c, view_set, lighting_set);
        assert(cs.push(c)[0] == cs[0]);
        assert(cs.push(c).drop_first() =~= cs.drop_first().push(c));
        assert(spec_draw_list(cs.push(c), view_set, lighting_set) =~= spec_draw_list(
            cs,
            view_set,
            lighting_set,
        ) + spec_draw_node(c, view_set, lighting_set));
    }
}

/// A subtree produces exactly one draw unit per populated node.
pub proof fn lemma_draw_len_is_populated_count(g: SceneGraph, view_set: Handle, lighting_set: Handle)
    ensures
        spec_draw_node(g, view_set, lighting_set).len() == populated_count(g),
    decreases g, 1int,
{
    lemma_draw_list_len_is_populated_count(g.children@, view_set, lighting_set);
}

/// A list of subtrees produces exactly one draw unit per populated node.
pub proof fn lemma_draw_list_len_is_populated_count(
    cs: Seq<SceneGraph>,
    view_set: Handle,
    lighting_set: Handle,
)
    ensures
        spec_draw_list(cs, view_set, lighting_set).len() == populated_count_list(cs),
    decreases cs, 0int,
{
    if cs.len() > 0 {
        lemma_draw_len_is_populated_count(cs[0], view_set, lighting_set);
        lemma_draw_list_len_is_populated_count(cs.drop_first(), view_set, lighting_set);
    }
}

} // verus!
