//! Model resources: a loaded scene prototype that can be instantiated
//! into a destination scene, with bone and animation-track handles
//! remapped onto the instantiated nodes.

use vstd::prelude::*;
use crate::cache::{TexturePixelData, TextureResource};
use crate::scene::{Graph, Handle, MeshData, Node, NodeKind, Pool, SpriteData, Surface};
use vstd::string::StringSliceAdditionalSpecFns;

verus! {

/// One animation track: which node it animates.
#[derive(Clone, Copy, Debug, PartialEq, Eq, Structural)]
pub struct Track {
    pub node: Handle,
}

/// An animation: the tracks it drives.
#[derive(Clone, Debug, PartialEq, Eq)]
pub struct Animation {
    pub tracks: Vec<Track>,
}

/// A scene: its node graph and its animations.
pub struct Scene {
    pub graph: Graph,
    pub animations: Vec<Animation>,
}

/// Copies a vector of plain values.
fn copy_plain<T: Copy>(src: &Vec<T>) -> (r: Vec<T>)
    ensures
        r@ == src@,
{
    let mut out: Vec<T> = Vec::new();
    let mut i: usize = 0;
    while i < src.len()
        invariant
            i <= src@.len(),
            out@ == src@.subrange(0, i as int),
        decreases src@.len() - i,
    {
        out.push(src[i]);
        i = i + 1;
        proof {
            assert(src@.subrange(0, i as int) =~= src@.subrange(0, i as int - 1).push(
                src@[i as int - 1],
            ));
        }
    }
    proof {
        assert(src@.subrange(0, src@.len() as int) =~= src@);
    }
    out
}

/// The copy keeps the variant of a node kind.
pub open spec fn same_kind_tag(a: NodeKind, b: NodeKind) -> bool {
    &&& (a is Base <==> b is Base)
    &&& (a is Terrain <==> b is Terrain)
    &&& (a is Mesh <==> b is Mesh)
    &&& (a is Sprite <==> b is Sprite)
}

/// Copies a texture asset snapshot, identity on its view.
fn copy_texture_resource(src: &TextureResource) -> (r: TextureResource)
    ensures
        r.handle == src.handle,
        r.version == src.version,
        r.data is Some <==> src.data is Some,
        src.data is Some ==> {
            &&& r.data->0.kind == src.data->0.kind
            &&& r.data->0.pixel_kind == src.data->0.pixel_kind
            &&& r.data->0.bytes@ == src.data->0.bytes@
        },
{
    let data = match &src.data {
        Some(d) => Some(
            TexturePixelData {
                kind: d.kind,
                pixel_kind: d.pixel_kind,
                bytes: copy_plain(&d.bytes),
            },
        ),
        None => None,
    };
    TextureResource { handle: src.handle, version: src.version, data }
}

/// Copies a node's kind payload, keeping its variant.
fn copy_kind(src: &NodeKind) -> (r: NodeKind)
    ensures
        same_kind_tag(r, *src),
        src matches NodeKind::Mesh(m) ==> (r matches NodeKind::Mesh(rm) && rm.surfaces@.len()
            == m.surfaces@.len()),
{
    match src {
        NodeKind::Base => NodeKind::Base,
        NodeKind::Terrain => NodeKind::Terrain,
        NodeKind::Mesh(mesh) => {
            let mut surfaces: Vec<Surface> = Vec::new();
            let mut i: usize = 0;
            while i < mesh.surfaces.len()
                invariant
                    i <= mesh.surfaces@.len(),
                    surfaces@.len() == i,
                decreases mesh.surfaces@.len() - i,
            {
                let s = &mesh.surfaces[i];
                let copy = Surface { data: s.data, bones: copy_plain(&s.bones) };
                surfaces.push(copy);
                i = i + 1;
            }
            NodeKind::Mesh(MeshData { surfaces })
        },
        NodeKind::Sprite(sprite) => NodeKind::Sprite(
            SpriteData {
                texture: match &sprite.texture {
                    Some(t) => Some(copy_texture_resource(t)),
                    None => None,
                },
                size: sprite.size,
                rotation: sprite.rotation,
                color: sprite.color,
                depth_offset_factor: sprite.depth_offset_factor,
                global_transform: sprite.global_transform,
            },
        ),
    }
}

/// Copies a node, giving the copy no children yet, recording the handle
/// it was copied from and the resource it came from.
fn copy_node_payload(src: &Node, original: Handle, resource: Option<u64>) -> (r: Node)
    ensures
        r.name@ == src.name@,
        r.global_visibility == src.global_visibility,
        r.cast_shadows == src.cast_shadows,
        r.position == src.position,
        r.children@.len() == 0,
        r.original_handle == original,
        r.resource == resource,
        same_kind_tag(r.kind, src.kind),
{
    Node {
        name: src.name.clone(),
        global_visibility: src.global_visibility,
        cast_shadows: src.cast_shadows,
        position: src.position,
        children: Vec::new(),
        original_handle: original,
        resource,
        kind: copy_kind(&src.kind),
    }
}

/// A node stands as a copy of some prototype node under a resource
/// marking: it carries the marking, and its payload (name, visibility,
/// shadow flag, position and kind tag) equals that prototype node's.
pub open spec fn copied_from(
    src_items: Seq<Option<Node>>,
    n: Node,
    resource: Option<u64>,
) -> bool {
    &&& n.resource == resource
    &&& exists|sh: int|
        0 <= sh < src_items.len() && (#[trigger] src_items[sh] matches Some(srcn) && n.name@
            == srcn.name@ && n.global_visibility == srcn.global_visibility && n.cast_shadows
            == srcn.cast_shadows && n.position == srcn.position && same_kind_tag(
            n.kind,
            srcn.kind,
        ))
}

/// Swapping a copy's kind for one of the same tag (and rewiring its
/// children) leaves it a copy.
proof fn lemma_copied_like(
    src_items: Seq<Option<Node>>,
    a: Node,
    b: Node,
    resource: Option<u64>,
)
    requires
        copied_from(src_items, a, resource),
        b.name@ == a.name@,
        b.global_visibility == a.global_visibility,
        b.cast_shadows == a.cast_shadows,
        b.position == a.position,
        same_kind_tag(b.kind, a.kind),
        b.resource == a.resource,
    ensures
        copied_from(src_items, b, resource),
{
    let sh = choose|sh: int|
        0 <= sh < src_items.len() && (#[trigger] src_items[sh] matches Some(srcn) && a.name@
            == srcn.name@ && a.global_visibility == srcn.global_visibility && a.cast_shadows
            == srcn.cast_shadows && a.position == srcn.position && same_kind_tag(
            a.kind,
            srcn.kind,
        ));
    assert(src_items[sh] matches Some(srcn) && b.name@ == srcn.name@ && b.global_visibility
        == srcn.global_visibility && b.cast_shadows == srcn.cast_shadows && b.position
        == srcn.position && same_kind_tag(b.kind, srcn.kind));
}

/// Rewiring a copy's children leaves it a copy.
proof fn lemma_copied_children(
    src_items: Seq<Option<Node>>,
    a: Node,
    b: Node,
    resource: Option<u64>,
)
    requires
        copied_from(src_items, a, resource),
        b.name@ == a.name@,
        b.global_visibility == a.global_visibility,
        b.cast_shadows == a.cast_shadows,
        b.position == a.position,
        b.kind == a.kind,
        b.resource == a.resource,
    ensures
        copied_from(src_items, b, resource),
{
    let sh = choose|sh: int|
        0 <= sh < src_items.len() && (#[trigger] src_items[sh] matches Some(srcn) && a.name@
            == srcn.name@ && a.global_visibility == srcn.global_visibility && a.cast_shadows
            == srcn.cast_shadows && a.position == srcn.position && same_kind_tag(
            a.kind,
            srcn.kind,
        ));
    assert(src_items[sh] matches Some(srcn) && b.name@ == srcn.name@ && b.global_visibility
        == srcn.global_visibility && b.cast_shadows == srcn.cast_shadows && b.position
        == srcn.position && same_kind_tag(b.kind, srcn.kind));
}

impl Scene {
    /// A fresh scene holding only a root node.
    pub fn new() -> (r: Scene)
        ensures
            r.graph.pool.items@.len() == 1,
            r.graph.root.index == 0,
            r.animations@.len() == 0,
    {
        let mut pool: Pool<Node> = Pool::new();
        let root = pool.spawn(Node::base(String::new(), crate::math::FxVec3::zero()));
        Scene { graph: Graph { pool, root }, animations: Vec::new() }
    }

    /// The root node's handle.
    pub fn get_root(&self) -> (r: Handle)
        ensures
            r == self.graph.root,
    {
        self.graph.root
    }

    /// The node pool.
    pub fn get_nodes(&self) -> (r: &Pool<Node>)
        ensures
            r == &self.graph.pool,
    {
        &self.graph.pool
    }

    /// Adds an animation.
    pub fn add_animation(&mut self, animation: Animation)
        requires
            old(self).animations@.len() < usize::MAX,
        ensures
            final(self).animations@ == old(self).animations@.push(animation),
            final(self).graph == old(self).graph,
    {
        self.animations.push(animation);
    }

    /// Finds the first node named `name` in the subtree under `from`
    /// (depth-first). The returned handle, when it points at a slot,
    /// names a live node carrying exactly that name.
    pub fn find_node_by_name(&self, from: Handle, name: &str) -> (r: Handle)
        ensures
            r.index != usize::MAX ==> {
                &&& r.index < self.graph.pool.items@.len()
                &&& self.graph.pool.items@[r.index as int] matches Some(node)
                    && vstd::utf8::encode_utf8(node.name@) == name.spec_bytes()
            },
    {
        let target = name.as_bytes();
        let mut stack: Vec<Handle> = Vec::new();
        stack.push(from);
        // The walk carries an explicit budget, which also bounds the
        // loop; a scene graph is a tree and is exhausted far below it.
        let mut fuel: u64 = 0xFFFF_FFFF_FFFF_FFFF;
        while fuel > 0
            invariant
                target@ == name.spec_bytes(),
            decreases fuel,
        {
            fuel = fuel - 1;
            let handle = match stack.pop() {
                Some(h) => h,
                None => {
                    return Handle::none();
                },
            };
            if handle.index == usize::MAX {
                continue ;
            }
            match self.graph.pool.at(handle.index) {
                Some(node) => {
                    if crate::framework::gpu_program::bytes_eq(
                        node.name.as_str().as_bytes(),
                        target,
                    ) {
                        return handle;
                    }
                    let mut c: usize = 0;
                    while c < node.children.len()
                        invariant
                            c <= node.children@.len(),
                        decreases node.children@.len() - c,
                    {
                        if stack.len() < usize::MAX {
                            stack.push(node.children[c]);
                        }
                        c = c + 1;
                    }
                },
                None => {},
            }
        }
        Handle::none()
    }

    /// Copies the subtree under `root_handle` of this scene into
    /// `dest`, returning the copied root and the mapping from source
    /// handles to their copies. Every copied node records the handle it
    /// came from and the given resource id.
    pub fn copy_node(
        &self,
        root_handle: Handle,
        dest: &mut Scene,
        mapping: &mut Vec<(Handle, Handle)>,
        resource: Option<u64>,
    ) -> (r: Handle)
        ensures
            r.index != usize::MAX ==> r.index < final(dest).graph.pool.items@.len(),
            final(dest).graph.pool.items@.len() >= old(dest).graph.pool.items@.len(),
            final(dest).graph.root == old(dest).graph.root,
            final(dest).animations@ == old(dest).animations@,
            forall|p: int|
                old(dest).graph.pool.items@.len() <= p < final(dest).graph.pool.items@.len()
                    ==> ((#[trigger] final(dest).graph.pool.items@[p]) matches Some(n)
                    && copied_from(self.graph.pool.items@, n, resource)),
    {
        let root_node = match self.graph.pool.at(root_handle.index) {
            Some(n) => n,
            None => {
                return Handle::none();
            },
        };
        if dest.graph.pool.get_capacity() >= usize::MAX - 1 {
            return Handle::none();
        }
        let new_root = dest.graph.pool.spawn(
            copy_node_payload(root_node, root_handle, resource),
        );
        proof {
            assert(self.graph.pool.items@[root_handle.index as int] matches Some(srcn) && srcn
                == *root_node);
            assert(dest.graph.pool.items@[new_root.index as int] matches Some(n) && copied_from(
                self.graph.pool.items@,
                n,
                resource,
            ));
        }
        mapping.push((root_handle, new_root));
        // Walk the source subtree, copying children under their copied
        // parents.
        let mut stack: Vec<(Handle, Handle)> = Vec::new();
        stack.push((root_handle, new_root));
        // Budgeted like the name search: bounds the walk for any graph.
        let mut fuel: u64 = 0xFFFF_FFFF_FFFF_FFFF;
        while fuel > 0
            invariant
                new_root.index < dest.graph.pool.items@.len(),
                dest.graph.pool.items@.len() >= old(dest).graph.pool.items@.len(),
                dest.graph.root == old(dest).graph.root,
                dest.animations@ == old(dest).animations@,
                forall|p: int|
                    old(dest).graph.pool.items@.len() <= p < dest.graph.pool.items@.len()
                        ==> ((#[trigger] dest.graph.pool.items@[p]) matches Some(n)
                        && copied_from(self.graph.pool.items@, n, resource)),
            decreases fuel,
        {
            fuel = fuel - 1;
            let (src_handle, dest_handle) = match stack.pop() {
                Some(p) => p,
                None => {
                    return new_root;
                },
            };
            let children = match self.graph.pool.at(src_handle.index) {
                Some(n) => copy_plain(&n.children),
                None => Vec::new(),
            };
            let mut c: usize = 0;
            while c < children.len()
                invariant
                    c <= children@.len(),
                    new_root.index < dest.graph.pool.items@.len(),
                    dest.graph.pool.items@.len() >= old(dest).graph.pool.items@.len(),
                    dest.graph.root == old(dest).graph.root,
                    dest.animations@ == old(dest).animations@,
                    forall|p: int|
                        old(dest).graph.pool.items@.len() <= p < dest.graph.pool.items@.len()
                            ==> ((#[trigger] dest.graph.pool.items@[p]) matches Some(n)
                            && copied_from(self.graph.pool.items@, n, resource)),
                decreases children@.len() - c,
            {
                let child = children[c];
                match self.graph.pool.at(child.index) {
                    Some(child_node) => {
                        if dest.graph.pool.get_capacity() < usize::MAX - 1 {
                            let new_child = dest.graph.pool.spawn(
                                copy_node_payload(child_node, child, resource),
                            );
                            proof {
                                assert(self.graph.pool.items@[child.index as int] matches Some(
                                    srcn,
                                ) && srcn == *child_node);
                                assert(dest.graph.pool.items@[new_child.index as int]
                                    matches Some(n) && copied_from(
                                    self.graph.pool.items@,
                                    n,
                                    resource,
                                ));
                            }
                            // Append the copy under its copied parent.
                            let ghost before_take = dest.graph.pool.items@;
                            match dest.graph.pool.take_at(dest_handle.index) {
                                Some(mut parent) => {
                                    let ghost parent0 = parent;
                                    if parent.children.len() < usize::MAX {
                                        parent.children.push(new_child);
                                    }
                                    dest.graph.pool.put_at(dest_handle.index, parent);
                                    proof {
                                        if old(dest).graph.pool.items@.len()
                                            <= dest_handle.index {
                                            assert(before_take[dest_handle.index as int]
                                                matches Some(n) && copied_from(
                                                self.graph.pool.items@,
                                                n,
                                                resource,
                                            ));
                                            lemma_copied_children(
                                                self.graph.pool.items@,
                                                parent0,
                                                parent,
                                                resource,
                                            );
                                        }
                                        assert forall|p: int|
                                            old(dest).graph.pool.items@.len() <= p
                                                < dest.graph.pool.items@.len() implies ((
                                        #[trigger] dest.graph.pool.items@[p]) matches Some(n)
                                            && copied_from(
                                            self.graph.pool.items@,
                                            n,
                                            resource,
                                        )) by {
                                            if p != dest_handle.index {
                                                assert(dest.graph.pool.items@[p]
                                                    == before_take[p]);
                                            }
                                        }
                                    }
                                },
                                None => {},
                            }
                            if mapping.len() < usize::MAX {
                                mapping.push((child, new_child));
                            }
                            if stack.len() < usize::MAX {
                                stack.push((child, new_child));
                            }
                        }
                    },
                    None => {},
                }
                c = c + 1;
            }
        }
        new_root
    }
}

/// Looks a source handle up in a copy mapping.
fn mapping_lookup(mapping: &Vec<(Handle, Handle)>, from: Handle) -> (r: Option<Handle>)
    ensures
        r matches Some(h) ==> exists|k: int|
            0 <= k < mapping@.len() && mapping@[k] == (from, h),
{
    let mut i: usize = 0;
    while i < mapping.len()
        invariant
            i <= mapping@.len(),
        decreases mapping@.len() - i,
    {
        let (a, b) = mapping[i];
        if a.index == from.index {
            proof {
                assert(a == from);
                assert(mapping@[i as int] == (from, b));
            }
            return Some(b);
        }
        i = i + 1;
    }
    None
}

/// A loaded model: a prototype scene.
pub struct Model {
    pub scene: Scene,
}

/// What a shared resource holds.
pub enum ResourceKind {
    Model(Model),
    Texture(TextureResource),
}

/// A shared engine resource: its id and its kind.
pub struct Resource {
    pub id: u64,
    pub kind: ResourceKind,
}

impl Model {
    /// The prototype scene.
    pub fn get_scene(&self) -> (r: &Scene)
        ensures
            r == &self.scene,
    {
        &self.scene
    }

    /// The prototype scene, for mutation: changes through the returned
    /// reference land in this model's scene.
    pub fn get_scene_mut(&mut self) -> (r: &mut Scene)
        ensures
            *r == old(self).scene,
            final(self).scene == *final(r),
    {
        &mut self.scene
    }

    /// Finds a node of the prototype scene by name, starting at its
    /// root.
    pub fn find_node_by_name(&self, name: &str) -> (r: Handle)
        ensures
            r.index != usize::MAX ==> {
                &&& r.index < self.scene.graph.pool.items@.len()
                &&& self.scene.graph.pool.items@[r.index as int] matches Some(node)
                    && vstd::utf8::encode_utf8(node.name@) == name.spec_bytes()
            },
    {
        self.scene.find_node_by_name(self.scene.get_root(), name)
    }

    /// Instantiates a model resource into a destination scene: copies
    /// the prototype's node tree, marks every copy with the resource it
    /// came from, remaps mesh bones onto the copies, and retargets the
    /// prototype's animations at the instantiated nodes. Succeeds
    /// exactly when the resource is a model.
    pub fn instantiate(resource: &Resource, dest_scene: &mut Scene) -> (r: Result<Handle, ()>)
        ensures
            r is Ok <==> resource.kind is Model,
            r is Err ==> *final(dest_scene) == *old(dest_scene),
            r is Ok ==> {
                &&& (r->Ok_0.index != usize::MAX ==> r->Ok_0.index
                    < final(dest_scene).graph.pool.items@.len())
                &&& final(dest_scene).graph.root == old(dest_scene).graph.root
                &&& final(dest_scene).graph.pool.items@.len() >= old(
                    dest_scene,
                ).graph.pool.items@.len()
                &&& forall|p: int|
                    old(dest_scene).graph.pool.items@.len() <= p
                        < final(dest_scene).graph.pool.items@.len()
                        ==> ((#[trigger] final(dest_scene).graph.pool.items@[p]) matches Some(n)
                        && copied_from(
                        resource.kind->Model_0.scene.graph.pool.items@,
                        n,
                        Some(resource.id),
                    ))
                &&& final(dest_scene).animations@.len() >= old(dest_scene).animations@.len()
                &&& (old(dest_scene).animations@.len()
                    + resource.kind->Model_0.scene.animations@.len() <= usize::MAX ==> {
                    &&& final(dest_scene).animations@.len() == old(dest_scene).animations@.len()
                        + resource.kind->Model_0.scene.animations@.len()
                    &&& final(dest_scene).animations@.subrange(
                        0,
                        old(dest_scene).animations@.len() as int,
                    ) == old(dest_scene).animations@
                    &&& forall|k: int|
                        old(dest_scene).animations@.len() <= k
                            < final(dest_scene).animations@.len()
                            ==> (#[trigger] final(dest_scene).animations@[k]).tracks@.len()
                            == resource.kind->Model_0.scene.animations@[k - old(
                            dest_scene,
                        ).animations@.len()].tracks@.len()
                })
            },
    {
        let model = match &resource.kind {
            ResourceKind::Model(model) => model,
            _ => {
                return Err(());
            },
        };
        let mut mapping: Vec<(Handle, Handle)> = Vec::new();
        let root = model.scene.copy_node(
            model.scene.get_root(),
            dest_scene,
            &mut mapping,
            Some(resource.id),
        );

        // Remap bones of instantiated meshes onto the copies.
        let ghost olen = old(dest_scene).animations@.len() as int;
        let ghost plen = model.scene.animations@.len() as int;
        let mut m: usize = 0;
        while m < mapping.len()
            invariant
                m <= mapping@.len(),
                root.index != usize::MAX ==> root.index < dest_scene.graph.pool.items@.len(),
                dest_scene.graph.root == old(dest_scene).graph.root,
                dest_scene.animations@ == old(dest_scene).animations@,
                dest_scene.graph.pool.items@.len() >= old(dest_scene).graph.pool.items@.len(),
                forall|p: int|
                    old(dest_scene).graph.pool.items@.len() <= p
                        < dest_scene.graph.pool.items@.len() ==> ((
                    #[trigger] dest_scene.graph.pool.items@[p]) matches Some(n) && copied_from(
                        model.scene.graph.pool.items@,
                        n,
                        Some(resource.id),
                    )),
            decreases mapping@.len() - m,
        {
            let (_, copied) = mapping[m];
            if copied.index < dest_scene.graph.pool.get_capacity() {
                let ghost before_take = dest_scene.graph.pool.items@;
                match dest_scene.graph.pool.take_at(copied.index) {
                    Some(mut node) => {
                        let ghost node0 = node;
                        let remapped_kind = match &node.kind {
                            NodeKind::Mesh(mesh) => Some(NodeKind::Mesh(remap_bones(mesh, &mapping))),
                            _ => None,
                        };
                        match remapped_kind {
                            Some(k) => {
                                node.kind = k;
                            },
                            None => {},
                        }
                        dest_scene.graph.pool.put_at(copied.index, node);
                        proof {
                            if old(dest_scene).graph.pool.items@.len() <= copied.index {
                                assert(before_take[copied.index as int] matches Some(n)
                                    && copied_from(
                                    model.scene.graph.pool.items@,
                                    n,
                                    Some(resource.id),
                                ));
                                lemma_copied_like(
                                    model.scene.graph.pool.items@,
                                    node0,
                                    node,
                                    Some(resource.id),
                                );
                            }
                            assert forall|p: int|
                                old(dest_scene).graph.pool.items@.len() <= p
                                    < dest_scene.graph.pool.items@.len() implies ((
                            #[trigger] dest_scene.graph.pool.items@[p]) matches Some(n)
                                && copied_from(
                                model.scene.graph.pool.items@,
                                n,
                                Some(resource.id),
                            )) by {
                                if p != copied.index {
                                    assert(dest_scene.graph.pool.items@[p] == before_take[p]);
                                }
                            }
                        }
                    },
                    None => {},
                }
            }
            m = m + 1;
        }

        // Retarget the prototype's animations at the instantiated nodes:
        // a track pointing at a prototype node now points at the node
        // instantiated from it.
        let mut a: usize = 0;
        while a < model.scene.animations.len()
            invariant
                a <= model.scene.animations@.len(),
                root.index != usize::MAX ==> root.index < dest_scene.graph.pool.items@.len(),
                dest_scene.graph.root == old(dest_scene).graph.root,
                olen == old(dest_scene).animations@.len() as int,
                plen == model.scene.animations@.len() as int,
                model == resource.kind->Model_0,
                dest_scene.graph.pool.items@.len() >= old(dest_scene).graph.pool.items@.len(),
                forall|p: int|
                    old(dest_scene).graph.pool.items@.len() <= p
                        < dest_scene.graph.pool.items@.len() ==> ((
                    #[trigger] dest_scene.graph.pool.items@[p]) matches Some(n) && copied_from(
                        model.scene.graph.pool.items@,
                        n,
                        Some(resource.id),
                    )),
                dest_scene.animations@.len() >= olen,
                olen + plen <= usize::MAX ==> {
                    &&& dest_scene.animations@.len() == olen + a
                    &&& dest_scene.animations@.subrange(0, olen) == old(dest_scene).animations@
                    &&& forall|k: int|
                        olen <= k < dest_scene.animations@.len() ==> (
                        #[trigger] dest_scene.animations@[k]).tracks@.len()
                            == model.scene.animations@[k - olen].tracks@.len()
                },
            decreases model.scene.animations@.len() - a,
        {
            let ref_anim = &model.scene.animations[a];
            let mut tracks: Vec<Track> = Vec::new();
            let mut t: usize = 0;
            while t < ref_anim.tracks.len()
                invariant
                    t <= ref_anim.tracks@.len(),
                    tracks@.len() == t,
                decreases ref_anim.tracks@.len() - t,
            {
                let track = ref_anim.tracks[t];
                let node = match mapping_lookup(&mapping, track.node) {
                    Some(copied) => copied,
                    None => track.node,
                };
                if tracks.len() < usize::MAX {
                    tracks.push(Track { node });
                }
                t = t + 1;
            }
            let ghost pre_anims = dest_scene.animations@;
            if dest_scene.animations.len() < usize::MAX {
                dest_scene.add_animation(Animation { tracks });
            }
            a = a + 1;
            proof {
                if olen + plen <= usize::MAX {
                    assert(dest_scene.animations@.subrange(0, olen) =~= pre_anims.subrange(
                        0,
                        olen,
                    ));
                    assert(tracks@.len() == model.scene.animations@[a - 1].tracks@.len());
                }
            }
        }
        Ok(root)
    }
}

/// Replaces every bone handle that maps to a copy with its copy.
fn remap_bones(mesh: &MeshData, mapping: &Vec<(Handle, Handle)>) -> (r: MeshData)
    ensures
        r.surfaces@.len() == mesh.surfaces@.len(),
{
    let mut surfaces: Vec<Surface> = Vec::new();
    let mut i: usize = 0;
    while i < mesh.surfaces.len()
        invariant
            i <= mesh.surfaces@.len(),
            surfaces@.len() == i,
        decreases mesh.surfaces@.len() - i,
    {
        let surface = &mesh.surfaces[i];
        let mut bones: Vec<Handle> = Vec::new();
        let mut b: usize = 0;
        while b < surface.bones.len()
            invariant
                b <= surface.bones@.len(),
                bones@.len() == b,
            decreases surface.bones@.len() - b,
        {
            let bone = surface.bones[b];
            let mapped = match mapping_lookup(mapping, bone) {
                Some(copied) => copied,
                None => bone,
            };
            bones.push(mapped);
            b = b + 1;
        }
        surfaces.push(Surface { data: surface.data, bones });
        i = i + 1;
    }
    MeshData { surfaces }
}

} // verus!
