//! The scene data the renderer consumes: a pool of nodes with
//! visibility and shadow flags, handles into it, and the per-frame
//! snapshot types scene producers hand over.

use vstd::prelude::*;
use crate::cache::TextureResource;
use crate::fixed::Fx;
use crate::math::{Color, FxVec3, Mat4};

verus! {

/// A handle into a pool; `Handle::none()` points at nothing.
#[derive(Clone, Copy, Debug, PartialEq, Eq, Structural, Hash)]
pub struct Handle {
    pub index: usize,
}

impl Handle {
    /// The handle that points at nothing.
    pub fn none() -> (r: Handle)
        ensures
            r.index == usize::MAX,
    {
        Handle { index: usize::MAX }
    }

    /// A handle for a pool slot.
    pub fn new(index: usize) -> (r: Handle)
        ensures
            r.index == index,
    {
        Handle { index }
    }

    /// Whether this handle points at nothing.
    pub fn is_none(&self) -> (r: bool)
        ensures
            r == (self.index == usize::MAX),
    {
        self.index == usize::MAX
    }

    /// Whether this handle points at a slot.
    pub fn is_some(&self) -> (r: bool)
        ensures
            r == (self.index != usize::MAX),
    {
        self.index != usize::MAX
    }
}

/// A slot-indexed pool. Slots hold `None` after their item was taken.
pub struct Pool<T> {
    pub items: Vec<Option<T>>,
}

impl<T> Pool<T> {
    /// An empty pool.
    pub fn new() -> (r: Pool<T>)
        ensures
            r.items@.len() == 0,
    {
        Pool { items: Vec::new() }
    }

    /// Adds an item, returning its handle.
    pub fn spawn(&mut self, t: T) -> (h: Handle)
        requires
            old(self).items@.len() < usize::MAX,
        ensures
            h.index == old(self).items@.len(),
            final(self).items@ == old(self).items@.push(Some(t)),
    {
        let index = self.items.len();
        self.items.push(Some(t));
        Handle { index }
    }

    /// How many slots the pool has.
    pub fn get_capacity(&self) -> (r: usize)
        ensures
            r == self.items@.len(),
    {
        self.items.len()
    }

    /// The item at a slot index, if the index is in range and the slot
    /// is filled.
    pub fn at(&self, index: usize) -> (r: Option<&T>)
        ensures
            (index < self.items@.len() && self.items@[index as int] is Some) ==> r == Some(
                &self.items@[index as int]->0,
            ),
            !(index < self.items@.len() && self.items@[index as int] is Some) ==> r is None,
    {
        if index < self.items.len() {
            match &self.items[index] {
                Some(t) => Some(t),
                None => None,
            }
        } else {
            None
        }
    }

    /// The item a handle points at, if any.
    pub fn borrow(&self, handle: Handle) -> (r: Option<&T>)
        ensures
            (handle.index < self.items@.len() && self.items@[handle.index as int] is Some) ==> r
                == Some(&self.items@[handle.index as int]->0),
            !(handle.index < self.items@.len() && self.items@[handle.index as int] is Some) ==> r
                is None,
    {
        self.at(handle.index)
    }

    /// Takes the item out of a slot, leaving the slot empty.
    pub fn take_at(&mut self, index: usize) -> (r: Option<T>)
        ensures
            index < old(self).items@.len() ==> {
                &&& r == old(self).items@[index as int]
                &&& final(self).items@ == old(self).items@.update(index as int, Option::<
                    T,
                >::None)
            },
            index >= old(self).items@.len() ==> r is None && final(self).items@ == old(
                self,
            ).items@,
    {
        if index < self.items.len() {
            let t = self.items.remove(index);
            self.items.insert(index, None);
            proof {
                assert(self.items@ =~= old(self).items@.update(index as int, Option::<T>::None));
            }
            t
        } else {
            None
        }
    }

    /// Puts an item into a slot.
    pub fn put_at(&mut self, index: usize, t: T)
        requires
            index < old(self).items@.len(),
        ensures
            final(self).items@ == old(self).items@.update(index as int, Some(t)),
    {
        self.items.remove(index);
        self.items.insert(index, Some(t));
        proof {
            assert(self.items@ =~= old(self).items@.update(index as int, Some(t)));
        }
    }

    /// The handle of a slot index.
    pub fn handle_from_index(&self, index: usize) -> (h: Handle)
        ensures
            h.index == index,
    {
        Handle { index }
    }
}

/// One surface of a mesh: its geometry-data handle and the bones its
/// skin refers to.
#[derive(Clone, Debug, PartialEq, Eq)]
pub struct Surface {
    pub data: u64,
    pub bones: Vec<Handle>,
}

/// Mesh-specific node data.
#[derive(Clone, Debug, PartialEq, Eq)]
pub struct MeshData {
    pub surfaces: Vec<Surface>,
}

/// Sprite-specific node data: what the sprite pass reads.
#[derive(Clone, Debug, PartialEq, Eq)]
pub struct SpriteData {
    pub texture: Option<TextureResource>,
    pub size: Fx,
    pub rotation: Fx,
    pub color: Color,
    pub depth_offset_factor: Fx,
    pub global_transform: Mat4,
}

/// What kind of scene object a node is.
#[derive(Clone, Debug, PartialEq, Eq)]
pub enum NodeKind {
    Base,
    Mesh(MeshData),
    Terrain,
    Sprite(SpriteData),
}

/// A scene node: the per-frame state the renderer reads of it.
#[derive(Clone, Debug, PartialEq, Eq)]
pub struct Node {
    pub name: String,
    pub global_visibility: bool,
    pub cast_shadows: bool,
    pub position: FxVec3,
    pub children: Vec<Handle>,
    pub original_handle: Handle,
    pub resource: Option<u64>,
    pub kind: NodeKind,
}

impl Node {
    /// A plain node with the given name at the given position.
    pub fn base(name: String, position: FxVec3) -> (r: Node)
        ensures
            r.name == name,
            r.position == position,
            r.global_visibility,
            !r.cast_shadows,
            r.children@.len() == 0,
            r.resource is None,
            r.kind == NodeKind::Base,
    {
        Node {
            name,
            global_visibility: true,
            cast_shadows: false,
            position,
            children: Vec::new(),
            original_handle: Handle::none(),
            resource: None,
            kind: NodeKind::Base,
        }
    }

    /// Whether this node is visible in the world.
    pub fn global_visibility(&self) -> (r: bool)
        ensures
            r == self.global_visibility,
    {
        self.global_visibility
    }

    /// Whether this node casts shadows.
    pub fn cast_shadows(&self) -> (r: bool)
        ensures
            r == self.cast_shadows,
    {
        self.cast_shadows
    }
}

/// The node graph of a scene.
pub struct Graph {
    pub pool: Pool<Node>,
    pub root: Handle,
}

impl Graph {
    /// An empty graph rooted at nothing.
    pub fn new() -> (r: Graph)
        ensures
            r.pool.items@.len() == 0,
            r.root.index == usize::MAX,
    {
        Graph { pool: Pool::new(), root: Handle::none() }
    }
}

} // verus!
