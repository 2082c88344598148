//! What the culler reads of a scene.
//!
//! Matrices, positions and spheres are single precision floating point numbers.
//! They pass through the culler unchanged and are held as their bit patterns.

use std::collections::HashMap;
use vstd::prelude::*;

use crate::sorting::{sort_by_distance, Sorting};

verus! {

broadcast use vstd::std_specs::hash::group_hash_axioms;

/// How the material of an object treats transparency.
#[derive(Clone, Copy, Debug, PartialEq, Eq, Structural)]
pub enum TransparencyType {
    Opaque,
    Cutout,
    Blend,
}

impl TransparencyType {
    /// The number under which objects of this kind are grouped.
    pub open spec fn spec_key(self) -> u64 {
        match self {
            TransparencyType::Opaque => 0,
            TransparencyType::Cutout => 1,
            TransparencyType::Blend => 2,
        }
    }

    /// The number under which objects of this kind are grouped.
    #[verifier::when_used_as_spec(spec_key)]
    pub fn key(self) -> (key: u64)
        ensures
            key == self.spec_key(),
            self is Opaque ==> key == 0,
            self is Cutout ==> key == 1,
            self is Blend ==> key == 2,
    {
        match self {
            TransparencyType::Opaque => 0,
            TransparencyType::Cutout => 1,
            TransparencyType::Blend => 2,
        }
    }
}

/// An object as the renderer keeps it.
#[derive(Clone, Copy, Debug, PartialEq, Eq)]
pub struct InternalObject {
    /// The handle of the object's material.
    pub material: usize,
    /// The model matrix, column by column.
    pub transform: [u32; 16],
    /// The bounding sphere: its centre, then its radius.
    pub sphere: [u32; 4],
    /// Where the object is.
    pub location: [u32; 3],
    /// The first index of the mesh.
    pub start_idx: u32,
    /// The number of indices of the mesh.
    pub count: u32,
    /// What is added to each index.
    pub vertex_offset: i32,
}

/// The objects of a scene, in groups.
pub struct ObjectManager {
    groups: HashMap<u64, Vec<InternalObject>>,
}

impl View for ObjectManager {
    type V = Map<u64, Seq<InternalObject>>;

    closed spec fn view(&self) -> Map<u64, Seq<InternalObject>> {
        self.groups@.map_values(|group: Vec<InternalObject>| group@)
    }
}

impl ObjectManager {
    /// The objects of a group. A group that was never filled is empty.
    pub open spec fn objects(&self, key: u64) -> Seq<InternalObject> {
        if self@.contains_key(key) {
            self@[key]
        } else {
            Seq::empty()
        }
    }

    /// A scene without objects.
    pub fn new() -> (manager: Self)
        ensures
            manager@ == Map::<u64, Seq<InternalObject>>::empty(),
    {
        let manager = ObjectManager { groups: HashMap::new() };
        assert(manager@ =~= Map::<u64, Seq<InternalObject>>::empty());
        manager
    }

    /// Adds an object at the end of a group.
    pub fn add(&mut self, key: u64, object: InternalObject)
        ensures
            final(self)@ == old(self)@.insert(key, old(self).objects(key).push(object)),
            final(self)@[key].len() == old(self).objects(key).len() + 1,
            final(self)@[key].last() == object,
            final(self)@[key].drop_last() == old(self).objects(key),
            old(self)@.contains_key(key) ==> old(self).objects(key) == old(self)@[key],
            !old(self)@.contains_key(key) ==> old(self).objects(key).len() == 0,
    {
        let mut group: Vec<InternalObject> = match self.groups.remove(&key) {
            Some(group) => group,
            None => Vec::new(),
        };
        group.push(object);
        self.groups.insert(key, group);
        assert(self@ =~= old(self)@.insert(key, old(self).objects(key).push(object)));
        assert(self@[key].drop_last() =~= old(self).objects(key));
    }

    /// The objects of a group, if it was ever filled.
    pub fn get_objects(&self, key: u64) -> (group: Option<&Vec<InternalObject>>)
        ensures
            group is Some <==> self@.contains_key(key),
            group matches Some(objects) ==> objects@ == self@[key],
    {
        self.groups.get(&key)
    }

    /// Sorts the objects of a group by the given distances, one for each of
    /// them. The other groups are left alone.
    pub fn sort_objects(&mut self, key: u64, sorting: Sorting, distances: &Vec<u32>)
        requires
            distances@.len() == old(self).objects(key).len(),
        ensures
            final(self)@.dom() == old(self)@.dom(),
            forall|other: u64|
                other != key && #[trigger] old(self)@.contains_key(other) ==> final(self)@[other]
                    == old(self)@[other],
            crate::sorting::is_sorted_copy(
                sorting,
                old(self).objects(key),
                distances@,
                final(self).objects(key),
            ),
    {
        match self.groups.remove(&key) {
            Some(mut group) => {
                sort_by_distance(sorting, &mut group, distances);
                self.groups.insert(key, group);
            },
            None => {
                proof {
                    let order = Seq::<usize>::empty();
                    assert(crate::sorting::is_draw_order(sorting, distances@, order));
                    assert(self.objects(key) =~= crate::sorting::reordered(
                        old(self).objects(key),
                        order,
                    ));
                }
            },
        }
        assert(self@.dom() =~= old(self)@.dom());
    }
}

/// A group that was filled has the objects that it was filled with, and another
/// has none.
pub proof fn law_objects_of_group(manager: ObjectManager, key: u64)
    ensures
        manager@.contains_key(key) ==> manager.objects(key) == manager@[key],
        !manager@.contains_key(key) ==> manager.objects(key).len() == 0,
{
}

/// Groups have different numbers, from 0 up.
pub proof fn law_groups_are_told_apart(a: TransparencyType, b: TransparencyType)
    ensures
        a.key() == b.key() <==> a == b,
        a.key() < 3,
        TransparencyType::Opaque.key() < TransparencyType::Cutout.key()
            < TransparencyType::Blend.key(),
{
}

/// Where each material is kept, by its handle.
pub struct MaterialManager {
    indices: HashMap<usize, usize>,
}

impl View for MaterialManager {
    type V = Map<usize, usize>;

    closed spec fn view(&self) -> Map<usize, usize> {
        self.indices@
    }
}

impl MaterialManager {
    /// No materials.
    pub fn new() -> (manager: Self)
        ensures
            manager@ == Map::<usize, usize>::empty(),
    {
        MaterialManager { indices: HashMap::new() }
    }

    /// Keeps the material of a handle at an index.
    pub fn set_internal_index(&mut self, handle: usize, index: usize)
        ensures
            final(self)@ == old(self)@.insert(handle, index),
    {
        self.indices.insert(handle, index);
    }

    /// Whether a handle stands for a material.
    pub fn contains(&self, handle: usize) -> (known: bool)
        ensures
            known == self@.contains_key(handle),
    {
        self.indices.contains_key(&handle)
    }

    /// The index at which the material of a handle is kept.
    pub fn get_internal_index(&self, handle: usize) -> (index: usize)
        requires
            self@.contains_key(handle),
        ensures
            index == self@[handle],
    {
        *self.indices.get(&handle).unwrap()
    }
}

/// What the camera sees.
pub struct CameraManager {
    /// The view matrix, column by column.
    pub view: [u32; 16],
    /// The view-projection matrix, column by column.
    pub view_proj: [u32; 16],
    /// The planes of the view frustum, as the shaders read them.
    pub frustum: Vec<u32>,
}

} // verus!
