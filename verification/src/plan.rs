//! Planning: from pending load markers to the actions the host must perform.
//!
//! The host engine hands the planners the entities that currently carry a load
//! marker, each as a [`PendingMeshLoad`] or [`PendingMaterialLoad`]. An entity
//! is named by the 64-bit identifier the engine packs its index and generation
//! into. The planners return one action per pending entity, in the same order.
//! Performing an action means: remove the marker from the action's entity,
//! request an asynchronous load of each path the action carries, and attach
//! the handle that comes back to the same entity.

use vstd::prelude::*;

use crate::markers::BlendGLBMaterialLoader;
use crate::markers::BlendGLBMeshLoader;

verus! {

/// An entity that carries a mesh load marker.
pub struct PendingMeshLoad {
    /// The marker found on the entity.
    pub marker: BlendGLBMeshLoader,
    /// The identifier of the entity carrying the marker.
    pub entity: u64,
}

/// An entity that carries a material load marker.
pub struct PendingMaterialLoad {
    /// The marker found on the entity.
    pub marker: BlendGLBMaterialLoader,
    /// The identifier of the entity carrying the marker.
    pub entity: u64,
}

/// Remove the mesh load marker from `entity`, load the mesh asset at
/// `mesh_path`, and attach the resulting mesh handle to `entity`.
pub struct MeshLoadAction {
    pub entity: u64,
    pub mesh_path: String,
}

/// Plans the load for one entity carrying a mesh load marker: the action names
/// that entity and carries the marker's path.
pub fn plan_mesh_load(marker: &BlendGLBMeshLoader, entity: u64) -> (a: MeshLoadAction)
    ensures
        a.entity == entity,
        a.mesh_path@ == marker@,
{
    MeshLoadAction { entity, mesh_path: marker.path_string() }
}

/// Holds when `a` is the action planned for the pending mesh load `p`: same
/// entity, and the mesh path taken from the marker.
pub open spec fn mesh_action_matches(a: MeshLoadAction, p: PendingMeshLoad) -> bool {
    &&& a.entity == p.entity
    &&& a.mesh_path@ == p.marker@
}

/// Plans the loads for every entity that carries a mesh load marker: one
/// action per pending entity, in the order given.
pub fn plan_mesh_loads(pending: &Vec<PendingMeshLoad>) -> (actions: Vec<MeshLoadAction>)
    ensures
        actions@.len() == pending@.len(),
        forall|i: int| 0 <= i < pending@.len() ==>
            mesh_action_matches(#[trigger] actions@[i], pending@[i]),
{
    let mut actions: Vec<MeshLoadAction> = Vec::new();
    let mut i: usize = 0;
    while i < pending.len()
        invariant
            i <= pending.len(),
            actions@.len() == i,
            forall|j: int| 0 <= j < i ==>
                mesh_action_matches(#[trigger] actions@[j], pending@[j]),
        decreases pending.len() - i,
    {
        let p = &pending[i];
        actions.push(plan_mesh_load(&p.marker, p.entity));
        i = i + 1;
    }
    actions
}

/// Remove the material load marker from `entity`, load the material asset at
/// `material_path`, and attach the resulting material handle to `entity`.
pub struct MaterialLoadAction {
    pub entity: u64,
    pub material_path: String,
}

/// Plans the load for one entity carrying a material load marker: the action
/// names that entity and carries the marker's path.
pub fn plan_material_load(marker: &BlendGLBMaterialLoader, entity: u64) -> (a: MaterialLoadAction)
    ensures
        a.entity == entity,
        a.material_path@ == marker@,
{
    MaterialLoadAction { entity, material_path: marker.path_string() }
}

/// Holds when `a` is the action planned for the pending material load `p`:
/// same entity, and the material path taken from the marker.
pub open spec fn material_action_matches(a: MaterialLoadAction, p: PendingMaterialLoad) -> bool {
    &&& a.entity == p.entity
    &&& a.material_path@ == p.marker@
}

/// Plans the loads for every entity that carries a material load marker: one
/// action per pending entity, in the order given.
pub fn plan_material_loads(pending: &Vec<PendingMaterialLoad>) -> (actions: Vec<MaterialLoadAction>)
    ensures
        actions@.len() == pending@.len(),
        forall|i: int| 0 <= i < pending@.len() ==>
            material_action_matches(#[trigger] actions@[i], pending@[i]),
{
    let mut actions: Vec<MaterialLoadAction> = Vec::new();
    let mut i: usize = 0;
    while i < pending.len()
        invariant
            i <= pending.len(),
            actions@.len() == i,
            forall|j: int| 0 <= j < i ==>
                material_action_matches(#[trigger] actions@[j], pending@[j]),
        decreases pending.len() - i,
    {
        let p = &pending[i];
        actions.push(plan_material_load(&p.marker, p.entity));
        i = i + 1;
    }
    actions
}

/// Remove the mesh load marker from `entity`, load the mesh asset at
/// `mesh_path` and the material asset at `material_path`, and attach both
/// handles to `entity`.
pub struct MeshMaterialLoadAction {
    pub entity: u64,
    pub mesh_path: String,
    pub material_path: String,
}

/// Plans the combined load for one entity carrying a mesh load marker: the
/// action names that entity and loads both the mesh and the material from the
/// marker's path.
pub fn plan_mesh_material_load(
    marker: &BlendGLBMeshLoader,
    entity: u64,
) -> (a: MeshMaterialLoadAction)
    ensures
        a.entity == entity,
        a.mesh_path@ == marker@,
        a.material_path@ == marker@,
{
    MeshMaterialLoadAction {
        entity,
        mesh_path: marker.path_string(),
        material_path: marker.path_string(),
    }
}

/// Holds when `a` is the combined action planned for the pending mesh load
/// `p`: same entity, and both paths taken from the marker.
pub open spec fn mesh_material_action_matches(a: MeshMaterialLoadAction, p: PendingMeshLoad) -> bool {
    &&& a.entity == p.entity
    &&& a.mesh_path@ == p.marker@
    &&& a.material_path@ == p.marker@
}

/// Plans the combined loads for every entity that carries a mesh load marker:
/// one action per pending entity, in the order given, loading mesh and
/// material from the marker's path.
pub fn plan_mesh_material_loads(
    pending: &Vec<PendingMeshLoad>,
) -> (actions: Vec<MeshMaterialLoadAction>)
    ensures
        actions@.len() == pending@.len(),
        forall|i: int| 0 <= i < pending@.len() ==>
            mesh_material_action_matches(#[trigger] actions@[i], pending@[i]),
{
    let mut actions: Vec<MeshMaterialLoadAction> = Vec::new();
    let mut i: usize = 0;
    while i < pending.len()
        invariant
            i <= pending.len(),
            actions@.len() == i,
            forall|j: int| 0 <= j < i ==>
                mesh_material_action_matches(#[trigger] actions@[j], pending@[j]),
        decreases pending.len() - i,
    {
        let p = &pending[i];
        actions.push(plan_mesh_material_load(&p.marker, p.entity));
        i = i + 1;
    }
    actions
}

} // verus!
