//! Marker components that request an asset load for the entity they sit on.
//!
//! A marker holds only the path of the asset to load. The host engine stores a
//! marker on an entity; the planners in [`crate::plan`] turn each marker into
//! the action that loads the asset and removes the marker again. The view of a
//! marker is the character sequence of its path.

use vstd::prelude::*;

verus! {

/// Requests that the mesh asset at `path` be loaded and its handle attached
/// to the entity carrying this marker.
pub struct BlendGLBMeshLoader {
    path: String,
}

impl View for BlendGLBMeshLoader {
    type V = Seq<char>;

    closed spec fn view(&self) -> Seq<char> {
        self.path@
    }
}

impl BlendGLBMeshLoader {
    /// Builds a marker for the mesh asset at `path`.
    pub fn new(path: String) -> (r: Self)
        ensures
            r@ == path@,
    {
        BlendGLBMeshLoader { path }
    }

    /// The path of the mesh asset this marker asks for.
    pub fn path(&self) -> (r: &str)
        ensures
            r@ == self@,
    {
        self.path.as_str()
    }

    /// The path of the mesh asset this marker asks for, as an owned string.
    pub fn path_string(&self) -> (r: String)
        ensures
            r@ == self@,
    {
        self.path.clone()
    }
}

impl Default for BlendGLBMeshLoader {
    /// A marker with an empty path.
    fn default() -> (r: Self)
        ensures
            r@ == Seq::<char>::empty(),
    {
        BlendGLBMeshLoader { path: String::new() }
    }
}

/// Requests that the material asset at `path` be loaded and its handle
/// attached to the entity carrying this marker.
pub struct BlendGLBMaterialLoader {
    path: String,
}

impl View for BlendGLBMaterialLoader {
    type V = Seq<char>;

    closed spec fn view(&self) -> Seq<char> {
        self.path@
    }
}

impl BlendGLBMaterialLoader {
    /// Builds a marker for the material asset at `path`.
    pub fn new(path: String) -> (r: Self)
        ensures
            r@ == path@,
    {
        BlendGLBMaterialLoader { path }
    }

    /// The path of the material asset this marker asks for.
    pub fn path(&self) -> (r: &str)
        ensures
            r@ == self@,
    {
        self.path.as_str()
    }

    /// The path of the material asset this marker asks for, as an owned string.
    pub fn path_string(&self) -> (r: String)
        ensures
            r@ == self@,
    {
        self.path.clone()
    }
}

impl Default for BlendGLBMaterialLoader {
    /// A marker with an empty path.
    fn default() -> (r: Self)
        ensures
            r@ == Seq::<char>::empty(),
    {
        BlendGLBMaterialLoader { path: String::new() }
    }
}

} // verus!
