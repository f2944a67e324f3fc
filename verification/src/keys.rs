//! Within-session identities of topological sub-shapes.  The values are
//! hashes that the C++ side computes; they are meaningless across
//! processes and across save and reload.
use vstd::prelude::*;

verus! {

/// Identity of a placed sub-shape instance at the strictest tier: TShape
/// (geometry), Location (placement) and Orientation.
#[derive(Debug, Clone, Copy, PartialEq, Eq, Hash, Structural)]
pub struct OrientedShapeKey(pub usize);

/// Identity of a placed sub-shape instance ignoring orientation: TShape
/// and Location only, so both readings of a shared edge get the same key.
#[derive(Debug, Clone, Copy, PartialEq, Eq, Hash, Structural)]
pub struct PlacedShapeKey(pub usize);

/// Identity of a tessellated sub-shape (TShape, Location and Orientation).
#[derive(Debug, Clone, Copy, PartialEq, Eq, Hash, Structural)]
pub struct ShapeKey(pub usize);

} // verus!
