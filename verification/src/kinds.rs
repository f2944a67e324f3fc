//! The OCCT enumerations that cross the binding as integers, with the exact
//! integer of each variant.
use vstd::prelude::*;

verus! {

/// Corresponds to `TopAbs_ShapeEnum`.  Conversion from `i32` is total:
/// values outside the table map to `Shape`, the wildcard.
#[derive(Debug, Clone, Copy, PartialEq, Eq, Hash, Structural)]
pub enum ShapeType {
    Compound,
    CompSolid,
    Solid,
    Shell,
    Face,
    Wire,
    Edge,
    Vertex,
    /// `TopAbs_SHAPE`: any shape type; also the fallback for unknown values.
    Shape,
}

/// The `TopAbs_ShapeEnum` value of each shape type.
pub open spec fn shape_type_value(t: ShapeType) -> int {
    match t {
        ShapeType::Compound => 0,
        ShapeType::CompSolid => 1,
        ShapeType::Solid => 2,
        ShapeType::Shell => 3,
        ShapeType::Face => 4,
        ShapeType::Wire => 5,
        ShapeType::Edge => 6,
        ShapeType::Vertex => 7,
        ShapeType::Shape => 8,
    }
}

/// The shape type that an OCCT integer maps to.
pub open spec fn shape_type_of(v: i32) -> ShapeType {
    if v == 0 {
        ShapeType::Compound
    } else if v == 1 {
        ShapeType::CompSolid
    } else if v == 2 {
        ShapeType::Solid
    } else if v == 3 {
        ShapeType::Shell
    } else if v == 4 {
        ShapeType::Face
    } else if v == 5 {
        ShapeType::Wire
    } else if v == 6 {
        ShapeType::Edge
    } else if v == 7 {
        ShapeType::Vertex
    } else {
        ShapeType::Shape
    }
}

impl From<i32> for ShapeType {
    fn from(v: i32) -> (t: Self)
        ensures
            t == shape_type_of(v),
    {
        match v {
            0 => ShapeType::Compound,
            1 => ShapeType::CompSolid,
            2 => ShapeType::Solid,
            3 => ShapeType::Shell,
            4 => ShapeType::Face,
            5 => ShapeType::Wire,
            6 => ShapeType::Edge,
            7 => ShapeType::Vertex,
            _ => ShapeType::Shape,
        }
    }
}

impl vstd::std_specs::convert::FromSpecImpl<i32> for ShapeType {
    open spec fn obeys_from_spec() -> bool {
        true
    }

    open spec fn from_spec(v: i32) -> ShapeType {
        shape_type_of(v)
    }
}

/// Law: every shape type is recovered from its OCCT integer.
pub proof fn shape_type_round_trip(t: ShapeType)
    ensures
        shape_type_of(shape_type_value(t) as i32) == t,
{
}

/// Law: each shape type's integer is its `TopAbs_ShapeEnum` value, the
/// variant's place in `COMPOUND, COMPSOLID, SOLID, SHELL, FACE, WIRE, EDGE,
/// VERTEX, SHAPE`, and an integer reads back as the type it is the value
/// of, any other integer as `Shape`.
pub proof fn shape_type_integers(v: i32)
    ensures
        shape_type_value(ShapeType::Compound) == 0,
        shape_type_value(ShapeType::CompSolid) == 1,
        shape_type_value(ShapeType::Solid) == 2,
        shape_type_value(ShapeType::Shell) == 3,
        shape_type_value(ShapeType::Face) == 4,
        shape_type_value(ShapeType::Wire) == 5,
        shape_type_value(ShapeType::Edge) == 6,
        shape_type_value(ShapeType::Vertex) == 7,
        shape_type_value(ShapeType::Shape) == 8,
        (0 <= v <= 8) ==> shape_type_value(shape_type_of(v)) == v,
        !(0 <= v <= 7) ==> shape_type_of(v) == ShapeType::Shape,
{
}

/// Execution status of a function, as `TFunction_ExecutionStatus`.
#[derive(Debug, Clone, Copy, PartialEq, Eq, Structural)]
pub enum OcExecutionStatus {
    WrongDefinition,
    NotExecuted,
    Executing,
    Succeeded,
    Failed,
}

/// The `TFunction_ExecutionStatus` value of each status.
pub open spec fn execution_status_value(s: OcExecutionStatus) -> int {
    match s {
        OcExecutionStatus::WrongDefinition => 0,
        OcExecutionStatus::NotExecuted => 1,
        OcExecutionStatus::Executing => 2,
        OcExecutionStatus::Succeeded => 3,
        OcExecutionStatus::Failed => 4,
    }
}

impl OcExecutionStatus {
    /// The status that an OCCT integer stands for; OCCT knows no others.
    pub fn from_raw(v: i32) -> (s: Self)
        requires
            0 <= v <= 4,
        ensures
            execution_status_value(s) == v,
    {
        match v {
            0 => OcExecutionStatus::WrongDefinition,
            1 => OcExecutionStatus::NotExecuted,
            2 => OcExecutionStatus::Executing,
            3 => OcExecutionStatus::Succeeded,
            _ => OcExecutionStatus::Failed,
        }
    }

    /// The OCCT integer of this status.
    pub fn to_raw(self) -> (v: i32)
        ensures
            v == execution_status_value(self),
    {
        match self {
            OcExecutionStatus::WrongDefinition => 0,
            OcExecutionStatus::NotExecuted => 1,
            OcExecutionStatus::Executing => 2,
            OcExecutionStatus::Succeeded => 3,
            OcExecutionStatus::Failed => 4,
        }
    }
}

/// Law: distinct statuses have distinct OCCT integers, so a status written
/// as its integer is read back unchanged.
pub proof fn execution_status_values_distinct(a: OcExecutionStatus, b: OcExecutionStatus)
    ensures
        execution_status_value(a) == execution_status_value(b) ==> a == b,
        0 <= execution_status_value(a) <= 4,
{
}

/// Law: each status's integer is its `TFunction_ExecutionStatus` value,
/// the variant's place in `WrongDefinition, NotExecuted, Executing,
/// Succeeded, Failed`.
pub proof fn execution_status_integers()
    ensures
        execution_status_value(OcExecutionStatus::WrongDefinition) == 0,
        execution_status_value(OcExecutionStatus::NotExecuted) == 1,
        execution_status_value(OcExecutionStatus::Executing) == 2,
        execution_status_value(OcExecutionStatus::Succeeded) == 3,
        execution_status_value(OcExecutionStatus::Failed) == 4,
{
}

/// The kind of geometric construction a label represents, as
/// `TDataXtd_GeometryEnum`.
#[derive(Debug, Clone, Copy, PartialEq, Eq, Hash, Structural)]
pub enum GeometryKind {
    Any,
    Point,
    Line,
    Circle,
    Ellipse,
    Spline,
    Plane,
    Cylinder,
}

/// The `TDataXtd_GeometryEnum` value of each kind.
pub open spec fn geometry_kind_value(k: GeometryKind) -> int {
    match k {
        GeometryKind::Any => 0,
        GeometryKind::Point => 1,
        GeometryKind::Line => 2,
        GeometryKind::Circle => 3,
        GeometryKind::Ellipse => 4,
        GeometryKind::Spline => 5,
        GeometryKind::Plane => 6,
        GeometryKind::Cylinder => 7,
    }
}

impl GeometryKind {
    /// The kind that an OCCT integer stands for; OCCT knows no others.
    pub fn from_raw(v: i32) -> (k: Self)
        requires
            0 <= v <= 7,
        ensures
            geometry_kind_value(k) == v,
    {
        match v {
            0 => GeometryKind::Any,
            1 => GeometryKind::Point,
            2 => GeometryKind::Line,
            3 => GeometryKind::Circle,
            4 => GeometryKind::Ellipse,
            5 => GeometryKind::Spline,
            6 => GeometryKind::Plane,
            _ => GeometryKind::Cylinder,
        }
    }

    /// The OCCT integer of this kind.
    pub fn to_raw(self) -> (v: i32)
        ensures
            v == geometry_kind_value(self),
    {
        match self {
            GeometryKind::Any => 0,
            GeometryKind::Point => 1,
            GeometryKind::Line => 2,
            GeometryKind::Circle => 3,
            GeometryKind::Ellipse => 4,
            GeometryKind::Spline => 5,
            GeometryKind::Plane => 6,
            GeometryKind::Cylinder => 7,
        }
    }
}

/// Law: distinct geometry kinds have distinct OCCT integers, so a kind
/// written as its integer is read back unchanged.
pub proof fn geometry_kind_values_distinct(a: GeometryKind, b: GeometryKind)
    ensures
        geometry_kind_value(a) == geometry_kind_value(b) ==> a == b,
        0 <= geometry_kind_value(a) <= 7,
{
}

/// Law: each kind's integer is its `TDataXtd_GeometryEnum` value, the
/// variant's place in `ANY, POINT, LINE, CIRCLE, ELLIPSE, SPLINE, PLANE,
/// CYLINDER`.
pub proof fn geometry_kind_integers()
    ensures
        geometry_kind_value(GeometryKind::Any) == 0,
        geometry_kind_value(GeometryKind::Point) == 1,
        geometry_kind_value(GeometryKind::Line) == 2,
        geometry_kind_value(GeometryKind::Circle) == 3,
        geometry_kind_value(GeometryKind::Ellipse) == 4,
        geometry_kind_value(GeometryKind::Spline) == 5,
        geometry_kind_value(GeometryKind::Plane) == 6,
        geometry_kind_value(GeometryKind::Cylinder) == 7,
{
}

/// The kind of constraint recorded by a `TDataXtd_Constraint`, as
/// `TDataXtd_ConstraintEnum`.
#[derive(Debug, Clone, Copy, PartialEq, Eq, Hash, Structural)]
pub enum ConstraintKind {
    Radius,
    Diameter,
    MinorRadius,
    MajorRadius,
    Tangent,
    Parallel,
    Perpendicular,
    Concentric,
    Coincident,
    Distance,
    Angle,
    EqualRadius,
    Through,
    Symmetric,
    Midpoint,
    EqualDistance,
    Fix,
    Rigid,
    From,
    Axis,
    Mate,
    FaceDistance,
    Round,
    Offset,
}

/// The `TDataXtd_ConstraintEnum` value of each kind.
pub open spec fn constraint_kind_value(k: ConstraintKind) -> int {
    match k {
        ConstraintKind::Radius => 0,
        ConstraintKind::Diameter => 1,
        ConstraintKind::MinorRadius => 2,
        ConstraintKind::MajorRadius => 3,
        ConstraintKind::Tangent => 4,
        ConstraintKind::Parallel => 5,
        ConstraintKind::Perpendicular => 6,
        ConstraintKind::Concentric => 7,
        ConstraintKind::Coincident => 8,
        ConstraintKind::Distance => 9,
        ConstraintKind::Angle => 10,
        ConstraintKind::EqualRadius => 11,
        ConstraintKind::Through => 12,
        ConstraintKind::Symmetric => 13,
        ConstraintKind::Midpoint => 14,
        ConstraintKind::EqualDistance => 15,
        ConstraintKind::Fix => 16,
        ConstraintKind::Rigid => 17,
        ConstraintKind::From => 18,
        ConstraintKind::Axis => 19,
        ConstraintKind::Mate => 20,
        ConstraintKind::FaceDistance => 21,
        ConstraintKind::Round => 22,
        ConstraintKind::Offset => 23,
    }
}

impl ConstraintKind {
    /// The kind that an OCCT integer stands for; OCCT knows no others.
    pub fn from_raw(v: i32) -> (k: Self)
        requires
            0 <= v <= 23,
        ensures
            constraint_kind_value(k) == v,
    {
        match v {
            0 => ConstraintKind::Radius,
            1 => ConstraintKind::Diameter,
            2 => ConstraintKind::MinorRadius,
            3 => ConstraintKind::MajorRadius,
            4 => ConstraintKind::Tangent,
            5 => ConstraintKind::Parallel,
            6 => ConstraintKind::Perpendicular,
            7 => ConstraintKind::Concentric,
            8 => ConstraintKind::Coincident,
            9 => ConstraintKind::Distance,
            10 => ConstraintKind::Angle,
            11 => ConstraintKind::EqualRadius,
            12 => ConstraintKind::Through,
            13 => ConstraintKind::Symmetric,
            14 => ConstraintKind::Midpoint,
            15 => ConstraintKind::EqualDistance,
            16 => ConstraintKind::Fix,
            17 => ConstraintKind::Rigid,
            18 => ConstraintKind::From,
            19 => ConstraintKind::Axis,
            20 => ConstraintKind::Mate,
            21 => ConstraintKind::FaceDistance,
            22 => ConstraintKind::Round,
            _ => ConstraintKind::Offset,
        }
    }

    /// The OCCT integer of this kind.
    pub fn to_raw(self) -> (v: i32)
        ensures
            v == constraint_kind_value(self),
    {
        match self {
            ConstraintKind::Radius => 0,
            ConstraintKind::Diameter => 1,
            ConstraintKind::MinorRadius => 2,
            ConstraintKind::MajorRadius => 3,
            ConstraintKind::Tangent => 4,
            ConstraintKind::Parallel => 5,
            ConstraintKind::Perpendicular => 6,
            ConstraintKind::Concentric => 7,
            ConstraintKind::Coincident => 8,
            ConstraintKind::Distance => 9,
            ConstraintKind::Angle => 10,
            ConstraintKind::EqualRadius => 11,
            ConstraintKind::Through => 12,
            ConstraintKind::Symmetric => 13,
            ConstraintKind::Midpoint => 14,
            ConstraintKind::EqualDistance => 15,
            ConstraintKind::Fix => 16,
            ConstraintKind::Rigid => 17,
            ConstraintKind::From => 18,
            ConstraintKind::Axis => 19,
            ConstraintKind::Mate => 20,
            ConstraintKind::FaceDistance => 21,
            ConstraintKind::Round => 22,
            ConstraintKind::Offset => 23,
        }
    }
}

/// Law: distinct constraint kinds have distinct OCCT integers, so a kind
/// written as its integer is read back unchanged.
pub proof fn constraint_kind_values_distinct(a: ConstraintKind, b: ConstraintKind)
    ensures
        constraint_kind_value(a) == constraint_kind_value(b) ==> a == b,
        0 <= constraint_kind_value(a) <= 23,
{
}

/// Law: each kind's integer is its `TDataXtd_ConstraintEnum` value, the
/// variant's place in the enumeration, from `RADIUS` (0) to `OFFSET` (23).
pub proof fn constraint_kind_integers()
    ensures
        constraint_kind_value(ConstraintKind::Radius) == 0,
        constraint_kind_value(ConstraintKind::Diameter) == 1,
        constraint_kind_value(ConstraintKind::MinorRadius) == 2,
        constraint_kind_value(ConstraintKind::MajorRadius) == 3,
        constraint_kind_value(ConstraintKind::Tangent) == 4,
        constraint_kind_value(ConstraintKind::Parallel) == 5,
        constraint_kind_value(ConstraintKind::Perpendicular) == 6,
        constraint_kind_value(ConstraintKind::Concentric) == 7,
        constraint_kind_value(ConstraintKind::Coincident) == 8,
        constraint_kind_value(ConstraintKind::Distance) == 9,
        constraint_kind_value(ConstraintKind::Angle) == 10,
        constraint_kind_value(ConstraintKind::EqualRadius) == 11,
        constraint_kind_value(ConstraintKind::Through) == 12,
        constraint_kind_value(ConstraintKind::Symmetric) == 13,
        constraint_kind_value(ConstraintKind::Midpoint) == 14,
        constraint_kind_value(ConstraintKind::EqualDistance) == 15,
        constraint_kind_value(ConstraintKind::Fix) == 16,
        constraint_kind_value(ConstraintKind::Rigid) == 17,
        constraint_kind_value(ConstraintKind::From) == 18,
        constraint_kind_value(ConstraintKind::Axis) == 19,
        constraint_kind_value(ConstraintKind::Mate) == 20,
        constraint_kind_value(ConstraintKind::FaceDistance) == 21,
        constraint_kind_value(ConstraintKind::Round) == 22,
        constraint_kind_value(ConstraintKind::Offset) == 23,
{
}

/// Evolution kind of a set of recorded shapes, as `TNaming_Evolution`.
#[derive(Debug, Clone, Copy, PartialEq, Eq, Structural)]
pub enum TopoNamingEvolution {
    /// Shape appeared fresh, with no topological ancestor.
    Primitive,
    /// Shape was generated from an ancestor; carries an old/new pair.
    Generated,
    /// Shape is a modification of an ancestor; carries an old/new pair.
    Modify,
    /// Ancestor deletion.
    Delete,
    /// Retained by OCCT for legacy reasons.
    Replace,
    /// Sub-shape selection in context (`TNaming_Selector`).
    Selected,
}

/// The `TNaming_Evolution` value of each evolution.
pub open spec fn evolution_value(e: TopoNamingEvolution) -> int {
    match e {
        TopoNamingEvolution::Primitive => 0,
        TopoNamingEvolution::Generated => 1,
        TopoNamingEvolution::Modify => 2,
        TopoNamingEvolution::Delete => 3,
        TopoNamingEvolution::Replace => 4,
        TopoNamingEvolution::Selected => 5,
    }
}

impl TopoNamingEvolution {
    /// The evolution that an OCCT integer stands for, or `None` for values
    /// outside `0..=5`.
    pub fn try_from_raw(v: i32) -> (r: Option<Self>)
        ensures
            r is Some <==> 0 <= v <= 5,
            r matches Some(e) ==> evolution_value(e) == v,
    {
        match v {
            0 => Some(TopoNamingEvolution::Primitive),
            1 => Some(TopoNamingEvolution::Generated),
            2 => Some(TopoNamingEvolution::Modify),
            3 => Some(TopoNamingEvolution::Delete),
            4 => Some(TopoNamingEvolution::Replace),
            5 => Some(TopoNamingEvolution::Selected),
            _ => None,
        }
    }
}

/// Law: distinct evolutions have distinct OCCT integers, all in `0..=5`.
pub proof fn evolution_values_distinct(a: TopoNamingEvolution, b: TopoNamingEvolution)
    ensures
        evolution_value(a) == evolution_value(b) ==> a == b,
        0 <= evolution_value(a) <= 5,
{
}

/// Law: each evolution's integer is its `TNaming_Evolution` value, the
/// variant's place in `PRIMITIVE, GENERATED, MODIFY, DELETE, REPLACE,
/// SELECTED`.
pub proof fn evolution_integers()
    ensures
        evolution_value(TopoNamingEvolution::Primitive) == 0,
        evolution_value(TopoNamingEvolution::Generated) == 1,
        evolution_value(TopoNamingEvolution::Modify) == 2,
        evolution_value(TopoNamingEvolution::Delete) == 3,
        evolution_value(TopoNamingEvolution::Replace) == 4,
        evolution_value(TopoNamingEvolution::Selected) == 5,
{
}

} // verus!
