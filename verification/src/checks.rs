//! The decisions taken after an OCCT call: whether a builder's status
//! means success, whether a shape has the type asked for, whether an index
//! is in range.  Each returns the error the binding reports, if any.
use vstd::prelude::*;

use crate::decimal::{i32_text, push_i32};
use crate::error::{OcctError, OcctErrorKind, OcctErrorKindView, OcctErrorView};
use crate::kinds::{GeometryKind, ShapeType};
use crate::text::push_str;

verus! {

/// An error of the given kind with the given message.
pub open spec fn error_view(kind: OcctErrorKindView, message: Seq<char>) -> OcctErrorView {
    OcctErrorView { kind, message }
}

/// A unit result, or an error, seen as values.
pub open spec fn unit_result_view(r: Result<(), OcctError>) -> Result<(), OcctErrorView> {
    match r {
        Ok(()) => Ok(()),
        Err(e) => Err(e@),
    }
}

/// The boolean operations of `BRepAlgoAPI`.
#[derive(Debug, Clone, Copy, PartialEq, Eq, Structural)]
pub enum BooleanOperation {
    /// `BRepAlgoAPI_Fuse`
    Fuse,
    /// `BRepAlgoAPI_Cut`
    Cut,
    /// `BRepAlgoAPI_Common`
    Common,
}

/// The OCCT class that performs a boolean operation.
pub open spec fn boolean_class(op: BooleanOperation) -> Seq<char> {
    match op {
        BooleanOperation::Fuse => "BRepAlgoAPI_Fuse"@,
        BooleanOperation::Cut => "BRepAlgoAPI_Cut"@,
        BooleanOperation::Common => "BRepAlgoAPI_Common"@,
    }
}

fn boolean_class_str(op: BooleanOperation) -> (s: &'static str)
    ensures
        s@ == boolean_class(op),
{
    match op {
        BooleanOperation::Fuse => "BRepAlgoAPI_Fuse",
        BooleanOperation::Cut => "BRepAlgoAPI_Cut",
        BooleanOperation::Common => "BRepAlgoAPI_Common",
    }
}

/// What a boolean operation's status after `Build()` means: errors reported
/// by `HasErrors()` come first, then an incomplete `IsDone()`; otherwise
/// the result shape may be taken.
pub open spec fn boolean_outcome(op: BooleanOperation, has_errors: bool, is_done: bool) -> Result<
    (),
    OcctErrorView,
> {
    if has_errors {
        Err(
            error_view(
                OcctErrorKindView::ConstructionError,
                boolean_class(op) + ": HasErrors() true after Build() \u{2014} boolean operation failed"@,
            ),
        )
    } else if !is_done {
        Err(
            error_view(
                OcctErrorKindView::ConstructionError,
                boolean_class(op)
                    + ": IsDone() false after Build() with HasErrors() false \u{2014} unexpected incomplete state"@,
            ),
        )
    } else {
        Ok(())
    }
}

/// Decides a boolean operation's status after `Build()`.
pub fn check_boolean_build(op: BooleanOperation, has_errors: bool, is_done: bool) -> (r: Result<
    (),
    OcctError,
>)
    ensures
        unit_result_view(r) == boolean_outcome(op, has_errors, is_done),
{
    if has_errors {
        let mut m = String::new();
        push_str(&mut m, boolean_class_str(op));
        push_str(&mut m, ": HasErrors() true after Build() \u{2014} boolean operation failed");
        return Err(OcctError { kind: OcctErrorKind::ConstructionError, message: m });
    }
    if !is_done {
        let mut m = String::new();
        push_str(&mut m, boolean_class_str(op));
        push_str(
            &mut m,
            ": IsDone() false after Build() with HasErrors() false \u{2014} unexpected incomplete state",
        );
        return Err(OcctError { kind: OcctErrorKind::ConstructionError, message: m });
    }
    Ok(())
}

/// The builders whose only failure signal is `IsDone()`.
#[derive(Debug, Clone, Copy, PartialEq, Eq, Structural)]
pub enum ShapeBuilder {
    /// `BRepOffsetAPI_MakeOffsetShape`
    OffsetShape,
    /// `BRepOffsetAPI_MakeThickSolid`
    ThickSolid,
    /// `BRepFilletAPI_MakeChamfer`
    Chamfer,
    /// `BRepFilletAPI_MakeFillet`
    Fillet,
    /// `BRepBuilderAPI_Transform`
    Transform,
    /// `BRep_Mesh_IncrementalMesh`
    IncrementalMesh,
}

/// The message reported when a builder is not done.
pub open spec fn not_done_message(b: ShapeBuilder) -> Seq<char> {
    match b {
        ShapeBuilder::OffsetShape => "BRepOffsetAPI_MakeOffsetShape: IsDone() false"@,
        ShapeBuilder::ThickSolid => "BRepOffsetAPI_MakeThickSolid: IsDone() false after build"@,
        ShapeBuilder::Chamfer => "BRepFilletAPI_MakeChamfer: IsDone() false after Build()"@,
        ShapeBuilder::Fillet => "BRepFilletAPI_MakeFillet: IsDone() false after Build()"@,
        ShapeBuilder::Transform => "BRepBuilderAPI_Transform: IsDone() false after construction"@,
        ShapeBuilder::IncrementalMesh =>
            "BRep_Mesh_IncrementalMesh: IsDone() false after construction"@,
    }
}

/// Decides a builder's status: `IsDone()` false is a construction error.
pub fn check_builder_done(b: ShapeBuilder, is_done: bool) -> (r: Result<(), OcctError>)
    ensures
        unit_result_view(r) == (if is_done {
            Ok(())
        } else {
            Err(error_view(OcctErrorKindView::ConstructionError, not_done_message(b)))
        }),
{
    if is_done {
        return Ok(());
    }
    let text: &str = match b {
        ShapeBuilder::OffsetShape => "BRepOffsetAPI_MakeOffsetShape: IsDone() false",
        ShapeBuilder::ThickSolid => "BRepOffsetAPI_MakeThickSolid: IsDone() false after build",
        ShapeBuilder::Chamfer => "BRepFilletAPI_MakeChamfer: IsDone() false after Build()",
        ShapeBuilder::Fillet => "BRepFilletAPI_MakeFillet: IsDone() false after Build()",
        ShapeBuilder::Transform => "BRepBuilderAPI_Transform: IsDone() false after construction",
        ShapeBuilder::IncrementalMesh =>
            "BRep_Mesh_IncrementalMesh: IsDone() false after construction",
    };
    let mut m = String::new();
    push_str(&mut m, text);
    Err(OcctError { kind: OcctErrorKind::ConstructionError, message: m })
}

/// The OCCT name of a shape type, as in `TopAbs_ShapeEnum`.
pub open spec fn top_abs_name(t: ShapeType) -> Seq<char> {
    match t {
        ShapeType::Compound => "TopAbs_COMPOUND"@,
        ShapeType::CompSolid => "TopAbs_COMPSOLID"@,
        ShapeType::Solid => "TopAbs_SOLID"@,
        ShapeType::Shell => "TopAbs_SHELL"@,
        ShapeType::Face => "TopAbs_FACE"@,
        ShapeType::Wire => "TopAbs_WIRE"@,
        ShapeType::Edge => "TopAbs_EDGE"@,
        ShapeType::Vertex => "TopAbs_VERTEX"@,
        ShapeType::Shape => "TopAbs_SHAPE"@,
    }
}

/// The `Debug` text of a shape type: its variant name.
pub open spec fn shape_type_name(t: ShapeType) -> Seq<char> {
    match t {
        ShapeType::Compound => "Compound"@,
        ShapeType::CompSolid => "CompSolid"@,
        ShapeType::Solid => "Solid"@,
        ShapeType::Shell => "Shell"@,
        ShapeType::Face => "Face"@,
        ShapeType::Wire => "Wire"@,
        ShapeType::Edge => "Edge"@,
        ShapeType::Vertex => "Vertex"@,
        ShapeType::Shape => "Shape"@,
    }
}

fn top_abs_name_str(t: ShapeType) -> (s: &'static str)
    ensures
        s@ == top_abs_name(t),
{
    match t {
        ShapeType::Compound => "TopAbs_COMPOUND",
        ShapeType::CompSolid => "TopAbs_COMPSOLID",
        ShapeType::Solid => "TopAbs_SOLID",
        ShapeType::Shell => "TopAbs_SHELL",
        ShapeType::Face => "TopAbs_FACE",
        ShapeType::Wire => "TopAbs_WIRE",
        ShapeType::Edge => "TopAbs_EDGE",
        ShapeType::Vertex => "TopAbs_VERTEX",
        ShapeType::Shape => "TopAbs_SHAPE",
    }
}

fn shape_type_name_str(t: ShapeType) -> (s: &'static str)
    ensures
        s@ == shape_type_name(t),
{
    match t {
        ShapeType::Compound => "Compound",
        ShapeType::CompSolid => "CompSolid",
        ShapeType::Solid => "Solid",
        ShapeType::Shell => "Shell",
        ShapeType::Face => "Face",
        ShapeType::Wire => "Wire",
        ShapeType::Edge => "Edge",
        ShapeType::Vertex => "Vertex",
        ShapeType::Shape => "Shape",
    }
}

/// Checks that a shape's type is the one a typed wrapper needs: a
/// mismatch is a domain error naming both types.
pub fn check_shape_type(actual: ShapeType, expected: ShapeType) -> (r: Result<(), OcctError>)
    ensures
        unit_result_view(r) == (if actual == expected {
            Ok(())
        } else {
            Err(
                error_view(
                    OcctErrorKindView::DomainError,
                    "expected "@ + top_abs_name(expected) + ", found "@ + shape_type_name(actual),
                ),
            )
        }),
{
    if actual == expected {
        return Ok(());
    }
    let mut m = String::new();
    push_str(&mut m, "expected ");
    push_str(&mut m, top_abs_name_str(expected));
    push_str(&mut m, ", found ");
    push_str(&mut m, shape_type_name_str(actual));
    Err(OcctError { kind: OcctErrorKind::DomainError, message: m })
}

/// The two indexed accesses of `TDataStd_BooleanArray`.
#[derive(Debug, Clone, Copy, PartialEq, Eq, Structural)]
pub enum BooleanArrayAccess {
    /// `Value`
    Value,
    /// `SetValue`
    SetValue,
}

/// The OCCT method behind an access.
pub open spec fn access_name(a: BooleanArrayAccess) -> Seq<char> {
    match a {
        BooleanArrayAccess::Value => "TDataStd_BooleanArray::Value"@,
        BooleanArrayAccess::SetValue => "TDataStd_BooleanArray::SetValue"@,
    }
}

/// Checks an index into a boolean array of length `len` before OCCT sees
/// it: the array is bit-packed, so OCCT's own check is by bytes and would
/// let an index past `len` in the last byte through.
pub fn check_boolean_array_index(access: BooleanArrayAccess, index: i32, len: i32) -> (r: Result<
    (),
    OcctError,
>)
    ensures
        unit_result_view(r) == (if 0 <= index < len {
            Ok(())
        } else {
            Err(
                error_view(
                    OcctErrorKindView::OutOfRange,
                    access_name(access) + ": index "@ + i32_text(index) + " out of range [0, "@
                        + i32_text(len) + ")"@,
                ),
            )
        }),
{
    if 0 <= index && index < len {
        return Ok(());
    }
    let mut m = String::new();
    match access {
        BooleanArrayAccess::Value => push_str(&mut m, "TDataStd_BooleanArray::Value"),
        BooleanArrayAccess::SetValue => push_str(&mut m, "TDataStd_BooleanArray::SetValue"),
    }
    push_str(&mut m, ": index ");
    push_i32(&mut m, index);
    push_str(&mut m, " out of range [0, ");
    push_i32(&mut m, len);
    push_str(&mut m, ")");
    Err(OcctError { kind: OcctErrorKind::OutOfRange, message: m })
}

/// The `Debug` text of a geometry kind: its variant name.
pub open spec fn geometry_kind_name(k: GeometryKind) -> Seq<char> {
    match k {
        GeometryKind::Any => "Any"@,
        GeometryKind::Point => "Point"@,
        GeometryKind::Line => "Line"@,
        GeometryKind::Circle => "Circle"@,
        GeometryKind::Ellipse => "Ellipse"@,
        GeometryKind::Spline => "Spline"@,
        GeometryKind::Plane => "Plane"@,
        GeometryKind::Cylinder => "Cylinder"@,
    }
}

/// The kind recorded on a label, from what `TDataXtd_Geometry::Type` on
/// the label gave (`None` when it raised): nothing is recorded when it
/// raised or gave `Any`.
pub fn recorded_geometry_kind(probe: Option<GeometryKind>) -> (r: Option<GeometryKind>)
    ensures
        r == (match probe {
            Some(k) => if k == GeometryKind::Any {
                None
            } else {
                Some(k)
            },
            None => None,
        }),
{
    match probe {
        None => None,
        Some(GeometryKind::Any) => None,
        Some(k) => Some(k),
    }
}

/// Decides a point read from what `TDataXtd_Geometry::Type` on the label
/// gave (`None` when it raised): `Ok(false)` when no point is recorded,
/// `Ok(true)` when a point is, and a domain error for any other geometry.
pub fn check_point_geometry(probe: Option<GeometryKind>) -> (r: Result<bool, OcctError>)
    ensures
        match probe {
            None => r matches Ok(b) && !b,
            Some(k) => if k == GeometryKind::Any {
                r matches Ok(b) && !b
            } else if k == GeometryKind::Point {
                r matches Ok(b) && b
            } else {
                r matches Err(e) && e@ == error_view(
                    OcctErrorKindView::DomainError,
                    "OcPointAttr::get: expected Point geometry, found "@ + geometry_kind_name(k),
                )
            },
        },
{
    match probe {
        None => Ok(false),
        Some(GeometryKind::Any) => Ok(false),
        Some(GeometryKind::Point) => Ok(true),
        Some(k) => {
            let name: &str = match k {
                GeometryKind::Any => "Any",
                GeometryKind::Point => "Point",
                GeometryKind::Line => "Line",
                GeometryKind::Circle => "Circle",
                GeometryKind::Ellipse => "Ellipse",
                GeometryKind::Spline => "Spline",
                GeometryKind::Plane => "Plane",
                GeometryKind::Cylinder => "Cylinder",
            };
            let mut m = String::new();
            push_str(&mut m, "OcPointAttr::get: expected Point geometry, found ");
            push_str(&mut m, name);
            Err(OcctError { kind: OcctErrorKind::DomainError, message: m })
        },
    }
}

/// Why a constraint cannot take `n` geometry references: `TDataXtd_Constraint`
/// holds one to four.
pub open spec fn geometry_count_problem(n: nat) -> Option<Seq<char>> {
    if n == 0 {
        Some("OcConstraintAttr::set: geoms must not be empty"@)
    } else if n > 4 {
        Some("OcConstraintAttr::set: at most 4 geometry references supported"@)
    } else {
        None
    }
}

/// Checks the number of geometry references handed to a constraint; the
/// message says what is wrong, where something is.
pub fn check_geometry_count(n: usize) -> (r: Option<&'static str>)
    ensures
        match r {
            None => geometry_count_problem(n as nat) is None,
            Some(m) => geometry_count_problem(n as nat) == Some(m@),
        },
{
    if n == 0 {
        Some("OcConstraintAttr::set: geoms must not be empty")
    } else if n > 4 {
        Some("OcConstraintAttr::set: at most 4 geometry references supported")
    } else {
        None
    }
}

/// Decides the status of a wire builder after an edge was added: not done
/// is a construction error carrying the builder's own error text.
pub fn check_wire_edge_added(is_done: bool, error: String) -> (r: Result<(), OcctError>)
    ensures
        unit_result_view(r) == (if is_done {
            Ok(())
        } else {
            Err(error_view(OcctErrorKindView::ConstructionError, error@))
        }),
{
    if is_done {
        Ok(())
    } else {
        Err(OcctError { kind: OcctErrorKind::ConstructionError, message: error })
    }
}

} // verus!
