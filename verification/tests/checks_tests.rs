use occt_rs::mesh::zero_based;
use occt_rs::checks::{
    check_geometry_count,
    check_boolean_array_index, check_boolean_build, check_builder_done, check_point_geometry,
    check_shape_type, recorded_geometry_kind, BooleanArrayAccess, BooleanOperation, ShapeBuilder,
};
use occt_rs::error::OcctErrorKind;
use occt_rs::keys::{OrientedShapeKey, PlacedShapeKey, ShapeKey};
use occt_rs::kinds::{GeometryKind, ShapeType};

#[test]
fn boolean_build_outcomes() {
    assert!(check_boolean_build(BooleanOperation::Fuse, false, true).is_ok());
    let e = check_boolean_build(BooleanOperation::Fuse, true, true).unwrap_err();
    assert_eq!(e.kind, OcctErrorKind::ConstructionError);
    assert_eq!(
        e.message,
        "BRepAlgoAPI_Fuse: HasErrors() true after Build() \u{2014} boolean operation failed"
    );
    let e = check_boolean_build(BooleanOperation::Cut, false, false).unwrap_err();
    assert_eq!(
        e.message,
        "BRepAlgoAPI_Cut: IsDone() false after Build() with HasErrors() false \u{2014} unexpected incomplete state"
    );
    // HasErrors() is reported before IsDone()
    let e = check_boolean_build(BooleanOperation::Common, true, false).unwrap_err();
    assert!(e.message.starts_with("BRepAlgoAPI_Common: HasErrors()"));
}

#[test]
fn builder_done_outcomes() {
    assert!(check_builder_done(ShapeBuilder::Fillet, true).is_ok());
    let e = check_builder_done(ShapeBuilder::Fillet, false).unwrap_err();
    assert_eq!(e.kind, OcctErrorKind::ConstructionError);
    assert_eq!(e.message, "BRepFilletAPI_MakeFillet: IsDone() false after Build()");
    assert_eq!(
        check_builder_done(ShapeBuilder::OffsetShape, false).unwrap_err().message,
        "BRepOffsetAPI_MakeOffsetShape: IsDone() false"
    );
    assert_eq!(
        check_builder_done(ShapeBuilder::IncrementalMesh, false).unwrap_err().message,
        "BRep_Mesh_IncrementalMesh: IsDone() false after construction"
    );
}

#[test]
fn shape_type_check() {
    assert!(check_shape_type(ShapeType::Wire, ShapeType::Wire).is_ok());
    let e = check_shape_type(ShapeType::Face, ShapeType::Wire).unwrap_err();
    assert_eq!(e.kind, OcctErrorKind::DomainError);
    assert_eq!(e.message, "expected TopAbs_WIRE, found Face");
    let e = check_shape_type(ShapeType::Edge, ShapeType::Vertex).unwrap_err();
    assert_eq!(e.message, "expected TopAbs_VERTEX, found Edge");
}

#[test]
fn boolean_array_index_check() {
    assert!(check_boolean_array_index(BooleanArrayAccess::Value, 0, 2).is_ok());
    assert!(check_boolean_array_index(BooleanArrayAccess::Value, 1, 2).is_ok());
    let e = check_boolean_array_index(BooleanArrayAccess::Value, 2, 2).unwrap_err();
    assert_eq!(e.kind, OcctErrorKind::OutOfRange);
    assert_eq!(e.message, "TDataStd_BooleanArray::Value: index 2 out of range [0, 2)");
    let e = check_boolean_array_index(BooleanArrayAccess::SetValue, -1, 3).unwrap_err();
    assert_eq!(e.message, "TDataStd_BooleanArray::SetValue: index -1 out of range [0, 3)");
}

#[test]
fn geometry_probes() {
    assert_eq!(recorded_geometry_kind(None), None);
    assert_eq!(recorded_geometry_kind(Some(GeometryKind::Any)), None);
    assert_eq!(recorded_geometry_kind(Some(GeometryKind::Plane)), Some(GeometryKind::Plane));
    assert!(!check_point_geometry(None).unwrap());
    assert!(!check_point_geometry(Some(GeometryKind::Any)).unwrap());
    assert!(check_point_geometry(Some(GeometryKind::Point)).unwrap());
    let e = check_point_geometry(Some(GeometryKind::Line)).unwrap_err();
    assert_eq!(e.kind, OcctErrorKind::DomainError);
    assert_eq!(e.message, "OcPointAttr::get: expected Point geometry, found Line");
}

#[test]
fn shape_keys_compare_by_value() {
    assert_eq!(ShapeKey(7), ShapeKey(7));
    assert_ne!(OrientedShapeKey(1), OrientedShapeKey(2));
    assert_eq!(PlacedShapeKey(3).0, 3);
}

#[test]
fn geometry_count_must_be_one_to_four() {
    assert_eq!(check_geometry_count(0), Some("OcConstraintAttr::set: geoms must not be empty"));
    for n in 1..=4 {
        assert_eq!(check_geometry_count(n), None);
    }
    assert_eq!(
        check_geometry_count(5),
        Some("OcConstraintAttr::set: at most 4 geometry references supported")
    );
}

#[test]
fn wire_edge_status() {
    assert!(occt_rs::checks::check_wire_edge_added(true, String::from("unused")).is_ok());
    let e = occt_rs::checks::check_wire_edge_added(false, String::from("BRepBuilderAPI_DisconnectedWire"))
        .unwrap_err();
    assert_eq!(e.kind, OcctErrorKind::ConstructionError);
    assert_eq!(e.message, "BRepBuilderAPI_DisconnectedWire");
}

#[test]
fn zero_based_mesh_indices() {
    assert_eq!(zero_based(1), 0);
    assert_eq!(zero_based(7), 6);
    assert_eq!(zero_based(i32::MAX), (i32::MAX - 1) as u32);
    assert_eq!(zero_based(0), u32::MAX);
    assert_eq!(zero_based(-1), u32::MAX - 1);
}
