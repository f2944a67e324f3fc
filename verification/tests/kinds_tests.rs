use occt_rs::kinds::{ConstraintKind, GeometryKind, OcExecutionStatus, ShapeType, TopoNamingEvolution};

#[test]
fn shape_type_from_i32() {
    let expected = [
        ShapeType::Compound,
        ShapeType::CompSolid,
        ShapeType::Solid,
        ShapeType::Shell,
        ShapeType::Face,
        ShapeType::Wire,
        ShapeType::Edge,
        ShapeType::Vertex,
        ShapeType::Shape,
    ];
    for (i, t) in expected.iter().enumerate() {
        assert_eq!(ShapeType::from(i as i32), *t);
    }
    assert_eq!(ShapeType::from(9), ShapeType::Shape);
    assert_eq!(ShapeType::from(-1), ShapeType::Shape);
    assert_eq!(ShapeType::from(i32::MAX), ShapeType::Shape);
}

#[test]
fn execution_status_round_trip() {
    for v in 0..=4 {
        assert_eq!(OcExecutionStatus::from_raw(v).to_raw(), v);
    }
    assert_eq!(OcExecutionStatus::from_raw(0), OcExecutionStatus::WrongDefinition);
    assert_eq!(OcExecutionStatus::from_raw(3), OcExecutionStatus::Succeeded);
    assert_eq!(OcExecutionStatus::Failed.to_raw(), 4);
}

#[test]
fn geometry_kind_round_trip() {
    for v in 0..=7 {
        assert_eq!(GeometryKind::from_raw(v).to_raw(), v);
    }
    assert_eq!(GeometryKind::from_raw(6), GeometryKind::Plane);
    assert_eq!(GeometryKind::Cylinder.to_raw(), 7);
}

#[test]
fn constraint_kind_round_trip() {
    for v in 0..=23 {
        assert_eq!(ConstraintKind::from_raw(v).to_raw(), v);
    }
    assert_eq!(ConstraintKind::from_raw(0), ConstraintKind::Radius);
    assert_eq!(ConstraintKind::from_raw(18), ConstraintKind::From);
    assert_eq!(ConstraintKind::Offset.to_raw(), 23);
}

#[test]
fn evolution_try_from_raw() {
    assert_eq!(TopoNamingEvolution::try_from_raw(0), Some(TopoNamingEvolution::Primitive));
    assert_eq!(TopoNamingEvolution::try_from_raw(2), Some(TopoNamingEvolution::Modify));
    assert_eq!(TopoNamingEvolution::try_from_raw(4), Some(TopoNamingEvolution::Replace));
    assert_eq!(TopoNamingEvolution::try_from_raw(5), Some(TopoNamingEvolution::Selected));
    assert_eq!(TopoNamingEvolution::try_from_raw(6), None);
    assert_eq!(TopoNamingEvolution::try_from_raw(-1), None);
}
