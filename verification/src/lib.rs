//! Verified core of a binding layer for OpenCASCADE Technology (OCCT):
//! the decoding of rethrown OCCT exceptions, the text forms of GUIDs and
//! label paths, the OCCT enumeration tables, shape identity keys, and the
//! status checks that follow each OCCT call.

pub mod checks;
pub mod decimal;
pub mod error;
pub mod guid;
pub mod hexnum;
pub mod keys;
pub mod kinds;
pub mod label_path;
pub mod markers;
pub mod mesh;
pub mod seqs;
pub mod text;

pub use error::{parse_occt_exception, CommonError, FuseError, OcctError, OcctErrorKind};
pub use guid::{GuidParseError, OcGuid};
pub use keys::{OrientedShapeKey, PlacedShapeKey, ShapeKey};
pub use kinds::{
    ConstraintKind, GeometryKind, OcExecutionStatus, ShapeType, TopoNamingEvolution,
};
pub use label_path::{LabelPath, LabelPathParseError};
pub use markers::{OcIFunction, OcReference, OcUAttribute};
