//! Zero-sized handles whose operations are static OCCT calls on labels:
//! `TDataStd_UAttribute`, `TDF_Reference` and `TFunction_IFunction`.
use vstd::prelude::*;

use crate::guid::{GuidView, OcGuid};

verus! {

/// `TDataStd_UAttribute`: a presence-only marker on a label, identified
/// by a caller-supplied [`OcGuid`].
pub struct OcUAttribute;

/// `TDF_Reference`: a reference stored on one label to another.
pub struct OcReference;

/// `TFunction_IFunction`: the interface to a function on a label.
pub struct OcIFunction;

/// The UUID type that identifies function drivers.
#[verifier::external_type_specification]
#[verifier::external_body]
pub struct ExUuid(uuid::Uuid);

/// The fields that `uuid::Uuid::as_fields` gives for a UUID: its sixteen
/// bytes read big-endian as a `u32`, two `u16`, and the eight trailing
/// bytes.
pub uninterp spec fn uuid_fields_of(u: uuid::Uuid) -> (u32, u16, u16, Seq<u8>);

/// Calls `uuid::Uuid::as_fields` and copies the trailing bytes out.  The
/// contract claims only that the result is those fields.
#[verifier::external_body]
fn uuid_fields(u: &uuid::Uuid) -> (f: (u32, u16, u16, [u8; 8]))
    ensures
        (f.0, f.1, f.2, f.3@) == uuid_fields_of(*u),
{
    let (d1, d2, d3, d4) = u.as_fields();
    (d1, d2, d3, *d4)
}

/// The GUID whose `Standard_GUID` scalars come from a UUID's fields: the
/// first two trailing bytes form `a16b3` (high byte first), the last six
/// are `a8`.
pub open spec fn guid_of_uuid_fields(d1: u32, d2: u16, d3: u16, d4: Seq<u8>) -> GuidView {
    GuidView {
        a32b: d1,
        a16b1: d2,
        a16b2: d3,
        a16b3: (d4[0] * 256 + d4[1]) as u16,
        a8: d4.subrange(2, 8),
    }
}

impl OcGuid {
    /// The GUID for the fields of a UUID, as `uuid::Uuid::as_fields` gives
    /// them.
    pub fn from_uuid_fields(d1: u32, d2: u16, d3: u16, d4: [u8; 8]) -> (g: OcGuid)
        ensures
            g@ == guid_of_uuid_fields(d1, d2, d3, d4@),
    {
        let hi = d4[0];
        let lo = d4[1];
        let a16b3: u16 = (hi as u16) << 8 | lo as u16;
        assert(a16b3 == hi * 256 + lo) by (bit_vector)
            requires
                a16b3 == (hi as u16) << 8 | lo as u16,
        ;
        let a8: [u8; 6] = [d4[2], d4[3], d4[4], d4[5], d4[6], d4[7]];
        assert(a8@ =~= d4@.subrange(2, 8));
        OcGuid::from_fields(d1, d2, d3, a16b3, a8)
    }
}

impl OcIFunction {
    /// The GUID under which a function driven by `guid` is registered with
    /// OCCT: the UUID's fields, laid out as [`OcGuid::from_uuid_fields`]
    /// lays them out.
    pub fn function_guid(guid: &uuid::Uuid) -> (g: OcGuid)
        ensures
            g@ == guid_of_uuid_fields(
                uuid_fields_of(*guid).0,
                uuid_fields_of(*guid).1,
                uuid_fields_of(*guid).2,
                uuid_fields_of(*guid).3,
            ),
    {
        let (d1, d2, d3, d4) = uuid_fields(guid);
        OcGuid::from_uuid_fields(d1, d2, d3, d4)
    }
}

} // verus!
