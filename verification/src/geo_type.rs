use vstd::prelude::*;

verus! {

/// Coarse shading-mode classification stored in the model header.
#[derive(Clone, Copy, Debug, PartialEq, Eq, Structural)]
pub enum GeoType {
    /// Unrecognized geo-type code.
    Unknown,
    /// Plain geometry.
    Normal,
    /// Trilinear mipmapping (RGBA16).
    TrilinearMipMapping,
    /// Environment mapping.
    EnvMapping,
}

/// The geo type that a header code denotes.
pub open spec fn spec_geo_type(val: u16) -> GeoType {
    if val == 0x0000 {
        GeoType::Normal
    } else if val == 0x0002 {
        GeoType::TrilinearMipMapping
    } else if val == 0x0004 {
        GeoType::EnvMapping
    } else {
        GeoType::Unknown
    }
}

impl GeoType {
    /// Maps the header's u16 geo-type code to its geo type.
    pub fn from_u16(val: u16) -> (r: GeoType)
        ensures
            r == spec_geo_type(val),
    {
        match val {
            0x0000 => GeoType::Normal,
            0x0002 => GeoType::TrilinearMipMapping,
            0x0004 => GeoType::EnvMapping,
            _ => GeoType::Unknown,
        }
    }
}

} // verus!
