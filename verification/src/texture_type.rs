use vstd::prelude::*;

verus! {

/// Pixel format of a texture, derived from a one-byte flag in its descriptor.
#[derive(Clone, Copy, Debug, PartialEq, Eq, Structural)]
pub enum TextureType {
    /// Unrecognized format flag.
    Unknown,
    /// 4-bit color-indexed.
    CI4,
    /// 8-bit color-indexed.
    CI8,
    /// 16-bit RGBA.
    RGBA16,
    /// 32-bit RGBA.
    RGBA32,
    /// 8-bit intensity with alpha.
    IA8,
}

/// The texture type that a descriptor flag byte denotes.
pub open spec fn spec_texture_type(v: u8) -> TextureType {
    if v == 0x01 {
        TextureType::CI4
    } else if v == 0x02 {
        TextureType::CI8
    } else if v == 0x04 {
        TextureType::RGBA16
    } else if v == 0x08 {
        TextureType::RGBA32
    } else if v == 0x10 {
        TextureType::IA8
    } else {
        TextureType::Unknown
    }
}

impl TextureType {
    /// Maps the descriptor's flag byte to its texture type.
    pub fn from_u8(v: u8) -> (r: TextureType)
        ensures
            r == spec_texture_type(v),
    {
        match v {
            0x01 => TextureType::CI4,
            0x02 => TextureType::CI8,
            0x04 => TextureType::RGBA16,
            0x08 => TextureType::RGBA32,
            0x10 => TextureType::IA8,
            _ => TextureType::Unknown,
        }
    }
}

} // verus!
