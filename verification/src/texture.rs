use crate::texture_type::TextureType;
use vstd::prelude::*;

verus! {

/// The absolute buffer address of a texture: its segment-relative address
/// shifted by the texture section's start, the section's eight-byte header
/// and the sixteen bytes of every descriptor in the table, reduced modulo
/// the u32 range.
pub open spec fn spec_abs_address(tso: u16, segment_address: u32, tex_count: u8) -> u32 {
    ((tso + segment_address + 8 + 16 * tex_count) % 0x100000000) as u32
}

/// Header information about one texture of the model.
#[derive(Clone, Copy, Debug)]
pub struct Texture {
    /// The 0-based position of the texture in its table.
    pub m_texture_index: u8,
    /// The address relative to the texture data start.
    pub m_segment_address: u32,
    /// The absolute address within the loaded model.
    pub m_absolute_addres: u32,
    /// The pixel format.
    pub m_texture_type: TextureType,
    /// Width on the pixel grid.
    pub m_width: u8,
    /// Height on the pixel grid.
    pub m_height: u8,
}

impl Texture {
    /// Creates a texture record from its decoded fields.
    pub fn new(
        index: u8,
        segment_address: u32,
        absolute_address: u32,
        texture_type: TextureType,
        width: u8,
        height: u8,
    ) -> (r: Texture)
        ensures
            r == (Texture {
                m_texture_index: index,
                m_segment_address: segment_address,
                m_absolute_addres: absolute_address,
                m_texture_type: texture_type,
                m_width: width,
                m_height: height,
            }),
    {
        Texture {
            m_texture_index: index,
            m_segment_address: segment_address,
            m_absolute_addres: absolute_address,
            m_texture_type: texture_type,
            m_width: width,
            m_height: height,
        }
    }

    /// The 0-based position of the texture in its table.
    pub fn index(&self) -> (r: u8)
        ensures
            r == self.m_texture_index,
    {
        self.m_texture_index
    }

    /// The address relative to the texture data start.
    pub fn segment_address(&self) -> (r: u32)
        ensures
            r == self.m_segment_address,
    {
        self.m_segment_address
    }

    /// The absolute address within the loaded model.
    pub fn absolute_address(&self) -> (r: u32)
        ensures
            r == self.m_absolute_addres,
    {
        self.m_absolute_addres
    }

    /// The pixel format.
    pub fn texture_type(&self) -> (r: TextureType)
        ensures
            r == self.m_texture_type,
    {
        self.m_texture_type
    }

    /// Width on the pixel grid.
    pub fn width(&self) -> (r: u8)
        ensures
            r == self.m_width,
    {
        self.m_width
    }

    /// Height on the pixel grid.
    pub fn height(&self) -> (r: u8)
        ensures
            r == self.m_height,
    {
        self.m_height
    }
}

} // verus!
