use crate::byte_reader::be_u16_at;
use crate::byte_reader::word_u16_be;
use crate::errors::Error;
use crate::render::dec_chars;
use crate::render::push_dec_u64;
use vstd::prelude::*;
use vstd::string::StringExecFns;

verus! {

/// G_TEXTURE: sets the texture scaling factor for a tile descriptor.
#[allow(non_camel_case_types)]
#[derive(Clone, Copy, Debug)]
pub struct G_TEXTURE {
    /// Whether the tile descriptor is enabled (byte 3 non-zero) or disabled.
    pub m_enable_or_disable_tile_descriptor: bool,
    pub m_scaling_factor_s: u16,
    pub m_scaling_factor_t: u16,
    /// Mipmap levels beyond the first; three bits of byte 2.
    pub m_max_mipmap_levels_other_than_first: u8,
    /// Which tile descriptor is addressed; low three bits of byte 2.
    pub m_tile_descriptor_to_enable_disable: u8,
}

impl G_TEXTURE {
    /// The field values decoded from a command word.
    pub open spec fn spec_new(w: Seq<u8>) -> G_TEXTURE {
        G_TEXTURE {
            m_enable_or_disable_tile_descriptor: w[3] != 0,
            m_scaling_factor_s: be_u16_at(w, 4),
            m_scaling_factor_t: be_u16_at(w, 6),
            m_max_mipmap_levels_other_than_first: ((w[2] & 0x38) >> 3) as u8,
            m_tile_descriptor_to_enable_disable: (w[2] & 0x07) as u8,
        }
    }

    /// Decodes the command word: byte 2 packs the mipmap level count and the
    /// tile descriptor, byte 3 enables or disables the tile, bytes 4..8 hold
    /// the two scale factors.
    pub fn new(cmd: [u8; 8]) -> (r: Result<G_TEXTURE, Error>)
        ensures
            (r matches Ok(c) && c == Self::spec_new(cmd@)),
    {
        let max_mipmap_levels_other_than_first = (cmd[2] & 0x38) >> 3;
        let tile_descriptor_to_enable_disable = cmd[2] & 0x07;
        let enable_or_disable_tile_descriptor = cmd[3] != 0;
        let scaling_factor_s = word_u16_be(&cmd, 4);
        let scaling_factor_t = word_u16_be(&cmd, 6);
        Ok(G_TEXTURE {
            m_enable_or_disable_tile_descriptor: enable_or_disable_tile_descriptor,
            m_scaling_factor_s: scaling_factor_s,
            m_scaling_factor_t: scaling_factor_t,
            m_max_mipmap_levels_other_than_first: max_mipmap_levels_other_than_first,
            m_tile_descriptor_to_enable_disable: tile_descriptor_to_enable_disable,
        })
    }

    /// The listing line for this command; the mipmap count is shown with the
    /// first level added back in.
    pub open spec fn spec_psuedo_code(self) -> Seq<char> {
        (if self.m_enable_or_disable_tile_descriptor {
            "G_TEXTURE enableTileDescriptor:"@
        } else {
            "G_TEXTURE disableTileDescriptor:"@
        }) + dec_chars(self.m_tile_descriptor_to_enable_disable as nat) + " scaleS:"@ + dec_chars(
            self.m_scaling_factor_s as nat,
        ) + " scaleT:"@ + dec_chars(self.m_scaling_factor_t as nat) + " mipmapLevels:"@
            + dec_chars((self.m_max_mipmap_levels_other_than_first + 1) as nat)
    }

    pub fn psuedo_code(&self) -> (r: String)
        ensures
            r@ == self.spec_psuedo_code(),
    {
        let mut s = if self.m_enable_or_disable_tile_descriptor {
            String::from_str("G_TEXTURE enableTileDescriptor:")
        } else {
            String::from_str("G_TEXTURE disableTileDescriptor:")
        };
        push_dec_u64(&mut s, self.m_tile_descriptor_to_enable_disable as u64);
        s.append(" scaleS:");
        push_dec_u64(&mut s, self.m_scaling_factor_s as u64);
        s.append(" scaleT:");
        push_dec_u64(&mut s, self.m_scaling_factor_t as u64);
        s.append(" mipmapLevels:");
        push_dec_u64(&mut s, self.m_max_mipmap_levels_other_than_first as u64 + 1);
        proof {
            assert(s@ =~= self.spec_psuedo_code());
        }
        s
    }
}

} // verus!
