use crate::byte_reader::be_u32_at;
use crate::byte_reader::word_u32_be;
use crate::errors::Error;
use crate::render::dec_chars;
use crate::render::hex_prefixed;
use crate::render::push_dec_u64;
use crate::render::push_hex_u64;
use vstd::prelude::*;
use vstd::string::StringExecFns;

verus! {

/// G_SETTIMG: sets the texture image address.
#[allow(non_camel_case_types)]
#[derive(Clone, Copy, Debug)]
pub struct G_SETTIMG {
    /// Pixel format selector; top three bits of byte 1.
    pub m_texture_format_flag: u8,
    /// Bit-depth selector; next two bits of byte 1.
    pub m_texture_bit_size_flag: u8,
    /// Where the texture lives, segment-relative.
    pub m_segment_address_of_texture: u32,
}

/// The format name and bit size a texture-image word decodes to, for every
/// value of byte 1: the top three bits pick RGBA, YUV, CI, IA or I, any
/// higher value UNK; the next two bits pick 4, 8, 16 or 32.
pub proof fn lemma_format_bitsize_table(c: G_SETTIMG, w: Seq<u8>)
    requires
        w.len() == 8,
        c == G_SETTIMG::spec_new(w),
    ensures
        (w[1] & 0xE0) >> 5 == 0 ==> c.spec_format_name() == "RGBA"@,
        (w[1] & 0xE0) >> 5 == 1 ==> c.spec_format_name() == "YUV"@,
        (w[1] & 0xE0) >> 5 == 2 ==> c.spec_format_name() == "CI"@,
        (w[1] & 0xE0) >> 5 == 3 ==> c.spec_format_name() == "IA"@,
        (w[1] & 0xE0) >> 5 == 4 ==> c.spec_format_name() == "I"@,
        (w[1] & 0xE0) >> 5 > 4 ==> c.spec_format_name() == "UNK"@,
        (w[1] & 0x18) >> 3 == 0 ==> c.spec_bit_size() == 4,
        (w[1] & 0x18) >> 3 == 1 ==> c.spec_bit_size() == 8,
        (w[1] & 0x18) >> 3 == 2 ==> c.spec_bit_size() == 16,
        (w[1] & 0x18) >> 3 == 3 ==> c.spec_bit_size() == 32,
{
}

impl G_SETTIMG {
    /// The field values decoded from a command word.
    pub open spec fn spec_new(w: Seq<u8>) -> G_SETTIMG {
        G_SETTIMG {
            m_texture_format_flag: ((w[1] & 0xE0) >> 5) as u8,
            m_texture_bit_size_flag: ((w[1] & 0x18) >> 3) as u8,
            m_segment_address_of_texture: be_u32_at(w, 4),
        }
    }

    /// Decodes the command word: byte 1 packs the format and bit-size flags,
    /// bytes 4..8 hold the texture address.
    pub fn new(cmd: [u8; 8]) -> (r: Result<G_SETTIMG, Error>)
        ensures
            (r matches Ok(c) && c == Self::spec_new(cmd@)),
    {
        let texture_format_flag = (cmd[1] & 0xE0) >> 5;
        let texture_bit_size_flag = (cmd[1] & 0x18) >> 3;
        let segment_address_of_texture = word_u32_be(&cmd, 4);
        Ok(G_SETTIMG {
            m_texture_format_flag: texture_format_flag,
            m_texture_bit_size_flag: texture_bit_size_flag,
            m_segment_address_of_texture: segment_address_of_texture,
        })
    }

    /// The name that the format flag denotes.
    pub open spec fn spec_format_name(self) -> Seq<char> {
        if self.m_texture_format_flag == 0 {
            "RGBA"@
        } else if self.m_texture_format_flag == 1 {
            "YUV"@
        } else if self.m_texture_format_flag == 2 {
            "CI"@
        } else if self.m_texture_format_flag == 3 {
            "IA"@
        } else if self.m_texture_format_flag == 4 {
            "I"@
        } else {
            "UNK"@
        }
    }

    /// The bit depth that the bit-size flag denotes; zero for an
    /// unrecognized flag.
    pub open spec fn spec_bit_size(self) -> u8 {
        if self.m_texture_bit_size_flag == 0 {
            4
        } else if self.m_texture_bit_size_flag == 1 {
            8
        } else if self.m_texture_bit_size_flag == 2 {
            16
        } else if self.m_texture_bit_size_flag == 3 {
            32
        } else {
            0
        }
    }

    /// The listing line for this command.
    pub open spec fn spec_psuedo_code(self) -> Seq<char> {
        "G_SETTIMG format:"@ + self.spec_format_name() + "_"@ + dec_chars(
            self.spec_bit_size() as nat,
        ) + " segAddrOfTex:"@ + hex_prefixed(self.m_segment_address_of_texture as nat)
    }

    pub fn psuedo_code(&self) -> (r: String)
        ensures
            r@ == self.spec_psuedo_code(),
    {
        let mut s = String::from_str("G_SETTIMG format:");
        let name = self.p_textureFormatName();
        s.append(name.as_str());
        s.append("_");
        push_dec_u64(&mut s, self.p_textureBitSize() as u64);
        s.append(" segAddrOfTex:");
        push_hex_u64(&mut s, self.m_segment_address_of_texture as u64);
        proof {
            assert(s@ =~= self.spec_psuedo_code());
        }
        s
    }

    /// Maps the format flag to its name: RGBA, YUV, CI, IA or I; anything
    /// else is UNK.
    #[allow(non_snake_case)]
    pub fn p_textureFormatName(&self) -> (r: String)
        ensures
            r@ == self.spec_format_name(),
    {
        match self.m_texture_format_flag {
            0 => String::from_str("RGBA"),
            1 => String::from_str("YUV"),
            2 => String::from_str("CI"),
            3 => String::from_str("IA"),
            4 => String::from_str("I"),
            _ => String::from_str("UNK"),
        }
    }

    /// Maps the bit-size flag to a bit depth: 4, 8, 16 or 32; anything else
    /// is 0.
    #[allow(non_snake_case)]
    pub fn p_textureBitSize(&self) -> (r: u8)
        ensures
            r == self.spec_bit_size(),
    {
        match self.m_texture_bit_size_flag {
            0 => 4,
            1 => 8,
            2 => 16,
            3 => 32,
            _ => 0,
        }
    }
}

} // verus!
