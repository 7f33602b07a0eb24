use crate::byte_reader::be_u32_at;
use crate::byte_reader::word_u32_be;
use crate::errors::Error;
use crate::render::dec_chars;
use crate::render::hex_prefixed;
use crate::render::push_dec_u64;
use crate::render::push_hex_u64;
use vstd::prelude::*;
use vstd::string::StringExecFns;

verus! {

/// G_VTX: fills the vertex buffer with vertex data.
#[allow(non_camel_case_types)]
#[derive(Clone, Copy, Debug)]
pub struct G_VTX {
    /// Doubled index of the first vertex written.
    pub m_vertex_start: u8,
    /// How many vertices to write.
    pub m_count: u8,
    /// Length of the vertex data; byte 3's low bits are or-ed with byte 4
    /// unshifted, kept exactly as the format is understood today, though it
    /// looks like a defect in the source material.
    pub m_data_length: u16,
    /// Where the vertex data lives, segment-relative.
    pub m_segmented_address: u32,
}

impl G_VTX {
    /// The field values decoded from a command word.
    pub open spec fn spec_new(w: Seq<u8>) -> G_VTX {
        G_VTX {
            m_vertex_start: w[1],
            m_count: (w[2] & 0xFC) as u8,
            m_data_length: ((w[3] & 0x03) | w[4]) as u16,
            m_segmented_address: be_u32_at(w, 4),
        }
    }

    /// Decodes the command word.
    pub fn new(cmd: [u8; 8]) -> (r: Result<G_VTX, Error>)
        ensures
            (r matches Ok(c) && c == Self::spec_new(cmd@)),
    {
        let vertex_start = cmd[1];
        let count = cmd[2] & 0xFC;
        let data_length = ((cmd[3] & 0x03) | cmd[4]) as u16;
        let segmented_address = word_u32_be(&cmd, 4);
        Ok(G_VTX {
            m_vertex_start: vertex_start,
            m_count: count,
            m_data_length: data_length,
            m_segmented_address: segmented_address,
        })
    }

    /// The listing line for this command; the start index is shown halved.
    pub open spec fn spec_psuedo_code(self) -> Seq<char> {
        "G_VTX start:"@ + dec_chars((self.m_vertex_start / 2) as nat) + " count:"@ + dec_chars(
            self.m_count as nat,
        ) + " dataLen:"@ + hex_prefixed(self.m_data_length as nat) + " segAddr:"@ + hex_prefixed(
            self.m_segmented_address as nat,
        )
    }

    pub fn psuedo_code(&self) -> (r: String)
        ensures
            r@ == self.spec_psuedo_code(),
    {
        let mut s = String::from_str("G_VTX start:");
        push_dec_u64(&mut s, (self.m_vertex_start / 2) as u64);
        s.append(" count:");
        push_dec_u64(&mut s, self.m_count as u64);
        s.append(" dataLen:");
        push_hex_u64(&mut s, self.m_data_length as u64);
        s.append(" segAddr:");
        push_hex_u64(&mut s, self.m_segmented_address as u64);
        proof {
            assert(s@ =~= self.spec_psuedo_code());
        }
        s
    }
}

} // verus!
