use crate::errors::Error;
use crate::render::dec_chars;
use crate::render::push_dec_u64;
use vstd::prelude::*;
use vstd::string::StringExecFns;

verus! {

/// G_TRI2: renders two triangles out of the vertex buffer. The stored
/// indices are twice the logical vertex indices.
#[allow(non_camel_case_types)]
#[derive(Clone, Copy, Debug)]
pub struct G_TRI2 {
    pub m_vert1: u8,
    pub m_vert2: u8,
    pub m_vert3: u8,
    pub m_vert4: u8,
    pub m_vert5: u8,
    pub m_vert6: u8,
}

impl G_TRI2 {
    /// The field values decoded from a command word.
    pub open spec fn spec_new(w: Seq<u8>) -> G_TRI2 {
        G_TRI2 {
            m_vert1: w[1],
            m_vert2: w[2],
            m_vert3: w[3],
            m_vert4: w[5],
            m_vert5: w[6],
            m_vert6: w[7],
        }
    }

    /// Decodes the command word: six doubled vertex indices from bytes
    /// 1, 2, 3, 5, 6 and 7; byte 4 is unused.
    pub fn new(cmd: [u8; 8]) -> (r: Result<G_TRI2, Error>)
        ensures
            (r matches Ok(c) && c == Self::spec_new(cmd@)),
    {
        Ok(G_TRI2 {
            m_vert1: cmd[1],
            m_vert2: cmd[2],
            m_vert3: cmd[3],
            m_vert4: cmd[5],
            m_vert5: cmd[6],
            m_vert6: cmd[7],
        })
    }

    /// The listing line for this command; each index is shown halved, as the
    /// logical vertex index.
    pub open spec fn spec_psuedo_code(self) -> Seq<char> {
        "G_TRI2 [v1:"@ + dec_chars((self.m_vert1 / 2) as nat) + ",v2:"@ + dec_chars(
            (self.m_vert2 / 2) as nat,
        ) + ",v3:"@ + dec_chars((self.m_vert3 / 2) as nat) + "] [v4:"@ + dec_chars(
            (self.m_vert4 / 2) as nat,
        ) + ",v5:"@ + dec_chars((self.m_vert5 / 2) as nat) + ",v6:"@ + dec_chars(
            (self.m_vert6 / 2) as nat,
        ) + "]"@
    }

    pub fn psuedo_code(&self) -> (r: String)
        ensures
            r@ == self.spec_psuedo_code(),
    {
        let mut s = String::from_str("G_TRI2 [v1:");
        push_dec_u64(&mut s, (self.m_vert1 / 2) as u64);
        s.append(",v2:");
        push_dec_u64(&mut s, (self.m_vert2 / 2) as u64);
        s.append(",v3:");
        push_dec_u64(&mut s, (self.m_vert3 / 2) as u64);
        s.append("] [v4:");
        push_dec_u64(&mut s, (self.m_vert4 / 2) as u64);
        s.append(",v5:");
        push_dec_u64(&mut s, (self.m_vert5 / 2) as u64);
        s.append(",v6:");
        push_dec_u64(&mut s, (self.m_vert6 / 2) as u64);
        s.append("]");
        proof {
            assert(s@ =~= self.spec_psuedo_code());
        }
        s
    }
}

} // verus!
