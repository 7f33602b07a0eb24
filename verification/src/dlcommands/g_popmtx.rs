use crate::byte_reader::be_u32_at;
use crate::byte_reader::word_u32_be;
use crate::errors::Error;
use crate::render::dec_chars;
use crate::render::push_dec_u64;
use vstd::prelude::*;
use vstd::string::StringExecFns;

verus! {

/// G_POPMTX: pops the given number of matrices from the matrix stack.
#[allow(non_camel_case_types)]
#[derive(Clone, Copy, Debug)]
pub struct G_POPMTX {
    /// How many matrices to pop.
    pub m_count: u32,
}

impl G_POPMTX {
    /// The field values decoded from a command word.
    pub open spec fn spec_new(w: Seq<u8>) -> G_POPMTX {
        G_POPMTX { m_count: be_u32_at(w, 4) }
    }

    /// Decodes the command word: bytes 4..8 hold the pop count, big-endian.
    pub fn new(cmd: [u8; 8]) -> (r: Result<G_POPMTX, Error>)
        ensures
            (r matches Ok(c) && c == Self::spec_new(cmd@)),
    {
        let count = word_u32_be(&cmd, 4);
        Ok(G_POPMTX { m_count: count })
    }

    /// The listing line for this command.
    pub open spec fn spec_psuedo_code(self) -> Seq<char> {
        "G_POPMTX count:"@ + dec_chars(self.m_count as nat)
    }

    pub fn psuedo_code(&self) -> (r: String)
        ensures
            r@ == self.spec_psuedo_code(),
    {
        let mut s = String::from_str("G_POPMTX count:");
        push_dec_u64(&mut s, self.m_count as u64);
        s
    }
}

} // verus!
