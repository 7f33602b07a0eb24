use crate::byte_reader::be_u32_at;
use crate::byte_reader::word_u32_be;
use crate::errors::Error;
use crate::render::bool_chars;
use crate::render::hex_prefixed;
use crate::render::push_bool;
use crate::render::push_hex_u64;
use vstd::prelude::*;
use vstd::string::StringExecFns;

verus! {

/// G_DL: starts a nested display list.
#[allow(non_camel_case_types)]
#[derive(Clone, Copy, Debug)]
pub struct G_DL {
    pub m_store_return_address: bool,
    pub m_branch_segmented_address: u32,
}

impl G_DL {
    /// The field values decoded from a command word.
    pub open spec fn spec_new(w: Seq<u8>) -> G_DL {
        G_DL {
            m_store_return_address: w[1] == 0,
            m_branch_segmented_address: be_u32_at(w, 4),
        }
    }

    /// Decodes the command word: byte 1 selects whether the return address
    /// is stored (zero means stored); bytes 4..8 hold the branch target.
    pub fn new(cmd: [u8; 8]) -> (r: Result<G_DL, Error>)
        ensures
            (r matches Ok(c) && c == Self::spec_new(cmd@)),
    {
        let store_return_address = cmd[1] == 0;
        let branch_segmented_address = word_u32_be(&cmd, 4);
        Ok(G_DL {
            m_store_return_address: store_return_address,
            m_branch_segmented_address: branch_segmented_address,
        })
    }

    /// The listing line for this command.
    pub open spec fn spec_psuedo_code(self) -> Seq<char> {
        "G_DL storeReturnAddr:"@ + bool_chars(self.m_store_return_address) + " branchAddr:"@
            + hex_prefixed(self.m_branch_segmented_address as nat)
    }

    pub fn psuedo_code(&self) -> (r: String)
        ensures
            r@ == self.spec_psuedo_code(),
    {
        let mut s = String::from_str("G_DL storeReturnAddr:");
        push_bool(&mut s, self.m_store_return_address);
        s.append(" branchAddr:");
        push_hex_u64(&mut s, self.m_branch_segmented_address as u64);
        proof {
            assert(s@ =~= self.spec_psuedo_code());
        }
        s
    }
}

} // verus!
