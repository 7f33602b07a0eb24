use crate::errors::Error;
use crate::render::dec_chars;
use crate::render::push_dec_u64;
use vstd::prelude::*;
use vstd::string::StringExecFns;

verus! {

/// A command whose opcode is not in the dispatch table; the raw eight bytes
/// are kept verbatim.
#[allow(non_camel_case_types)]
#[derive(Clone, Copy, Debug)]
pub struct Unknown {
    pub cmd: [u8; 8],
}

impl Unknown {
    /// Keeps the raw command word.
    pub fn new(cmd: [u8; 8]) -> (r: Result<Unknown, Error>)
        ensures
            (r matches Ok(c) && c.cmd == cmd),
    {
        Ok(Unknown { cmd })
    }

    /// The listing line for this command: the raw bytes in decimal.
    pub open spec fn spec_psuedo_code(self) -> Seq<char> {
        "UNKNOWN ["@ + dec_chars(self.cmd[0] as nat) + ", "@ + dec_chars(self.cmd[1] as nat)
            + ", "@ + dec_chars(self.cmd[2] as nat) + ", "@ + dec_chars(self.cmd[3] as nat)
            + ", "@ + dec_chars(self.cmd[4] as nat) + ", "@ + dec_chars(self.cmd[5] as nat)
            + ", "@ + dec_chars(self.cmd[6] as nat) + ", "@ + dec_chars(self.cmd[7] as nat)
            + "]"@
    }

    pub fn psuedo_code(&self) -> (r: String)
        ensures
            r@ == self.spec_psuedo_code(),
    {
        let mut s = String::from_str("UNKNOWN [");
        push_dec_u64(&mut s, self.cmd[0] as u64);
        s.append(", ");
        push_dec_u64(&mut s, self.cmd[1] as u64);
        s.append(", ");
        push_dec_u64(&mut s, self.cmd[2] as u64);
        s.append(", ");
        push_dec_u64(&mut s, self.cmd[3] as u64);
        s.append(", ");
        push_dec_u64(&mut s, self.cmd[4] as u64);
        s.append(", ");
        push_dec_u64(&mut s, self.cmd[5] as u64);
        s.append(", ");
        push_dec_u64(&mut s, self.cmd[6] as u64);
        s.append(", ");
        push_dec_u64(&mut s, self.cmd[7] as u64);
        s.append("]");
        proof {
            assert(s@ =~= self.spec_psuedo_code());
        }
        s
    }
}

} // verus!
