use crate::errors::Error;
use vstd::prelude::*;
use vstd::string::StringExecFns;

verus! {

/// G_SetOtherMode_H: sets the higher half of the RDP other modes. Its flag
/// bits are not interpreted yet.
#[allow(non_camel_case_types)]
#[derive(Clone, Copy, Debug)]
pub struct G_SetOtherMode_H {}

impl G_SetOtherMode_H {
    /// Decodes the command word; the mode flags are not interpreted yet.
    pub fn new(_cmd: [u8; 8]) -> (r: Result<G_SetOtherMode_H, Error>)
        ensures
            r is Ok,
    {
        Ok(G_SetOtherMode_H {  })
    }

    /// The listing line for this command.
    pub open spec fn spec_psuedo_code(self) -> Seq<char> {
        "G_SetOtherMode_H [TODO:flags]"@
    }

    pub fn psuedo_code(&self) -> (r: String)
        ensures
            r@ == self.spec_psuedo_code(),
    {
        String::from_str("G_SetOtherMode_H [TODO:flags]")
    }
}

} // verus!
