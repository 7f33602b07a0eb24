use crate::errors::Error;
use vstd::prelude::*;
use vstd::string::StringExecFns;

verus! {

/// G_CLEARGEOMETRYMODE: disables certain geometry parameters (lighting,
/// culling, Z-buffer). Its flag bits are not interpreted yet.
#[allow(non_camel_case_types)]
#[derive(Clone, Copy, Debug)]
pub struct G_CLEARGEOMETRYMODE {}

impl G_CLEARGEOMETRYMODE {
    /// Decodes the command word; the mode flags are not interpreted yet.
    pub fn new(_cmd: [u8; 8]) -> (r: Result<G_CLEARGEOMETRYMODE, Error>)
        ensures
            r is Ok,
    {
        Ok(G_CLEARGEOMETRYMODE {  })
    }

    /// The listing line for this command.
    pub open spec fn spec_psuedo_code(self) -> Seq<char> {
        "G_CLEARGEOMETRYMODE [TODO: flags]"@
    }

    pub fn psuedo_code(&self) -> (r: String)
        ensures
            r@ == self.spec_psuedo_code(),
    {
        String::from_str("G_CLEARGEOMETRYMODE [TODO: flags]")
    }
}

} // verus!
