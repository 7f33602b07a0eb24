use crate::errors::Error;
use vstd::prelude::*;
use vstd::string::StringExecFns;

verus! {

/// G_SPNOOP: stalls the signal processor and the RDP; debugging only.
#[allow(non_camel_case_types)]
#[derive(Clone, Copy, Debug)]
pub struct G_SPNOOP {}

impl G_SPNOOP {
    /// Decodes the command word; this command carries no fields.
    pub fn new(_cmd: [u8; 8]) -> (r: Result<G_SPNOOP, Error>)
        ensures
            r is Ok,
    {
        Ok(G_SPNOOP {  })
    }

    /// The listing line for this command.
    pub open spec fn spec_psuedo_code(self) -> Seq<char> {
        "G_SPNOOP"@
    }

    pub fn psuedo_code(&self) -> (r: String)
        ensures
            r@ == self.spec_psuedo_code(),
    {
        String::from_str("G_SPNOOP")
    }
}

} // verus!
