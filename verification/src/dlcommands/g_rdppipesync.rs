use crate::errors::Error;
use vstd::prelude::*;
use vstd::string::StringExecFns;

verus! {

/// G_RDPPIPESYNC: waits for the RDP to finish rendering its current
/// primitive. This does not start a display list.
#[allow(non_camel_case_types)]
#[derive(Clone, Copy, Debug)]
pub struct G_RDPPIPESYNC {}

impl G_RDPPIPESYNC {
    /// Decodes the command word; this command carries no fields.
    pub fn new(_cmd: [u8; 8]) -> (r: Result<G_RDPPIPESYNC, Error>)
        ensures
            r is Ok,
    {
        Ok(G_RDPPIPESYNC {  })
    }

    /// The listing line for this command.
    pub open spec fn spec_psuedo_code(self) -> Seq<char> {
        "G_RDPPIPESYNC"@
    }

    pub fn psuedo_code(&self) -> (r: String)
        ensures
            r@ == self.spec_psuedo_code(),
    {
        String::from_str("G_RDPPIPESYNC")
    }
}

} // verus!
